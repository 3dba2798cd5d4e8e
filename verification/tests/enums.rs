use zpp::enums::arithmetic::Arithmetic;
use zpp::enums::bitop::Bitop;
use zpp::enums::cmp::Cmp;
use zpp::enums::keyword::Keyword;
use zpp::enums::logicop::LogicOp;
use zpp::enums::token_type::TokenType;

#[test]
fn arithmetic_test_as_str() {
    assert_eq!(Arithmetic::PLUS.as_str(), "PLUS");
    assert_eq!(Arithmetic::MINUS.as_str(), "MINUS");
    assert_eq!(Arithmetic::MUL.as_str(), "MUL");
    assert_eq!(Arithmetic::DIV.as_str(), "DIV");
    assert_eq!(Arithmetic::FDIV.as_str(), "FDIV");
    assert_eq!(Arithmetic::MOD.as_str(), "MOD");
    assert_eq!(Arithmetic::POW.as_str(), "POW");
    assert_eq!(Arithmetic::INC.as_str(), "INC");
    assert_eq!(Arithmetic::DEC.as_str(), "DEC");
}

#[test]
fn arithmetic_test_to_string() {
    assert_eq!(Arithmetic::PLUS.to_string(), "PLUS");
    assert_eq!(Arithmetic::MINUS.to_string(), "MINUS");
    assert_eq!(Arithmetic::MUL.to_string(), "MUL");
    assert_eq!(Arithmetic::DIV.to_string(), "DIV");
    assert_eq!(Arithmetic::FDIV.to_string(), "FDIV");
    assert_eq!(Arithmetic::MOD.to_string(), "MOD");
    assert_eq!(Arithmetic::POW.to_string(), "POW");
    assert_eq!(Arithmetic::INC.to_string(), "INC");
    assert_eq!(Arithmetic::DEC.to_string(), "DEC");
}

#[test]
fn arithmetic_test_from_string() {
    assert_eq!(Arithmetic::from_str("+"), Some(Arithmetic::PLUS));
    assert_eq!(Arithmetic::from_str("-"), Some(Arithmetic::MINUS));
    assert_eq!(Arithmetic::from_str("*"), Some(Arithmetic::MUL));
    assert_eq!(Arithmetic::from_str("/"), Some(Arithmetic::DIV));
    assert_eq!(Arithmetic::from_str("//"), Some(Arithmetic::FDIV));
    assert_eq!(Arithmetic::from_str("%"), Some(Arithmetic::MOD));
    assert_eq!(Arithmetic::from_str("**"), Some(Arithmetic::POW));
    assert_eq!(Arithmetic::from_str("++"), Some(Arithmetic::INC));
    assert_eq!(Arithmetic::from_str("--"), Some(Arithmetic::DEC));

    assert_eq!(Arithmetic::from_str("PLUS"), Some(Arithmetic::PLUS));
    assert_eq!(Arithmetic::from_str("MINUS"), Some(Arithmetic::MINUS));
    assert_eq!(Arithmetic::from_str("MUL"), Some(Arithmetic::MUL));
    assert_eq!(Arithmetic::from_str("DIV"), Some(Arithmetic::DIV));
    assert_eq!(Arithmetic::from_str("FDIV"), Some(Arithmetic::FDIV));
    assert_eq!(Arithmetic::from_str("MOD"), Some(Arithmetic::MOD));
    assert_eq!(Arithmetic::from_str("POW"), Some(Arithmetic::POW));
    assert_eq!(Arithmetic::from_str("INC"), Some(Arithmetic::INC));
    assert_eq!(Arithmetic::from_str("DEC"), Some(Arithmetic::DEC));

    assert_eq!(Arithmetic::from_str("INVALID"), None);
}

#[test]
fn bitop_test_as_str() {
    assert_eq!(Bitop::AND.as_str(), "AND");
    assert_eq!(Bitop::OR.as_str(), "OR");
    assert_eq!(Bitop::XOR.as_str(), "XOR");
    assert_eq!(Bitop::NOT.as_str(), "NOT");
    assert_eq!(Bitop::SHL.as_str(), "SHL");
    assert_eq!(Bitop::SHR.as_str(), "SHR");
}

#[test]
fn bitop_test_to_string() {
    assert_eq!(Bitop::AND.to_string(), "AND");
    assert_eq!(Bitop::OR.to_string(), "OR");
    assert_eq!(Bitop::XOR.to_string(), "XOR");
    assert_eq!(Bitop::NOT.to_string(), "NOT");
    assert_eq!(Bitop::SHL.to_string(), "SHL");
    assert_eq!(Bitop::SHR.to_string(), "SHR");
}

#[test]
fn bitop_test_from_string() {
    assert_eq!(Bitop::from_str("&"), Some(Bitop::AND));
    assert_eq!(Bitop::from_str("|"), Some(Bitop::OR));
    assert_eq!(Bitop::from_str("^"), Some(Bitop::XOR));
    assert_eq!(Bitop::from_str("~"), Some(Bitop::NOT));
    assert_eq!(Bitop::from_str("<<"), Some(Bitop::SHL));
    assert_eq!(Bitop::from_str(">>"), Some(Bitop::SHR));

    assert_eq!(Bitop::from_str("AND"), Some(Bitop::AND));
    assert_eq!(Bitop::from_str("OR"), Some(Bitop::OR));
    assert_eq!(Bitop::from_str("XOR"), Some(Bitop::XOR));
    assert_eq!(Bitop::from_str("NOT"), Some(Bitop::NOT));
    assert_eq!(Bitop::from_str("SHL"), Some(Bitop::SHL));
    assert_eq!(Bitop::from_str("SHR"), Some(Bitop::SHR));

    assert_eq!(Bitop::from_str("INVALID"), None);
}

#[test]
fn cmp_test_as_str() {
    assert_eq!(Cmp::GT.as_str(), "GT");
    assert_eq!(Cmp::LT.as_str(), "LT");
    assert_eq!(Cmp::GE.as_str(), "GE");
    assert_eq!(Cmp::LE.as_str(), "LE");
    assert_eq!(Cmp::EQUAL.as_str(), "EQUAL");
    assert_eq!(Cmp::NEQUAL.as_str(), "NEQUAL");
}

#[test]
fn cmp_test_to_string() {
    assert_eq!(Cmp::GT.to_string(), "GT");
    assert_eq!(Cmp::LT.to_string(), "LT");
    assert_eq!(Cmp::GE.to_string(), "GE");
    assert_eq!(Cmp::LE.to_string(), "LE");
    assert_eq!(Cmp::EQUAL.to_string(), "EQUAL");
    assert_eq!(Cmp::NEQUAL.to_string(), "NEQUAL");
}

#[test]
fn cmp_test_from_string() {
    assert_eq!(Cmp::from_str(">"), Some(Cmp::GT));
    assert_eq!(Cmp::from_str("<"), Some(Cmp::LT));
    assert_eq!(Cmp::from_str(">="), Some(Cmp::GE));
    assert_eq!(Cmp::from_str("<="), Some(Cmp::LE));
    assert_eq!(Cmp::from_str("=="), Some(Cmp::EQUAL));
    assert_eq!(Cmp::from_str("!="), Some(Cmp::NEQUAL));

    assert_eq!(Cmp::from_str("GT"), Some(Cmp::GT));
    assert_eq!(Cmp::from_str("LT"), Some(Cmp::LT));
    assert_eq!(Cmp::from_str("GE"), Some(Cmp::GE));
    assert_eq!(Cmp::from_str("LE"), Some(Cmp::LE));
    assert_eq!(Cmp::from_str("EQUAL"), Some(Cmp::EQUAL));
    assert_eq!(Cmp::from_str("NEQUAL"), Some(Cmp::NEQUAL));

    assert_eq!(Cmp::from_str("INVALID"), None);
}

#[test]
fn keyword_test_keyword_as_str() {
    assert_eq!(Keyword::LET.as_str(), "LET");
    assert_eq!(Keyword::CONST.as_str(), "CONST");
    assert_eq!(Keyword::VAR.as_str(), "VAR");
    assert_eq!(Keyword::RETURN.as_str(), "RETURN");
    assert_eq!(Keyword::FOR.as_str(), "FOR");
    assert_eq!(Keyword::WHILE.as_str(), "WHILE");
    assert_eq!(Keyword::FUNCTION.as_str(), "FUNCTION");
    assert_eq!(Keyword::UNDEFINED.as_str(), "IDENT");
}

#[test]
fn keyword_test_keyword_to_string() {
    assert_eq!(Keyword::LET.to_string(), "LET");
    assert_eq!(Keyword::CONST.to_string(), "CONST");
    assert_eq!(Keyword::VAR.to_string(), "VAR");
    assert_eq!(Keyword::RETURN.to_string(), "RETURN");
    assert_eq!(Keyword::FOR.to_string(), "FOR");
    assert_eq!(Keyword::WHILE.to_string(), "WHILE");
    assert_eq!(Keyword::FUNCTION.to_string(), "FUNCTION");
    assert_eq!(Keyword::UNDEFINED.to_string(), "IDENT");
}

#[test]
fn test_keyword_from_str() {
    assert_eq!(Keyword::from_str("let"), Some(Keyword::LET));
    assert_eq!(Keyword::from_str("const"), Some(Keyword::CONST));
    assert_eq!(Keyword::from_str("var"), Some(Keyword::VAR));
    assert_eq!(Keyword::from_str("return"), Some(Keyword::RETURN));
    assert_eq!(Keyword::from_str("for"), Some(Keyword::FOR));
    assert_eq!(Keyword::from_str("while"), Some(Keyword::WHILE));
    assert_eq!(Keyword::from_str("fn"), Some(Keyword::FUNCTION));
    assert_eq!(Keyword::from_str("if"), Some(Keyword::IF));
    assert_eq!(Keyword::from_str("else"), Some(Keyword::ELSE));
    assert_eq!(Keyword::from_str("do"), Some(Keyword::DO));
    assert_eq!(Keyword::from_str("end"), Some(Keyword::END));
    assert_eq!(Keyword::from_str("true"), Some(Keyword::TRUE));
    assert_eq!(Keyword::from_str("false"), Some(Keyword::FALSE));
    assert_eq!(Keyword::from_str("undefined"), None);
}

#[test]
fn logicop_test_as_str() {
    assert_eq!(LogicOp::AND.as_str(), "AND");
    assert_eq!(LogicOp::OR.as_str(), "OR");
    assert_eq!(LogicOp::NOT.as_str(), "NOT");
}

#[test]
fn logicop_test_to_string() {
    assert_eq!(LogicOp::AND.to_string(), "AND");
    assert_eq!(LogicOp::OR.to_string(), "OR");
    assert_eq!(LogicOp::NOT.to_string(), "NOT");
}

#[test]
fn logicop_test_from_string() {
    assert_eq!(LogicOp::from_str("&&"), Some(LogicOp::AND));
    assert_eq!(LogicOp::from_str("||"), Some(LogicOp::OR));
    assert_eq!(LogicOp::from_str("!"), Some(LogicOp::NOT));

    assert_eq!(LogicOp::from_str("AND"), Some(LogicOp::AND));
    assert_eq!(LogicOp::from_str("OR"), Some(LogicOp::OR));
    assert_eq!(LogicOp::from_str("NOT"), Some(LogicOp::NOT));

    assert_eq!(LogicOp::from_str("INVALID"), None);
}

#[test]
fn test_token_type_as_str() {
    assert_eq!(TokenType::ILLEGAL.as_str(), "ILLEGAL");
    assert_eq!(TokenType::EOF.as_str(), "EOF");
    assert_eq!(TokenType::IDENT.as_str(), "IDENT");
    assert_eq!(TokenType::INT.as_str(), "INT");
    assert_eq!(TokenType::ASSIGN.as_str(), "ASSIGN");
    assert_eq!(TokenType::DOT.as_str(), "DOT");
    assert_eq!(TokenType::COMMA.as_str(), "COMMA");
    assert_eq!(TokenType::COLON.as_str(), "COLON");
    assert_eq!(TokenType::SEMICOLON.as_str(), "SEMICOLON");
    assert_eq!(TokenType::DQUOTE.as_str(), "DQUOTE");
    assert_eq!(TokenType::QUOTE.as_str(), "QUOTE");
    assert_eq!(TokenType::BACKTICK.as_str(), "BACKTICK");
    assert_eq!(TokenType::LPAREN.as_str(), "LPAREN");
    assert_eq!(TokenType::RPAREN.as_str(), "RPAREN");
    assert_eq!(TokenType::LBRACE.as_str(), "LBRACE");
    assert_eq!(TokenType::RBRACE.as_str(), "RBRACE");
    assert_eq!(TokenType::RANGE.as_str(), "RANGE");
    assert_eq!(TokenType::IRANGE.as_str(), "IRANGE");
    assert_eq!(TokenType::SCOPE.as_str(), "SCOPE");
}

#[test]
fn test_token_type_to_string() {
    assert_eq!(TokenType::ILLEGAL.to_string(), "ILLEGAL");
    assert_eq!(TokenType::EOF.to_string(), "EOF");
    assert_eq!(TokenType::IDENT.to_string(), "IDENT");
    assert_eq!(TokenType::INT.to_string(), "INT");
    assert_eq!(TokenType::ASSIGN.to_string(), "ASSIGN");
    assert_eq!(TokenType::DOT.to_string(), "DOT");
    assert_eq!(TokenType::COMMA.to_string(), "COMMA");
    assert_eq!(TokenType::COLON.to_string(), "COLON");
    assert_eq!(TokenType::SEMICOLON.to_string(), "SEMICOLON");
    assert_eq!(TokenType::DQUOTE.to_string(), "DQUOTE");
    assert_eq!(TokenType::QUOTE.to_string(), "QUOTE");
    assert_eq!(TokenType::BACKTICK.to_string(), "BACKTICK");
    assert_eq!(TokenType::LPAREN.to_string(), "LPAREN");
    assert_eq!(TokenType::RPAREN.to_string(), "RPAREN");
    assert_eq!(TokenType::LBRACE.to_string(), "LBRACE");
    assert_eq!(TokenType::RBRACE.to_string(), "RBRACE");
    assert_eq!(TokenType::RANGE.to_string(), "RANGE");
    assert_eq!(TokenType::IRANGE.to_string(), "IRANGE");
    assert_eq!(TokenType::SCOPE.to_string(), "SCOPE");
}

#[test]
fn test_token_type_from_str() {
    assert_eq!(TokenType::from_str("ILLEGAL"), Some(TokenType::ILLEGAL));
    assert_eq!(TokenType::from_str("EOF"), Some(TokenType::EOF));
    assert_eq!(TokenType::from_str("IDENT"), Some(TokenType::IDENT));
    assert_eq!(TokenType::from_str("INT"), Some(TokenType::INT));
    assert_eq!(TokenType::from_str("ASSIGN"), Some(TokenType::ASSIGN));
    assert_eq!(TokenType::from_str("DOT"), Some(TokenType::DOT));
    assert_eq!(TokenType::from_str("COMMA"), Some(TokenType::COMMA));
    assert_eq!(TokenType::from_str("COLON"), Some(TokenType::COLON));
    assert_eq!(TokenType::from_str("SEMICOLON"), Some(TokenType::SEMICOLON));
    assert_eq!(TokenType::from_str("DQUOTE"), Some(TokenType::DQUOTE));
    assert_eq!(TokenType::from_str("QUOTE"), Some(TokenType::QUOTE));
    assert_eq!(TokenType::from_str("BACKTICK"), Some(TokenType::BACKTICK));
    assert_eq!(TokenType::from_str("LPAREN"), Some(TokenType::LPAREN));
    assert_eq!(TokenType::from_str("RPAREN"), Some(TokenType::RPAREN));
    assert_eq!(TokenType::from_str("LBRACE"), Some(TokenType::LBRACE));
    assert_eq!(TokenType::from_str("RBRACE"), Some(TokenType::RBRACE));
    assert_eq!(TokenType::from_str("RANGE"), Some(TokenType::RANGE));
    assert_eq!(TokenType::from_str("IRANGE"), Some(TokenType::IRANGE));
    assert_eq!(TokenType::from_str("SCOPE"), Some(TokenType::SCOPE));
}
