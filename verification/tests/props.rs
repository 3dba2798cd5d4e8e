use zpp::ast::expressions::Expression;
use zpp::ast::statements::Statement;
use zpp::enums::arithmetic::Arithmetic;
use zpp::enums::bitop::Bitop;
use zpp::enums::cmp::Cmp;
use zpp::enums::keyword::Keyword;
use zpp::enums::logicop::LogicOp;
use zpp::enums::token_type::TokenType;
use zpp::lexer::Lexer;
use zpp::parser::error::{ParserError, ParserErrorCode};
use zpp::parser::precedence::Precedence;
use zpp::parser::Parser;
use zpp::repl::REPL;
use zpp::token::Token;

fn scan_all(code: &str) -> Vec<Token> {
    let mut lexer = Lexer::new(code.chars().collect());
    let mut out: Vec<Token> = Vec::new();
    loop {
        let tok = lexer.next_token();
        let done = tok.t == TokenType::EOF;
        out.push(tok);
        if done {
            return out;
        }
    }
}

#[test]
fn longest_match_pairs() {
    let cases: Vec<(&str, TokenType)> = vec![
        ("++", TokenType::ARITHMETIC(Arithmetic::INC)),
        ("--", TokenType::ARITHMETIC(Arithmetic::DEC)),
        ("**", TokenType::ARITHMETIC(Arithmetic::POW)),
        ("//", TokenType::ARITHMETIC(Arithmetic::FDIV)),
        ("&&", TokenType::LOGICOP(LogicOp::AND)),
        ("||", TokenType::LOGICOP(LogicOp::OR)),
        ("==", TokenType::CMP(Cmp::EQUAL)),
        ("!=", TokenType::CMP(Cmp::NEQUAL)),
        ("<=", TokenType::CMP(Cmp::LE)),
        (">=", TokenType::CMP(Cmp::GE)),
        ("..", TokenType::RANGE),
        ("..=", TokenType::IRANGE),
        ("::", TokenType::SCOPE),
    ];
    for (source, expected) in cases {
        let tokens = scan_all(source);
        assert_eq!(tokens.len(), 2, "source {:?}", source);
        assert_eq!(tokens[0].t, expected, "source {:?}", source);
        assert_eq!(tokens[0].value, source, "source {:?}", source);
        assert_eq!(tokens[1].t, TokenType::EOF);
    }
}

#[test]
fn fallback_single_character() {
    let tokens = scan_all("+5");
    assert_eq!(tokens[0].t, TokenType::ARITHMETIC(Arithmetic::PLUS));
    assert_eq!(tokens[0].value, "+");
    assert_eq!(tokens[1].t, TokenType::INT);
    assert_eq!(tokens[1].value, "5");

    let tokens = scan_all("<3");
    assert_eq!(tokens[0].t, TokenType::CMP(Cmp::LT));
    assert_eq!(tokens[1].t, TokenType::INT);

    let tokens = scan_all("=x");
    assert_eq!(tokens[0].t, TokenType::ASSIGN);
    assert_eq!(tokens[1].t, TokenType::IDENT);
    assert_eq!(tokens[1].value, "x");

    let tokens = scan_all("!x");
    assert_eq!(tokens[0].t, TokenType::LOGICOP(LogicOp::NOT));
    assert_eq!(tokens[1].t, TokenType::IDENT);

    let tokens = scan_all(".a");
    assert_eq!(tokens[0].t, TokenType::DOT);
    assert_eq!(tokens[1].t, TokenType::IDENT);

    // a doubled character with no combined mapping falls back twice
    let tokens = scan_all("%%");
    assert_eq!(tokens[0].t, TokenType::ARITHMETIC(Arithmetic::MOD));
    assert_eq!(tokens[1].t, TokenType::ARITHMETIC(Arithmetic::MOD));

    let tokens = scan_all("~~");
    assert_eq!(tokens[0].t, TokenType::BITOP(Bitop::NOT));
    assert_eq!(tokens[1].t, TokenType::BITOP(Bitop::NOT));
}

#[test]
fn line_tracking() {
    let code = "const i = 0;\nlet j = 0;\n\nlet result = i + j;";
    let tokens = scan_all(code);
    let expected: Vec<(&str, usize)> = vec![
        ("const", 1),
        ("i", 1),
        ("=", 1),
        ("0", 1),
        (";", 1),
        ("let", 2),
        ("j", 2),
        ("=", 2),
        ("0", 2),
        (";", 2),
        ("let", 4),
        ("result", 4),
        ("=", 4),
        ("i", 4),
        ("+", 4),
        ("j", 4),
        (";", 4),
    ];
    for (i, (value, line)) in expected.iter().enumerate() {
        assert_eq!(tokens[i].value, *value);
        assert_eq!(tokens[i].line, Some(*line));
    }
}

#[test]
fn keyword_closure() {
    let cases: Vec<(&str, Keyword)> = vec![
        ("let", Keyword::LET),
        ("const", Keyword::CONST),
        ("var", Keyword::VAR),
        ("return", Keyword::RETURN),
        ("for", Keyword::FOR),
        ("while", Keyword::WHILE),
        ("fn", Keyword::FUNCTION),
        ("if", Keyword::IF),
        ("else", Keyword::ELSE),
        ("do", Keyword::DO),
        ("end", Keyword::END),
        ("true", Keyword::TRUE),
        ("false", Keyword::FALSE),
    ];
    for (word, kw) in cases {
        let tokens = scan_all(word);
        assert_eq!(tokens[0].t, TokenType::KEYWORD(kw), "word {:?}", word);
        assert_eq!(tokens[0].value, word);
    }
    for word in ["letx", "Foo", "_tmp", "ret", "x1"] {
        let tokens = scan_all(word);
        assert_eq!(tokens[0].t, TokenType::IDENT, "word {:?}", word);
        assert_eq!(tokens[0].value, word);
    }
}

#[test]
fn eof_idempotence() {
    let mut lexer = Lexer::new("x".chars().collect());
    let first = lexer.next_token();
    assert_eq!(first.t, TokenType::IDENT);
    for _ in 0..5 {
        let tok = lexer.next_token();
        assert_eq!(tok.t, TokenType::EOF);
        assert_ne!(tok.t, TokenType::ILLEGAL);
        assert_eq!(tok.value, "\0");
        assert_eq!(tok.line, Some(1));
        assert_eq!(tok.position, Some(1));
    }
}

#[test]
fn declare_statement_round_trip() {
    let lexer = Lexer::new("let x = 5;".chars().collect());
    let mut parser = Parser::new(lexer);
    let program = parser.parse().unwrap();
    assert_eq!(program.statements.len(), 1);
    match &program.statements[0] {
        Statement::Declare(d) => {
            assert_eq!(d.token.t, TokenType::KEYWORD(Keyword::LET));
            assert_eq!(d.token.value, "let");
            assert!(d.type_specifier.is_none());
            match &d.identifier {
                Expression::Identifier(i) => {
                    assert_eq!(i.token.value, "x");
                    assert_eq!(i.value, "x");
                }
                other => panic!("expected an identifier, got {:?}", other),
            }
        }
        other => panic!("expected a declaration, got {:?}", other),
    }
}

#[test]
fn declare_missing_assign_error() {
    let lexer = Lexer::new("let x 5;".chars().collect());
    let mut parser = Parser::new(lexer);
    let err = parser.parse().unwrap_err();
    assert_eq!(err.code(), &ParserErrorCode::UnexpectedToken);
    assert_eq!(err.message(), "Unexpected token: 'INT', expected: ASSIGN");
    assert_eq!(err.token().unwrap().value, "5");
    assert_eq!(err.at(), Some(1));
}

#[test]
fn prefix_nesting() {
    let lexer = Lexer::new("-!-!-!-!-!-10000;".chars().collect());
    let mut parser = Parser::new(lexer);
    let program = parser.parse().unwrap();
    assert_eq!(program.statements.len(), 1);
    let mut expression = match &program.statements[0] {
        Statement::Expression(e) => &e.expression,
        other => panic!("expected an expression statement, got {:?}", other),
    };
    let mut depth: usize = 0;
    let mut operators: Vec<String> = Vec::new();
    loop {
        match expression {
            Expression::Prefix(p) => {
                depth += 1;
                operators.push(p.operator.clone());
                expression = p.rhs.as_ref();
            }
            Expression::IntegerLiteral(i) => {
                assert_eq!(i.value, 10000);
                break;
            }
            other => panic!("unexpected node {:?}", other),
        }
    }
    // eleven prefix operators wrap the literal: "-!" five times, then "-"
    assert_eq!(depth, 11);
    assert_eq!(operators[0], "-");
    assert_eq!(operators[1], "!");
    assert_eq!(operators[10], "-");
}

#[test]
fn unsupported_statement_keyword() {
    let lexer = Lexer::new("if true { }".chars().collect());
    let mut parser = Parser::new(lexer);
    let err = parser.parse().unwrap_err();
    assert_eq!(err.code(), &ParserErrorCode::Unexpected);
    assert_eq!(err.message(), "Unexpected: statement form not yet supported");
}

#[test]
fn auto_is_not_a_declaration_keyword() {
    // "auto" is outside the keyword set, so it scans as an identifier and
    // the "=" that follows cannot begin an expression
    let lexer = Lexer::new("auto is_active= user.is_active();".chars().collect());
    let mut parser = Parser::new(lexer);
    let err = parser.parse().unwrap_err();
    assert_eq!(err.code(), &ParserErrorCode::InvalidExpression);
}

#[test]
fn return_without_semicolon_errors() {
    let lexer = Lexer::new("return".chars().collect());
    let mut parser = Parser::new(lexer);
    let err = parser.parse().unwrap_err();
    assert_eq!(err.code(), &ParserErrorCode::UnexpectedEOF);
    assert_eq!(err.message(), "Unexpected end of file");
}

#[test]
fn illegal_token_in_initializer_errors() {
    let lexer = Lexer::new("let x = @;".chars().collect());
    let mut parser = Parser::new(lexer);
    let err = parser.parse().unwrap_err();
    assert_eq!(err.code(), &ParserErrorCode::UnexpectedToken);
    assert_eq!(err.message(), "Unexpected token: 'ILLEGAL', expected: SEMICOLON");
}

#[test]
fn semicolon_cannot_begin_expression() {
    let lexer = Lexer::new(";".chars().collect());
    let mut parser = Parser::new(lexer);
    let err = parser.parse().unwrap_err();
    assert_eq!(err.code(), &ParserErrorCode::InvalidExpression);
    assert_eq!(err.message(), "Invalid expression");
}

#[test]
fn integer_literal_bounds() {
    let lexer = Lexer::new("2147483647;".chars().collect());
    let mut parser = Parser::new(lexer);
    let program = parser.parse().unwrap();
    match &program.statements[0] {
        Statement::Expression(e) => match &e.expression {
            Expression::IntegerLiteral(i) => assert_eq!(i.value, 2147483647),
            other => panic!("expected an integer literal, got {:?}", other),
        },
        other => panic!("expected an expression statement, got {:?}", other),
    }

    let lexer = Lexer::new("2147483648;".chars().collect());
    let mut parser = Parser::new(lexer);
    let err = parser.parse().unwrap_err();
    assert_eq!(err.code(), &ParserErrorCode::InvalidAssignmentTarget);
    assert_eq!(err.message(), "Invalid assignment target");
}

#[test]
fn error_constructors_cover_every_code() {
    assert_eq!(
        ParserError::missing_semicolon().to_string(),
        "Error(MissingSemicolon): Missing semicolon"
    );
    assert_eq!(
        ParserError::unexpected_character('?').to_string(),
        "Error(UnexpectedCharacter): Unexpected character: '?'"
    );
    assert_eq!(
        ParserError::unexpected_eof().to_string(),
        "Error(UnexpectedEOF): Unexpected end of file"
    );
    assert_eq!(
        ParserError::invalid_expression().to_string(),
        "Error(InvalidExpression): Invalid expression"
    );
    assert_eq!(
        ParserError::invalid_assignment_target().to_string(),
        "Error(InvalidAssignmentTarget): Invalid assignment target"
    );
    assert_eq!(
        ParserError::unexpected("boom".to_string()).to_string(),
        "Error(Unexpected): Unexpected: boom"
    );
}

#[test]
fn parser_records_errors() {
    let lexer = Lexer::new("let x 5;".chars().collect());
    let mut parser = Parser::new(lexer);
    let result = parser.parse();
    assert!(result.is_err());
    assert_eq!(parser.errors().len(), 1);
    assert_eq!(parser.errors()[0].code(), &ParserErrorCode::UnexpectedToken);
}

#[test]
fn declare_with_type_annotation() {
    let lexer = Lexer::new("let x: int = 5;".chars().collect());
    let mut parser = Parser::new(lexer);
    let program = parser.parse().unwrap();
    assert_eq!(program.statements.len(), 1);
    match &program.statements[0] {
        Statement::Declare(d) => {
            assert_eq!(d.type_specifier.as_ref().unwrap().value, "int");
            // the initializer is recognized up to the semicolon but not yet
            // captured into the tree
            assert!(d.value.is_none());
        }
        other => panic!("expected a declaration, got {:?}", other),
    }
}

#[test]
fn declare_with_malformed_annotation_is_skipped() {
    let lexer = Lexer::new("let x:;".chars().collect());
    let mut parser = Parser::new(lexer);
    let program = parser.parse().unwrap();
    assert_eq!(program.statements.len(), 1);
    match &program.statements[0] {
        Statement::Declare(d) => assert!(d.type_specifier.is_none()),
        other => panic!("expected a declaration, got {:?}", other),
    }
}

#[test]
fn statement_rendering() {
    let lexer = Lexer::new("let x = 5;".chars().collect());
    let mut parser = Parser::new(lexer);
    let program = parser.parse().unwrap();
    // the uncaptured initializer does not render
    assert_eq!(program.to_string(), "let x;\n");
    assert_eq!(program.get_token(), "let");

    let lexer = Lexer::new("-5;".chars().collect());
    let mut parser = Parser::new(lexer);
    let program = parser.parse().unwrap();
    assert_eq!(program.to_string(), "(-5)\n");

    let lexer = Lexer::new("!-foo".chars().collect());
    let mut parser = Parser::new(lexer);
    let program = parser.parse().unwrap();
    assert_eq!(program.to_string(), "(!(-foo))\n");

    let lexer = Lexer::new("return x;".chars().collect());
    let mut parser = Parser::new(lexer);
    let program = parser.parse().unwrap();
    assert_eq!(program.to_string(), "return;\n");
    assert_eq!(program.get_token(), "return");
}

#[test]
fn illegal_character_token() {
    let tokens = scan_all("@");
    assert_eq!(tokens[0].t, TokenType::ILLEGAL);
    assert_eq!(tokens[0].value, "@");
    assert_eq!(tokens[0].line, Some(1));
    assert_eq!(tokens[0].position, Some(0));
}

#[test]
fn token_positions() {
    let tokens = scan_all("  foo 42");
    assert_eq!(tokens[0].t, TokenType::IDENT);
    assert_eq!(tokens[0].position, Some(2));
    // a number token records the offset just past its digits
    assert_eq!(tokens[1].t, TokenType::INT);
    assert_eq!(tokens[1].position, Some(8));
}

#[test]
fn repl_eval_collects_tokens() {
    let mut repl = REPL::new();
    assert_eq!(repl.index, 1);
    repl.load_line("let x = 5;".to_string());
    assert_eq!(repl.index, 2);
    assert!(repl.eval());
    let expected = ["let", "x", "=", "5", ";"];
    for value in expected {
        let tok = repl.tokens.dequeue().unwrap();
        assert_eq!(tok.value, value);
    }
    assert_eq!(repl.tokens.dequeue(), None);
}

#[test]
fn repl_eval_stops_at_illegal_token() {
    let mut repl = REPL::new();
    repl.load_line("ab @ cd".to_string());
    assert!(!repl.eval());
    // the tokens scanned before the illegal character are kept
    let tok = repl.tokens.dequeue().unwrap();
    assert_eq!(tok.value, "ab");
    assert_eq!(repl.tokens.dequeue(), None);

    // loading the next line clears the queue
    repl.load_line("ok".to_string());
    assert!(repl.eval());
    let tok = repl.tokens.dequeue().unwrap();
    assert_eq!(tok.value, "ok");
}

#[test]
fn precedence_names() {
    assert_eq!(Precedence::Lowest.to_string(), "Lowest");
    assert_eq!(Precedence::EQ.to_string(), "EQ");
    assert_eq!(Precedence::LGT.to_string(), "LGT");
    assert_eq!(Precedence::Sum.to_string(), "sum");
    assert_eq!(Precedence::Product.to_string(), "Product");
    assert_eq!(Precedence::Prefix.to_string(), "Prefix");
    assert_eq!(Precedence::Call.to_string(), "Call");
}

#[test]
fn token_constructors() {
    let tok = Token::new(TokenType::IDENT, "abc", Some(3), Some(7), None);
    assert_eq!(tok.t, TokenType::IDENT);
    assert_eq!(tok.value, "abc");
    assert_eq!(tok.line, Some(3));
    assert_eq!(tok.position, Some(7));
    assert!(tok.filename.is_none());

    let legacy = zpp::lexer::token::Token::new("INT", "42");
    assert_eq!(legacy.t, "INT");
    assert_eq!(legacy.value, "42");
    assert!(legacy.line.is_none());
    assert!(legacy.filename.is_none());
}

#[test]
fn dangling_expression_is_legal() {
    let lexer = Lexer::new("foobar".chars().collect());
    let mut parser = Parser::new(lexer);
    let program = parser.parse().unwrap();
    assert_eq!(program.statements.len(), 1);
}
