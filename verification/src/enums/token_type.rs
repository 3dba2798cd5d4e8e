//! The closed set of token kinds, with nested operator and keyword payloads.

use vstd::prelude::*;

use crate::enums::arithmetic::{arithmetic_name, arithmetic_of_str, Arithmetic};
use crate::enums::bitop::{bitop_name, bitop_of_str, Bitop};
use crate::enums::cmp::{cmp_name, cmp_of_str, Cmp};
use crate::enums::keyword::{keyword_name, keyword_of_str, Keyword};
use crate::enums::logicop::{logicop_name, logicop_of_str, LogicOp};
use crate::strutil::str_eq;

verus! {

/// The kind of a lexical token.
#[derive(Default, Debug, Clone, Copy, PartialEq, Eq, Structural)]
pub enum TokenType {
    /// Represents an illegal or invalid character
    #[default]
    ILLEGAL,
    /// Represents the end of file marker
    EOF,
    /// Represents an identifier
    IDENT,
    /// Represents an integer
    INT,
    /// Represents the assignment operator (`=`)
    ASSIGN,
    /// Represents a dot (`.`)
    DOT,
    /// Represents a comma (`,`)
    COMMA,
    /// Represents a colon (`:`)
    COLON,
    /// Represents a semicolon (`;`)
    SEMICOLON,
    /// Represents a double quote (`"`)
    DQUOTE,
    /// Represents a single quote (`'`)
    QUOTE,
    /// Represents a backtick
    BACKTICK,
    /// Represents a left parenthesis (`(`)
    LPAREN,
    /// Represents a right parenthesis (`)`)
    RPAREN,
    /// Represents a left brace (`{`)
    LBRACE,
    /// Represents a right brace (`}`)
    RBRACE,
    /// Represents an exclusive range (`..`)
    RANGE,
    /// Represents an inclusive range (`..=`)
    IRANGE,
    /// Represents a scope separator (`::`)
    SCOPE,
    /// Represents comparison operators
    CMP(Cmp),
    /// Represents arithmetic operators
    ARITHMETIC(Arithmetic),
    /// Represents bitwise operators
    BITOP(Bitop),
    /// Represents logical operators
    LOGICOP(LogicOp),
    /// Represents a keyword
    KEYWORD(Keyword),
}

/// The canonical upper-case name of a token kind; payload-carrying kinds
/// read as the name of their payload.
pub open spec fn token_type_name(t: TokenType) -> Seq<char> {
    match t {
        TokenType::ILLEGAL => "ILLEGAL"@,
        TokenType::EOF => "EOF"@,
        TokenType::IDENT => "IDENT"@,
        TokenType::INT => "INT"@,
        TokenType::ASSIGN => "ASSIGN"@,
        TokenType::DOT => "DOT"@,
        TokenType::COMMA => "COMMA"@,
        TokenType::COLON => "COLON"@,
        TokenType::SEMICOLON => "SEMICOLON"@,
        TokenType::DQUOTE => "DQUOTE"@,
        TokenType::QUOTE => "QUOTE"@,
        TokenType::BACKTICK => "BACKTICK"@,
        TokenType::LPAREN => "LPAREN"@,
        TokenType::RPAREN => "RPAREN"@,
        TokenType::LBRACE => "LBRACE"@,
        TokenType::RBRACE => "RBRACE"@,
        TokenType::RANGE => "RANGE"@,
        TokenType::IRANGE => "IRANGE"@,
        TokenType::SCOPE => "SCOPE"@,
        TokenType::CMP(c) => cmp_name(c),
        TokenType::ARITHMETIC(a) => arithmetic_name(a),
        TokenType::BITOP(b) => bitop_name(b),
        TokenType::LOGICOP(l) => logicop_name(l),
        TokenType::KEYWORD(k) => keyword_name(k),
    }
}

/// The token kind denoted by a string representation, trying the plain
/// kinds first and then each operator and keyword table in turn.
pub open spec fn token_type_of_str(s: Seq<char>) -> Option<TokenType> {
    if s == "ILLEGAL"@ {
        Some(TokenType::ILLEGAL)
    } else if s == "EOF"@ {
        Some(TokenType::EOF)
    } else if s == "IDENT"@ {
        Some(TokenType::IDENT)
    } else if s == "INT"@ {
        Some(TokenType::INT)
    } else if s == "ASSIGN"@ {
        Some(TokenType::ASSIGN)
    } else if s == "DOT"@ {
        Some(TokenType::DOT)
    } else if s == "COMMA"@ {
        Some(TokenType::COMMA)
    } else if s == "COLON"@ {
        Some(TokenType::COLON)
    } else if s == "SEMICOLON"@ {
        Some(TokenType::SEMICOLON)
    } else if s == "DQUOTE"@ {
        Some(TokenType::DQUOTE)
    } else if s == "QUOTE"@ {
        Some(TokenType::QUOTE)
    } else if s == "BACKTICK"@ {
        Some(TokenType::BACKTICK)
    } else if s == "LPAREN"@ {
        Some(TokenType::LPAREN)
    } else if s == "RPAREN"@ {
        Some(TokenType::RPAREN)
    } else if s == "LBRACE"@ {
        Some(TokenType::LBRACE)
    } else if s == "RBRACE"@ {
        Some(TokenType::RBRACE)
    } else if s == "RANGE"@ {
        Some(TokenType::RANGE)
    } else if s == "IRANGE"@ {
        Some(TokenType::IRANGE)
    } else if s == "SCOPE"@ {
        Some(TokenType::SCOPE)
    } else if cmp_of_str(s) is Some {
        Some(TokenType::CMP(cmp_of_str(s)->Some_0))
    } else if arithmetic_of_str(s) is Some {
        Some(TokenType::ARITHMETIC(arithmetic_of_str(s)->Some_0))
    } else if bitop_of_str(s) is Some {
        Some(TokenType::BITOP(bitop_of_str(s)->Some_0))
    } else if logicop_of_str(s) is Some {
        Some(TokenType::LOGICOP(logicop_of_str(s)->Some_0))
    } else if keyword_of_str(s) is Some {
        Some(TokenType::KEYWORD(keyword_of_str(s)->Some_0))
    } else {
        None
    }
}

impl TokenType {
    /// Returns the string representation of the TokenType variant.
    pub fn as_str(&self) -> (r: &'static str)
        ensures
            r@ == token_type_name(*self),
    {
        match self {
            TokenType::ILLEGAL => "ILLEGAL",
            TokenType::EOF => "EOF",
            TokenType::IDENT => "IDENT",
            TokenType::INT => "INT",
            TokenType::ASSIGN => "ASSIGN",
            TokenType::DOT => "DOT",
            TokenType::COMMA => "COMMA",
            TokenType::COLON => "COLON",
            TokenType::SEMICOLON => "SEMICOLON",
            TokenType::DQUOTE => "DQUOTE",
            TokenType::QUOTE => "QUOTE",
            TokenType::BACKTICK => "BACKTICK",
            TokenType::LPAREN => "LPAREN",
            TokenType::RPAREN => "RPAREN",
            TokenType::LBRACE => "LBRACE",
            TokenType::RBRACE => "RBRACE",
            TokenType::RANGE => "RANGE",
            TokenType::IRANGE => "IRANGE",
            TokenType::SCOPE => "SCOPE",
            TokenType::CMP(c) => c.as_str(),
            TokenType::ARITHMETIC(a) => a.as_str(),
            TokenType::BITOP(b) => b.as_str(),
            TokenType::LOGICOP(l) => l.as_str(),
            TokenType::KEYWORD(kw) => kw.as_str(),
        }
    }

    /// Converts the TokenType variant to a String.
    pub fn to_string(&self) -> (r: String)
        ensures
            r@ == token_type_name(*self),
    {
        self.as_str().to_owned()
    }

    /// Creates a TokenType variant from a string representation.
    pub fn from_str(value: &str) -> (r: Option<TokenType>)
        ensures
            r == token_type_of_str(value@),
    {
        if str_eq(value, "ILLEGAL") {
            Some(TokenType::ILLEGAL)
        } else if str_eq(value, "EOF") {
            Some(TokenType::EOF)
        } else if str_eq(value, "IDENT") {
            Some(TokenType::IDENT)
        } else if str_eq(value, "INT") {
            Some(TokenType::INT)
        } else if str_eq(value, "ASSIGN") {
            Some(TokenType::ASSIGN)
        } else if str_eq(value, "DOT") {
            Some(TokenType::DOT)
        } else if str_eq(value, "COMMA") {
            Some(TokenType::COMMA)
        } else if str_eq(value, "COLON") {
            Some(TokenType::COLON)
        } else if str_eq(value, "SEMICOLON") {
            Some(TokenType::SEMICOLON)
        } else if str_eq(value, "DQUOTE") {
            Some(TokenType::DQUOTE)
        } else if str_eq(value, "QUOTE") {
            Some(TokenType::QUOTE)
        } else if str_eq(value, "BACKTICK") {
            Some(TokenType::BACKTICK)
        } else if str_eq(value, "LPAREN") {
            Some(TokenType::LPAREN)
        } else if str_eq(value, "RPAREN") {
            Some(TokenType::RPAREN)
        } else if str_eq(value, "LBRACE") {
            Some(TokenType::LBRACE)
        } else if str_eq(value, "RBRACE") {
            Some(TokenType::RBRACE)
        } else if str_eq(value, "RANGE") {
            Some(TokenType::RANGE)
        } else if str_eq(value, "IRANGE") {
            Some(TokenType::IRANGE)
        } else if str_eq(value, "SCOPE") {
            Some(TokenType::SCOPE)
        } else if let Some(c) = Cmp::from_str(value) {
            Some(TokenType::CMP(c))
        } else if let Some(a) = Arithmetic::from_str(value) {
            Some(TokenType::ARITHMETIC(a))
        } else if let Some(b) = Bitop::from_str(value) {
            Some(TokenType::BITOP(b))
        } else if let Some(l) = LogicOp::from_str(value) {
            Some(TokenType::LOGICOP(l))
        } else if let Some(kw) = Keyword::from_str(value) {
            Some(TokenType::KEYWORD(kw))
        } else {
            None
        }
    }
}

} // verus!
