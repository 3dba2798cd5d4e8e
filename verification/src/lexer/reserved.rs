//! An early, coarser table of reserved words and token classes kept for
//! compatibility with the first scanner draft.

use vstd::prelude::*;

use crate::strutil::str_eq;

verus! {

/// The keywords of the early table.
#[derive(Debug, Clone, Copy, PartialEq, Eq, Structural)]
pub enum Keyword {
    /// Represents the `let` keyword
    LET,
    /// Represents the `const` keyword
    CONST,
    /// Represents the `var` keyword
    VAR,
    /// Represents the `return` keyword
    RETURN,
    /// Represents the `for` keyword
    FOR,
    /// Represents the `while` keyword
    WHILE,
    /// Represents the `fn` keyword
    FUNCTION,
    /// Represents an undefined or unrecognized keyword
    UNDEFINED,
}

/// The token classes of the early table.
#[derive(Debug, Clone, Copy, PartialEq, Eq, Structural)]
pub enum Reserved {
    /// Represents an illegal or invalid character
    ILLEGAL,
    /// Represents the end of file marker
    EOF,
    /// Represents an identifier
    IDENT,
    /// Represents an integer
    INT,
    /// Represents the assignment operator (`=`)
    ASSIGN,
    /// Represents arithmetic operators
    ARITHMETIC,
    /// Represents bitwise operators
    BIT_OPERATOR,
    /// Represents a comma (`,`)
    COMMA,
    /// Represents a semicolon (`;`)
    SEMICOLON,
    /// Represents a left parenthesis (`(`)
    LPAREN,
    /// Represents a right parenthesis (`)`)
    RPAREN,
    /// Represents a left brace (`{`)
    LBRACE,
    /// Represents a right brace (`}`)
    RBRACE,
    /// Represents a keyword
    KEYWORD(Keyword),
}

/// The canonical name of an early keyword variant; `UNDEFINED` reads as a
/// plain identifier.
pub open spec fn reserved_keyword_name(k: Keyword) -> Seq<char> {
    match k {
        Keyword::LET => "LET"@,
        Keyword::CONST => "CONST"@,
        Keyword::VAR => "VAR"@,
        Keyword::RETURN => "RETURN"@,
        Keyword::FOR => "FOR"@,
        Keyword::WHILE => "WHILE"@,
        Keyword::FUNCTION => "FUNCTION"@,
        Keyword::UNDEFINED => "IDENT"@,
    }
}

/// The canonical name of an early token class.
pub open spec fn reserved_name(r: Reserved) -> Seq<char> {
    match r {
        Reserved::ILLEGAL => "ILLEGAL"@,
        Reserved::EOF => "EOF"@,
        Reserved::IDENT => "IDENT"@,
        Reserved::INT => "INT"@,
        Reserved::ASSIGN => "ASSIGN"@,
        Reserved::ARITHMETIC => "ARITHMETIC"@,
        Reserved::BIT_OPERATOR => "BIT_OPERATOR"@,
        Reserved::COMMA => "COMMA"@,
        Reserved::SEMICOLON => "SEMICOLON"@,
        Reserved::LPAREN => "LPAREN"@,
        Reserved::RPAREN => "RPAREN"@,
        Reserved::LBRACE => "LBRACE"@,
        Reserved::RBRACE => "RBRACE"@,
        Reserved::KEYWORD(k) => reserved_keyword_name(k),
    }
}

/// The early keyword denoted by a source spelling; anything unrecognized is
/// `UNDEFINED`.
pub open spec fn reserved_keyword_of_str(s: Seq<char>) -> Keyword {
    if s == "let"@ {
        Keyword::LET
    } else if s == "const"@ {
        Keyword::CONST
    } else if s == "return"@ {
        Keyword::RETURN
    } else if s == "for"@ {
        Keyword::FOR
    } else if s == "while"@ {
        Keyword::WHILE
    } else if s == "fn"@ {
        Keyword::FUNCTION
    } else {
        Keyword::UNDEFINED
    }
}

impl Reserved {
    /// Returns the string representation of the Reserved variant.
    pub fn as_str(&self) -> (r: &'static str)
        ensures
            r@ == reserved_name(*self),
    {
        match self {
            Reserved::ILLEGAL => "ILLEGAL",
            Reserved::EOF => "EOF",
            Reserved::IDENT => "IDENT",
            Reserved::INT => "INT",
            Reserved::ASSIGN => "ASSIGN",
            Reserved::ARITHMETIC => "ARITHMETIC",
            Reserved::BIT_OPERATOR => "BIT_OPERATOR",
            Reserved::COMMA => "COMMA",
            Reserved::SEMICOLON => "SEMICOLON",
            Reserved::LPAREN => "LPAREN",
            Reserved::RPAREN => "RPAREN",
            Reserved::LBRACE => "LBRACE",
            Reserved::RBRACE => "RBRACE",
            Reserved::KEYWORD(kw) => kw.as_str(),
        }
    }

    /// Converts the Reserved variant to a String.
    pub fn to_string(&self) -> (r: String)
        ensures
            r@ == reserved_name(*self),
    {
        self.as_str().to_owned()
    }

    /// Dispatches the corresponding Keyword variant based on the given token
    /// string.
    pub fn dispatch_keyword(tok_str: &str) -> (r: Keyword)
        ensures
            r == reserved_keyword_of_str(tok_str@),
    {
        if str_eq(tok_str, "let") {
            Keyword::LET
        } else if str_eq(tok_str, "const") {
            Keyword::CONST
        } else if str_eq(tok_str, "return") {
            Keyword::RETURN
        } else if str_eq(tok_str, "for") {
            Keyword::FOR
        } else if str_eq(tok_str, "while") {
            Keyword::WHILE
        } else if str_eq(tok_str, "fn") {
            Keyword::FUNCTION
        } else {
            Keyword::UNDEFINED
        }
    }
}

impl Keyword {
    /// Returns the string representation of the Keyword variant.
    pub fn as_str(&self) -> (r: &'static str)
        ensures
            r@ == reserved_keyword_name(*self),
    {
        match self {
            Keyword::LET => "LET",
            Keyword::CONST => "CONST",
            Keyword::VAR => "VAR",
            Keyword::RETURN => "RETURN",
            Keyword::FOR => "FOR",
            Keyword::WHILE => "WHILE",
            Keyword::FUNCTION => "FUNCTION",
            Keyword::UNDEFINED => "IDENT",
        }
    }

    /// Converts the Keyword variant to a String.
    pub fn to_string(&self) -> (r: String)
        ensures
            r@ == reserved_keyword_name(*self),
    {
        self.as_str().to_owned()
    }
}

} // verus!
