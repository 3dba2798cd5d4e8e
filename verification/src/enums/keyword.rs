//! Keyword variants and their string conversions.

use vstd::prelude::*;

use crate::strutil::str_eq;

verus! {

/// The keywords of the language.
#[derive(Debug, Clone, Copy, PartialEq, Eq, Structural)]
pub enum Keyword {
    /// Represents the `let` keyword
    LET,
    /// Represents the `const` keyword
    CONST,
    /// Represents the `var` keyword
    VAR,
    /// Represents the `return` keyword
    RETURN,
    /// Represents the `for` keyword
    FOR,
    /// Represents the `while` keyword
    WHILE,
    /// Represents the `fn` keyword
    FUNCTION,
    /// Represents the `if` keyword
    IF,
    /// Represents the `else` keyword
    ELSE,
    /// Represents the `do` keyword
    DO,
    /// Represents the `end` keyword
    END,
    /// Represents the `true` keyword
    TRUE,
    /// Represents the `false` keyword
    FALSE,
    /// Represents an undefined or unrecognized keyword
    UNDEFINED,
}

/// The canonical upper-case name of a keyword variant; the `UNDEFINED`
/// variant reads as a plain identifier.
pub open spec fn keyword_name(k: Keyword) -> Seq<char> {
    match k {
        Keyword::LET => "LET"@,
        Keyword::CONST => "CONST"@,
        Keyword::VAR => "VAR"@,
        Keyword::RETURN => "RETURN"@,
        Keyword::FOR => "FOR"@,
        Keyword::WHILE => "WHILE"@,
        Keyword::FUNCTION => "FUNCTION"@,
        Keyword::IF => "IF"@,
        Keyword::ELSE => "ELSE"@,
        Keyword::DO => "DO"@,
        Keyword::END => "END"@,
        Keyword::TRUE => "TRUE"@,
        Keyword::FALSE => "FALSE"@,
        Keyword::UNDEFINED => "IDENT"@,
    }
}

/// The keyword denoted by a source spelling, or `None` for any other
/// identifier.
pub open spec fn keyword_of_str(s: Seq<char>) -> Option<Keyword> {
    if s == "let"@ {
        Some(Keyword::LET)
    } else if s == "const"@ {
        Some(Keyword::CONST)
    } else if s == "var"@ {
        Some(Keyword::VAR)
    } else if s == "return"@ {
        Some(Keyword::RETURN)
    } else if s == "for"@ {
        Some(Keyword::FOR)
    } else if s == "while"@ {
        Some(Keyword::WHILE)
    } else if s == "fn"@ {
        Some(Keyword::FUNCTION)
    } else if s == "if"@ {
        Some(Keyword::IF)
    } else if s == "else"@ {
        Some(Keyword::ELSE)
    } else if s == "do"@ {
        Some(Keyword::DO)
    } else if s == "end"@ {
        Some(Keyword::END)
    } else if s == "true"@ {
        Some(Keyword::TRUE)
    } else if s == "false"@ {
        Some(Keyword::FALSE)
    } else {
        None
    }
}

/// The source spelling of a keyword; the `UNDEFINED` variant stands for no
/// spelling and reads as the empty string.
pub open spec fn keyword_spelling(k: Keyword) -> Seq<char> {
    match k {
        Keyword::LET => "let"@,
        Keyword::CONST => "const"@,
        Keyword::VAR => "var"@,
        Keyword::RETURN => "return"@,
        Keyword::FOR => "for"@,
        Keyword::WHILE => "while"@,
        Keyword::FUNCTION => "fn"@,
        Keyword::IF => "if"@,
        Keyword::ELSE => "else"@,
        Keyword::DO => "do"@,
        Keyword::END => "end"@,
        Keyword::TRUE => "true"@,
        Keyword::FALSE => "false"@,
        Keyword::UNDEFINED => Seq::empty(),
    }
}

/// The keyword table is collision-free: no two variants share a canonical
/// name (the `UNDEFINED` variant's identifier marker included), and each
/// source spelling looks up as exactly its own variant.
pub proof fn lemma_keyword_table(a: Keyword, b: Keyword)
    ensures
        keyword_name(a) == keyword_name(b) ==> a == b,
        a != Keyword::UNDEFINED ==> keyword_of_str(keyword_spelling(a)) == Some(a),
{
    reveal_strlit("LET");
    reveal_strlit("CONST");
    reveal_strlit("VAR");
    reveal_strlit("RETURN");
    reveal_strlit("FOR");
    reveal_strlit("WHILE");
    reveal_strlit("FUNCTION");
    reveal_strlit("IF");
    reveal_strlit("ELSE");
    reveal_strlit("DO");
    reveal_strlit("END");
    reveal_strlit("TRUE");
    reveal_strlit("FALSE");
    reveal_strlit("IDENT");
    reveal_strlit("let");
    reveal_strlit("const");
    reveal_strlit("var");
    reveal_strlit("return");
    reveal_strlit("for");
    reveal_strlit("while");
    reveal_strlit("fn");
    reveal_strlit("if");
    reveal_strlit("else");
    reveal_strlit("do");
    reveal_strlit("end");
    reveal_strlit("true");
    reveal_strlit("false");
    assert(("LET"@).len() == 3 && ("LET"@)[0] == 'L');
    assert(("CONST"@).len() == 5 && ("CONST"@)[0] == 'C');
    assert(("VAR"@).len() == 3 && ("VAR"@)[0] == 'V');
    assert(("RETURN"@).len() == 6 && ("RETURN"@)[0] == 'R');
    assert(("FOR"@).len() == 3 && ("FOR"@)[0] == 'F');
    assert(("WHILE"@).len() == 5 && ("WHILE"@)[0] == 'W');
    assert(("FUNCTION"@).len() == 8 && ("FUNCTION"@)[0] == 'F');
    assert(("IF"@).len() == 2 && ("IF"@)[0] == 'I');
    assert(("ELSE"@).len() == 4 && ("ELSE"@)[0] == 'E');
    assert(("DO"@).len() == 2 && ("DO"@)[0] == 'D');
    assert(("END"@).len() == 3 && ("END"@)[0] == 'E');
    assert(("TRUE"@).len() == 4 && ("TRUE"@)[0] == 'T');
    assert(("FALSE"@).len() == 5 && ("FALSE"@)[0] == 'F');
    assert(("IDENT"@).len() == 5 && ("IDENT"@)[0] == 'I');
    assert(("let"@).len() == 3 && ("let"@)[0] == 'l');
    assert(("const"@).len() == 5 && ("const"@)[0] == 'c');
    assert(("var"@).len() == 3 && ("var"@)[0] == 'v');
    assert(("return"@).len() == 6 && ("return"@)[0] == 'r');
    assert(("for"@).len() == 3 && ("for"@)[0] == 'f');
    assert(("while"@).len() == 5 && ("while"@)[0] == 'w');
    assert(("fn"@).len() == 2 && ("fn"@)[0] == 'f');
    assert(("if"@).len() == 2 && ("if"@)[0] == 'i');
    assert(("else"@).len() == 4 && ("else"@)[0] == 'e');
    assert(("do"@).len() == 2 && ("do"@)[0] == 'd');
    assert(("end"@).len() == 3 && ("end"@)[0] == 'e');
    assert(("true"@).len() == 4 && ("true"@)[0] == 't');
    assert(("false"@).len() == 5 && ("false"@)[0] == 'f');
}

impl Keyword {
    /// Returns the string representation of the Keyword variant.
    pub fn as_str(&self) -> (r: &'static str)
        ensures
            r@ == keyword_name(*self),
    {
        match self {
            Keyword::LET => "LET",
            Keyword::CONST => "CONST",
            Keyword::VAR => "VAR",
            Keyword::RETURN => "RETURN",
            Keyword::FOR => "FOR",
            Keyword::WHILE => "WHILE",
            Keyword::FUNCTION => "FUNCTION",
            Keyword::IF => "IF",
            Keyword::ELSE => "ELSE",
            Keyword::DO => "DO",
            Keyword::END => "END",
            Keyword::TRUE => "TRUE",
            Keyword::FALSE => "FALSE",
            Keyword::UNDEFINED => "IDENT",
        }
    }

    /// Converts the Keyword variant to a String.
    pub fn to_string(&self) -> (r: String)
        ensures
            r@ == keyword_name(*self),
    {
        self.as_str().to_owned()
    }

    /// Fetches the corresponding Keyword variant based on the given string.
    pub fn from_str(tok_str: &str) -> (r: Option<Keyword>)
        ensures
            r == keyword_of_str(tok_str@),
    {
        if str_eq(tok_str, "let") {
            Some(Keyword::LET)
        } else if str_eq(tok_str, "const") {
            Some(Keyword::CONST)
        } else if str_eq(tok_str, "var") {
            Some(Keyword::VAR)
        } else if str_eq(tok_str, "return") {
            Some(Keyword::RETURN)
        } else if str_eq(tok_str, "for") {
            Some(Keyword::FOR)
        } else if str_eq(tok_str, "while") {
            Some(Keyword::WHILE)
        } else if str_eq(tok_str, "fn") {
            Some(Keyword::FUNCTION)
        } else if str_eq(tok_str, "if") {
            Some(Keyword::IF)
        } else if str_eq(tok_str, "else") {
            Some(Keyword::ELSE)
        } else if str_eq(tok_str, "do") {
            Some(Keyword::DO)
        } else if str_eq(tok_str, "end") {
            Some(Keyword::END)
        } else if str_eq(tok_str, "true") {
            Some(Keyword::TRUE)
        } else if str_eq(tok_str, "false") {
            Some(Keyword::FALSE)
        } else {
            None
        }
    }
}

} // verus!
