//! Arithmetic operator variants and their string conversions.

use vstd::prelude::*;

use crate::strutil::str_eq;

verus! {

/// The arithmetic operators of the language.
#[derive(Debug, Clone, Copy, PartialEq, Eq, Structural)]
pub enum Arithmetic {
    /// Addition operator (`+`)
    PLUS,
    /// Subtraction operator (`-`)
    MINUS,
    /// Multiplication operator (`*`)
    MUL,
    /// Division operator (`/`)
    DIV,
    /// Floor division operator (`//`)
    FDIV,
    /// Modulo operator (`%`)
    MOD,
    /// Exponentiation operator (`**`)
    POW,
    /// Increment operator (`++`)
    INC,
    /// Decrement operator (`--`)
    DEC,
}

/// The canonical upper-case name of an arithmetic variant.
pub open spec fn arithmetic_name(a: Arithmetic) -> Seq<char> {
    match a {
        Arithmetic::PLUS => "PLUS"@,
        Arithmetic::MINUS => "MINUS"@,
        Arithmetic::MUL => "MUL"@,
        Arithmetic::DIV => "DIV"@,
        Arithmetic::FDIV => "FDIV"@,
        Arithmetic::MOD => "MOD"@,
        Arithmetic::POW => "POW"@,
        Arithmetic::INC => "INC"@,
        Arithmetic::DEC => "DEC"@,
    }
}

/// The arithmetic variant denoted by a string: either the canonical name or
/// the symbolic spelling.
pub open spec fn arithmetic_of_str(s: Seq<char>) -> Option<Arithmetic> {
    if s == "PLUS"@ || s == "+"@ {
        Some(Arithmetic::PLUS)
    } else if s == "MINUS"@ || s == "-"@ {
        Some(Arithmetic::MINUS)
    } else if s == "MUL"@ || s == "*"@ {
        Some(Arithmetic::MUL)
    } else if s == "DIV"@ || s == "/"@ {
        Some(Arithmetic::DIV)
    } else if s == "FDIV"@ || s == "//"@ {
        Some(Arithmetic::FDIV)
    } else if s == "MOD"@ || s == "%"@ {
        Some(Arithmetic::MOD)
    } else if s == "POW"@ || s == "**"@ {
        Some(Arithmetic::POW)
    } else if s == "INC"@ || s == "++"@ {
        Some(Arithmetic::INC)
    } else if s == "DEC"@ || s == "--"@ {
        Some(Arithmetic::DEC)
    } else {
        None
    }
}

/// The tables are collision-free: no two variants share a canonical name,
/// and every canonical name looks up as exactly its own variant.
pub proof fn lemma_arithmetic_table(a: Arithmetic, b: Arithmetic)
    ensures
        arithmetic_of_str(arithmetic_name(a)) == Some(a),
        arithmetic_name(a) == arithmetic_name(b) ==> a == b,
{
    reveal_strlit("PLUS");
    reveal_strlit("MINUS");
    reveal_strlit("MUL");
    reveal_strlit("DIV");
    reveal_strlit("FDIV");
    reveal_strlit("MOD");
    reveal_strlit("POW");
    reveal_strlit("INC");
    reveal_strlit("DEC");
    reveal_strlit("+");
    reveal_strlit("-");
    reveal_strlit("*");
    reveal_strlit("/");
    reveal_strlit("//");
    reveal_strlit("%");
    reveal_strlit("**");
    reveal_strlit("++");
    reveal_strlit("--");
    assert(("PLUS"@).len() == 4 && ("PLUS"@)[0] == 'P');
    assert(("MINUS"@).len() == 5 && ("MINUS"@)[0] == 'M');
    assert(("MUL"@).len() == 3 && ("MUL"@)[0] == 'M' && ("MUL"@)[1] == 'U');
    assert(("DIV"@).len() == 3 && ("DIV"@)[0] == 'D' && ("DIV"@)[1] == 'I');
    assert(("FDIV"@).len() == 4 && ("FDIV"@)[0] == 'F');
    assert(("MOD"@).len() == 3 && ("MOD"@)[0] == 'M' && ("MOD"@)[1] == 'O');
    assert(("POW"@).len() == 3 && ("POW"@)[0] == 'P');
    assert(("INC"@).len() == 3 && ("INC"@)[0] == 'I');
    assert(("DEC"@).len() == 3 && ("DEC"@)[0] == 'D' && ("DEC"@)[1] == 'E');
    assert(("+"@).len() == 1 && ("+"@)[0] == '+');
    assert(("-"@).len() == 1 && ("-"@)[0] == '-');
    assert(("*"@).len() == 1 && ("*"@)[0] == '*');
    assert(("/"@).len() == 1 && ("/"@)[0] == '/');
    assert(("%"@).len() == 1 && ("%"@)[0] == '%');
    assert(("//"@).len() == 2 && ("//"@)[0] == '/');
    assert(("**"@).len() == 2 && ("**"@)[0] == '*');
    assert(("++"@).len() == 2 && ("++"@)[0] == '+');
    assert(("--"@).len() == 2 && ("--"@)[0] == '-');
}

impl Arithmetic {
    /// Returns the string representation of the Arithmetic variant.
    pub fn as_str(&self) -> (r: &'static str)
        ensures
            r@ == arithmetic_name(*self),
    {
        match self {
            Arithmetic::PLUS => "PLUS",
            Arithmetic::MINUS => "MINUS",
            Arithmetic::MUL => "MUL",
            Arithmetic::DIV => "DIV",
            Arithmetic::FDIV => "FDIV",
            Arithmetic::MOD => "MOD",
            Arithmetic::POW => "POW",
            Arithmetic::INC => "INC",
            Arithmetic::DEC => "DEC",
        }
    }

    /// Converts the Arithmetic variant to a String.
    pub fn to_string(&self) -> (r: String)
        ensures
            r@ == arithmetic_name(*self),
    {
        self.as_str().to_owned()
    }

    /// Creates an Arithmetic variant from a string representation.
    pub fn from_str(value: &str) -> (r: Option<Arithmetic>)
        ensures
            r == arithmetic_of_str(value@),
    {
        if str_eq(value, "PLUS") || str_eq(value, "+") {
            Some(Arithmetic::PLUS)
        } else if str_eq(value, "MINUS") || str_eq(value, "-") {
            Some(Arithmetic::MINUS)
        } else if str_eq(value, "MUL") || str_eq(value, "*") {
            Some(Arithmetic::MUL)
        } else if str_eq(value, "DIV") || str_eq(value, "/") {
            Some(Arithmetic::DIV)
        } else if str_eq(value, "FDIV") || str_eq(value, "//") {
            Some(Arithmetic::FDIV)
        } else if str_eq(value, "MOD") || str_eq(value, "%") {
            Some(Arithmetic::MOD)
        } else if str_eq(value, "POW") || str_eq(value, "**") {
            Some(Arithmetic::POW)
        } else if str_eq(value, "INC") || str_eq(value, "++") {
            Some(Arithmetic::INC)
        } else if str_eq(value, "DEC") || str_eq(value, "--") {
            Some(Arithmetic::DEC)
        } else {
            None
        }
    }
}

} // verus!
