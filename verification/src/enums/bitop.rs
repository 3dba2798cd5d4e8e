//! Bitwise operator variants and their string conversions.

use vstd::prelude::*;

use crate::strutil::str_eq;

verus! {

/// The bitwise operators of the language.
#[derive(Debug, Clone, Copy, PartialEq, Eq, Structural)]
pub enum Bitop {
    /// Bitwise AND operator (`&`)
    AND,
    /// Bitwise OR operator (`|`)
    OR,
    /// Bitwise XOR operator (`^`)
    XOR,
    /// Bitwise NOT operator (`~`)
    NOT,
    /// Left shift operator (`<<`)
    SHL,
    /// Right shift operator (`>>`)
    SHR,
}

/// The canonical upper-case name of a bitwise operator variant.
pub open spec fn bitop_name(b: Bitop) -> Seq<char> {
    match b {
        Bitop::AND => "AND"@,
        Bitop::OR => "OR"@,
        Bitop::XOR => "XOR"@,
        Bitop::NOT => "NOT"@,
        Bitop::SHL => "SHL"@,
        Bitop::SHR => "SHR"@,
    }
}

/// The bitwise operator variant denoted by a string: either the canonical
/// name or the symbolic spelling.
pub open spec fn bitop_of_str(s: Seq<char>) -> Option<Bitop> {
    if s == "AND"@ || s == "&"@ {
        Some(Bitop::AND)
    } else if s == "OR"@ || s == "|"@ {
        Some(Bitop::OR)
    } else if s == "XOR"@ || s == "^"@ {
        Some(Bitop::XOR)
    } else if s == "NOT"@ || s == "~"@ {
        Some(Bitop::NOT)
    } else if s == "SHL"@ || s == "<<"@ {
        Some(Bitop::SHL)
    } else if s == "SHR"@ || s == ">>"@ {
        Some(Bitop::SHR)
    } else {
        None
    }
}

/// The tables are collision-free: no two variants share a canonical name,
/// and every canonical name looks up as exactly its own variant.
pub proof fn lemma_bitop_table(a: Bitop, b: Bitop)
    ensures
        bitop_of_str(bitop_name(a)) == Some(a),
        bitop_name(a) == bitop_name(b) ==> a == b,
{
    reveal_strlit("AND");
    reveal_strlit("OR");
    reveal_strlit("XOR");
    reveal_strlit("NOT");
    reveal_strlit("SHL");
    reveal_strlit("SHR");
    reveal_strlit("&");
    reveal_strlit("|");
    reveal_strlit("^");
    reveal_strlit("~");
    reveal_strlit("<<");
    reveal_strlit(">>");
    assert(("AND"@).len() == 3 && ("AND"@)[0] == 'A');
    assert(("OR"@).len() == 2 && ("OR"@)[0] == 'O');
    assert(("XOR"@).len() == 3 && ("XOR"@)[0] == 'X');
    assert(("NOT"@).len() == 3 && ("NOT"@)[0] == 'N');
    assert(("SHL"@).len() == 3 && ("SHL"@)[0] == 'S' && ("SHL"@)[2] == 'L');
    assert(("SHR"@).len() == 3 && ("SHR"@)[0] == 'S' && ("SHR"@)[2] == 'R');
    assert(("&"@).len() == 1 && ("&"@)[0] == '&');
    assert(("|"@).len() == 1 && ("|"@)[0] == '|');
    assert(("^"@).len() == 1 && ("^"@)[0] == '^');
    assert(("~"@).len() == 1 && ("~"@)[0] == '~');
    assert(("<<"@).len() == 2 && ("<<"@)[0] == '<');
    assert((">>"@).len() == 2 && (">>"@)[0] == '>');
}

impl Bitop {
    /// Returns the string representation of the Bitop variant.
    pub fn as_str(&self) -> (r: &'static str)
        ensures
            r@ == bitop_name(*self),
    {
        match self {
            Bitop::AND => "AND",
            Bitop::OR => "OR",
            Bitop::XOR => "XOR",
            Bitop::NOT => "NOT",
            Bitop::SHL => "SHL",
            Bitop::SHR => "SHR",
        }
    }

    /// Converts the Bitop variant to a String.
    pub fn to_string(&self) -> (r: String)
        ensures
            r@ == bitop_name(*self),
    {
        self.as_str().to_owned()
    }

    /// Creates a Bitop variant from a string representation.
    pub fn from_str(value: &str) -> (r: Option<Bitop>)
        ensures
            r == bitop_of_str(value@),
    {
        if str_eq(value, "AND") || str_eq(value, "&") {
            Some(Bitop::AND)
        } else if str_eq(value, "OR") || str_eq(value, "|") {
            Some(Bitop::OR)
        } else if str_eq(value, "XOR") || str_eq(value, "^") {
            Some(Bitop::XOR)
        } else if str_eq(value, "NOT") || str_eq(value, "~") {
            Some(Bitop::NOT)
        } else if str_eq(value, "SHL") || str_eq(value, "<<") {
            Some(Bitop::SHL)
        } else if str_eq(value, "SHR") || str_eq(value, ">>") {
            Some(Bitop::SHR)
        } else {
            None
        }
    }
}

} // verus!
