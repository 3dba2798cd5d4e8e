//! Comparison operator variants and their string conversions.

use vstd::prelude::*;

use crate::strutil::str_eq;

verus! {

/// The comparison operators of the language.
#[derive(Debug, Clone, Copy, PartialEq, Eq, Structural)]
pub enum Cmp {
    /// Greater than operator (`>`)
    GT,
    /// Less than operator (`<`)
    LT,
    /// Greater than or equal to operator (`>=`)
    GE,
    /// Less than or equal to operator (`<=`)
    LE,
    /// Equality operator (`==`)
    EQUAL,
    /// Not equal to operator (`!=`)
    NEQUAL,
}

/// The canonical upper-case name of a comparison operator variant.
pub open spec fn cmp_name(c: Cmp) -> Seq<char> {
    match c {
        Cmp::GT => "GT"@,
        Cmp::LT => "LT"@,
        Cmp::GE => "GE"@,
        Cmp::LE => "LE"@,
        Cmp::EQUAL => "EQUAL"@,
        Cmp::NEQUAL => "NEQUAL"@,
    }
}

/// The comparison operator variant denoted by a string: either the canonical
/// name or the symbolic spelling.
pub open spec fn cmp_of_str(s: Seq<char>) -> Option<Cmp> {
    if s == "GT"@ || s == ">"@ {
        Some(Cmp::GT)
    } else if s == "LT"@ || s == "<"@ {
        Some(Cmp::LT)
    } else if s == "GE"@ || s == ">="@ {
        Some(Cmp::GE)
    } else if s == "LE"@ || s == "<="@ {
        Some(Cmp::LE)
    } else if s == "EQUAL"@ || s == "=="@ {
        Some(Cmp::EQUAL)
    } else if s == "NEQUAL"@ || s == "!="@ {
        Some(Cmp::NEQUAL)
    } else {
        None
    }
}

/// The tables are collision-free: no two variants share a canonical name,
/// and every canonical name looks up as exactly its own variant.
pub proof fn lemma_cmp_table(a: Cmp, b: Cmp)
    ensures
        cmp_of_str(cmp_name(a)) == Some(a),
        cmp_name(a) == cmp_name(b) ==> a == b,
{
    reveal_strlit("GT");
    reveal_strlit("LT");
    reveal_strlit("GE");
    reveal_strlit("LE");
    reveal_strlit("EQUAL");
    reveal_strlit("NEQUAL");
    reveal_strlit(">");
    reveal_strlit("<");
    reveal_strlit(">=");
    reveal_strlit("<=");
    reveal_strlit("==");
    reveal_strlit("!=");
    assert(("GT"@).len() == 2 && ("GT"@)[0] == 'G' && ("GT"@)[1] == 'T');
    assert(("LT"@).len() == 2 && ("LT"@)[0] == 'L' && ("LT"@)[1] == 'T');
    assert(("GE"@).len() == 2 && ("GE"@)[0] == 'G' && ("GE"@)[1] == 'E');
    assert(("LE"@).len() == 2 && ("LE"@)[0] == 'L' && ("LE"@)[1] == 'E');
    assert(("EQUAL"@).len() == 5 && ("EQUAL"@)[0] == 'E');
    assert(("NEQUAL"@).len() == 6 && ("NEQUAL"@)[0] == 'N');
    assert((">"@).len() == 1 && (">"@)[0] == '>');
    assert(("<"@).len() == 1 && ("<"@)[0] == '<');
    assert((">="@).len() == 2 && (">="@)[0] == '>');
    assert(("<="@).len() == 2 && ("<="@)[0] == '<');
    assert(("=="@).len() == 2 && ("=="@)[0] == '=');
    assert(("!="@).len() == 2 && ("!="@)[0] == '!');
}

impl Cmp {
    /// Returns the string representation of the Cmp variant.
    pub fn as_str(&self) -> (r: &'static str)
        ensures
            r@ == cmp_name(*self),
    {
        match self {
            Cmp::GT => "GT",
            Cmp::LT => "LT",
            Cmp::GE => "GE",
            Cmp::LE => "LE",
            Cmp::EQUAL => "EQUAL",
            Cmp::NEQUAL => "NEQUAL",
        }
    }

    /// Converts the Cmp variant to a String.
    pub fn to_string(&self) -> (r: String)
        ensures
            r@ == cmp_name(*self),
    {
        self.as_str().to_owned()
    }

    /// Creates a Cmp variant from a string representation.
    pub fn from_str(value: &str) -> (r: Option<Cmp>)
        ensures
            r == cmp_of_str(value@),
    {
        if str_eq(value, "GT") || str_eq(value, ">") {
            Some(Cmp::GT)
        } else if str_eq(value, "LT") || str_eq(value, "<") {
            Some(Cmp::LT)
        } else if str_eq(value, "GE") || str_eq(value, ">=") {
            Some(Cmp::GE)
        } else if str_eq(value, "LE") || str_eq(value, "<=") {
            Some(Cmp::LE)
        } else if str_eq(value, "EQUAL") || str_eq(value, "==") {
            Some(Cmp::EQUAL)
        } else if str_eq(value, "NEQUAL") || str_eq(value, "!=") {
            Some(Cmp::NEQUAL)
        } else {
            None
        }
    }
}

} // verus!
