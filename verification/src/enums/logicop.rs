//! Logical operator variants and their string conversions.

use vstd::prelude::*;

use crate::strutil::str_eq;

verus! {

/// The logical operators of the language.
#[derive(Debug, Clone, Copy, PartialEq, Eq, Structural)]
pub enum LogicOp {
    /// Logical AND operator (`&&`)
    AND,
    /// Logical OR operator (`||`)
    OR,
    /// Logical NOT operator (`!`)
    NOT,
}

/// The canonical upper-case name of a logical operator variant.
pub open spec fn logicop_name(l: LogicOp) -> Seq<char> {
    match l {
        LogicOp::AND => "AND"@,
        LogicOp::OR => "OR"@,
        LogicOp::NOT => "NOT"@,
    }
}

/// The logical operator variant denoted by a string: either the canonical
/// name or the symbolic spelling.
pub open spec fn logicop_of_str(s: Seq<char>) -> Option<LogicOp> {
    if s == "AND"@ || s == "&&"@ {
        Some(LogicOp::AND)
    } else if s == "OR"@ || s == "||"@ {
        Some(LogicOp::OR)
    } else if s == "NOT"@ || s == "!"@ {
        Some(LogicOp::NOT)
    } else {
        None
    }
}

/// The tables are collision-free: no two variants share a canonical name,
/// and every canonical name looks up as exactly its own variant.
pub proof fn lemma_logicop_table(a: LogicOp, b: LogicOp)
    ensures
        logicop_of_str(logicop_name(a)) == Some(a),
        logicop_name(a) == logicop_name(b) ==> a == b,
{
    reveal_strlit("AND");
    reveal_strlit("OR");
    reveal_strlit("NOT");
    reveal_strlit("&&");
    reveal_strlit("||");
    reveal_strlit("!");
    assert(("AND"@).len() == 3 && ("AND"@)[0] == 'A');
    assert(("OR"@).len() == 2 && ("OR"@)[0] == 'O');
    assert(("NOT"@).len() == 3 && ("NOT"@)[0] == 'N');
    assert(("&&"@).len() == 2 && ("&&"@)[0] == '&');
    assert(("||"@).len() == 2 && ("||"@)[0] == '|');
    assert(("!"@).len() == 1 && ("!"@)[0] == '!');
}

impl LogicOp {
    /// Returns the string representation of the LogicOp variant.
    pub fn as_str(&self) -> (r: &'static str)
        ensures
            r@ == logicop_name(*self),
    {
        match self {
            LogicOp::AND => "AND",
            LogicOp::OR => "OR",
            LogicOp::NOT => "NOT",
        }
    }

    /// Converts the LogicOp variant to a String.
    pub fn to_string(&self) -> (r: String)
        ensures
            r@ == logicop_name(*self),
    {
        self.as_str().to_owned()
    }

    /// Creates a LogicOp variant from a string representation.
    pub fn from_str(value: &str) -> (r: Option<LogicOp>)
        ensures
            r == logicop_of_str(value@),
    {
        if str_eq(value, "AND") || str_eq(value, "&&") {
            Some(LogicOp::AND)
        } else if str_eq(value, "OR") || str_eq(value, "||") {
            Some(LogicOp::OR)
        } else if str_eq(value, "NOT") || str_eq(value, "!") {
            Some(LogicOp::NOT)
        } else {
            None
        }
    }
}

} // verus!
