//! Precedence ranks for expression parsing.  The ranks exist for the
//! precedence-climbing skeleton; no infix rule consults them yet.

use vstd::prelude::*;

verus! {

/// The precedence ranks, loosest first.
#[derive(Debug, Clone, Copy, PartialEq, Eq, Structural)]
pub enum Precedence {
    Lowest,
    EQ,
    LGT,
    Sum,
    Product,
    Prefix,
    Call,
}

/// The display name of a precedence rank.
pub open spec fn precedence_name(p: Precedence) -> Seq<char> {
    match p {
        Precedence::Lowest => "Lowest"@,
        Precedence::EQ => "EQ"@,
        Precedence::LGT => "LGT"@,
        Precedence::Sum => "sum"@,
        Precedence::Product => "Product"@,
        Precedence::Prefix => "Prefix"@,
        Precedence::Call => "Call"@,
    }
}

impl Precedence {
    /// Converts the precedence rank to a String.
    pub fn to_string(&self) -> (r: String)
        ensures
            r@ == precedence_name(*self),
    {
        match self {
            Precedence::Lowest => String::from_str("Lowest"),
            Precedence::EQ => String::from_str("EQ"),
            Precedence::LGT => String::from_str("LGT"),
            Precedence::Sum => String::from_str("sum"),
            Precedence::Product => String::from_str("Product"),
            Precedence::Prefix => String::from_str("Prefix"),
            Precedence::Call => String::from_str("Call"),
        }
    }
}

} // verus!
