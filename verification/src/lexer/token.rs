//! An early, string-typed token shape kept for compatibility: the kind is a
//! plain string rather than a variant of the token kind enumeration.

use vstd::prelude::*;

verus! {

/// A string-typed token kind.
pub type TokenType = String;

/// A token whose kind is carried as a plain string.
#[derive(Default, Debug)]
pub struct Token {
    pub t: TokenType,
    pub value: String,
    pub line: Option<u32>,
    pub filename: Option<String>,
}

impl Token {
    /// Builds a token from a kind string and a value string, with no
    /// position attached.
    pub fn new(t: &str, value: &str) -> (r: Token)
        ensures
            r.t@ == t@,
            r.value@ == value@,
            r.line is None,
            r.filename is None,
    {
        Token { t: t.to_owned(), value: value.to_owned(), line: None, filename: None }
    }
}

} // verus!
