//! The token model: one lexical unit together with its source position.

use vstd::prelude::*;

use crate::enums::token_type::TokenType;

verus! {

/// The mathematical model of a [`Token`]: the same fields with the strings
/// abstracted to their character sequences.
pub ghost struct TokenSpec {
    pub t: TokenType,
    pub value: Seq<char>,
    pub line: Option<usize>,
    pub position: Option<usize>,
    pub filename: Option<Seq<char>>,
}

/// One lexical unit: its kind, the exact matched text, and, where known, the
/// line, character offset and source name it was scanned from.
#[derive(Default, Debug, PartialEq)]
pub struct Token {
    pub t: TokenType,
    pub value: String,
    pub line: Option<usize>,
    pub position: Option<usize>,
    pub filename: Option<String>,
}

impl View for Token {
    type V = TokenSpec;

    open spec fn view(&self) -> TokenSpec {
        TokenSpec {
            t: self.t,
            value: self.value@,
            line: self.line,
            position: self.position,
            filename: match self.filename {
                Some(f) => Some(f@),
                None => None,
            },
        }
    }
}

impl Clone for Token {
    fn clone(&self) -> (r: Token)
        ensures
            r == *self,
    {
        Token {
            t: self.t,
            value: self.value.clone(),
            line: self.line,
            position: self.position,
            filename: match &self.filename {
                Some(f) => Some(f.clone()),
                None => None,
            },
        }
    }
}

impl Token {
    /// Builds a token from its parts.
    pub fn new(
        t: TokenType,
        value: &str,
        line: Option<usize>,
        position: Option<usize>,
        filename: Option<String>,
    ) -> (r: Token)
        ensures
            r@ == (TokenSpec {
                t,
                value: value@,
                line,
                position,
                filename: match filename {
                    Some(f) => Some(f@),
                    None => None,
                },
            }),
    {
        Token { t, value: value.to_owned(), line, position, filename }
    }
}

} // verus!
