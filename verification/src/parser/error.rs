//! The error model: a coded, positioned parse error built through an
//! accumulating builder that copies line information from an attached token.

use vstd::prelude::*;

use crate::enums::token_type::{token_type_name, TokenType};
use crate::token::{Token, TokenSpec};

verus! {

/// The closed set of parse error codes.
#[derive(Debug, Clone, Copy, PartialEq, Eq, Structural)]
pub enum ParserErrorCode {
    /// A wrapped or otherwise uncategorized failure
    Unexpected,
    /// The input ended where more tokens were required
    UnexpectedEOF,
    /// A token of the wrong kind where a specific kind was required
    UnexpectedToken,
    /// A token that cannot begin an expression
    InvalidExpression,
    /// A statement missing its terminating semicolon
    MissingSemicolon,
    /// A character the scanner could not classify
    UnexpectedCharacter,
    /// An assignment target that is not assignable
    InvalidAssignmentTarget,
}

/// The name of an error code, as it appears in rendered errors.
pub open spec fn code_name(c: ParserErrorCode) -> Seq<char> {
    match c {
        ParserErrorCode::Unexpected => "Unexpected"@,
        ParserErrorCode::UnexpectedEOF => "UnexpectedEOF"@,
        ParserErrorCode::UnexpectedToken => "UnexpectedToken"@,
        ParserErrorCode::InvalidExpression => "InvalidExpression"@,
        ParserErrorCode::MissingSemicolon => "MissingSemicolon"@,
        ParserErrorCode::UnexpectedCharacter => "UnexpectedCharacter"@,
        ParserErrorCode::InvalidAssignmentTarget => "InvalidAssignmentTarget"@,
    }
}

impl ParserErrorCode {
    /// Returns the name of the error code.
    pub fn as_str(&self) -> (r: &'static str)
        ensures
            r@ == code_name(*self),
    {
        match self {
            ParserErrorCode::Unexpected => "Unexpected",
            ParserErrorCode::UnexpectedEOF => "UnexpectedEOF",
            ParserErrorCode::UnexpectedToken => "UnexpectedToken",
            ParserErrorCode::InvalidExpression => "InvalidExpression",
            ParserErrorCode::MissingSemicolon => "MissingSemicolon",
            ParserErrorCode::UnexpectedCharacter => "UnexpectedCharacter",
            ParserErrorCode::InvalidAssignmentTarget => "InvalidAssignmentTarget",
        }
    }
}

/// The mathematical model of a [`ParserError`].
pub ghost struct ErrSpec {
    pub code: ParserErrorCode,
    pub message: Seq<char>,
    pub token: Option<TokenSpec>,
    pub at: Option<usize>,
    pub to: Option<usize>,
}

/// The error built for a wrapped, uncategorized failure.
pub open spec fn spec_unexpected(msg: Seq<char>) -> ErrSpec {
    ErrSpec {
        code: ParserErrorCode::Unexpected,
        message: "Unexpected: "@ + msg,
        token: None,
        at: None,
        to: None,
    }
}

/// The error built for a token of the wrong kind: it names the offending
/// and the expected kind, carries the token, and copies its line.
pub open spec fn spec_unexpected_token(t: TokenSpec, expected: TokenType) -> ErrSpec {
    ErrSpec {
        code: ParserErrorCode::UnexpectedToken,
        message: "Unexpected token: '"@ + token_type_name(t.t) + "', expected: "@
            + token_type_name(expected),
        token: Some(t),
        at: t.line,
        to: None,
    }
}

/// The error built for running out of input.
pub open spec fn spec_unexpected_eof() -> ErrSpec {
    ErrSpec {
        code: ParserErrorCode::UnexpectedEOF,
        message: "Unexpected end of file"@,
        token: None,
        at: None,
        to: None,
    }
}

/// The error built for a token that cannot begin an expression.
pub open spec fn spec_invalid_expression() -> ErrSpec {
    ErrSpec {
        code: ParserErrorCode::InvalidExpression,
        message: "Invalid expression"@,
        token: None,
        at: None,
        to: None,
    }
}

/// The error built for a missing semicolon.
pub open spec fn spec_missing_semicolon() -> ErrSpec {
    ErrSpec {
        code: ParserErrorCode::MissingSemicolon,
        message: "Missing semicolon"@,
        token: None,
        at: None,
        to: None,
    }
}

/// The error built for an unclassifiable character.
pub open spec fn spec_unexpected_character(ch: char) -> ErrSpec {
    ErrSpec {
        code: ParserErrorCode::UnexpectedCharacter,
        message: "Unexpected character: '"@ + seq![ch] + "'"@,
        token: None,
        at: None,
        to: None,
    }
}

/// The error built for an invalid assignment target.
pub open spec fn spec_invalid_assignment_target() -> ErrSpec {
    ErrSpec {
        code: ParserErrorCode::InvalidAssignmentTarget,
        message: "Invalid assignment target"@,
        token: None,
        at: None,
        to: None,
    }
}

/// Every error the parser constructs carries a non-empty message.
pub proof fn lemma_error_messages_nonempty(
    msg: Seq<char>,
    t: TokenSpec,
    expected: TokenType,
    ch: char,
)
    ensures
        spec_unexpected(msg).message.len() > 0,
        spec_unexpected_token(t, expected).message.len() > 0,
        spec_unexpected_eof().message.len() > 0,
        spec_invalid_expression().message.len() > 0,
        spec_missing_semicolon().message.len() > 0,
        spec_unexpected_character(ch).message.len() > 0,
        spec_invalid_assignment_target().message.len() > 0,
{
    reveal_strlit("Unexpected: ");
    reveal_strlit("Unexpected token: '");
    reveal_strlit("Unexpected end of file");
    reveal_strlit("Invalid expression");
    reveal_strlit("Missing semicolon");
    reveal_strlit("Unexpected character: '");
    reveal_strlit("Invalid assignment target");
}

/// A parse error: its code, a human-readable message, the token that
/// triggered it where one exists, and an optional position range.
#[derive(Debug, PartialEq)]
pub struct ParserError {
    code: ParserErrorCode,
    message: String,
    token: Option<Token>,
    at: Option<usize>,
    to: Option<usize>,
}

impl View for ParserError {
    type V = ErrSpec;

    closed spec fn view(&self) -> ErrSpec {
        ErrSpec {
            code: self.code,
            message: self.message@,
            token: match self.token {
                Some(t) => Some(t@),
                None => None,
            },
            at: self.at,
            to: self.to,
        }
    }
}

impl Clone for ParserError {
    fn clone(&self) -> (r: ParserError)
        ensures
            r == *self,
    {
        ParserError {
            code: self.code,
            message: self.message.clone(),
            token: match &self.token {
                Some(t) => Some(t.clone()),
                None => None,
            },
            at: self.at,
            to: self.to,
        }
    }
}

impl ParserError {
    /// Builds an error from all of its parts.
    pub fn new(
        code: ParserErrorCode,
        message: String,
        token: Option<Token>,
        at: Option<usize>,
        to: Option<usize>,
    ) -> (r: ParserError)
        ensures
            r@ == (ErrSpec {
                code,
                message: message@,
                token: match token {
                    Some(t) => Some(t@),
                    None => None,
                },
                at,
                to,
            }),
    {
        ParserError { code, message, token, at, to }
    }

    /// Wraps an uncategorized failure message.
    pub fn unexpected(error: String) -> (r: ParserError)
        ensures
            r@ == spec_unexpected(error@),
    {
        let mut message = String::from_str("Unexpected: ");
        message.append(error.as_str());
        ParserErrorBuilder::new(ParserErrorCode::Unexpected, message.as_str()).build()
    }

    /// Reports a token of the wrong kind together with the expected kind.
    pub fn unexpected_token(token: Token, expected: TokenType) -> (r: ParserError)
        ensures
            r@ == spec_unexpected_token(token@, expected),
    {
        let mut message = String::from_str("Unexpected token: '");
        message.append(token.t.as_str());
        message.append("', expected: ");
        message.append(expected.as_str());
        ParserErrorBuilder::new(ParserErrorCode::UnexpectedToken, message.as_str()).with_token(
            token,
        ).build()
    }

    /// Reports running out of input.
    pub fn unexpected_eof() -> (r: ParserError)
        ensures
            r@ == spec_unexpected_eof(),
    {
        ParserErrorBuilder::new(ParserErrorCode::UnexpectedEOF, "Unexpected end of file").build()
    }

    /// Reports a token that cannot begin an expression.
    pub fn invalid_expression() -> (r: ParserError)
        ensures
            r@ == spec_invalid_expression(),
    {
        ParserErrorBuilder::new(ParserErrorCode::InvalidExpression, "Invalid expression").build()
    }

    /// Reports a missing semicolon.
    pub fn missing_semicolon() -> (r: ParserError)
        ensures
            r@ == spec_missing_semicolon(),
    {
        ParserErrorBuilder::new(ParserErrorCode::MissingSemicolon, "Missing semicolon").build()
    }

    /// Reports an unclassifiable character.
    pub fn unexpected_character(ch: char) -> (r: ParserError)
        ensures
            r@ == spec_unexpected_character(ch),
    {
        let mut message = String::from_str("Unexpected character: '");
        crate::strutil::push_char(&mut message, ch);
        message.append("'");
        proof {
            assert(message@ =~= "Unexpected character: '"@ + seq![ch] + "'"@);
        }
        ParserErrorBuilder::new(ParserErrorCode::UnexpectedCharacter, message.as_str()).build()
    }

    /// Reports an invalid assignment target.
    pub fn invalid_assignment_target() -> (r: ParserError)
        ensures
            r@ == spec_invalid_assignment_target(),
    {
        ParserErrorBuilder::new(
            ParserErrorCode::InvalidAssignmentTarget,
            "Invalid assignment target",
        ).build()
    }

    /// The error's code.
    pub fn code(&self) -> (r: &ParserErrorCode)
        ensures
            *r == self@.code,
    {
        &self.code
    }

    /// Replaces the error's code.
    pub fn set_code(&mut self, code: ParserErrorCode)
        ensures
            final(self)@ == (ErrSpec { code, ..old(self)@ }),
    {
        self.code = code;
    }

    /// The error's message.
    pub fn message(&self) -> (r: &str)
        ensures
            r@ == self@.message,
    {
        self.message.as_str()
    }

    /// Replaces the error's message.
    pub fn set_message(&mut self, message: String)
        ensures
            final(self)@ == (ErrSpec { message: message@, ..old(self)@ }),
    {
        self.message = message;
    }

    /// The token the error is attached to, where one exists.
    pub fn token(&self) -> (r: Option<&Token>)
        ensures
            (match r {
                Some(t) => self@.token == Some(t@),
                None => self@.token is None,
            }),
    {
        self.token.as_ref()
    }

    /// Replaces the attached token.
    pub fn set_token(&mut self, token: Option<Token>)
        ensures
            final(self)@ == (ErrSpec {
                token: match token {
                    Some(t) => Some(t@),
                    None => None,
                },
                ..old(self)@
            }),
    {
        self.token = token;
    }

    /// The start of the error's position range, where known.
    pub fn at(&self) -> (r: Option<usize>)
        ensures
            r == self@.at,
    {
        self.at
    }

    /// Replaces the start of the position range.
    pub fn set_at(&mut self, at: Option<usize>)
        ensures
            final(self)@ == (ErrSpec { at, ..old(self)@ }),
    {
        self.at = at;
    }

    /// The end of the error's position range, where known.
    pub fn to(&self) -> (r: Option<usize>)
        ensures
            r == self@.to,
    {
        self.to
    }

    /// Replaces the end of the position range.
    pub fn set_to(&mut self, to: Option<usize>)
        ensures
            final(self)@ == (ErrSpec { to, ..old(self)@ }),
    {
        self.to = to;
    }

    /// Renders the error as `Error(<code>): <message>`.
    pub fn to_string(&self) -> (r: String)
        ensures
            r@ == "Error("@ + code_name(self@.code) + "): "@ + self@.message,
    {
        let mut s = String::from_str("Error(");
        s.append(self.code.as_str());
        s.append("): ");
        s.append(self.message.as_str());
        proof {
            assert(s@ =~= "Error("@ + code_name(self@.code) + "): "@ + self@.message);
        }
        s
    }
}

/// An accumulating builder for [`ParserError`].
pub struct ParserErrorBuilder {
    code: ParserErrorCode,
    message: String,
    token: Option<Token>,
    at: Option<usize>,
    to: Option<usize>,
}

impl View for ParserErrorBuilder {
    type V = ErrSpec;

    closed spec fn view(&self) -> ErrSpec {
        ErrSpec {
            code: self.code,
            message: self.message@,
            token: match self.token {
                Some(t) => Some(t@),
                None => None,
            },
            at: self.at,
            to: self.to,
        }
    }
}

impl ParserErrorBuilder {
    /// Starts a builder from a code and a message.
    pub fn new(code: ParserErrorCode, message: &str) -> (r: ParserErrorBuilder)
        ensures
            r@ == (ErrSpec { code, message: message@, token: None, at: None, to: None }),
    {
        ParserErrorBuilder { code, message: message.to_owned(), token: None, at: None, to: None }
    }

    /// Attaches a token, copying its line into the range start where the
    /// token carries one.
    pub fn with_token(self, token: Token) -> (r: ParserErrorBuilder)
        ensures
            r@ == (ErrSpec {
                token: Some(token@),
                at: match token@.line {
                    Some(l) => Some(l),
                    None => self@.at,
                },
                ..self@
            }),
    {
        let at = match token.line {
            Some(l) => Some(l),
            None => self.at,
        };
        ParserErrorBuilder { token: Some(token), at, ..self }
    }

    /// Sets the error's position range.
    pub fn with_range(self, at: usize, to: usize) -> (r: ParserErrorBuilder)
        ensures
            r@ == (ErrSpec { at: Some(at), to: Some(to), ..self@ }),
    {
        ParserErrorBuilder { at: Some(at), to: Some(to), ..self }
    }

    /// Finishes the builder into an error.
    pub fn build(self) -> (r: ParserError)
        ensures
            r@ == self@,
    {
        ParserError {
            code: self.code,
            message: self.message,
            token: self.token,
            at: self.at,
            to: self.to,
        }
    }
}

} // verus!
