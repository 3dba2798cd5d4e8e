//! The scanner: consumes a character sequence and produces one token at a
//! time, using one character of lookahead to disambiguate single- versus
//! double-character operators and to track line numbers.

use vstd::prelude::*;

use crate::enums::cmp::Cmp;
use crate::enums::keyword::Keyword;
use crate::enums::logicop::LogicOp;
use crate::enums::token_type::TokenType;
use crate::lexer::scan::{
    char_at, digits_end, is_digit_char, is_letter_char, is_word_char, lemma_digits_end_bounds,
    lemma_scan_bounds, lemma_skip_ws_line_bounds, lemma_skip_ws_pos_bounds, lemma_word_end_bounds,
    scan_end, scan_tok, skip_ws_line, skip_ws_pos, word_end,
};
use crate::strutil::push_char;
use crate::token::Token;

pub mod reserved;
pub mod scan;
pub mod token;

verus! {

/// A character that may start an identifier.
fn is_letter(c: char) -> (r: bool)
    ensures
        r == is_letter_char(c),
{
    ('a' <= c && c <= 'z') || ('A' <= c && c <= 'Z') || c == '_'
}

/// A decimal digit.
fn is_digit(c: char) -> (r: bool)
    ensures
        r == is_digit_char(c),
{
    '0' <= c && c <= '9'
}

/// A character that may continue an identifier.
fn is_word(c: char) -> (r: bool)
    ensures
        r == is_word_char(c),
{
    is_letter(c) || is_digit(c)
}

/// The scanner.  It owns the input as an indexable character sequence plus
/// a primary cursor, a lookahead cursor, the character under the primary
/// cursor, and the current line number.
#[derive(Debug)]
pub struct Lexer {
    input: Vec<char>,
    position: usize,
    next_position: usize,
    c: char,
    line: usize,
}

impl Lexer {
    /// The input as a character sequence.
    pub closed spec fn chars(&self) -> Seq<char> {
        self.input@
    }

    /// The primary cursor: the offset of the next character to scan.
    pub closed spec fn pos(&self) -> int {
        self.position as int
    }

    /// The current line number, starting at 1.
    pub closed spec fn line_num(&self) -> int {
        self.line as int
    }

    /// Well-formedness: the cursors sit inside the input (saturating at its
    /// end), the cached character is the one under the primary cursor, and
    /// the line counter leaves room for one increment per remaining
    /// character.
    pub closed spec fn wf(&self) -> bool {
        &&& self.position <= self.input@.len()
        &&& (self.position < self.input@.len() ==> self.next_position == self.position + 1)
        &&& (self.position == self.input@.len() ==> self.next_position == self.position)
        &&& self.c == char_at(self.input@, self.position as int)
        &&& 1 <= self.line
        &&& self.line + self.input@.len() - self.position <= usize::MAX
    }

    /// The bounds a well-formed scanner's cursor and line counter satisfy,
    /// for callers that hold the predicate abstractly.
    pub proof fn lemma_wf_bounds(l: Lexer)
        requires
            l.wf(),
        ensures
            0 <= l.pos() <= l.chars().len(),
            1 <= l.line_num(),
    {
    }

    /// Builds a scanner over `input`, with the cursor on the first
    /// character and the line counter at 1.  The input must be at least one
    /// character short of the address space, so that the line counter —
    /// which grows by at most one per character — cannot overflow.
    pub fn new(input: Vec<char>) -> (r: Lexer)
        requires
            input@.len() < usize::MAX,
        ensures
            r.wf(),
            r.chars() == input@,
            r.pos() == 0,
            r.line_num() == 1,
    {
        let c: char = if input.len() > 0 {
            input[0]
        } else {
            '\0'
        };
        let next_position: usize = if input.len() > 0 {
            1
        } else {
            0
        };
        Lexer { input, position: 0, next_position, c, line: 1 }
    }

    /// Advances the primary cursor by one character, saturating one past the
    /// last character, where the cached character reads as `'\0'`.
    pub fn read_char(&mut self)
        requires
            old(self).wf(),
        ensures
            final(self).wf(),
            final(self).chars() == old(self).chars(),
            final(self).line_num() == old(self).line_num(),
            final(self).pos() == (if old(self).pos() < old(self).chars().len() {
                old(self).pos() + 1
            } else {
                old(self).pos()
            }),
    {
        if self.next_position >= self.input.len() {
            self.c = '\0';
        } else {
            self.c = self.input[self.next_position];
        }
        self.position = self.next_position;
        if self.next_position < self.input.len() {
            self.next_position = self.next_position + 1;
        }
    }

    /// The character one past the primary cursor, or `'\0'` beyond the end.
    pub fn peek_next_char(&mut self) -> (c: char)
        requires
            old(self).wf(),
        ensures
            *final(self) == *old(self),
            c == char_at(old(self).chars(), old(self).pos() + 1),
    {
        if self.next_position >= self.input.len() {
            '\0'
        } else {
            self.input[self.next_position]
        }
    }

    /// Skips the whitespace run under the cursor, counting line breaks.
    fn maybe_read_whitespace(&mut self)
        requires
            old(self).wf(),
        ensures
            final(self).wf(),
            final(self).chars() == old(self).chars(),
            final(self).pos() == skip_ws_pos(old(self).chars(), old(self).pos()),
            final(self).line_num() == skip_ws_line(
                old(self).chars(),
                old(self).pos(),
                old(self).line_num(),
            ),
    {
        loop
            invariant
                self.wf(),
                self.chars() == old(self).chars(),
                skip_ws_pos(self.chars(), self.pos()) == skip_ws_pos(
                    old(self).chars(),
                    old(self).pos(),
                ),
                skip_ws_line(self.chars(), self.pos(), self.line_num()) == skip_ws_line(
                    old(self).chars(),
                    old(self).pos(),
                    old(self).line_num(),
                ),
            ensures
                self.wf(),
                self.chars() == old(self).chars(),
                self.pos() == skip_ws_pos(old(self).chars(), old(self).pos()),
                self.line_num() == skip_ws_line(
                    old(self).chars(),
                    old(self).pos(),
                    old(self).line_num(),
                ),
            decreases self.chars().len() - self.pos(),
        {
            if self.c == '\n' || self.c == '\r' {
                self.read_char();
                self.line = self.line + 1;
            } else if self.c == ' ' || self.c == '\t' {
                self.read_char();
            } else {
                break ;
            }
        }
    }

    /// Accumulates the identifier run under the cursor into a lexeme.
    fn maybe_read_identifier(&mut self) -> (r: String)
        requires
            old(self).wf(),
        ensures
            final(self).wf(),
            final(self).chars() == old(self).chars(),
            final(self).line_num() == old(self).line_num(),
            final(self).pos() == word_end(old(self).chars(), old(self).pos()),
            r@ == old(self).chars().subrange(
                old(self).pos(),
                word_end(old(self).chars(), old(self).pos()),
            ),
    {
        let ghost s = self.input@;
        let ghost p0 = self.pos();
        let mut lexeme = String::new();
        loop
            invariant
                self.wf(),
                self.chars() == s,
                self.line_num() == old(self).line_num(),
                0 <= p0 <= self.pos() <= s.len(),
                word_end(s, self.pos()) == word_end(s, p0),
                lexeme@ == s.subrange(p0, self.pos()),
            ensures
                self.wf(),
                self.chars() == s,
                self.line_num() == old(self).line_num(),
                self.pos() == word_end(s, p0),
                lexeme@ == s.subrange(p0, word_end(s, p0)),
            decreases s.len() - self.pos(),
        {
            let c = self.c;
            if is_word(c) {
                push_char(&mut lexeme, c);
                self.read_char();
                proof {
                    assert(lexeme@ =~= s.subrange(p0, self.pos()));
                }
            } else {
                break ;
            }
        }
        lexeme
    }

    /// Accumulates the digit run under the cursor into a lexeme.
    fn maybe_read_number(&mut self) -> (r: String)
        requires
            old(self).wf(),
        ensures
            final(self).wf(),
            final(self).chars() == old(self).chars(),
            final(self).line_num() == old(self).line_num(),
            final(self).pos() == digits_end(old(self).chars(), old(self).pos()),
            r@ == old(self).chars().subrange(
                old(self).pos(),
                digits_end(old(self).chars(), old(self).pos()),
            ),
    {
        let ghost s = self.input@;
        let ghost p0 = self.pos();
        let mut number = String::new();
        loop
            invariant
                self.wf(),
                self.chars() == s,
                self.line_num() == old(self).line_num(),
                0 <= p0 <= self.pos() <= s.len(),
                digits_end(s, self.pos()) == digits_end(s, p0),
                number@ == s.subrange(p0, self.pos()),
            ensures
                self.wf(),
                self.chars() == s,
                self.line_num() == old(self).line_num(),
                self.pos() == digits_end(s, p0),
                number@ == s.subrange(p0, digits_end(s, p0)),
            decreases s.len() - self.pos(),
        {
            let c = self.c;
            if is_digit(c) {
                push_char(&mut number, c);
                self.read_char();
                proof {
                    assert(number@ =~= s.subrange(p0, self.pos()));
                }
            } else {
                break ;
            }
        }
        number
    }

    /// Scans and returns the next token.
    ///
    /// The returned token is exactly the one the scan model places at the
    /// first non-whitespace position, it carries the line and offset of the
    /// scan, and the cursor ends just past the consumed characters.  At the
    /// end of the input this returns an end-of-file token and leaves the
    /// state unchanged, so every subsequent call returns the same again.
    #[verifier::rlimit(60)]
    pub fn next_token(&mut self) -> (tok: Token)
        requires
            old(self).wf(),
        ensures
            ({
                let s = old(self).chars();
                let p = skip_ws_pos(s, old(self).pos());
                let l = skip_ws_line(s, old(self).pos(), old(self).line_num());
                let st = scan_tok(s, p);
                &&& final(self).wf()
                &&& final(self).chars() == s
                &&& final(self).pos() == scan_end(s, p)
                &&& final(self).line_num() == l
                &&& tok.t == st.t
                &&& tok.value@ == st.value
                &&& tok.line == Some(l as usize)
                &&& tok.position == Some(st.tok_pos as usize)
                &&& tok.filename is None
            }),
    {
        let ghost s = self.input@;
        let ghost p0 = self.pos();
        let ghost l0 = self.line_num();
        self.maybe_read_whitespace();
        let ghost p = self.pos();
        proof {
            lemma_skip_ws_pos_bounds(s, p0);
            lemma_skip_ws_line_bounds(s, p0, l0);
            lemma_scan_bounds(s, p);
        }
        let line = self.line;
        let position = self.position;
        let c = self.c;
        if is_letter(c) {
            proof {
                lemma_word_end_bounds(s, p);
            }
            let lexeme = self.maybe_read_identifier();
            let t = match Keyword::from_str(lexeme.as_str()) {
                Some(k) => TokenType::KEYWORD(k),
                None => TokenType::IDENT,
            };
            return Token {
                t,
                value: lexeme,
                line: Some(line),
                position: Some(position),
                filename: None,
            };
        }
        if is_digit(c) {
            proof {
                lemma_digits_end_bounds(s, p);
            }
            let number = self.maybe_read_number();
            let end_position = self.position;
            return Token {
                t: TokenType::INT,
                value: number,
                line: Some(line),
                position: Some(end_position),
                filename: None,
            };
        }
        let mut value = String::new();
        push_char(&mut value, c);
        let t: TokenType = match c {
            '=' => {
                if self.peek_next_char() == '=' {
                    self.read_char();
                    push_char(&mut value, '=');
                    TokenType::CMP(Cmp::EQUAL)
                } else {
                    TokenType::ASSIGN
                }
            },
            ';' => TokenType::SEMICOLON,
            ':' => {
                if self.peek_next_char() == ':' {
                    self.read_char();
                    push_char(&mut value, ':');
                    TokenType::SCOPE
                } else {
                    TokenType::COLON
                }
            },
            '(' => TokenType::LPAREN,
            ')' => TokenType::RPAREN,
            '.' => {
                if self.peek_next_char() == '.' {
                    self.read_char();
                    push_char(&mut value, '.');
                    if self.peek_next_char() == '=' {
                        self.read_char();
                        push_char(&mut value, '=');
                        TokenType::IRANGE
                    } else {
                        TokenType::RANGE
                    }
                } else {
                    TokenType::DOT
                }
            },
            ',' => TokenType::COMMA,
            '+' | '-' | '*' | '/' | '%' => {
                if c != '%' && self.peek_next_char() == c {
                    self.read_char();
                    push_char(&mut value, c);
                    TokenType::ARITHMETIC(
                        match c {
                            '+' => crate::enums::arithmetic::Arithmetic::INC,
                            '-' => crate::enums::arithmetic::Arithmetic::DEC,
                            '*' => crate::enums::arithmetic::Arithmetic::POW,
                            _ => crate::enums::arithmetic::Arithmetic::FDIV,
                        },
                    )
                } else {
                    TokenType::ARITHMETIC(
                        match c {
                            '+' => crate::enums::arithmetic::Arithmetic::PLUS,
                            '-' => crate::enums::arithmetic::Arithmetic::MINUS,
                            '*' => crate::enums::arithmetic::Arithmetic::MUL,
                            '/' => crate::enums::arithmetic::Arithmetic::DIV,
                            _ => crate::enums::arithmetic::Arithmetic::MOD,
                        },
                    )
                }
            },
            '&' | '|' | '~' | '^' => {
                if (c == '&' || c == '|') && self.peek_next_char() == c {
                    self.read_char();
                    push_char(&mut value, c);
                    TokenType::LOGICOP(
                        if c == '&' {
                            LogicOp::AND
                        } else {
                            LogicOp::OR
                        },
                    )
                } else {
                    TokenType::BITOP(
                        match c {
                            '&' => crate::enums::bitop::Bitop::AND,
                            '|' => crate::enums::bitop::Bitop::OR,
                            '~' => crate::enums::bitop::Bitop::NOT,
                            _ => crate::enums::bitop::Bitop::XOR,
                        },
                    )
                }
            },
            '!' => {
                if self.peek_next_char() == '=' {
                    self.read_char();
                    push_char(&mut value, '=');
                    TokenType::CMP(Cmp::NEQUAL)
                } else {
                    TokenType::LOGICOP(LogicOp::NOT)
                }
            },
            '{' => TokenType::LBRACE,
            '}' => TokenType::RBRACE,
            '<' => {
                if self.peek_next_char() == '=' {
                    self.read_char();
                    push_char(&mut value, '=');
                    TokenType::CMP(Cmp::LE)
                } else {
                    TokenType::CMP(Cmp::LT)
                }
            },
            '>' => {
                if self.peek_next_char() == '=' {
                    self.read_char();
                    push_char(&mut value, '=');
                    TokenType::CMP(Cmp::GE)
                } else {
                    TokenType::CMP(Cmp::GT)
                }
            },
            '"' => TokenType::DQUOTE,
            '\'' => TokenType::QUOTE,
            '`' => TokenType::BACKTICK,
            '\0' => TokenType::EOF,
            _ => TokenType::ILLEGAL,
        };
        self.read_char();
        Token { t, value, line: Some(line), position: Some(position), filename: None }
    }
}

} // verus!
