//! The read-eval-print driver's verified core: it keeps the line buffer,
//! the prompt counter and the token queue, and it tokenizes one line at a
//! time.  Reading from and printing to the terminal stay with the caller.

use vstd::prelude::*;

use crate::enums::token_type::TokenType;
use crate::lexer::Lexer;
use crate::parser::grammar::{lemma_progress, next_state, tok_at, PState};
use crate::queue::Queue;
use crate::strutil::chars_vec;
use crate::token::{Token, TokenSpec};

verus! {

/// The outcome of tokenizing a line: whether no illegal token was met, and
/// the tokens collected up to the end of input or the first illegal token,
/// the end-of-file token excluded.
pub ghost struct EvalOut {
    pub ok: bool,
    pub toks: Seq<TokenSpec>,
}

/// The token stream of a line from state `st` on: collection stops at the
/// first end-of-file token, and an illegal token stops it and marks the
/// whole line bad.
pub open spec fn scan_stream(s: Seq<char>, st: PState) -> EvalOut
    decreases s.len() - st.pos,
{
    let t = tok_at(s, st);
    if t.t == TokenType::ILLEGAL {
        EvalOut { ok: false, toks: Seq::empty() }
    } else if t.t == TokenType::EOF {
        EvalOut { ok: true, toks: Seq::empty() }
    } else {
        proof {
            lemma_progress(s, st);
        }
        let rest = scan_stream(s, next_state(s, st));
        EvalOut { ok: rest.ok, toks: seq![t] + rest.toks }
    }
}

/// The interactive driver's state: the tokens of the last line, the line
/// buffer, and the prompt counter.
#[derive(Debug)]
pub struct REPL {
    pub tokens: Queue<Token>,
    pub buffer: String,
    pub index: usize,
}

impl REPL {
    /// Builds a fresh driver state: no tokens, an empty buffer, and the
    /// prompt counter at 1.
    pub fn new() -> (r: REPL)
        ensures
            r.tokens@ == Seq::<Token>::empty(),
            r.buffer@ == Seq::<char>::empty(),
            r.index == 1,
    {
        REPL { tokens: Queue::new(), buffer: String::new(), index: 1 }
    }

    /// Takes the next input line: the token queue and buffer are reset and
    /// the prompt counter moves on, saturating at its maximum.
    pub fn load_line(&mut self, line: String)
        ensures
            final(self).tokens@ == Seq::<Token>::empty(),
            final(self).buffer@ == line@,
            final(self).index == (if old(self).index < usize::MAX {
                old(self).index + 1
            } else {
                old(self).index as int
            }),
    {
        self.tokens.clear();
        self.buffer = line;
        if self.index < usize::MAX {
            self.index = self.index + 1;
        }
    }

    /// Tokenizes the buffered line into the token queue, stopping at the
    /// end of the line; an illegal token stops the scan and reports
    /// failure, with the tokens scanned before it kept.  A line too long
    /// for the scanner's counters is rejected outright.
    pub fn eval(&mut self) -> (ok: bool)
        ensures
            final(self).buffer == old(self).buffer,
            final(self).index == old(self).index,
            ({
                let s = old(self).buffer@;
                if s.len() < usize::MAX {
                    let out = scan_stream(s, PState { pos: 0, line: 1 });
                    &&& ok == out.ok
                    &&& final(self).tokens@.map_values(|t: Token| t@) == old(
                        self,
                    ).tokens@.map_values(|t: Token| t@) + out.toks
                } else {
                    &&& ok == false
                    &&& final(self).tokens@ == old(self).tokens@
                }
            }),
    {
        let ghost st0 = PState { pos: 0, line: 1 };
        let chars = chars_vec(self.buffer.as_str());
        let ghost s = chars@;
        if chars.len() == usize::MAX {
            return false;
        }
        let mut lexer = Lexer::new(chars);
        loop
            invariant_except_break
                scan_stream(s, st0).ok == scan_stream(
                    s,
                    PState { pos: lexer.pos(), line: lexer.line_num() },
                ).ok,
                old(self).tokens@.map_values(|t: Token| t@) + scan_stream(s, st0).toks
                    =~= self.tokens@.map_values(|t: Token| t@) + scan_stream(
                    s,
                    PState { pos: lexer.pos(), line: lexer.line_num() },
                ).toks,
            invariant
                st0 == (PState { pos: 0, line: 1 }),
                lexer.wf(),
                lexer.chars() == s,
                s == old(self).buffer@,
                s.len() < usize::MAX,
                self.buffer == old(self).buffer,
                self.index == old(self).index,
            ensures
                self.buffer == old(self).buffer,
                self.index == old(self).index,
                scan_stream(s, st0).ok == true,
                self.tokens@.map_values(|t: Token| t@) =~= old(self).tokens@.map_values(
                    |t: Token| t@,
                ) + scan_stream(s, st0).toks,
            decreases s.len() - lexer.pos(),
        {
            let ghost cur = PState { pos: lexer.pos(), line: lexer.line_num() };
            let ghost cur_toks = self.tokens@.map_values(|t: Token| t@);
            let token = lexer.next_token();
            if token.t == TokenType::ILLEGAL {
                proof {
                    let loc_toks = self.tokens@.map_values(|t: Token| t@);
                    let old_toks = old(self).tokens@.map_values(|t: Token| t@);
                    assert(tok_at(s, cur).t == TokenType::ILLEGAL);
                    assert(scan_stream(s, cur).ok == false);
                    assert(scan_stream(s, cur).toks == Seq::<TokenSpec>::empty());
                    assert(scan_stream(s, st0).ok == false);
                    assert(old_toks + scan_stream(s, st0).toks =~= loc_toks + scan_stream(
                        s,
                        cur,
                    ).toks);
                    assert(loc_toks + Seq::<TokenSpec>::empty() =~= loc_toks);
                    assert(loc_toks =~= old_toks + scan_stream(s, st0).toks);
                }
                return false;
            }
            if token.t == TokenType::EOF {
                break ;
            }
            proof {
                lemma_progress(s, cur);
            }
            self.tokens.enqueue(token);
            proof {
                let rest = scan_stream(s, next_state(s, cur));
                assert(self.tokens@.map_values(|t: Token| t@) =~= cur_toks.push(token@));
                assert(cur_toks + (seq![tok_at(s, cur)] + rest.toks) =~= cur_toks.push(token@)
                    + rest.toks);
            }
        }
        true
    }
}

} // verus!
