//! The program node: an ordered sequence of statements.

use vstd::prelude::*;

use crate::ast::statements::{stmt_text, stmt_view, Statement, StmtSpec};

verus! {

/// The model of a program: its statements in source order.
pub open spec fn program_view(p: Program) -> Seq<StmtSpec> {
    p.statements@.map_values(|st: Statement| stmt_view(st))
}

/// The source-like text of a program: each statement's text followed by a
/// line break.
pub open spec fn program_text(stmts: Seq<StmtSpec>) -> Seq<char>
    decreases stmts.len(),
{
    if stmts.len() == 0 {
        Seq::empty()
    } else {
        program_text(stmts.drop_last()) + stmt_text(stmts.last()) + "\n"@
    }
}

/// A parsed program: the statements in source order.
#[derive(Debug)]
pub struct Program {
    pub statements: Vec<Statement>,
}

impl Program {
    /// Builds an empty program.
    pub fn new() -> (r: Program)
        ensures
            program_view(r) =~= Seq::<StmtSpec>::empty(),
    {
        Program { statements: Vec::new() }
    }

    /// The text of the first statement's token, or the empty string for an
    /// empty program.
    pub fn get_token(&self) -> (r: String)
        ensures
            self.statements@.len() == 0 ==> r@ == Seq::<char>::empty(),
            self.statements@.len() > 0 ==> r@ == (match self.statements@[0] {
                Statement::Declare(d) => d.token@.value,
                Statement::Return(rt) => rt.token@.value,
                Statement::Expression(_) => "return EXPR;"@,
            }),
    {
        if self.statements.len() == 0 {
            String::new()
        } else {
            self.statements[0].get_token()
        }
    }

    /// Renders the whole program back to source-like text, one line per
    /// statement.
    pub fn to_string(&self) -> (r: String)
        ensures
            r@ == program_text(program_view(*self)),
    {
        let ghost stmts = program_view(*self);
        let mut s = String::new();
        let mut i: usize = 0;
        while i < self.statements.len()
            invariant
                0 <= i <= self.statements@.len(),
                stmts == program_view(*self),
                stmts.len() == self.statements@.len(),
                s@ == program_text(stmts.subrange(0, i as int)),
            decreases self.statements@.len() - i,
        {
            let text = self.statements[i].to_string();
            s.append(text.as_str());
            s.append("\n");
            proof {
                let pre = stmts.subrange(0, i as int);
                let cur = stmts.subrange(0, i + 1 as int);
                assert(cur.drop_last() =~= pre);
                assert(cur.last() == stmts[i as int]);
                assert(s@ =~= program_text(cur));
            }
            i = i + 1;
        }
        proof {
            assert(stmts.subrange(0, stmts.len() as int) =~= stmts);
        }
        s
    }
}

} // verus!
