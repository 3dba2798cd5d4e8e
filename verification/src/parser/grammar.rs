//! The mathematical model of the parser.
//!
//! A parser state is the scanner state — cursor position and line — from
//! which the current token is scanned.  Each grammar rule is a spec function
//! from the input and such a state to a result and the state the rule leaves
//! the parser in.  The executable [`crate::parser::Parser`] is verified
//! against these rules.

use vstd::prelude::*;

use crate::ast::expressions::ExprSpec;
use crate::ast::statements::StmtSpec;
use crate::enums::arithmetic::Arithmetic;
use crate::enums::keyword::Keyword;
use crate::enums::logicop::LogicOp;
use crate::enums::token_type::TokenType;
use crate::lexer::scan::{
    lemma_scan_bounds, lemma_skip_ws_pos_bounds, scan_end, scan_tok, skip_ws_line, skip_ws_pos,
};
use crate::parser::error::{
    spec_invalid_assignment_target, spec_invalid_expression, spec_unexpected,
    spec_unexpected_eof, spec_unexpected_token, ErrSpec,
};
use crate::strutil::parse_i32_spec;
use crate::token::TokenSpec;

verus! {

/// A scanner state: the cursor position and the line counter.
pub ghost struct PState {
    pub pos: int,
    pub line: int,
}

/// The token scanned from state `st`: whitespace is skipped first, counting
/// line breaks, and the token at the first non-whitespace position follows.
pub open spec fn tok_at(s: Seq<char>, st: PState) -> TokenSpec {
    let p1 = skip_ws_pos(s, st.pos);
    let l1 = skip_ws_line(s, st.pos, st.line);
    let sc = scan_tok(s, p1);
    TokenSpec {
        t: sc.t,
        value: sc.value,
        line: Some(l1 as usize),
        position: Some(sc.tok_pos as usize),
        filename: None,
    }
}

/// The scanner state after consuming the token at `st`.
pub open spec fn next_state(s: Seq<char>, st: PState) -> PState {
    PState { pos: scan_end(s, skip_ws_pos(s, st.pos)), line: skip_ws_line(s, st.pos, st.line) }
}

/// Consuming a token from a state inside the input never moves backwards
/// and never leaves the input.
pub proof fn lemma_next_state_bounds(s: Seq<char>, st: PState)
    requires
        0 <= st.pos <= s.len(),
    ensures
        st.pos <= next_state(s, st).pos <= s.len(),
{
    lemma_skip_ws_pos_bounds(s, st.pos);
    lemma_scan_bounds(s, skip_ws_pos(s, st.pos));
}

/// Consuming any token but end-of-file makes strict progress; moreover a
/// state whose token is not end-of-file necessarily lies inside the input.
pub proof fn lemma_progress(s: Seq<char>, st: PState)
    requires
        tok_at(s, st).t != TokenType::EOF,
    ensures
        0 <= st.pos <= s.len(),
        st.pos < next_state(s, st).pos <= s.len(),
{
    if 0 <= st.pos <= s.len() {
        lemma_skip_ws_pos_bounds(s, st.pos);
        lemma_scan_bounds(s, skip_ws_pos(s, st.pos));
    }
}

/// The outcome of an expression rule.
pub ghost struct ExprOut {
    pub r: Result<ExprSpec, ErrSpec>,
    pub st: PState,
}

/// The outcome of scanning forward to a statement's semicolon.
pub ghost struct SkipOut {
    pub r: Result<(), ErrSpec>,
    pub st: PState,
}

/// The outcome of the optional type-annotation rule.
pub ghost struct TypeOut {
    pub annotation: Option<TokenSpec>,
    pub st: PState,
}

/// The outcome of a statement rule.
pub ghost struct StmtOut {
    pub r: Result<StmtSpec, ErrSpec>,
    pub st: PState,
}

/// The outcome of the program rule.
pub ghost struct ProgOut {
    pub r: Result<Seq<StmtSpec>, ErrSpec>,
    pub st: PState,
}

/// The identifier rule: the current token as an identifier expression,
/// without advancing; any other kind is an unexpected-token error.
pub open spec fn sp_parse_identifier(s: Seq<char>, st: PState) -> ExprOut {
    let t = tok_at(s, st);
    if t.t == TokenType::IDENT {
        ExprOut { r: Ok(ExprSpec::Ident { token: t, value: t.value }), st }
    } else {
        ExprOut { r: Err(spec_unexpected_token(t, TokenType::IDENT)), st }
    }
}

/// The integer-literal rule: the current token's text read as an `i32`,
/// without advancing; a value that does not parse is an
/// invalid-assignment-target error.
pub open spec fn sp_parse_integer_literal(s: Seq<char>, st: PState) -> ExprOut {
    let t = tok_at(s, st);
    match parse_i32_spec(t.value) {
        Some(v) => ExprOut { r: Ok(ExprSpec::Int { token: t, value: v }), st },
        None => ExprOut { r: Err(spec_invalid_assignment_target()), st },
    }
}

/// The expression rule: dispatch on the current token's kind.  Identifiers
/// and integer literals parse in place; a prefix operator (`-` or `!`)
/// consumes its token and recursively parses its operand; any other kind is
/// an invalid-expression error.
pub open spec fn sp_parse_expression(s: Seq<char>, st: PState) -> ExprOut
    decreases s.len() - st.pos,
{
    let t = tok_at(s, st);
    if t.t == TokenType::IDENT {
        sp_parse_identifier(s, st)
    } else if t.t == TokenType::INT {
        sp_parse_integer_literal(s, st)
    } else if t.t == TokenType::ARITHMETIC(Arithmetic::MINUS) || t.t == TokenType::LOGICOP(
        LogicOp::NOT,
    ) {
        proof {
            lemma_progress(s, st);
        }
        let rhs = sp_parse_expression(s, next_state(s, st));
        match rhs.r {
            Ok(e) => ExprOut {
                r: Ok(ExprSpec::Prefix { token: t, operator: t.value, rhs: Box::new(e) }),
                st: rhs.st,
            },
            Err(er) => ExprOut { r: Err(er), st: rhs.st },
        }
    } else {
        ExprOut { r: Err(spec_invalid_expression()), st }
    }
}

/// The prefix rule as the parser dispatches it: the operator token wraps
/// the operand parsed just after it.
pub open spec fn sp_parse_prefix_expression(s: Seq<char>, st: PState) -> ExprOut {
    let t = tok_at(s, st);
    let rhs = sp_parse_expression(s, next_state(s, st));
    match rhs.r {
        Ok(e) => ExprOut {
            r: Ok(ExprSpec::Prefix { token: t, operator: t.value, rhs: Box::new(e) }),
            st: rhs.st,
        },
        Err(er) => ExprOut { r: Err(er), st: rhs.st },
    }
}

/// An expression rule leaves the parser on the expression's last token —
/// an identifier or an integer literal — whenever it succeeds, and it never
/// moves backwards.
pub proof fn lemma_sp_parse_expression_bounds(s: Seq<char>, st: PState)
    requires
        0 <= st.pos <= s.len(),
    ensures
        ({
            let out = sp_parse_expression(s, st);
            &&& st.pos <= out.st.pos <= s.len()
            &&& out.r is Ok ==> (tok_at(s, out.st).t == TokenType::IDENT || tok_at(s, out.st).t
                == TokenType::INT)
        }),
    decreases s.len() - st.pos,
{
    let t = tok_at(s, st);
    if t.t == TokenType::IDENT {
    } else if t.t == TokenType::INT {
    } else if t.t == TokenType::ARITHMETIC(Arithmetic::MINUS) || t.t == TokenType::LOGICOP(
        LogicOp::NOT,
    ) {
        lemma_progress(s, st);
        lemma_sp_parse_expression_bounds(s, next_state(s, st));
    }
}

/// Scanning forward to the statement's semicolon: the parser advances until
/// the current token is a semicolon, failing on end-of-file or an illegal
/// token.
pub open spec fn sp_skip_to_semicolon(s: Seq<char>, st: PState) -> SkipOut
    decreases s.len() - st.pos,
{
    let t = tok_at(s, st);
    if t.t == TokenType::SEMICOLON {
        SkipOut { r: Ok(()), st }
    } else if t.t == TokenType::EOF {
        SkipOut { r: Err(spec_unexpected_eof()), st }
    } else if t.t == TokenType::ILLEGAL {
        SkipOut { r: Err(spec_unexpected_token(t, TokenType::SEMICOLON)), st }
    } else {
        proof {
            lemma_progress(s, st);
        }
        sp_skip_to_semicolon(s, next_state(s, st))
    }
}

/// Scanning to the semicolon never moves backwards, and it ends on the
/// semicolon whenever it succeeds.
pub proof fn lemma_sp_skip_bounds(s: Seq<char>, st: PState)
    requires
        0 <= st.pos <= s.len(),
    ensures
        ({
            let out = sp_skip_to_semicolon(s, st);
            &&& st.pos <= out.st.pos <= s.len()
            &&& out.r is Ok ==> tok_at(s, out.st).t == TokenType::SEMICOLON
        }),
    decreases s.len() - st.pos,
{
    let t = tok_at(s, st);
    if t.t == TokenType::SEMICOLON || t.t == TokenType::EOF || t.t == TokenType::ILLEGAL {
    } else {
        lemma_progress(s, st);
        lemma_sp_skip_bounds(s, next_state(s, st));
    }
}

/// The optional type-annotation rule: where a colon follows the current
/// token, the parser steps onto the colon; an identifier just after the
/// colon is returned as the annotation, with the parser left on the colon
/// either way, and anything other than a colon leaves the state untouched.
pub open spec fn sp_parse_type_specifier(s: Seq<char>, st: PState) -> TypeOut {
    let n1 = next_state(s, st);
    if tok_at(s, n1).t == TokenType::COLON {
        let n2 = next_state(s, n1);
        if tok_at(s, n2).t == TokenType::IDENT {
            TypeOut { annotation: Some(tok_at(s, n2)), st: n1 }
        } else {
            TypeOut { annotation: None, st: n1 }
        }
    } else {
        TypeOut { annotation: None, st }
    }
}

/// The declare-statement rule.  The token after the introducer must be an
/// identifier; an optional `: IDENT` annotation may follow; then either a
/// semicolon ends the declaration, or an `=` must follow and the initializer
/// is scanned through to the terminating semicolon without being captured.
pub open spec fn sp_parse_declare_statement(s: Seq<char>, st: PState) -> StmtOut {
    let t0 = tok_at(s, st);
    let n1 = next_state(s, st);
    let t1 = tok_at(s, n1);
    if t1.t != TokenType::IDENT {
        StmtOut { r: Err(spec_unexpected_token(t1, TokenType::IDENT)), st }
    } else {
        let ts = sp_parse_type_specifier(s, n1);
        let stmt = StmtSpec::Declare {
            token: t0,
            type_specifier: ts.annotation,
            identifier: ExprSpec::Ident { token: t1, value: t1.value },
            value: None,
        };
        let after_ts = if ts.annotation is Some {
            next_state(s, ts.st)
        } else {
            ts.st
        };
        let n4 = next_state(s, after_ts);
        let t4 = tok_at(s, n4);
        if t4.t == TokenType::SEMICOLON {
            StmtOut { r: Ok(stmt), st: n4 }
        } else if t4.t != TokenType::ASSIGN {
            StmtOut { r: Err(spec_unexpected_token(t4, TokenType::ASSIGN)), st: after_ts }
        } else {
            let sk = sp_skip_to_semicolon(s, n4);
            match sk.r {
                Ok(u) => StmtOut { r: Ok(stmt), st: sk.st },
                Err(e) => StmtOut { r: Err(e), st: sk.st },
            }
        }
    }
}

/// The return-statement rule: the statement is scanned through to its
/// semicolon, and the resulting node carries the `return` keyword's token
/// with no captured value.
pub open spec fn sp_parse_return_statement(s: Seq<char>, st: PState) -> StmtOut {
    let t0 = tok_at(s, st);
    let sk = sp_skip_to_semicolon(s, st);
    match sk.r {
        Ok(u) => StmtOut { r: Ok(StmtSpec::Return { token: t0, value: None }), st: sk.st },
        Err(e) => StmtOut { r: Err(e), st: sk.st },
    }
}

/// The expression-statement rule: the expression rule runs at lowest
/// precedence, the node carries the token the parser ends on, and one
/// trailing semicolon is consumed where present — a dangling expression at
/// the end of the input is legal.
pub open spec fn sp_parse_expression_statement(s: Seq<char>, st: PState) -> StmtOut {
    let ex = sp_parse_expression(s, st);
    match ex.r {
        Err(e) => StmtOut { r: Err(e), st: ex.st },
        Ok(e) => {
            let stmt = StmtSpec::Expr { token: tok_at(s, ex.st), expression: e };
            let n = next_state(s, ex.st);
            if tok_at(s, n).t == TokenType::SEMICOLON {
                StmtOut { r: Ok(stmt), st: n }
            } else {
                StmtOut { r: Ok(stmt), st: ex.st }
            }
        },
    }
}

/// The statement rule: a declaration keyword starts a declaration, `return`
/// starts a return statement, any other keyword is a typed not-yet-supported
/// error, and every non-keyword token starts an expression statement.
pub open spec fn sp_parse_statement(s: Seq<char>, st: PState) -> StmtOut {
    let t = tok_at(s, st);
    match t.t {
        TokenType::KEYWORD(k) => {
            if k == Keyword::LET || k == Keyword::CONST || k == Keyword::VAR {
                sp_parse_declare_statement(s, st)
            } else if k == Keyword::RETURN {
                sp_parse_return_statement(s, st)
            } else {
                StmtOut { r: Err(spec_unexpected("statement form not yet supported"@)), st }
            }
        },
        _ => sp_parse_expression_statement(s, st),
    }
}

/// A statement rule never moves backwards, never leaves the input, and ends
/// on a semicolon, identifier or integer literal whenever it succeeds — in
/// particular never on the end-of-file token.
pub proof fn lemma_sp_parse_statement_bounds(s: Seq<char>, st: PState)
    requires
        0 <= st.pos <= s.len(),
    ensures
        ({
            let out = sp_parse_statement(s, st);
            &&& st.pos <= out.st.pos <= s.len()
            &&& out.r is Ok ==> tok_at(s, out.st).t != TokenType::EOF
        }),
{
    let t = tok_at(s, st);
    match t.t {
        TokenType::KEYWORD(k) => {
            if k == Keyword::LET || k == Keyword::CONST || k == Keyword::VAR {
                lemma_next_state_bounds(s, st);
                let n1 = next_state(s, st);
                if tok_at(s, n1).t == TokenType::IDENT {
                    lemma_next_state_bounds(s, n1);
                    let ts = sp_parse_type_specifier(s, n1);
                    lemma_next_state_bounds(s, ts.st);
                    let after_ts = if ts.annotation is Some {
                        next_state(s, ts.st)
                    } else {
                        ts.st
                    };
                    lemma_next_state_bounds(s, after_ts);
                    let n4 = next_state(s, after_ts);
                    let t4 = tok_at(s, n4);
                    if t4.t == TokenType::SEMICOLON {
                    } else if t4.t == TokenType::ASSIGN {
                        lemma_sp_skip_bounds(s, n4);
                    }
                }
            } else if k == Keyword::RETURN {
                lemma_sp_skip_bounds(s, st);
            }
        },
        _ => {
            lemma_sp_parse_expression_bounds(s, st);
            let ex = sp_parse_expression(s, st);
            if ex.r is Ok {
                lemma_next_state_bounds(s, ex.st);
            }
        },
    }
}

/// The program rule: statements parse one after the other, each followed by
/// one token of advance, until the current token is end-of-file; the first
/// error aborts the whole parse.
pub open spec fn sp_parse_program(s: Seq<char>, st: PState) -> ProgOut
    decreases s.len() - st.pos,
{
    let t = tok_at(s, st);
    if t.t == TokenType::EOF {
        ProgOut { r: Ok(Seq::empty()), st }
    } else {
        let so = sp_parse_statement(s, st);
        match so.r {
            Err(e) => ProgOut { r: Err(e), st: so.st },
            Ok(stm) => {
                proof {
                    lemma_progress(s, st);
                    lemma_sp_parse_statement_bounds(s, st);
                    lemma_progress(s, so.st);
                }
                let rest = sp_parse_program(s, next_state(s, so.st));
                match rest.r {
                    Ok(sq) => ProgOut { r: Ok(seq![stm] + sq), st: rest.st },
                    Err(e) => ProgOut { r: Err(e), st: rest.st },
                }
            },
        }
    }
}

} // verus!
