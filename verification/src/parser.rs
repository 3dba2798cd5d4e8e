//! The parser: pulls tokens from the scanner two at a time — current plus
//! one token of lookahead — dispatches statement and expression grammar
//! rules by the current token's kind, and builds the abstract syntax tree.

use vstd::prelude::*;

use crate::ast::expressions::{
    expr_view, Expression, Identifier, IntegerLiteral, PrefixExpression,
};
use crate::ast::program::{program_view, Program};
use crate::ast::statements::{
    stmt_view, DeclareStatement, ExpressionStatement, ReturnStatement, Statement, StmtSpec,
};
use crate::enums::arithmetic::Arithmetic;
use crate::enums::keyword::Keyword;
use crate::enums::logicop::LogicOp;
use crate::enums::token_type::TokenType;
use crate::lexer::Lexer;
use crate::parser::error::{ErrSpec, ParserError};
use crate::parser::grammar::{
    lemma_progress, lemma_sp_parse_statement_bounds, next_state, sp_parse_declare_statement,
    sp_parse_expression, sp_parse_expression_statement, sp_parse_identifier,
    sp_parse_integer_literal, sp_parse_prefix_expression, sp_parse_program,
    sp_parse_return_statement, sp_parse_statement, sp_parse_type_specifier,
    sp_skip_to_semicolon, tok_at, PState,
};
use crate::parser::precedence::Precedence;
use crate::strutil::parse_i32;
use crate::token::Token;

pub mod error;
pub mod grammar;
pub mod precedence;

verus! {

/// The parser.  It owns the scanner and two token slots — the current token
/// and one of lookahead — plus the list of errors met so far.  The ghost
/// fields record the scanner states the two slots were scanned from; the
/// well-formedness predicate ties slots, states and scanner together.
pub struct Parser {
    lexer: Lexer,
    current_token: Option<Token>,
    next_token: Option<Token>,
    errors: Vec<ParserError>,
    cur_state: Ghost<PState>,
    nxt_state: Ghost<PState>,
}

impl Parser {
    /// The input as a character sequence.
    pub closed spec fn src(&self) -> Seq<char> {
        self.lexer.chars()
    }

    /// The scanner state the current token was scanned from: the parser's
    /// position in the grammar model.
    pub closed spec fn state(&self) -> PState {
        self.cur_state@
    }

    /// The models of the errors met so far, in order.
    pub closed spec fn errs(&self) -> Seq<ErrSpec> {
        self.errors@.map_values(|e: ParserError| e@)
    }

    /// Well-formedness: the scanner is well-formed, both token slots hold
    /// exactly the tokens their recorded states scan to, the lookahead
    /// state follows the current one, and the scanner stands just past the
    /// lookahead token.
    pub closed spec fn wf(&self) -> bool {
        &&& self.lexer.wf()
        &&& 0 <= self.cur_state@.pos <= self.src().len()
        &&& 0 <= self.nxt_state@.pos <= self.src().len()
        &&& match self.current_token {
            Some(t) => t@ == tok_at(self.src(), self.cur_state@),
            None => false,
        }
        &&& match self.next_token {
            Some(t) => t@ == tok_at(self.src(), self.nxt_state@),
            None => false,
        }
        &&& self.nxt_state@ == next_state(self.src(), self.cur_state@)
        &&& next_state(self.src(), self.nxt_state@) == (PState {
            pos: self.lexer.pos(),
            line: self.lexer.line_num(),
        })
    }

    /// Builds a parser over a scanner, priming the current and lookahead
    /// slots with the scanner's first two tokens.
    pub fn new(lexer: Lexer) -> (p: Parser)
        requires
            lexer.wf(),
        ensures
            p.wf(),
            p.src() == lexer.chars(),
            p.errs() == Seq::<ErrSpec>::empty(),
            p.state() == (PState { pos: lexer.pos(), line: lexer.line_num() }),
    {
        let ghost st0 = PState { pos: lexer.pos(), line: lexer.line_num() };
        proof {
            Lexer::lemma_wf_bounds(lexer);
        }
        let mut lx = lexer;
        let cur = lx.next_token();
        let ghost st1 = PState { pos: lx.pos(), line: lx.line_num() };
        proof {
            Lexer::lemma_wf_bounds(lx);
        }
        let nxt = lx.next_token();
        let p = Parser {
            lexer: lx,
            current_token: Some(cur),
            next_token: Some(nxt),
            errors: Vec::new(),
            cur_state: Ghost(st0),
            nxt_state: Ghost(st1),
        };
        proof {
            assert(p.errors@.map_values(|e: ParserError| e@) =~= Seq::<ErrSpec>::empty());
        }
        p
    }

    /// Shifts the lookahead token into the current slot and pulls one new
    /// token from the scanner into the lookahead slot.
    pub fn next_token(&mut self)
        requires
            old(self).wf(),
        ensures
            final(self).wf(),
            final(self).src() == old(self).src(),
            final(self).errs() == old(self).errs(),
            final(self).state() == next_state(old(self).src(), old(self).state()),
    {
        let ghost new_cur = self.nxt_state@;
        self.current_token = match &self.next_token {
            Some(t) => Some(t.clone()),
            None => None,
        };
        self.cur_state = Ghost(new_cur);
        let ghost new_nxt = PState { pos: self.lexer.pos(), line: self.lexer.line_num() };
        proof {
            Lexer::lemma_wf_bounds(self.lexer);
        }
        let tok = self.lexer.next_token();
        self.next_token = Some(tok);
        self.nxt_state = Ghost(new_nxt);
    }

    /// Whether the lookahead token has the given kind.
    pub fn cmp_next_token_type(&self, token_type: TokenType) -> (r: bool)
        ensures
            self.wf() ==> r == (tok_at(self.src(), next_state(self.src(), self.state())).t
                == token_type),
    {
        match &self.next_token {
            Some(token) => token.t == token_type,
            None => false,
        }
    }

    /// Whether the current token has the given kind.
    pub fn cmp_current_token_type(&self, token_type: TokenType) -> (r: bool)
        ensures
            self.wf() ==> r == (tok_at(self.src(), self.state()).t == token_type),
    {
        match &self.current_token {
            Some(token) => token.t == token_type,
            None => false,
        }
    }

    /// Parses the whole input into a program: statements parse one after
    /// the other until the end of the input, and the first error discards
    /// the program under construction, is recorded in the error list, and
    /// is returned.
    #[verifier::rlimit(60)]
    pub fn parse(&mut self) -> (r: Result<Program, ParserError>)
        requires
            old(self).wf(),
        ensures
            final(self).wf(),
            final(self).src() == old(self).src(),
            ({
                let out = sp_parse_program(old(self).src(), old(self).state());
                &&& final(self).state() == out.st
                &&& match (r, out.r) {
                    (Ok(p), Ok(sq)) => program_view(p) == sq && final(self).errs() == old(
                        self,
                    ).errs(),
                    (Err(e), Err(es)) => e@ == es && final(self).errs() == old(self).errs().push(
                        es,
                    ),
                    _ => false,
                }
            }),
    {
        let mut new_program = Program::new();
        while !self.cmp_current_token_type(TokenType::EOF)
            invariant
                self.wf(),
                self.src() == old(self).src(),
                self.errs() == old(self).errs(),
                sp_parse_program(old(self).src(), old(self).state()).st == sp_parse_program(
                    old(self).src(),
                    self.state(),
                ).st,
                sp_parse_program(old(self).src(), old(self).state()).r == (match sp_parse_program(
                    old(self).src(),
                    self.state(),
                ).r {
                    Ok(sq) => Ok(program_view(new_program) + sq),
                    Err(e) => Err::<Seq<StmtSpec>, ErrSpec>(e),
                }),
            decreases old(self).src().len() - self.state().pos,
        {
            let ghost s = old(self).src();
            let ghost cur = self.state();
            let parsed = self.parse_statement();
            match parsed {
                Ok(stmt) => {
                    proof {
                        lemma_sp_parse_statement_bounds(s, cur);
                        let so = sp_parse_statement(s, cur);
                        lemma_progress(s, so.st);
                    }
                    let ghost pv_old = program_view(new_program);
                    new_program.statements.push(stmt);
                    self.next_token();
                    proof {
                        let so = sp_parse_statement(s, cur);
                        let ns = self.state();
                        assert(program_view(new_program) =~= pv_old.push(stmt_view(stmt)));
                        match sp_parse_program(s, ns).r {
                            Ok(sq) => {
                                assert(pv_old + (seq![stmt_view(stmt)] + sq) =~= program_view(
                                    new_program,
                                ) + sq);
                            },
                            Err(e) => {},
                        }
                    }
                },
                Err(e) => {
                    let e2 = e.clone();
                    self.errors.push(e2);
                    proof {
                        assert(self.errs() =~= old(self).errs().push(e@));
                    }
                    return Err(e);
                },
            }
        }
        proof {
            let s = old(self).src();
            let cur = self.state();
            assert(sp_parse_program(s, cur).r == Ok::<Seq<StmtSpec>, ErrSpec>(Seq::empty()));
            assert(program_view(new_program) + Seq::<StmtSpec>::empty() =~= program_view(
                new_program,
            ));
        }
        Ok(new_program)
    }

    /// Parses one statement, dispatching on the current token's kind: the
    /// declaration keywords start a declaration, `return` a return
    /// statement, any other keyword is a typed not-yet-supported error, and
    /// everything else starts an expression statement.
    pub fn parse_statement(&mut self) -> (r: Result<Statement, ParserError>)
        requires
            old(self).wf(),
        ensures
            final(self).wf(),
            final(self).src() == old(self).src(),
            final(self).errs() == old(self).errs(),
            ({
                let out = sp_parse_statement(old(self).src(), old(self).state());
                &&& final(self).state() == out.st
                &&& match (r, out.r) {
                    (Ok(st), Ok(ss)) => stmt_view(st) == ss,
                    (Err(e), Err(es)) => e@ == es,
                    _ => false,
                }
            }),
    {
        let tt: TokenType = match &self.current_token {
            Some(t) => t.t,
            None => unreached(),
        };
        match tt {
            TokenType::KEYWORD(kw) => match kw {
                Keyword::LET | Keyword::CONST | Keyword::VAR => self.parse_declare_statement(),
                Keyword::RETURN => self.parse_return_statement(),
                _ => Err(
                    ParserError::unexpected(String::from_str("statement form not yet supported")),
                ),
            },
            _ => self.parse_expression_statement(),
        }
    }

    /// Parses the current token as an identifier expression, without
    /// advancing.
    fn parse_identifier(&mut self) -> (r: Result<Expression, ParserError>)
        requires
            old(self).wf(),
        ensures
            final(self).wf(),
            final(self).src() == old(self).src(),
            final(self).errs() == old(self).errs(),
            ({
                let out = sp_parse_identifier(old(self).src(), old(self).state());
                &&& final(self).state() == out.st
                &&& match (r, out.r) {
                    (Ok(e), Ok(es)) => expr_view(e) == es,
                    (Err(e), Err(es)) => e@ == es,
                    _ => false,
                }
            }),
    {
        let tok: Token = match &self.current_token {
            Some(t) => t.clone(),
            None => unreached(),
        };
        if !(tok.t == TokenType::IDENT) {
            return Err(ParserError::unexpected_token(tok, TokenType::IDENT));
        }
        let value = tok.value.clone();
        Ok(Expression::Identifier(Identifier::new(tok, value)))
    }

    /// Parses the current token as an integer literal, without advancing;
    /// a numeral that does not fit an `i32` is rejected.
    fn parse_integer_literal(&mut self) -> (r: Result<Expression, ParserError>)
        requires
            old(self).wf(),
        ensures
            final(self).wf(),
            final(self).src() == old(self).src(),
            final(self).errs() == old(self).errs(),
            ({
                let out = sp_parse_integer_literal(old(self).src(), old(self).state());
                &&& final(self).state() == out.st
                &&& match (r, out.r) {
                    (Ok(e), Ok(es)) => expr_view(e) == es,
                    (Err(e), Err(es)) => e@ == es,
                    _ => false,
                }
            }),
    {
        let tok: Token = match &self.current_token {
            Some(t) => t.clone(),
            None => unreached(),
        };
        match parse_i32(tok.value.as_str()) {
            Some(v) => Ok(Expression::IntegerLiteral(IntegerLiteral::new(tok, v))),
            None => Err(ParserError::invalid_assignment_target()),
        }
    }

    /// Parses a prefix expression: the operator token is consumed and the
    /// operand is parsed at prefix precedence.
    fn parse_prefix_expression(&mut self) -> (r: Result<Expression, ParserError>)
        requires
            old(self).wf(),
            tok_at(old(self).src(), old(self).state()).t != TokenType::EOF,
        ensures
            final(self).wf(),
            final(self).src() == old(self).src(),
            final(self).errs() == old(self).errs(),
            ({
                let out = sp_parse_prefix_expression(old(self).src(), old(self).state());
                &&& final(self).state() == out.st
                &&& match (r, out.r) {
                    (Ok(e), Ok(es)) => expr_view(e) == es,
                    (Err(e), Err(es)) => e@ == es,
                    _ => false,
                }
            }),
        decreases old(self).src().len() - old(self).state().pos, 0int,
    {
        let token: Token = match &self.current_token {
            Some(t) => t.clone(),
            None => unreached(),
        };
        proof {
            lemma_progress(old(self).src(), old(self).state());
        }
        self.next_token();
        let rhs = self.parse_expression(Precedence::Prefix);
        match rhs {
            Ok(e) => {
                let operator = token.value.clone();
                Ok(Expression::Prefix(PrefixExpression::new(token, operator, Box::new(e))))
            },
            Err(e) => Err(e),
        }
    }

    /// Parses an expression by prefix dispatch on the current token's kind:
    /// identifiers, integer literals, unary minus and logical not begin
    /// expressions; every other kind is an invalid-expression error.  The
    /// precedence argument is the skeleton's hook for infix parsing, which
    /// no rule consults yet.
    fn parse_expression(&mut self, _precedence: Precedence) -> (r: Result<Expression, ParserError>)
        requires
            old(self).wf(),
        ensures
            final(self).wf(),
            final(self).src() == old(self).src(),
            final(self).errs() == old(self).errs(),
            ({
                let out = sp_parse_expression(old(self).src(), old(self).state());
                &&& final(self).state() == out.st
                &&& match (r, out.r) {
                    (Ok(e), Ok(es)) => expr_view(e) == es,
                    (Err(e), Err(es)) => e@ == es,
                    _ => false,
                }
            }),
        decreases old(self).src().len() - old(self).state().pos, 1int,
    {
        let tt: TokenType = match &self.current_token {
            Some(t) => t.t,
            None => unreached(),
        };
        match tt {
            TokenType::IDENT => self.parse_identifier(),
            TokenType::INT => self.parse_integer_literal(),
            TokenType::ARITHMETIC(Arithmetic::MINUS) => self.parse_prefix_expression(),
            TokenType::LOGICOP(LogicOp::NOT) => self.parse_prefix_expression(),
            _ => Err(ParserError::invalid_expression()),
        }
    }

    /// Advances until the current token is a semicolon, failing on the end
    /// of the input or an illegal token.
    fn skip_to_semicolon(&mut self) -> (r: Result<(), ParserError>)
        requires
            old(self).wf(),
        ensures
            final(self).wf(),
            final(self).src() == old(self).src(),
            final(self).errs() == old(self).errs(),
            ({
                let out = sp_skip_to_semicolon(old(self).src(), old(self).state());
                &&& final(self).state() == out.st
                &&& match (r, out.r) {
                    (Ok(u), Ok(us)) => true,
                    (Err(e), Err(es)) => e@ == es,
                    _ => false,
                }
            }),
    {
        while !self.cmp_current_token_type(TokenType::SEMICOLON)
            invariant
                self.wf(),
                self.src() == old(self).src(),
                self.errs() == old(self).errs(),
                sp_skip_to_semicolon(old(self).src(), self.state()) == sp_skip_to_semicolon(
                    old(self).src(),
                    old(self).state(),
                ),
            decreases old(self).src().len() - self.state().pos,
        {
            if self.cmp_current_token_type(TokenType::EOF) {
                return Err(ParserError::unexpected_eof());
            }
            if self.cmp_current_token_type(TokenType::ILLEGAL) {
                let tok: Token = match &self.current_token {
                    Some(t) => t.clone(),
                    None => unreached(),
                };
                return Err(ParserError::unexpected_token(tok, TokenType::SEMICOLON));
            }
            proof {
                lemma_progress(old(self).src(), self.state());
            }
            self.next_token();
        }
        Ok(())
    }

    /// Parses the optional `: IDENT` type annotation of a declaration: on a
    /// colon the parser steps onto it and hands back the identifier that
    /// follows, or nothing where none does.
    fn parse_type_specifier(&mut self) -> (r: Option<Token>)
        requires
            old(self).wf(),
        ensures
            final(self).wf(),
            final(self).src() == old(self).src(),
            final(self).errs() == old(self).errs(),
            ({
                let out = sp_parse_type_specifier(old(self).src(), old(self).state());
                &&& final(self).state() == out.st
                &&& match (r, out.annotation) {
                    (Some(t), Some(ts)) => t@ == ts,
                    (None, None) => true,
                    _ => false,
                }
            }),
    {
        if self.cmp_next_token_type(TokenType::COLON) {
            self.next_token();
            if !self.cmp_next_token_type(TokenType::IDENT) {
                return None;
            }
            match &self.next_token {
                Some(t) => Some(t.clone()),
                None => unreached(),
            }
        } else {
            None
        }
    }

    /// Parses a declaration: introducer, mandatory identifier, optional
    /// `: IDENT` annotation, then either a terminating semicolon or an `=`
    /// followed by an initializer that is scanned through to the semicolon
    /// without being captured.
    fn parse_declare_statement(&mut self) -> (r: Result<Statement, ParserError>)
        requires
            old(self).wf(),
        ensures
            final(self).wf(),
            final(self).src() == old(self).src(),
            final(self).errs() == old(self).errs(),
            ({
                let out = sp_parse_declare_statement(old(self).src(), old(self).state());
                &&& final(self).state() == out.st
                &&& match (r, out.r) {
                    (Ok(st), Ok(ss)) => stmt_view(st) == ss,
                    (Err(e), Err(es)) => e@ == es,
                    _ => false,
                }
            }),
    {
        let identifier: Expression;
        match &self.next_token {
            Some(tok) => {
                if !(tok.t == TokenType::IDENT) {
                    let t = tok.clone();
                    return Err(ParserError::unexpected_token(t, TokenType::IDENT));
                }
                let t = tok.clone();
                let value = t.value.clone();
                identifier = Expression::Identifier(Identifier::new(t, value));
            },
            None => {
                return unreached();
            },
        }
        let introducer: Token = match &self.current_token {
            Some(t) => t.clone(),
            None => unreached(),
        };
        let mut stmt = DeclareStatement::new(introducer, None, identifier, None);
        self.next_token();
        if let Some(type_specifier_token) = self.parse_type_specifier() {
            stmt.type_specifier = Some(type_specifier_token);
            self.next_token();
        }
        if self.cmp_next_token_type(TokenType::SEMICOLON) {
            self.next_token();
            return Ok(Statement::Declare(stmt));
        }
        if !self.cmp_next_token_type(TokenType::ASSIGN) {
            let tok: Token = match &self.next_token {
                Some(t) => t.clone(),
                None => unreached(),
            };
            return Err(ParserError::unexpected_token(tok, TokenType::ASSIGN));
        }
        self.next_token();
        match self.skip_to_semicolon() {
            Ok(u) => Ok(Statement::Declare(stmt)),
            Err(e) => Err(e),
        }
    }

    /// Parses a return statement: the statement is scanned through to its
    /// semicolon and the node keeps the `return` keyword's token, with the
    /// value not yet captured.
    fn parse_return_statement(&mut self) -> (r: Result<Statement, ParserError>)
        requires
            old(self).wf(),
        ensures
            final(self).wf(),
            final(self).src() == old(self).src(),
            final(self).errs() == old(self).errs(),
            ({
                let out = sp_parse_return_statement(old(self).src(), old(self).state());
                &&& final(self).state() == out.st
                &&& match (r, out.r) {
                    (Ok(st), Ok(ss)) => stmt_view(st) == ss,
                    (Err(e), Err(es)) => e@ == es,
                    _ => false,
                }
            }),
    {
        let keyword: Token = match &self.current_token {
            Some(t) => t.clone(),
            None => unreached(),
        };
        match self.skip_to_semicolon() {
            Ok(u) => Ok(Statement::Return(ReturnStatement::new(keyword, None))),
            Err(e) => Err(e),
        }
    }

    /// Parses an expression statement: the expression at lowest precedence,
    /// wrapped with the token the parser ends on, and one trailing
    /// semicolon consumed where present.
    fn parse_expression_statement(&mut self) -> (r: Result<Statement, ParserError>)
        requires
            old(self).wf(),
        ensures
            final(self).wf(),
            final(self).src() == old(self).src(),
            final(self).errs() == old(self).errs(),
            ({
                let out = sp_parse_expression_statement(old(self).src(), old(self).state());
                &&& final(self).state() == out.st
                &&& match (r, out.r) {
                    (Ok(st), Ok(ss)) => stmt_view(st) == ss,
                    (Err(e), Err(es)) => e@ == es,
                    _ => false,
                }
            }),
    {
        let expression: Expression = match self.parse_expression(Precedence::Lowest) {
            Ok(e) => e,
            Err(e) => {
                return Err(e);
            },
        };
        let token: Token = match &self.current_token {
            Some(t) => t.clone(),
            None => unreached(),
        };
        let stmt = ExpressionStatement::new(token, expression);
        if self.cmp_next_token_type(TokenType::SEMICOLON) {
            self.next_token();
        }
        Ok(Statement::Expression(stmt))
    }

    /// The errors met so far, in order of discovery.
    pub fn errors(&self) -> (r: &Vec<ParserError>)
        ensures
            r@.map_values(|e: ParserError| e@) == self.errs(),
    {
        &self.errors
    }
}

} // verus!
