//! Expression nodes: identifiers, integer literals, and prefix expressions.

use vstd::prelude::*;

use crate::token::{Token, TokenSpec};

verus! {

/// The mathematical model of an [`Expression`]: the same tree with tokens
/// and strings abstracted to their models.
pub ghost enum ExprSpec {
    Ident { token: TokenSpec, value: Seq<char> },
    Int { token: TokenSpec, value: i32 },
    Prefix { token: TokenSpec, operator: Seq<char>, rhs: Box<ExprSpec> },
}

/// The source-like text of an expression: identifiers and integer literals
/// render as their lexeme, and a prefix expression as `(<op><operand>)`.
pub open spec fn expr_text(e: ExprSpec) -> Seq<char>
    decreases e,
{
    match e {
        ExprSpec::Ident { token, .. } => token.value,
        ExprSpec::Int { token, .. } => token.value,
        ExprSpec::Prefix { operator, rhs, .. } => "("@ + operator + expr_text(*rhs) + ")"@,
    }
}

/// An identifier expression: its token and its name.
#[derive(Debug)]
pub struct Identifier {
    pub token: Token,
    pub value: String,
}

impl Identifier {
    /// Builds an identifier node from its token and name.
    pub fn new(token: Token, value: String) -> (r: Identifier)
        ensures
            r.token@ == token@,
            r.value@ == value@,
    {
        Identifier { token, value }
    }

    /// The text of the token this node was built from.
    pub fn get_token(&self) -> (r: String)
        ensures
            r@ == self.token@.value,
    {
        self.token.value.clone()
    }

    /// Renders the node back to source-like text.
    pub fn to_string(&self) -> (r: String)
        ensures
            r@ == self.token@.value,
    {
        self.token.value.clone()
    }
}

/// An integer literal expression: its token and its parsed value.
#[derive(Debug)]
pub struct IntegerLiteral {
    pub token: Token,
    pub value: i32,
}

impl IntegerLiteral {
    /// Builds an integer literal node from its token and value.
    pub fn new(token: Token, value: i32) -> (r: IntegerLiteral)
        ensures
            r.token@ == token@,
            r.value == value,
    {
        IntegerLiteral { token, value }
    }

    /// The text of the token this node was built from.
    pub fn get_token(&self) -> (r: String)
        ensures
            r@ == self.token@.value,
    {
        self.token.value.clone()
    }

    /// Renders the node back to source-like text.
    pub fn to_string(&self) -> (r: String)
        ensures
            r@ == self.token@.value,
    {
        self.token.value.clone()
    }
}

/// A prefix expression: its operator token, the operator's text, and the
/// operand it applies to.
#[derive(Debug)]
pub struct PrefixExpression {
    pub token: Token,
    pub operator: String,
    pub rhs: Box<Expression>,
}

impl PrefixExpression {
    /// Builds a prefix expression node from its operator token, the
    /// operator's text and its operand.
    pub fn new(token: Token, operator: String, rhs: Box<Expression>) -> (r: PrefixExpression)
        ensures
            r.token@ == token@,
            r.operator@ == operator@,
            *r.rhs == *rhs,
    {
        PrefixExpression { token, operator, rhs }
    }

    /// The text of the token this node was built from.
    pub fn get_token(&self) -> (r: String)
        ensures
            r@ == self.token@.value,
    {
        self.token.value.clone()
    }
}

/// An expression: the closed set of expression forms.
#[derive(Debug)]
pub enum Expression {
    Identifier(Identifier),
    IntegerLiteral(IntegerLiteral),
    Prefix(PrefixExpression),
}

/// The model of an expression node.
pub open spec fn expr_view(e: Expression) -> ExprSpec
    decreases e,
{
    match e {
        Expression::Identifier(i) => ExprSpec::Ident { token: i.token@, value: i.value@ },
        Expression::IntegerLiteral(i) => ExprSpec::Int { token: i.token@, value: i.value },
        Expression::Prefix(p) => ExprSpec::Prefix {
            token: p.token@,
            operator: p.operator@,
            rhs: Box::new(expr_view(*p.rhs)),
        },
    }
}

impl Expression {
    /// The text of the token this node was built from.
    pub fn get_token(&self) -> (r: String)
        ensures
            r@ == (match expr_view(*self) {
                ExprSpec::Ident { token, .. } => token.value,
                ExprSpec::Int { token, .. } => token.value,
                ExprSpec::Prefix { token, .. } => token.value,
            }),
    {
        match self {
            Expression::Identifier(i) => i.get_token(),
            Expression::IntegerLiteral(i) => i.get_token(),
            Expression::Prefix(p) => p.get_token(),
        }
    }

    /// Renders the expression back to source-like text.
    pub fn to_string(&self) -> (r: String)
        ensures
            r@ == expr_text(expr_view(*self)),
        decreases *self,
    {
        match self {
            Expression::Identifier(i) => i.to_string(),
            Expression::IntegerLiteral(i) => i.to_string(),
            Expression::Prefix(p) => {
                let mut s = String::from_str("(");
                s.append(p.operator.as_str());
                let operand = p.rhs.to_string();
                s.append(operand.as_str());
                s.append(")");
                proof {
                    assert(s@ =~= "("@ + p.operator@ + expr_text(expr_view(*p.rhs)) + ")"@);
                }
                s
            },
        }
    }
}

} // verus!
