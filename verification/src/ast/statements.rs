//! Statement nodes: declarations, returns, and expression statements.

use vstd::prelude::*;

use crate::ast::expressions::{expr_text, expr_view, ExprSpec, Expression};
use crate::token::{Token, TokenSpec};

verus! {

/// The mathematical model of a [`Statement`].
pub ghost enum StmtSpec {
    Declare {
        token: TokenSpec,
        type_specifier: Option<TokenSpec>,
        identifier: ExprSpec,
        value: Option<ExprSpec>,
    },
    Return { token: TokenSpec, value: Option<ExprSpec> },
    Expr { token: TokenSpec, expression: ExprSpec },
}

/// The source-like text of a statement.
pub open spec fn stmt_text(st: StmtSpec) -> Seq<char> {
    match st {
        StmtSpec::Declare { token, type_specifier, identifier, value } => {
            let head = token.value + " "@ + expr_text(identifier);
            let with_type = match type_specifier {
                Some(t) => head + ": "@ + t.value,
                None => head,
            };
            let with_value = match value {
                Some(v) => with_type + " = "@ + expr_text(v),
                None => with_type,
            };
            with_value + ";"@
        },
        StmtSpec::Return { value, .. } => match value {
            Some(v) => "return "@ + expr_text(v) + ";"@,
            None => "return;"@,
        },
        StmtSpec::Expr { expression, .. } => expr_text(expression),
    }
}

/// A declaration: its introducer token (`let`, `const` or `var`), an
/// optional type annotation, the declared identifier, and an optional
/// initializer.
#[derive(Debug)]
pub struct DeclareStatement {
    pub token: Token,
    pub type_specifier: Option<Token>,
    pub identifier: Expression,
    pub value: Option<Expression>,
}

/// The model of a declaration node.
pub open spec fn declare_view(st: DeclareStatement) -> StmtSpec {
    StmtSpec::Declare {
        token: st.token@,
        type_specifier: match st.type_specifier {
            Some(t) => Some(t@),
            None => None,
        },
        identifier: expr_view(st.identifier),
        value: match st.value {
            Some(v) => Some(expr_view(v)),
            None => None,
        },
    }
}

impl DeclareStatement {
    /// Builds a declaration node from its parts.
    pub fn new(
        token: Token,
        type_specifier: Option<Token>,
        identifier: Expression,
        value: Option<Expression>,
    ) -> (r: DeclareStatement)
        ensures
            r == (DeclareStatement { token, type_specifier, identifier, value }),
    {
        DeclareStatement { token, type_specifier, identifier, value }
    }

    /// The text of the introducer token.
    pub fn get_token(&self) -> (r: String)
        ensures
            r@ == self.token@.value,
    {
        self.token.value.clone()
    }

    /// Renders the declaration back to source-like text.
    pub fn to_string(&self) -> (r: String)
        ensures
            r@ == stmt_text(declare_view(*self)),
    {
        let mut s = String::new();
        s.append(self.token.value.as_str());
        s.append(" ");
        let ident = self.identifier.to_string();
        s.append(ident.as_str());
        if let Some(t) = &self.type_specifier {
            s.append(": ");
            s.append(t.value.as_str());
        }
        if let Some(v) = &self.value {
            s.append(" = ");
            let text = v.to_string();
            s.append(text.as_str());
        }
        s.append(";");
        proof {
            assert(s@ =~= stmt_text(declare_view(*self)));
        }
        s
    }
}

/// A return statement: the `return` keyword's token and an optional value.
#[derive(Debug)]
pub struct ReturnStatement {
    pub token: Token,
    pub value: Option<Expression>,
}

/// The model of a return node.
pub open spec fn return_view(st: ReturnStatement) -> StmtSpec {
    StmtSpec::Return {
        token: st.token@,
        value: match st.value {
            Some(v) => Some(expr_view(v)),
            None => None,
        },
    }
}

impl ReturnStatement {
    /// Builds a return node from its token and optional value.
    pub fn new(token: Token, value: Option<Expression>) -> (r: ReturnStatement)
        ensures
            r == (ReturnStatement { token, value }),
    {
        ReturnStatement { token, value }
    }

    /// The text of the token this node was built from.
    pub fn get_token(&self) -> (r: String)
        ensures
            r@ == self.token@.value,
    {
        self.token.value.clone()
    }

    /// Renders the return statement back to source-like text.
    pub fn to_string(&self) -> (r: String)
        ensures
            r@ == stmt_text(return_view(*self)),
    {
        match &self.value {
            Some(v) => {
                let mut s = String::from_str("return ");
                let text = v.to_string();
                s.append(text.as_str());
                s.append(";");
                proof {
                    assert(s@ =~= stmt_text(return_view(*self)));
                }
                s
            },
            None => String::from_str("return;"),
        }
    }
}

/// An expression statement: the expression's first token and the expression
/// itself.
#[derive(Debug)]
pub struct ExpressionStatement {
    pub token: Token,
    pub expression: Expression,
}

/// The model of an expression-statement node.
pub open spec fn expr_stmt_view(st: ExpressionStatement) -> StmtSpec {
    StmtSpec::Expr { token: st.token@, expression: expr_view(st.expression) }
}

impl ExpressionStatement {
    /// Builds an expression-statement node from its token and expression.
    pub fn new(token: Token, expression: Expression) -> (r: ExpressionStatement)
        ensures
            r == (ExpressionStatement { token, expression }),
    {
        ExpressionStatement { token, expression }
    }

    /// A fixed marker text for this statement form.
    pub fn get_token(&self) -> (r: String)
        ensures
            r@ == "return EXPR;"@,
    {
        String::from_str("return EXPR;")
    }

    /// Renders the expression statement back to source-like text.
    pub fn to_string(&self) -> (r: String)
        ensures
            r@ == stmt_text(expr_stmt_view(*self)),
    {
        self.expression.to_string()
    }
}

/// A statement: the closed set of statement forms.
#[derive(Debug)]
pub enum Statement {
    Declare(DeclareStatement),
    Return(ReturnStatement),
    Expression(ExpressionStatement),
}

/// The model of a statement node.
pub open spec fn stmt_view(st: Statement) -> StmtSpec {
    match st {
        Statement::Declare(d) => declare_view(d),
        Statement::Return(r) => return_view(r),
        Statement::Expression(e) => expr_stmt_view(e),
    }
}

impl Statement {
    /// The text of the token this statement was built from.
    pub fn get_token(&self) -> (r: String)
        ensures
            r@ == (match *self {
                Statement::Declare(d) => d.token@.value,
                Statement::Return(rt) => rt.token@.value,
                Statement::Expression(_) => "return EXPR;"@,
            }),
    {
        match self {
            Statement::Declare(d) => d.get_token(),
            Statement::Return(r) => r.get_token(),
            Statement::Expression(e) => e.get_token(),
        }
    }

    /// Renders the statement back to source-like text.
    pub fn to_string(&self) -> (r: String)
        ensures
            r@ == stmt_text(stmt_view(*self)),
    {
        match self {
            Statement::Declare(d) => d.to_string(),
            Statement::Return(r) => r.to_string(),
            Statement::Expression(e) => e.to_string(),
        }
    }
}

} // verus!
