//! The abstract syntax tree: a program is an ordered sequence of statements,
//! each built from expressions, and every node can render itself back to
//! source-like text.

pub mod expressions;
pub mod program;
pub mod statements;
