//! A scanner and parser for a small C/Rust-flavored scripting language.
//!
//! Source text is tokenized by a [`lexer::Lexer`] with one character of
//! lookahead, and the token stream is turned into an abstract syntax tree by a
//! [`parser::Parser`] with one token of lookahead.  Every stage is specified
//! against a mathematical model of the scan: spec functions over the input
//! character sequence say exactly which token starts at which position, and
//! the grammar rules are specified against that model in turn.

pub mod ast;
pub mod cli;
pub mod enums;
pub mod lexer;
pub mod parser;
pub mod queue;
pub mod repl;
pub mod strutil;
pub mod token;
