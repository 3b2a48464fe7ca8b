//! The front end of a small expression-oriented language: a tokenizer and a
//! recursive-descent parser with precedence climbing, turning source text
//! into a sequence of syntax trees for a code generator to consume.
//!
//! The scan and the parse are each defined twice: once as spec functions —
//! the reference model in [`lexer`] and [`grammar`] — and once as executable
//! code proved to agree with that model exactly, so what `Parser::new` and
//! `Parser::parse` return is pinned, input for input, down to the first
//! failure raised. [`laws`] states the properties that follow once and for
//! all inputs.

pub mod cli;
pub mod cli_errors;
pub mod codegen_errors;
pub mod config;
pub mod errors;
pub mod expr;
pub mod grammar;
pub mod laws;
pub mod lexer;
pub mod nodes;
pub mod ops;
pub mod parser;
pub mod render;
pub mod strings;
pub mod tokens;
pub mod types;
