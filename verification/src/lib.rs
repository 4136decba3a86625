//! Translator from a restricted subset of Lua to JavaScript source text.
//!
//! The input is an already-parsed abstract syntax tree ([`ast`]); the output
//! is JavaScript source text. Translation either succeeds for the whole tree
//! or fails on the first unsupported construct ([`error`]), never producing
//! partial output.

pub mod ast;
pub mod error;
pub mod escape;
pub mod block;
pub mod expr;
