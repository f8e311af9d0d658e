//! A small expression compiler: a scanner that turns source text into
//! tokens, a precedence-climbing parser that builds an expression tree,
//! and a code generator that lowers stack-machine idioms into textual
//! x86-64 assembly.

pub mod directives;
pub mod error;
pub mod expr;
pub mod ir;
pub mod op_code;
pub mod parser;
pub mod registers;
pub mod scanner;
