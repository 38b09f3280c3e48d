//! A small dynamically typed scripting language: tokens, a lexer, a
//! recursive-descent parser, the syntax tree, the value model, the scope
//! chain, and an evaluator.
//!
//! Source text goes through [`lexer::Lexer`] and [`parser::Parser`] to a
//! [`nodes::Node`], which [`interpreter::interpret`] hands to a
//! [`interpreter::Machine`]. The machine runs step by step. What it cannot
//! do itself, it asks of its host: writing and reading text, every
//! operation on floating-point numbers, which the library holds as the
//! bits of their IEEE-754 binary64 encoding, and the native functions
//! that the host has bound beside the library's own.
//!
//! A program's nested calls and loops live on the machine's own stack, so
//! running a program does not deepen the host's call stack. Parsing,
//! copying and printing a tree or a value recurse as deep as the tree or
//! value is nested.

pub mod text;
pub mod tokens;
pub mod lexer;
pub mod nodes;
pub mod parser;
pub mod types;
pub mod symbol_table;
pub mod builtin_functions;
pub mod interpreter;
pub mod laws;
