//! A parser-combinator runtime: composable parsers that consume a mutable,
//! position-aware cursor and return either a typed value or a structured,
//! recoverable error.
//!
//! Every combinator is a small struct implementing [`parser::Parser`], whose
//! `spec_parse` gives the combinator's exact meaning as a function from cursor
//! state to (new cursor state, outcome); the executable `parse` method is
//! verified against that meaning.

pub mod cursor;
pub mod dup;
pub mod parser;

pub mod builders;
pub mod combinators;
pub mod error_combinators;
pub mod errors;
pub mod laws;
pub mod monadic;
pub mod state;
pub mod text;
pub mod utils;
