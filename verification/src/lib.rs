//! Front end of a small programming language: a lexer that turns source
//! text into tokens, and the shapes of the syntax tree that a parser builds
//! from them.
//!
//! The lexer is verified against a mathematical description of the token
//! grammar over sequences of characters (see [`lexer::grammar`]).

pub mod lexer;
pub mod parser;
