//! Shapes of the syntax tree.

pub mod exprs;
