use vstd::prelude::*;

verus! {

/// A sequence of expressions, evaluated in order.
pub struct Program {
    pub block: Vec<Expression>,
}

/// Name and return type of a function.
pub struct FunctionSignature {
    pub name: String,
    pub return_type: Box<Expression>,
}

/// A node of the syntax tree.
pub enum Expression {
    Program(Program),
    Let { mutable: bool, ident: String, value: Box<Expression> },
    Return { value: Box<Expression> },
    Function { signature: FunctionSignature, block: Program },
}

} // verus!
