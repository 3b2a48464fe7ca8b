//! Operator kinds of the expression grammar.
//!
//! The binary operators fall into fixed precedence groups, handled lowest to
//! highest by the parser: logical-or, logical-and, equality, relational,
//! additive, multiplicative. Unary operators bind tighter than all of them.

use vstd::prelude::*;

verus! {

/// A binary operator of the expression grammar.
#[derive(Debug, Clone, Copy, PartialEq, Eq, Structural)]
pub enum BinaryOp {
    Add,
    Subtract,
    Multiply,
    Divide,
    Modulo,
    Equal,
    NotEqual,
    Greater,
    Less,
    GreaterEqual,
    LessEqual,
    And,
    Or,
}

/// A prefix operator of the expression grammar.
#[derive(Debug, Clone, Copy, PartialEq, Eq, Structural)]
pub enum UnaryOp {
    Minus,
    Not,
}

} // verus!
