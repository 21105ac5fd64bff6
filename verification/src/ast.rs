//! The abstract syntax tree: node and operator shapes, the tagged result
//! value, and the evaluator's single error. The tree is immutable once built;
//! each node owns its children outright, so trees are finite and acyclic, and
//! an arithmetic subtree can never contain a boolean node by construction.

use vstd::prelude::*;

verus! {

/// A top-level expression: either an arithmetic tree or a boolean tree.
pub enum Expr {
    ArithExpr(ArithExpr),
    BoolExpr(BoolExpr),
}

/// An arithmetic expression, reducing to an `i64`.
pub enum ArithExpr {
    /// A binary operation on two arithmetic subtrees.
    BinArithExpr { left: Box<ArithExpr>, right: Box<ArithExpr>, op: BinArithOp },
    /// An integer leaf.
    IntLit(i64),
}

/// A boolean expression, reducing to a `bool`.
pub enum BoolExpr {
    /// A comparison of two *arithmetic* subtrees; this is the one edge from
    /// the boolean sort into the arithmetic sort.
    ArithCmpExpr { left: Box<ArithExpr>, right: Box<ArithExpr>, op: ArithCmpOp },
    /// A binary operation on two boolean subtrees.
    BinBoolExpr { left: Box<BoolExpr>, right: Box<BoolExpr>, op: BinLogicOp },
    /// Logical complement of one boolean subtree.
    NotExpr(Box<BoolExpr>),
    /// A boolean leaf.
    BoolLit(bool),
}

/// The binary arithmetic operators.
pub enum BinArithOp {
    AddOp,
    SubOp,
    MulOp,
    /// Integer division, truncating toward zero; the divisor reducing to `0`
    /// is the evaluator's only failure.
    IntDivOp,
}

/// The comparison operators, applied to two reduced integers.
pub enum ArithCmpOp {
    LtOp,
    LteOp,
    GtOp,
    GteOp,
    ArithEqOp,
    ArithNeqOp,
}

/// The binary boolean operators. `BoolEqOp` and `BoolNeqOp` are boolean
/// (in)equality, distinct from the integer (in)equality of [`ArithCmpOp`].
pub enum BinLogicOp {
    AndOp,
    OrOp,
    BoolEqOp,
    BoolNeqOp,
}

/// The tagged value that the top-level dispatcher returns; the recursive
/// reduction functions themselves return raw primitives.
#[derive(Debug, PartialEq, Eq)]
pub enum Value {
    BoolValue(bool),
    IntValue(i64),
}

/// The evaluator's single error: an `IntDivOp` node whose right operand
/// reduced to `0`. It is never caught inside the evaluator; every enclosing
/// frame passes it through unchanged.
#[derive(Debug, PartialEq, Eq)]
pub enum EvalError {
    DivisionByZero,
}

} // verus!
