//! A tree-walking evaluator for a small expression language with two sorts:
//! integer arithmetic and boolean logic, linked by comparison operators that
//! take arithmetic operands and yield a boolean. Callers build an expression
//! tree and hand it to the evaluator, which reduces it bottom-up to a single
//! tagged value. The one failure condition is division by zero, reported as an
//! explicit error and propagated unchanged to the caller.

pub mod ast;
pub mod eval;
pub mod laws;
pub mod semantics;
