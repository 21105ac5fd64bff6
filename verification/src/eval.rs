//! The evaluator: two recursive reduction functions, one per sort, and the
//! top-level dispatcher. Each function's contract ties its result exactly to
//! the spec-level reduction of its input tree, so a caller knows the returned
//! value, and knows that `Err(DivisionByZero)` comes back precisely when some
//! division in the tree has a divisor that reduces to `0`.
//!
//! Operands are always reduced left before right, and both are always
//! reduced: arithmetic operators have no conditional semantics, and the
//! boolean operators deliberately do not short-circuit (boolean subtrees have
//! no side effects, so nothing would be saved).

use vstd::prelude::*;
use crate::ast::{ArithExpr, ArithCmpOp, BinArithOp, BinLogicOp, BoolExpr, EvalError, Expr, Value};
use crate::semantics::{
    arith_value, as_result, bool_value, expr_value, lemma_trunc_div_in_range,
};

verus! {

/// Reduce a top-level expression to a tagged value: dispatch on the sort,
/// reduce with the matching function, and wrap the primitive it returns.
pub fn eval(expr: Expr) -> (r: Result<Value, EvalError>)
    ensures
        r == as_result(expr_value(expr)),
{
    match expr {
        Expr::ArithExpr(arith_expr) => match eval_arith_expr(arith_expr) {
            Ok(num) => Ok(Value::IntValue(num)),
            Err(e) => Err(e),
        },
        Expr::BoolExpr(bool_expr) => match eval_bool_expr(bool_expr) {
            Ok(b) => Ok(Value::BoolValue(b)),
            Err(e) => Err(e),
        },
    }
}

/// Reduce an arithmetic tree to its integer, post-order: children first,
/// then the node's operator on the two reduced operands. Addition,
/// subtraction and multiplication wrap on overflow; division truncates
/// toward zero (with `i64::MIN / -1` wrapping to `i64::MIN`) and fails
/// exactly when the reduced divisor is `0`.
pub fn eval_arith_expr(arith_expr: ArithExpr) -> (r: Result<i64, EvalError>)
    ensures
        r == as_result(arith_value(arith_expr)),
    decreases arith_expr,
{
    match arith_expr {
        ArithExpr::BinArithExpr { left, right, op } => {
            let lnum = match eval_arith_expr(*left) {
                Ok(num) => num,
                Err(e) => return Err(e),
            };
            let rnum = match eval_arith_expr(*right) {
                Ok(num) => num,
                Err(e) => return Err(e),
            };
            match op {
                BinArithOp::AddOp => Ok(lnum.wrapping_add(rnum)),
                BinArithOp::SubOp => Ok(lnum.wrapping_sub(rnum)),
                BinArithOp::MulOp => Ok(lnum.wrapping_mul(rnum)),
                BinArithOp::IntDivOp => {
                    if rnum == 0 {
                        Err(EvalError::DivisionByZero)
                    } else if lnum == i64::MIN && rnum == -1 {
                        // The one quotient that overflows wraps to itself.
                        Ok(i64::MIN)
                    } else {
                        proof {
                            lemma_trunc_div_in_range(lnum, rnum);
                        }
                        Ok(lnum.checked_div(rnum).unwrap())
                    }
                },
            }
        },
        ArithExpr::IntLit(num) => Ok(num),
    }
}

/// Reduce a boolean tree to its truth value, post-order. Comparison nodes
/// reduce their two arithmetic operands and propagate a division failure
/// unchanged; binary boolean nodes always reduce both operands.
pub fn eval_bool_expr(bool_expr: BoolExpr) -> (r: Result<bool, EvalError>)
    ensures
        r == as_result(bool_value(bool_expr)),
    decreases bool_expr,
{
    match bool_expr {
        BoolExpr::ArithCmpExpr { left, right, op } => {
            let lnum = match eval_arith_expr(*left) {
                Ok(num) => num,
                Err(e) => return Err(e),
            };
            let rnum = match eval_arith_expr(*right) {
                Ok(num) => num,
                Err(e) => return Err(e),
            };
            match op {
                ArithCmpOp::LtOp => Ok(lnum < rnum),
                ArithCmpOp::LteOp => Ok(lnum <= rnum),
                ArithCmpOp::GtOp => Ok(lnum > rnum),
                ArithCmpOp::GteOp => Ok(lnum >= rnum),
                ArithCmpOp::ArithEqOp => Ok(lnum == rnum),
                ArithCmpOp::ArithNeqOp => Ok(lnum != rnum),
            }
        },
        BoolExpr::BinBoolExpr { left, right, op } => {
            let lbool = match eval_bool_expr(*left) {
                Ok(b) => b,
                Err(e) => return Err(e),
            };
            let rbool = match eval_bool_expr(*right) {
                Ok(b) => b,
                Err(e) => return Err(e),
            };
            match op {
                BinLogicOp::AndOp => Ok(lbool && rbool),
                BinLogicOp::OrOp => Ok(lbool || rbool),
                BinLogicOp::BoolEqOp => Ok(lbool == rbool),
                BinLogicOp::BoolNeqOp => Ok(lbool != rbool),
            }
        },
        BoolExpr::NotExpr(inner) => match eval_bool_expr(*inner) {
            Ok(b) => Ok(!b),
            Err(e) => Err(e),
        },
        BoolExpr::BoolLit(b) => Ok(b),
    }
}

} // verus!
