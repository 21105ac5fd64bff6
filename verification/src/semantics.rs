//! The mathematical meaning of a tree: spec functions that say what every
//! node reduces to. A reduction outcome is an `Option`, `None` standing for
//! the one failure, division by zero somewhere in the tree.
//!
//! Arithmetic is fixed-width `i64` arithmetic that wraps on overflow, stated
//! through the wrap-around definitions that the executable `wrapping_*`
//! operations carry. Division truncates toward zero, as the host's `/` does;
//! the one quotient that does not fit, `i64::MIN / -1`, wraps to `i64::MIN`.

use vstd::prelude::*;
use vstd::arithmetic::div_mod::{
    lemma_div_is_ordered_by_denominator, lemma_div_nonincreasing, lemma_div_pos_is_pos,
};
use crate::ast::{ArithCmpOp, ArithExpr, BinArithOp, BinLogicOp, BoolExpr, EvalError, Expr, Value};

verus! {

/// Integer division truncating toward zero: `|a| / |b|`, carrying the sign
/// of the exact quotient. (The spec-level `/` on `int` rounds the Euclidean
/// way, so the negative cases are spelled out through absolute values.)
pub open spec fn trunc_div(a: int, b: int) -> int
    recommends
        b != 0,
{
    if a == 0 {
        0
    } else if a > 0 && b > 0 {
        a / b
    } else if a < 0 && b < 0 {
        (-a) / (-b)
    } else if a < 0 {
        -((-a) / b)
    } else {
        -(a / (-b))
    }
}

/// The `i64` quotient of `l` by a nonzero `r`: truncating division, with the
/// single overflowing case `i64::MIN / -1` wrapped to `i64::MIN`.
pub open spec fn wrap_div(l: i64, r: i64) -> i64
    recommends
        r != 0,
{
    if l == i64::MIN && r == -1 {
        i64::MIN
    } else {
        trunc_div(l as int, r as int) as i64
    }
}

/// One binary arithmetic operation on already-reduced operands. `None`
/// exactly when the operation is a division and the divisor is `0`.
pub open spec fn bin_arith_value(l: i64, r: i64, op: BinArithOp) -> Option<i64> {
    match op {
        BinArithOp::AddOp => Some(l.wrapping_add(r)),
        BinArithOp::SubOp => Some(l.wrapping_sub(r)),
        BinArithOp::MulOp => Some(l.wrapping_mul(r)),
        BinArithOp::IntDivOp => if r == 0 {
            None
        } else {
            Some(wrap_div(l, r))
        },
    }
}

/// One comparison on already-reduced integer operands: the standard signed
/// total order and integer (in)equality.
pub open spec fn cmp_value(l: i64, r: i64, op: ArithCmpOp) -> bool {
    match op {
        ArithCmpOp::LtOp => l < r,
        ArithCmpOp::LteOp => l <= r,
        ArithCmpOp::GtOp => l > r,
        ArithCmpOp::GteOp => l >= r,
        ArithCmpOp::ArithEqOp => l == r,
        ArithCmpOp::ArithNeqOp => l != r,
    }
}

/// One binary boolean operation on already-reduced operands.
pub open spec fn logic_value(l: bool, r: bool, op: BinLogicOp) -> bool {
    match op {
        BinLogicOp::AndOp => l && r,
        BinLogicOp::OrOp => l || r,
        BinLogicOp::BoolEqOp => l == r,
        BinLogicOp::BoolNeqOp => l != r,
    }
}

/// What an arithmetic tree reduces to, bottom-up: its integer value, or
/// `None` when some division in it has a divisor that reduces to `0`.
pub open spec fn arith_value(e: ArithExpr) -> Option<i64>
    decreases e,
{
    match e {
        ArithExpr::IntLit(n) => Some(n),
        ArithExpr::BinArithExpr { left, right, op } => match (arith_value(*left), arith_value(
            *right,
        )) {
            (Some(l), Some(r)) => bin_arith_value(l, r, op),
            _ => None,
        },
    }
}

/// What a boolean tree reduces to: its truth value, or `None` when some
/// division below it (necessarily under a comparison) fails.
pub open spec fn bool_value(e: BoolExpr) -> Option<bool>
    decreases e,
{
    match e {
        BoolExpr::BoolLit(b) => Some(b),
        BoolExpr::NotExpr(inner) => match bool_value(*inner) {
            Some(b) => Some(!b),
            None => None,
        },
        BoolExpr::ArithCmpExpr { left, right, op } => match (arith_value(*left), arith_value(
            *right,
        )) {
            (Some(l), Some(r)) => Some(cmp_value(l, r, op)),
            _ => None,
        },
        BoolExpr::BinBoolExpr { left, right, op } => match (bool_value(*left), bool_value(
            *right,
        )) {
            (Some(l), Some(r)) => Some(logic_value(l, r, op)),
            _ => None,
        },
    }
}

/// What a top-level expression reduces to: the primitive of the matching
/// sort, wrapped in the tagged result value.
pub open spec fn expr_value(e: Expr) -> Option<Value> {
    match e {
        Expr::ArithExpr(a) => match arith_value(a) {
            Some(n) => Some(Value::IntValue(n)),
            None => None,
        },
        Expr::BoolExpr(b) => match bool_value(b) {
            Some(v) => Some(Value::BoolValue(v)),
            None => None,
        },
    }
}

/// A reduction outcome as the caller sees it: `None` is the evaluator's one
/// failure, division by zero.
pub open spec fn as_result<T>(v: Option<T>) -> Result<T, EvalError> {
    match v {
        Some(x) => Ok(x),
        None => Err(EvalError::DivisionByZero),
    }
}

/// Whether some division in an arithmetic tree has a divisor that reduces
/// to `0`. This is the exact condition under which the tree fails to reduce.
pub open spec fn arith_has_div_by_zero(e: ArithExpr) -> bool
    decreases e,
{
    match e {
        ArithExpr::IntLit(_) => false,
        ArithExpr::BinArithExpr { left, right, op } => arith_has_div_by_zero(*left)
            || arith_has_div_by_zero(*right) || (op == BinArithOp::IntDivOp && arith_value(*right)
            == Some(0i64)),
    }
}

/// Whether some division under a boolean tree (necessarily below one of its
/// comparison nodes) has a divisor that reduces to `0`.
pub open spec fn bool_has_div_by_zero(e: BoolExpr) -> bool
    decreases e,
{
    match e {
        BoolExpr::BoolLit(_) => false,
        BoolExpr::NotExpr(inner) => bool_has_div_by_zero(*inner),
        BoolExpr::ArithCmpExpr { left, right, .. } => arith_has_div_by_zero(*left)
            || arith_has_div_by_zero(*right),
        BoolExpr::BinBoolExpr { left, right, .. } => bool_has_div_by_zero(*left)
            || bool_has_div_by_zero(*right),
    }
}

/// Whether some division in a top-level expression has a divisor that
/// reduces to `0`.
pub open spec fn expr_has_div_by_zero(e: Expr) -> bool {
    match e {
        Expr::ArithExpr(a) => arith_has_div_by_zero(a),
        Expr::BoolExpr(b) => bool_has_div_by_zero(b),
    }
}

/// Every truncating `i64` quotient fits in `i64`, except `i64::MIN / -1`.
pub proof fn lemma_trunc_div_in_range(a: i64, b: i64)
    requires
        b != 0,
        !(a == i64::MIN && b == -1),
    ensures
        i64::MIN <= trunc_div(a as int, b as int) <= i64::MAX,
{
    let x = a as int;
    let d = b as int;
    if x == 0 {
    } else if x > 0 && d > 0 {
        lemma_div_pos_is_pos(x, d);
        lemma_div_nonincreasing(x, d);
    } else if x < 0 && d < 0 {
        lemma_div_pos_is_pos(-x, -d);
        lemma_div_nonincreasing(-x, -d);
        if a == i64::MIN {
            // b != -1 here, so the divisor's magnitude is at least 2 and the
            // quotient is at most half the dividend's magnitude.
            lemma_div_is_ordered_by_denominator(-x, 2, -d);
        }
    } else if x < 0 {
        lemma_div_pos_is_pos(-x, d);
        lemma_div_nonincreasing(-x, d);
    } else {
        lemma_div_pos_is_pos(x, -d);
        lemma_div_nonincreasing(x, -d);
    }
}

} // verus!
