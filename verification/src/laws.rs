//! The laws of the evaluator, stated over the spec-level reduction that the
//! executable functions' contracts are written against, and proved once for
//! all trees and all operand values.

use vstd::prelude::*;
use vstd::arithmetic::div_mod::{lemma_mod_add_multiples_vanish, lemma_small_mod};
use crate::ast::{ArithCmpOp, ArithExpr, BinArithOp, BinLogicOp, BoolExpr, EvalError, Expr, Value};
use crate::semantics::{
    arith_has_div_by_zero, arith_value, as_result, bool_has_div_by_zero, bool_value,
    expr_has_div_by_zero, expr_value, lemma_trunc_div_in_range, trunc_div,
};

verus! {

/// Reducing an integer leaf yields that integer, for every `i64`.
pub proof fn lemma_int_lit(a: i64)
    ensures
        arith_value(ArithExpr::IntLit(a)) == Some(a),
{
}

/// Adding two integer leaves yields their sum, whenever the sum fits.
pub proof fn lemma_add_of_literals(a: i64, b: i64)
    requires
        i64::MIN <= a + b <= i64::MAX,
    ensures
        arith_value(
            ArithExpr::BinArithExpr {
                left: Box::new(ArithExpr::IntLit(a)),
                right: Box::new(ArithExpr::IntLit(b)),
                op: BinArithOp::AddOp,
            },
        ) == Some((a + b) as i64),
{
    assert(arith_value(ArithExpr::IntLit(a)) == Some(a));
    assert(arith_value(ArithExpr::IntLit(b)) == Some(b));
}

/// Subtracting two integer leaves yields their difference (`a - b`, not
/// `b - a`), whenever the difference fits.
pub proof fn lemma_sub_of_literals(a: i64, b: i64)
    requires
        i64::MIN <= a - b <= i64::MAX,
    ensures
        arith_value(
            ArithExpr::BinArithExpr {
                left: Box::new(ArithExpr::IntLit(a)),
                right: Box::new(ArithExpr::IntLit(b)),
                op: BinArithOp::SubOp,
            },
        ) == Some((a - b) as i64),
{
    assert(arith_value(ArithExpr::IntLit(a)) == Some(a));
    assert(arith_value(ArithExpr::IntLit(b)) == Some(b));
}

/// Multiplying two integer leaves yields their product, whenever the
/// product fits.
pub proof fn lemma_mul_of_literals(a: i64, b: i64)
    requires
        i64::MIN <= a * b <= i64::MAX,
    ensures
        arith_value(
            ArithExpr::BinArithExpr {
                left: Box::new(ArithExpr::IntLit(a)),
                right: Box::new(ArithExpr::IntLit(b)),
                op: BinArithOp::MulOp,
            },
        ) == Some((a * b) as i64),
{
    assert(arith_value(ArithExpr::IntLit(a)) == Some(a));
    assert(arith_value(ArithExpr::IntLit(b)) == Some(b));
    lemma_in_range_wraps_to_itself(a * b);
}

/// Dividing two integer leaves yields the quotient truncated toward zero,
/// for every nonzero divisor but the one overflowing pair
/// (`i64::MIN`, `-1`), whose quotient does not fit and wraps instead.
pub proof fn lemma_int_div_of_literals(a: i64, b: i64)
    requires
        b != 0,
        !(a == i64::MIN && b == -1),
    ensures
        i64::MIN <= trunc_div(a as int, b as int) <= i64::MAX,
        arith_value(
            ArithExpr::BinArithExpr {
                left: Box::new(ArithExpr::IntLit(a)),
                right: Box::new(ArithExpr::IntLit(b)),
                op: BinArithOp::IntDivOp,
            },
        ) == Some(trunc_div(a as int, b as int) as i64),
{
    assert(arith_value(ArithExpr::IntLit(a)) == Some(a));
    assert(arith_value(ArithExpr::IntLit(b)) == Some(b));
    lemma_trunc_div_in_range(a, b);
}

/// An arithmetic tree fails to reduce exactly when some division in it has
/// a divisor that reduces to `0`.
pub proof fn lemma_arith_none_iff_div_by_zero(e: ArithExpr)
    ensures
        arith_value(e) is None <==> arith_has_div_by_zero(e),
    decreases e,
{
    match e {
        ArithExpr::IntLit(_) => {},
        ArithExpr::BinArithExpr { left, right, op } => {
            lemma_arith_none_iff_div_by_zero(*left);
            lemma_arith_none_iff_div_by_zero(*right);
        },
    }
}

/// A boolean tree fails to reduce exactly when some division below one of
/// its comparison nodes has a divisor that reduces to `0`.
pub proof fn lemma_bool_none_iff_div_by_zero(e: BoolExpr)
    ensures
        bool_value(e) is None <==> bool_has_div_by_zero(e),
    decreases e,
{
    match e {
        BoolExpr::BoolLit(_) => {},
        BoolExpr::NotExpr(inner) => {
            lemma_bool_none_iff_div_by_zero(*inner);
        },
        BoolExpr::ArithCmpExpr { left, right, .. } => {
            lemma_arith_none_iff_div_by_zero(*left);
            lemma_arith_none_iff_div_by_zero(*right);
        },
        BoolExpr::BinBoolExpr { left, right, .. } => {
            lemma_bool_none_iff_div_by_zero(*left);
            lemma_bool_none_iff_div_by_zero(*right);
        },
    }
}

/// Wherever in a tree a division's divisor reduces to `0` — under nested
/// arithmetic, under a comparison, under any boolean operator — the whole
/// expression reduces to the division-by-zero failure; and only then.
pub proof fn lemma_div_by_zero_propagates(e: Expr)
    ensures
        as_result(expr_value(e)) == Err::<Value, EvalError>(EvalError::DivisionByZero)
            <==> expr_has_div_by_zero(e),
{
    match e {
        Expr::ArithExpr(a) => {
            lemma_arith_none_iff_div_by_zero(a);
        },
        Expr::BoolExpr(b) => {
            lemma_bool_none_iff_div_by_zero(b);
        },
    }
}

/// Comparing two integer leaves yields the standard signed comparison of
/// the two integers, for each comparison operator.
pub proof fn lemma_comparison_of_literals(a: i64, b: i64, op: ArithCmpOp, e: BoolExpr)
    requires
        e == (BoolExpr::ArithCmpExpr {
            left: Box::new(ArithExpr::IntLit(a)),
            right: Box::new(ArithExpr::IntLit(b)),
            op,
        }),
    ensures
        op == ArithCmpOp::LtOp ==> bool_value(e) == Some(a < b),
        op == ArithCmpOp::LteOp ==> bool_value(e) == Some(a <= b),
        op == ArithCmpOp::GtOp ==> bool_value(e) == Some(a > b),
        op == ArithCmpOp::GteOp ==> bool_value(e) == Some(a >= b),
        op == ArithCmpOp::ArithEqOp ==> bool_value(e) == Some(a == b),
        op == ArithCmpOp::ArithNeqOp ==> bool_value(e) == Some(a != b),
{
    assert(arith_value(ArithExpr::IntLit(a)) == Some(a));
    assert(arith_value(ArithExpr::IntLit(b)) == Some(b));
}

/// Combining two boolean leaves yields the operator's truth table, for each
/// binary boolean operator.
pub proof fn lemma_bin_logic_of_literals(p: bool, q: bool, op: BinLogicOp, e: BoolExpr)
    requires
        e == (BoolExpr::BinBoolExpr {
            left: Box::new(BoolExpr::BoolLit(p)),
            right: Box::new(BoolExpr::BoolLit(q)),
            op,
        }),
    ensures
        op == BinLogicOp::AndOp ==> bool_value(e) == Some(p && q),
        op == BinLogicOp::OrOp ==> bool_value(e) == Some(p || q),
        op == BinLogicOp::BoolEqOp ==> bool_value(e) == Some(p == q),
        op == BinLogicOp::BoolNeqOp ==> bool_value(e) == Some(p != q),
{
    assert(bool_value(BoolExpr::BoolLit(p)) == Some(p));
    assert(bool_value(BoolExpr::BoolLit(q)) == Some(q));
}

/// Negating a boolean leaf yields its logical complement, for both booleans.
pub proof fn lemma_negation_of_literal(p: bool)
    ensures
        bool_value(BoolExpr::NotExpr(Box::new(BoolExpr::BoolLit(p)))) == Some(!p),
{
    assert(bool_value(BoolExpr::BoolLit(p)) == Some(p));
}

/// Purity: the outcome of evaluation is a function of the tree alone, so
/// evaluating the same immutable tree a second time yields an identical
/// result — there is no hidden state and no cache.
pub proof fn lemma_eval_deterministic(e1: Expr, e2: Expr)
    requires
        e1 == e2,
    ensures
        as_result(expr_value(e1)) == as_result(expr_value(e2)),
{
}

/// A value in `i64`'s range is its own wrap-around remainder: helper for
/// the multiplication law, whose spec-level product is cropped into range.
proof fn lemma_in_range_wraps_to_itself(v: int)
    requires
        i64::MIN <= v <= i64::MAX,
    ensures
        vstd::wrapping::i64_specs::signed_crop(v) == v,
{
    let range = 0x1_0000_0000_0000_0000;
    if v >= 0 {
        lemma_small_mod(v as nat, range as nat);
    } else {
        lemma_mod_add_multiples_vanish(v, range);
        lemma_small_mod((v + range) as nat, range as nat);
    }
}

} // verus!
