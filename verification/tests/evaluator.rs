use expr_eval::ast::ArithCmpOp;
use expr_eval::ast::ArithExpr::{BinArithExpr, IntLit};
use expr_eval::ast::BinArithOp;
use expr_eval::ast::BinLogicOp;
use expr_eval::ast::BoolExpr::{ArithCmpExpr, BinBoolExpr, BoolLit, NotExpr};
use expr_eval::ast::Expr;
use expr_eval::ast::Value::{BoolValue, IntValue};
use expr_eval::eval::{eval, eval_arith_expr, eval_bool_expr};

#[test]
fn test_arithexp1() {
    let mut expr = BinArithExpr {
        left: Box::new(IntLit(4)),
        right: Box::new(IntLit(2)),
        op: BinArithOp::AddOp,
    };
    assert_eq!(eval_arith_expr(expr), Ok(6));
    expr = BinArithExpr {
        left: Box::new(IntLit(4)),
        right: Box::new(IntLit(2)),
        op: BinArithOp::SubOp,
    };
    assert_eq!(eval_arith_expr(expr), Ok(2));
    expr = BinArithExpr {
        left: Box::new(IntLit(4)),
        right: Box::new(IntLit(2)),
        op: BinArithOp::MulOp,
    };
    assert_eq!(eval_arith_expr(expr), Ok(8));
    expr = BinArithExpr {
        left: Box::new(IntLit(4)),
        right: Box::new(IntLit(2)),
        op: BinArithOp::IntDivOp,
    };
    assert_eq!(eval_arith_expr(expr), Ok(2));

    let expr2 = Expr::ArithExpr(IntLit(10));
    let answer = IntValue(10);
    assert_eq!(eval(expr2), Ok(answer));
}

#[test]
fn test_boolexp1() {
    let mut expr = ArithCmpExpr {
        left: Box::new(IntLit(4)),
        right: Box::new(IntLit(2)),
        op: ArithCmpOp::LtOp,
    };
    assert_eq!(eval_bool_expr(expr), Ok(false));
    expr = ArithCmpExpr {
        left: Box::new(IntLit(4)),
        right: Box::new(IntLit(2)),
        op: ArithCmpOp::LteOp,
    };
    assert_eq!(eval_bool_expr(expr), Ok(false));
    expr = ArithCmpExpr {
        left: Box::new(IntLit(4)),
        right: Box::new(IntLit(2)),
        op: ArithCmpOp::GtOp,
    };
    assert_eq!(eval_bool_expr(expr), Ok(true));
    expr = ArithCmpExpr {
        left: Box::new(IntLit(4)),
        right: Box::new(IntLit(2)),
        op: ArithCmpOp::GteOp,
    };
    assert_eq!(eval_bool_expr(expr), Ok(true));
    expr = ArithCmpExpr {
        left: Box::new(IntLit(4)),
        right: Box::new(IntLit(2)),
        op: ArithCmpOp::ArithEqOp,
    };
    assert_eq!(eval_bool_expr(expr), Ok(false));
    expr = ArithCmpExpr {
        left: Box::new(IntLit(4)),
        right: Box::new(IntLit(2)),
        op: ArithCmpOp::ArithNeqOp,
    };
    assert_eq!(eval_bool_expr(expr), Ok(true));

    expr = BinBoolExpr {
        left: Box::new(BoolLit(true)),
        right: Box::new(BoolLit(false)),
        op: BinLogicOp::AndOp,
    };
    assert_eq!(eval_bool_expr(expr), Ok(false));
    expr = BinBoolExpr {
        left: Box::new(BoolLit(false)),
        right: Box::new(BoolLit(true)),
        op: BinLogicOp::OrOp,
    };
    assert_eq!(eval_bool_expr(expr), Ok(true));
    expr = BinBoolExpr {
        left: Box::new(BoolLit(true)),
        right: Box::new(BoolLit(false)),
        op: BinLogicOp::BoolEqOp,
    };
    assert_eq!(eval_bool_expr(expr), Ok(false));
    expr = BinBoolExpr {
        left: Box::new(BoolLit(true)),
        right: Box::new(BoolLit(false)),
        op: BinLogicOp::BoolNeqOp,
    };
    assert_eq!(eval_bool_expr(expr), Ok(true));

    expr = NotExpr(Box::new(BoolLit(true)));
    assert_eq!(eval_bool_expr(expr), Ok(false));
}

#[test]
fn test_sample() {
    let expr = Expr::BoolExpr(BoolLit(true));
    let answer = BoolValue(true);

    assert_eq!(eval(expr), Ok(answer));
}

#[test]
fn test_others() {
    println!("{:?}", BoolValue(true));
}
