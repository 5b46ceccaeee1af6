// Behaviour of the expression evaluator on concrete inputs, checked
// against native binary64 arithmetic.

use rac_core::bindings::Bindings;
use rac_core::eval::eval_expr;
use rac_core::expr::Expr;

fn lit(x: f64) -> Expr {
    Expr::Literal(x.to_bits())
}

fn binop(op: &str, l: Expr, r: Expr) -> Expr {
    Expr::BinOp { op: op.to_owned(), left: Box::new(l), right: Box::new(r) }
}

fn call(func: &str, args: Vec<Expr>) -> Expr {
    Expr::Call { func: func.to_owned(), args }
}

fn cond(c: Expr, t: Expr, e: Expr) -> Expr {
    Expr::Cond { cond: Box::new(c), then_expr: Box::new(t), else_expr: Box::new(e) }
}

fn eval_closed(e: &Expr) -> f64 {
    let empty = Bindings::new();
    f64::from_bits(eval_expr(e, &empty, &empty))
}

#[test]
fn literal_evaluates_to_itself() {
    assert_eq!(eval_closed(&lit(3.25)), 3.25);
    assert_eq!(eval_closed(&lit(-0.5)), -0.5);
    assert_eq!(eval_closed(&lit(0.0)), 0.0);
}

#[test]
fn literal_arithmetic_is_exact() {
    assert_eq!(eval_closed(&binop("+", lit(2.0), lit(3.5))), 5.5);
    assert_eq!(eval_closed(&binop("-", lit(2.0), lit(3.5))), -1.5);
    assert_eq!(eval_closed(&binop("*", lit(1.5), lit(4.0))), 6.0);
    assert_eq!(eval_closed(&binop("/", lit(1.0), lit(4.0))), 0.25);
    assert_eq!(eval_closed(&binop("+", lit(0.1), lit(0.2))), 0.1 + 0.2);
    assert_eq!(eval_closed(&binop("*", lit(0.1), lit(0.3))), 0.1 * 0.3);
    assert_eq!(eval_closed(&binop("/", lit(1.0), lit(3.0))), 1.0 / 3.0);
}

#[test]
fn division_by_zero_degrades_to_zero() {
    assert_eq!(eval_closed(&binop("/", lit(7.5), lit(0.0))), 0.0);
    assert_eq!(eval_closed(&binop("/", lit(-3.0), lit(0.0))), 0.0);
    assert_eq!(eval_closed(&binop("/", lit(0.0), lit(0.0))), 0.0);
    assert_eq!(eval_closed(&binop("/", lit(7.5), lit(-0.0))), 0.0);
}

#[test]
fn comparisons_yield_one_or_zero() {
    assert_eq!(eval_closed(&binop(">", lit(2.0), lit(1.0))), 1.0);
    assert_eq!(eval_closed(&binop(">", lit(1.0), lit(2.0))), 0.0);
    assert_eq!(eval_closed(&binop(">=", lit(2.0), lit(2.0))), 1.0);
    assert_eq!(eval_closed(&binop(">=", lit(1.9), lit(2.0))), 0.0);
    assert_eq!(eval_closed(&binop("<", lit(1.0), lit(2.0))), 1.0);
    assert_eq!(eval_closed(&binop("<", lit(2.0), lit(1.0))), 0.0);
    assert_eq!(eval_closed(&binop("<=", lit(2.0), lit(2.0))), 1.0);
    assert_eq!(eval_closed(&binop("<=", lit(2.1), lit(2.0))), 0.0);
}

#[test]
fn equality_is_tolerant() {
    assert_eq!(eval_closed(&binop("==", lit(1.0), lit(1.0 + 1e-12))), 1.0);
    assert_eq!(eval_closed(&binop("==", lit(1.0), lit(1.01))), 0.0);
    assert_eq!(eval_closed(&binop("==", lit(2.5), lit(2.5))), 1.0);
    // the tolerance is strict: a difference of exactly 1e-10 is unequal
    assert_eq!(eval_closed(&binop("==", lit(0.0), lit(1e-10))), 0.0);
    assert_eq!(eval_closed(&binop("==", lit(0.0), lit(0.9e-10))), 1.0);
}

#[test]
fn unknown_operator_degrades_to_zero() {
    assert_eq!(eval_closed(&binop("%", lit(7.0), lit(2.0))), 0.0);
    assert_eq!(eval_closed(&binop("", lit(7.0), lit(2.0))), 0.0);
}

#[test]
fn min_max_fold_over_all_arguments() {
    assert_eq!(eval_closed(&call("max", vec![lit(3.0), lit(5.0), lit(-1.0)])), 5.0);
    assert_eq!(eval_closed(&call("min", vec![lit(3.0), lit(5.0), lit(-1.0)])), -1.0);
    assert_eq!(eval_closed(&call("min", vec![lit(2.0)])), 2.0);
    assert_eq!(eval_closed(&call("max", vec![lit(-7.0)])), -7.0);
}

#[test]
fn min_max_of_nothing_degrade_to_infinities() {
    assert_eq!(eval_closed(&call("min", vec![])), f64::INFINITY);
    assert_eq!(eval_closed(&call("max", vec![])), f64::NEG_INFINITY);
}

#[test]
fn abs_and_round_use_first_argument() {
    assert_eq!(eval_closed(&call("abs", vec![lit(-4.5)])), 4.5);
    assert_eq!(eval_closed(&call("abs", vec![lit(4.5)])), 4.5);
    assert_eq!(eval_closed(&call("round", vec![lit(2.6)])), 3.0);
    assert_eq!(eval_closed(&call("round", vec![lit(2.4)])), 2.0);
    assert_eq!(eval_closed(&call("round", vec![lit(2.5)])), 3.0);
    assert_eq!(eval_closed(&call("round", vec![lit(-2.5)])), -3.0);
    assert_eq!(eval_closed(&call("abs", vec![lit(-1.0), lit(9.0)])), 1.0);
    assert_eq!(eval_closed(&call("round", vec![lit(1.2), lit(9.0)])), 1.0);
}

#[test]
fn abs_and_round_of_nothing_degrade_to_zero() {
    assert_eq!(eval_closed(&call("abs", vec![])), 0.0);
    assert_eq!(eval_closed(&call("round", vec![])), 0.0);
}

#[test]
fn unknown_function_degrades_to_zero() {
    assert_eq!(eval_closed(&call("sqrt", vec![lit(4.0)])), 0.0);
}

#[test]
fn conditional_takes_exactly_one_branch() {
    assert_eq!(eval_closed(&cond(lit(0.0), lit(1.0), lit(2.0))), 2.0);
    assert_eq!(eval_closed(&cond(lit(1.0), lit(1.0), lit(2.0))), 1.0);
    // any nonzero condition counts as true, not only 1.0
    assert_eq!(eval_closed(&cond(lit(-0.25), lit(1.0), lit(2.0))), 1.0);
    // -0.0 is zero
    assert_eq!(eval_closed(&cond(lit(-0.0), lit(1.0), lit(2.0))), 2.0);
}

#[test]
fn conditional_short_circuits_the_untaken_branch() {
    // the then branch divides by zero and references an unbound name;
    // with a zero condition its value leaves no trace in the result
    let poison = binop("/", Expr::Var("missing".to_owned()), lit(0.0));
    assert_eq!(eval_closed(&cond(lit(0.0), poison, lit(7.0))), 7.0);
}

#[test]
fn unknown_variable_defaults_to_zero() {
    assert_eq!(eval_closed(&Expr::Var("missing".to_owned())), 0.0);
}

#[test]
fn variable_resolves_row_scope_first() {
    let mut scalars = Bindings::new();
    scalars.set("x".to_owned(), 2.0f64.to_bits());
    let mut row = Bindings::new();
    row.set("x".to_owned(), 1.0f64.to_bits());
    let e = Expr::Var("x".to_owned());
    assert_eq!(f64::from_bits(eval_expr(&e, &scalars, &row)), 1.0);
    let empty = Bindings::new();
    assert_eq!(f64::from_bits(eval_expr(&e, &scalars, &empty)), 2.0);
}

#[test]
fn later_binding_shadows_earlier() {
    let mut row = Bindings::new();
    row.set("x".to_owned(), 1.0f64.to_bits());
    row.set("x".to_owned(), 3.0f64.to_bits());
    assert_eq!(row.get(&"x".to_owned()), Some(3.0f64.to_bits()));
    assert_eq!(row.get(&"y".to_owned()), None);
}

#[test]
fn nested_expressions_compose() {
    // max(abs(-4.5), 1 + 2 * 2) == 5.0
    let e = call(
        "max",
        vec![
            call("abs", vec![lit(-4.5)]),
            binop("+", lit(1.0), binop("*", lit(2.0), lit(2.0))),
        ],
    );
    assert_eq!(eval_closed(&e), 5.0);
}
