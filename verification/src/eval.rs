//! The expression evaluator: a total, pure, recursive function from an
//! expression and two binding scopes to a single binary64 value.
//!
//! The semantics are deliberately fail-soft: unknown identifiers, unknown
//! operator or function names, and division by zero all evaluate to 0.0
//! rather than erroring, so a single malformed rule cannot abort the
//! evaluation of a whole population.

use vstd::prelude::*;

use crate::arith::{
    abs_bits, add_bits, approx_eq_bits, bool_bits, div_bits, fabs, fadd, fapprox_eq, fdiv, fge,
    fgt, fis_zero, fle, flt, fmax2, fmin2, fmul, fround, fsub, ge_bits, gt_bits, is_zero_bits,
    le_bits, lt_bits, max2_bits, min2_bits, mul_bits, round_bits, sub_bits, BITS_NEG_INF, BITS_ONE,
    BITS_POS_INF, BITS_ZERO,
};
use crate::bindings::Bindings;
use crate::expr::Expr;

verus! {

/// Whether two string slices hold the same characters.
pub fn str_eq(a: &str, b: &str) -> (r: bool)
    ensures
        r == (a@ == b@),
{
    let x: String = a.to_owned();
    let y: String = b.to_owned();
    x == y
}

/// The value of a binary operation, selected by the operator's name.
/// Comparisons yield 1.0 or 0.0; `==` is tolerant (see `approx_eq_bits`);
/// division by zero and unknown operators yield 0.0.
pub open spec fn spec_apply_binop(op: Seq<char>, l: u64, r: u64) -> u64 {
    if op == "+"@ {
        add_bits(l, r)
    } else if op == "-"@ {
        sub_bits(l, r)
    } else if op == "*"@ {
        mul_bits(l, r)
    } else if op == "/"@ {
        if is_zero_bits(r) {
            BITS_ZERO
        } else {
            div_bits(l, r)
        }
    } else if op == ">"@ {
        bool_bits(gt_bits(l, r))
    } else if op == ">="@ {
        bool_bits(ge_bits(l, r))
    } else if op == "<"@ {
        bool_bits(lt_bits(l, r))
    } else if op == "<="@ {
        bool_bits(le_bits(l, r))
    } else if op == "=="@ {
        bool_bits(approx_eq_bits(l, r))
    } else {
        BITS_ZERO
    }
}

/// The left-to-right minimum fold over already-evaluated arguments.
pub open spec fn fold_min_bits(vals: Seq<u64>, acc: u64) -> u64
    decreases vals.len(),
{
    if vals.len() == 0 {
        acc
    } else {
        fold_min_bits(vals.drop_first(), min2_bits(acc, vals[0]))
    }
}

/// The left-to-right maximum fold over already-evaluated arguments.
pub open spec fn fold_max_bits(vals: Seq<u64>, acc: u64) -> u64
    decreases vals.len(),
{
    if vals.len() == 0 {
        acc
    } else {
        fold_max_bits(vals.drop_first(), max2_bits(acc, vals[0]))
    }
}

/// The value of a function call, selected by the function's name, over the
/// already-evaluated arguments. `min`/`max` fold over all arguments and
/// degrade to the infinities on an empty argument list; `abs`/`round` use
/// the first argument only and yield 0.0 without one; an unknown function
/// name yields 0.0.
pub open spec fn spec_apply_call(func: Seq<char>, vals: Seq<u64>) -> u64 {
    if func == "min"@ {
        fold_min_bits(vals, BITS_POS_INF)
    } else if func == "max"@ {
        fold_max_bits(vals, BITS_NEG_INF)
    } else if func == "abs"@ {
        if vals.len() == 0 {
            BITS_ZERO
        } else {
            abs_bits(vals[0])
        }
    } else if func == "round"@ {
        if vals.len() == 0 {
            BITS_ZERO
        } else {
            round_bits(vals[0])
        }
    } else {
        BITS_ZERO
    }
}

/// The value of an expression under a scalar scope and a row scope.
/// A variable resolves against the row scope first, then the scalar scope,
/// and defaults to 0.0; a conditional takes its `then` branch exactly when
/// the condition is nonzero.
pub open spec fn spec_eval(e: Expr, scalars: Map<Seq<char>, u64>, row: Map<Seq<char>, u64>) -> u64
    decreases e,
{
    match e {
        Expr::Literal(v) => v,
        Expr::Var(name) => if row.contains_key(name@) {
            row[name@]
        } else if scalars.contains_key(name@) {
            scalars[name@]
        } else {
            BITS_ZERO
        },
        Expr::BinOp { op, left, right } => spec_apply_binop(
            op@,
            spec_eval(*left, scalars, row),
            spec_eval(*right, scalars, row),
        ),
        Expr::Call { func, args } => spec_apply_call(
            func@,
            spec_eval_args(args@, scalars, row),
        ),
        Expr::Cond { cond, then_expr, else_expr } => if !is_zero_bits(
            spec_eval(*cond, scalars, row),
        ) {
            spec_eval(*then_expr, scalars, row)
        } else {
            spec_eval(*else_expr, scalars, row)
        },
    }
}

/// The values of a list of argument expressions, in order.
pub open spec fn spec_eval_args(
    args: Seq<Expr>,
    scalars: Map<Seq<char>, u64>,
    row: Map<Seq<char>, u64>,
) -> Seq<u64>
    decreases args,
{
    if args.len() == 0 {
        Seq::empty()
    } else {
        spec_eval_args(args.drop_last(), scalars, row).push(
            spec_eval(args.last(), scalars, row),
        )
    }
}

/// Executable counterpart of `spec_apply_binop`.
fn apply_binop(op: &String, l: u64, r: u64) -> (res: u64)
    ensures
        res == spec_apply_binop(op@, l, r),
{
    if str_eq(op.as_str(), "+") {
        fadd(l, r)
    } else if str_eq(op.as_str(), "-") {
        fsub(l, r)
    } else if str_eq(op.as_str(), "*") {
        fmul(l, r)
    } else if str_eq(op.as_str(), "/") {
        if fis_zero(r) {
            BITS_ZERO
        } else {
            fdiv(l, r)
        }
    } else if str_eq(op.as_str(), ">") {
        if fgt(l, r) {
            BITS_ONE
        } else {
            BITS_ZERO
        }
    } else if str_eq(op.as_str(), ">=") {
        if fge(l, r) {
            BITS_ONE
        } else {
            BITS_ZERO
        }
    } else if str_eq(op.as_str(), "<") {
        if flt(l, r) {
            BITS_ONE
        } else {
            BITS_ZERO
        }
    } else if str_eq(op.as_str(), "<=") {
        if fle(l, r) {
            BITS_ONE
        } else {
            BITS_ZERO
        }
    } else if str_eq(op.as_str(), "==") {
        if fapprox_eq(l, r) {
            BITS_ONE
        } else {
            BITS_ZERO
        }
    } else {
        BITS_ZERO
    }
}

/// Executable minimum fold; see `fold_min_bits`.
fn fold_min(vals: &Vec<u64>) -> (r: u64)
    ensures
        r == fold_min_bits(vals@, BITS_POS_INF),
{
    let mut acc: u64 = BITS_POS_INF;
    let mut i: usize = 0;
    proof {
        assert(vals@.subrange(0, vals@.len() as int) =~= vals@);
    }
    while i < vals.len()
        invariant
            i <= vals@.len(),
            fold_min_bits(vals@, BITS_POS_INF) == fold_min_bits(
                vals@.subrange(i as int, vals@.len() as int),
                acc,
            ),
        decreases vals@.len() - i,
    {
        proof {
            assert(vals@.subrange(i as int, vals@.len() as int).drop_first() =~= vals@.subrange(
                i as int + 1,
                vals@.len() as int,
            ));
        }
        acc = fmin2(acc, vals[i]);
        i = i + 1;
    }
    proof {
        assert(vals@.subrange(vals@.len() as int, vals@.len() as int) =~= Seq::<u64>::empty());
    }
    acc
}

/// Executable maximum fold; see `fold_max_bits`.
fn fold_max(vals: &Vec<u64>) -> (r: u64)
    ensures
        r == fold_max_bits(vals@, BITS_NEG_INF),
{
    let mut acc: u64 = BITS_NEG_INF;
    let mut i: usize = 0;
    proof {
        assert(vals@.subrange(0, vals@.len() as int) =~= vals@);
    }
    while i < vals.len()
        invariant
            i <= vals@.len(),
            fold_max_bits(vals@, BITS_NEG_INF) == fold_max_bits(
                vals@.subrange(i as int, vals@.len() as int),
                acc,
            ),
        decreases vals@.len() - i,
    {
        proof {
            assert(vals@.subrange(i as int, vals@.len() as int).drop_first() =~= vals@.subrange(
                i as int + 1,
                vals@.len() as int,
            ));
        }
        acc = fmax2(acc, vals[i]);
        i = i + 1;
    }
    proof {
        assert(vals@.subrange(vals@.len() as int, vals@.len() as int) =~= Seq::<u64>::empty());
    }
    acc
}

/// Executable counterpart of `spec_apply_call`.
fn apply_call(func: &String, vals: &Vec<u64>) -> (res: u64)
    ensures
        res == spec_apply_call(func@, vals@),
{
    if str_eq(func.as_str(), "min") {
        fold_min(vals)
    } else if str_eq(func.as_str(), "max") {
        fold_max(vals)
    } else if str_eq(func.as_str(), "abs") {
        if vals.len() == 0 {
            BITS_ZERO
        } else {
            fabs(vals[0])
        }
    } else if str_eq(func.as_str(), "round") {
        if vals.len() == 0 {
            BITS_ZERO
        } else {
            fround(vals[0])
        }
    } else {
        BITS_ZERO
    }
}

/// Evaluate an expression against the scalar-scope and row-scope bindings.
/// Total and pure: the result is exactly `spec_eval` of the views, for
/// every expression.
pub fn eval_expr(expr: &Expr, scalars: &Bindings, row: &Bindings) -> (r: u64)
    ensures
        r == spec_eval(*expr, scalars@, row@),
    decreases *expr,
{
    match expr {
        Expr::Literal(v) => *v,
        Expr::Var(name) => match row.get(name) {
            Some(v) => v,
            None => match scalars.get(name) {
                Some(v) => v,
                None => BITS_ZERO,
            },
        },
        Expr::BinOp { op, left, right } => {
            let l = eval_expr(&**left, scalars, row);
            let r = eval_expr(&**right, scalars, row);
            apply_binop(op, l, r)
        },
        Expr::Call { func, args } => {
            let mut vals: Vec<u64> = Vec::new();
            let mut i: usize = 0;
            proof {
                assert(args@.subrange(0, 0) =~= Seq::<Expr>::empty());
            }
            while i < args.len()
                invariant
                    i <= args@.len(),
                    *expr == (Expr::Call { func: *func, args: *args }),
                    vals@ == spec_eval_args(args@.subrange(0, i as int), scalars@, row@),
                decreases args@.len() - i,
            {
                proof {
                    assert(decreases_to!(*expr => (*expr)->args));
                    assert(decreases_to!((*expr)->args => (*expr)->args@[i as int]));
                    assert(args@[i as int] == (*expr)->args@[i as int]);
                    assert(decreases_to!(*expr => args@[i as int]));
                }
                let v = eval_expr(&args[i], scalars, row);
                vals.push(v);
                proof {
                    assert(args@.subrange(0, i as int + 1).drop_last() =~= args@.subrange(
                        0,
                        i as int,
                    ));
                }
                i = i + 1;
            }
            proof {
                assert(args@.subrange(0, args@.len() as int) =~= args@);
            }
            apply_call(func, &vals)
        },
        Expr::Cond { cond, then_expr, else_expr } => {
            let c = eval_expr(&**cond, scalars, row);
            if !fis_zero(c) {
                eval_expr(&**then_expr, scalars, row)
            } else {
                eval_expr(&**else_expr, scalars, row)
            }
        },
    }
}

} // verus!
