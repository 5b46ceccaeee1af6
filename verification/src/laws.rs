//! General laws of the evaluator and of the run, stated and proved once
//! and for all inputs.

use vstd::prelude::*;

use crate::arith::{is_zero_bits, BITS_ZERO};
use crate::engine::{spec_execute, Variable};
use crate::eval::{spec_apply_binop, spec_eval, spec_eval_args};
use crate::expr::Expr;

verus! {

/// Whether an expression is composed solely of literals, operators, calls
/// and conditionals, with no variable reference anywhere.
pub open spec fn is_closed(e: Expr) -> bool
    decreases e,
{
    match e {
        Expr::Literal(_) => true,
        Expr::Var(_) => false,
        Expr::BinOp { left, right, .. } => is_closed(*left) && is_closed(*right),
        Expr::Call { args, .. } => all_closed(args@),
        Expr::Cond { cond, then_expr, else_expr } => is_closed(*cond) && is_closed(*then_expr)
            && is_closed(*else_expr),
    }
}

/// Whether every expression of a list is closed.
pub open spec fn all_closed(args: Seq<Expr>) -> bool
    decreases args,
{
    args.len() == 0 || (all_closed(args.drop_last()) && is_closed(args.last()))
}

/// An expression composed solely of literals folds to a constant: its
/// value consults no bindings at all, so evaluation under any two pairs of
/// scopes agrees.
pub proof fn lemma_closed_expr_folds_to_constant(
    e: Expr,
    s1: Map<Seq<char>, u64>,
    r1: Map<Seq<char>, u64>,
    s2: Map<Seq<char>, u64>,
    r2: Map<Seq<char>, u64>,
)
    requires
        is_closed(e),
    ensures
        spec_eval(e, s1, r1) == spec_eval(e, s2, r2),
    decreases e,
{
    match e {
        Expr::Literal(_) => {},
        Expr::Var(_) => {},
        Expr::BinOp { left, right, .. } => {
            lemma_closed_expr_folds_to_constant(*left, s1, r1, s2, r2);
            lemma_closed_expr_folds_to_constant(*right, s1, r1, s2, r2);
        },
        Expr::Call { args, .. } => {
            lemma_closed_args_fold_to_constants(args@, s1, r1, s2, r2);
        },
        Expr::Cond { cond, then_expr, else_expr } => {
            lemma_closed_expr_folds_to_constant(*cond, s1, r1, s2, r2);
            lemma_closed_expr_folds_to_constant(*then_expr, s1, r1, s2, r2);
            lemma_closed_expr_folds_to_constant(*else_expr, s1, r1, s2, r2);
        },
    }
}

/// The argument lists of closed calls fold the same way.
pub proof fn lemma_closed_args_fold_to_constants(
    args: Seq<Expr>,
    s1: Map<Seq<char>, u64>,
    r1: Map<Seq<char>, u64>,
    s2: Map<Seq<char>, u64>,
    r2: Map<Seq<char>, u64>,
)
    requires
        all_closed(args),
    ensures
        spec_eval_args(args, s1, r1) == spec_eval_args(args, s2, r2),
    decreases args,
{
    if args.len() > 0 {
        lemma_closed_args_fold_to_constants(args.drop_last(), s1, r1, s2, r2);
        lemma_closed_expr_folds_to_constant(args.last(), s1, r1, s2, r2);
    }
}

/// A binary operation over two literal operands folds to the operator
/// applied to the two constants: the evaluator consults no bindings and
/// adds nothing of its own.
pub proof fn lemma_literal_binop(e: Expr, scalars: Map<Seq<char>, u64>, row: Map<Seq<char>, u64>)
    requires
        e is BinOp,
        *e->left is Literal,
        *e->right is Literal,
    ensures
        spec_eval(e, scalars, row) == spec_apply_binop(
            e->op@,
            (*e->left)->Literal_0,
            (*e->right)->Literal_0,
        ),
{
    let l = *e->left;
    let r = *e->right;
    assert(spec_eval(l, scalars, row) == l->Literal_0);
    assert(spec_eval(r, scalars, row) == r->Literal_0);
    assert(spec_eval(e, scalars, row) == spec_apply_binop(
        e->op@,
        spec_eval(l, scalars, row),
        spec_eval(r, scalars, row),
    ));
}

/// Division by zero degrades to 0.0: when the divisor of a `/` operation
/// evaluates to a zero bit pattern, the operation evaluates to +0.0,
/// whatever the dividend.
pub proof fn lemma_div_by_zero(e: Expr, scalars: Map<Seq<char>, u64>, row: Map<Seq<char>, u64>)
    requires
        e is BinOp,
        e->op@ == "/"@,
        is_zero_bits(spec_eval(*e->right, scalars, row)),
    ensures
        spec_eval(e, scalars, row) == BITS_ZERO,
{
    reveal_strlit("+");
    reveal_strlit("-");
    reveal_strlit("*");
    reveal_strlit("/");
    let l = spec_eval(*e->left, scalars, row);
    let r = spec_eval(*e->right, scalars, row);
    assert(spec_eval(e, scalars, row) == spec_apply_binop(e->op@, l, r));
    assert("/"@[0] == '/' && "+"@[0] == '+' && "-"@[0] == '-' && "*"@[0] == '*');
    assert(e->op@ != "+"@ && e->op@ != "-"@ && e->op@ != "*"@);
    assert(spec_apply_binop(e->op@, l, r) == BITS_ZERO);
}

/// A conditional whose condition evaluates to zero is its else branch:
/// the then branch is never consulted, so two conditionals agreeing on
/// condition and else branch agree on their value.
pub proof fn lemma_cond_short_circuit(
    e1: Expr,
    e2: Expr,
    scalars: Map<Seq<char>, u64>,
    row: Map<Seq<char>, u64>,
)
    requires
        e1 is Cond,
        e2 is Cond,
        e1->cond == e2->cond,
        e1->else_expr == e2->else_expr,
        is_zero_bits(spec_eval(*e1->cond, scalars, row)),
    ensures
        spec_eval(e1, scalars, row) == spec_eval(*e1->else_expr, scalars, row),
        spec_eval(e1, scalars, row) == spec_eval(e2, scalars, row),
{
}

/// A variable bound in the row scope resolves there, whatever the scalar
/// scope binds: per-record facts shadow population aggregates.
pub proof fn lemma_row_scope_shadows(
    e: Expr,
    scalars: Map<Seq<char>, u64>,
    row: Map<Seq<char>, u64>,
)
    requires
        e is Var,
        row.contains_key((e->Var_0)@),
    ensures
        spec_eval(e, scalars, row) == row[(e->Var_0)@],
{
}

/// A variable bound in neither scope evaluates to 0.0, never to an error.
pub proof fn lemma_unknown_var_defaults(
    e: Expr,
    scalars: Map<Seq<char>, u64>,
    row: Map<Seq<char>, u64>,
)
    requires
        e is Var,
        !row.contains_key((e->Var_0)@),
        !scalars.contains_key((e->Var_0)@),
    ensures
        spec_eval(e, scalars, row) == BITS_ZERO,
{
}

/// The scalar pass is a pure function of the registry and the execution
/// order: two runs over equal inputs produce equal scalar bindings.
pub proof fn lemma_scalar_pass_deterministic(
    vars1: Seq<Variable>,
    order1: Seq<String>,
    vars2: Seq<Variable>,
    order2: Seq<String>,
)
    requires
        vars1 == vars2,
        order1 == order2,
    ensures
        crate::engine::spec_scalar_pass(vars1, order1) == crate::engine::spec_scalar_pass(
            vars2,
            order2,
        ),
{
}

/// Rows are independent: each output row is a function of its own input
/// row alone, so permuting the input rows permutes the output rows the
/// same way and leaks nothing across rows.
pub proof fn lemma_row_order_independence(
    vars: Seq<Variable>,
    order: Seq<String>,
    entity: Seq<char>,
    rows1: Seq<Map<Seq<char>, u64>>,
    rows2: Seq<Map<Seq<char>, u64>>,
    perm: Seq<int>,
)
    requires
        perm.len() == rows2.len(),
        rows2.len() == rows1.len(),
        forall|i: int| 0 <= i < perm.len() ==> 0 <= #[trigger] perm[i] < rows1.len(),
        forall|i: int| 0 <= i < rows2.len() ==> rows2[i] == rows1[#[trigger] perm[i]],
    ensures
        spec_execute(vars, order, entity, rows2).len() == rows2.len(),
        forall|i: int|
            0 <= i < rows2.len() ==> #[trigger] spec_execute(vars, order, entity, rows2)[i]
                == spec_execute(vars, order, entity, rows1)[perm[i]],
{
}

} // verus!
