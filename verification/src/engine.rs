//! The run orchestration: a registry of variable definitions, the
//! sequential scalar pass, the per-row evaluation plan, and the parallel
//! row executor.
//!
//! The caller supplies the variable definitions, an execution order that
//! already respects data dependencies, the entity tag to instantiate, and
//! the row dataset. Scalar-scope variables (no entity tag) are computed
//! once, in order, each seeing the scalars before it; then every row is
//! extended independently with the row-scope variables of the requested
//! entity, in order, each seeing the row's earlier values. Rows share only
//! the finished scalar bindings and the plan, both read-only, so they can
//! be processed concurrently; the output is index-aligned with the input.

use rayon::iter::{IntoParallelIterator, ParallelIterator};
use vstd::prelude::*;

use crate::bindings::Bindings;
use crate::eval::{eval_expr, spec_eval, str_eq};
use crate::expr::Expr;

verus! {

/// One rule: an identifier, an optional entity tag (`None` marks a
/// population-wide scalar), and the defining expression.
pub struct Variable {
    pub path: String,
    pub entity: Option<String>,
    pub expr: Expr,
}

/// Whether a variable is row-scoped for the given entity tag.
pub open spec fn entity_matches(v: Variable, entity: Seq<char>) -> bool {
    match v.entity {
        Some(t) => t@ == entity,
        None => false,
    }
}

/// The registry lookup: the last variable in the list whose identifier is
/// `path`, a later definition shadowing an earlier one.
pub open spec fn spec_lookup(vars: Seq<Variable>, path: Seq<char>) -> Option<Variable>
    decreases vars.len(),
{
    if vars.len() == 0 {
        None
    } else if vars.last().path@ == path {
        Some(vars.last())
    } else {
        spec_lookup(vars.drop_last(), path)
    }
}

/// Find the registered variable named `path`, as an index into `vars`.
pub fn find_variable(vars: &Vec<Variable>, path: &String) -> (r: Option<usize>)
    ensures
        match r {
            Some(i) => i < vars@.len() && spec_lookup(vars@, path@) == Some(vars@[i as int]),
            None => spec_lookup(vars@, path@) is None,
        },
{
    let mut i: usize = vars.len();
    proof {
        assert(vars@.subrange(0, i as int) =~= vars@);
    }
    while i > 0
        invariant
            i <= vars@.len(),
            spec_lookup(vars@, path@) == spec_lookup(vars@.subrange(0, i as int), path@),
        decreases i,
    {
        i = i - 1;
        proof {
            assert(vars@.subrange(0, i + 1).drop_last() =~= vars@.subrange(0, i as int));
        }
        if str_eq(vars[i].path.as_str(), path.as_str()) {
            return Some(i);
        }
    }
    proof {
        assert(vars@.subrange(0, 0) =~= Seq::<Variable>::empty());
    }
    None
}

/// One step of the scalar pass: if `path` names a registered scalar-scope
/// variable, bind it to its value under the scalars computed so far (the
/// row scope empty); otherwise leave the bindings unchanged. Identifiers
/// with no registered variable are skipped silently.
pub open spec fn spec_scalar_step(
    vars: Seq<Variable>,
    acc: Map<Seq<char>, u64>,
    path: Seq<char>,
) -> Map<Seq<char>, u64> {
    match spec_lookup(vars, path) {
        Some(v) => if v.entity is None {
            acc.insert(path, spec_eval(v.expr, acc, Map::empty()))
        } else {
            acc
        },
        None => acc,
    }
}

/// The scalar pass continued over the rest of the execution order.
pub open spec fn spec_scalar_pass_from(
    vars: Seq<Variable>,
    order: Seq<String>,
    acc: Map<Seq<char>, u64>,
) -> Map<Seq<char>, u64>
    decreases order.len(),
{
    if order.len() == 0 {
        acc
    } else {
        spec_scalar_pass_from(
            vars,
            order.drop_first(),
            spec_scalar_step(vars, acc, order[0]@),
        )
    }
}

/// The finished scalar bindings: one walk of the execution order starting
/// from the empty bindings.
pub open spec fn spec_scalar_pass(vars: Seq<Variable>, order: Seq<String>) -> Map<Seq<char>, u64> {
    spec_scalar_pass_from(vars, order, Map::empty())
}

/// Walk the execution order once and compute every scalar-scope variable,
/// each seeing the scalars computed before it.
pub fn compute_scalars(vars: &Vec<Variable>, order: &Vec<String>) -> (r: Bindings)
    ensures
        r@ == spec_scalar_pass(vars@, order@),
{
    let mut scalars = Bindings::new();
    let empty_row = Bindings::new();
    let mut i: usize = 0;
    proof {
        assert(order@.subrange(0, order@.len() as int) =~= order@);
    }
    while i < order.len()
        invariant
            i <= order@.len(),
            empty_row@ == Map::<Seq<char>, u64>::empty(),
            spec_scalar_pass(vars@, order@) == spec_scalar_pass_from(
                vars@,
                order@.subrange(i as int, order@.len() as int),
                scalars@,
            ),
        decreases order@.len() - i,
    {
        proof {
            assert(order@.subrange(i as int, order@.len() as int).drop_first() =~= order@.subrange(
                i as int + 1,
                order@.len() as int,
            ));
        }
        match find_variable(vars, &order[i]) {
            Some(idx) => {
                if vars[idx].entity.is_none() {
                    let val = eval_expr(&vars[idx].expr, &scalars, &empty_row);
                    scalars.set(order[i].clone(), val);
                }
            },
            None => {},
        }
        i = i + 1;
    }
    scalars
}

/// The variables that a sequence of registry indices denotes.
pub open spec fn plan_vars(vars: Seq<Variable>, plan: Seq<usize>) -> Seq<Variable> {
    plan.map_values(|j: usize| vars[j as int])
}

/// The per-row evaluation plan: the execution order filtered down, in
/// order, to registered variables row-scoped for the requested entity.
pub open spec fn spec_plan(
    vars: Seq<Variable>,
    order: Seq<String>,
    entity: Seq<char>,
) -> Seq<Variable>
    decreases order.len(),
{
    if order.len() == 0 {
        Seq::empty()
    } else {
        let rest = spec_plan(vars, order.drop_first(), entity);
        match spec_lookup(vars, order[0]@) {
            Some(v) => if entity_matches(v, entity) {
                seq![v] + rest
            } else {
                rest
            },
            None => rest,
        }
    }
}

/// Build the per-row evaluation plan as indices into the registry.
pub fn build_plan(
    vars: &Vec<Variable>,
    order: &Vec<String>,
    entity_name: &str,
) -> (plan: Vec<usize>)
    ensures
        forall|k: int| 0 <= k < plan@.len() ==> plan@[k] < vars@.len(),
        plan_vars(vars@, plan@) == spec_plan(vars@, order@, entity_name@),
{
    let mut plan: Vec<usize> = Vec::new();
    let mut i: usize = 0;
    proof {
        assert(order@.subrange(0, order@.len() as int) =~= order@);
        assert(plan_vars(vars@, plan@) =~= Seq::<Variable>::empty());
    }
    while i < order.len()
        invariant
            i <= order@.len(),
            forall|k: int| 0 <= k < plan@.len() ==> plan@[k] < vars@.len(),
            plan_vars(vars@, plan@) + spec_plan(
                vars@,
                order@.subrange(i as int, order@.len() as int),
                entity_name@,
            ) == spec_plan(vars@, order@, entity_name@),
        decreases order@.len() - i,
    {
        proof {
            assert(order@.subrange(i as int, order@.len() as int).drop_first() =~= order@.subrange(
                i as int + 1,
                order@.len() as int,
            ));
        }
        let ghost old_plan = plan@;
        match find_variable(vars, &order[i]) {
            Some(idx) => {
                let is_row_scoped = match &vars[idx].entity {
                    Some(t) => str_eq(t.as_str(), entity_name),
                    None => false,
                };
                if is_row_scoped {
                    plan.push(idx);
                    proof {
                        assert(plan_vars(vars@, plan@) =~= plan_vars(vars@, old_plan).push(
                            vars@[idx as int],
                        ));
                        assert(plan_vars(vars@, old_plan) + (seq![vars@[idx as int]] + spec_plan(
                            vars@,
                            order@.subrange(i as int + 1, order@.len() as int),
                            entity_name@,
                        )) =~= plan_vars(vars@, plan@) + spec_plan(
                            vars@,
                            order@.subrange(i as int + 1, order@.len() as int),
                            entity_name@,
                        ));
                    }
                }
            },
            None => {},
        }
        i = i + 1;
    }
    proof {
        assert(order@.subrange(order@.len() as int, order@.len() as int)
            =~= Seq::<String>::empty());
        assert(plan_vars(vars@, plan@) + Seq::<Variable>::empty() =~= plan_vars(vars@, plan@));
    }
    plan
}

/// One row's result: the row's own bindings extended, in plan order, with
/// each row-scope variable's value, later variables seeing earlier ones.
pub open spec fn spec_compute_row(
    row: Map<Seq<char>, u64>,
    plan: Seq<Variable>,
    scalars: Map<Seq<char>, u64>,
) -> Map<Seq<char>, u64>
    decreases plan.len(),
{
    if plan.len() == 0 {
        row
    } else {
        spec_compute_row(
            row.insert(plan[0].path@, spec_eval(plan[0].expr, scalars, row)),
            plan.drop_first(),
            scalars,
        )
    }
}

/// Evaluate the plan against one row, writing each result back into the
/// row's own bindings. Touches nothing shared but the read-only scalars.
pub fn compute_row(
    row: Bindings,
    vars: &Vec<Variable>,
    plan: &Vec<usize>,
    scalars: &Bindings,
) -> (out: Bindings)
    requires
        forall|k: int| 0 <= k < plan@.len() ==> plan@[k] < vars@.len(),
    ensures
        out@ == spec_compute_row(row@, plan_vars(vars@, plan@), scalars@),
{
    let ghost row0 = row@;
    let mut row_data = row;
    let mut i: usize = 0;
    proof {
        assert(plan@.subrange(0, plan@.len() as int) =~= plan@);
    }
    while i < plan.len()
        invariant
            i <= plan@.len(),
            forall|k: int| 0 <= k < plan@.len() ==> plan@[k] < vars@.len(),
            spec_compute_row(row0, plan_vars(vars@, plan@), scalars@) == spec_compute_row(
                row_data@,
                plan_vars(vars@, plan@.subrange(i as int, plan@.len() as int)),
                scalars@,
            ),
        decreases plan@.len() - i,
    {
        proof {
            assert(plan_vars(vars@, plan@.subrange(i as int, plan@.len() as int)).drop_first()
                =~= plan_vars(vars@, plan@.subrange(i as int + 1, plan@.len() as int)));
        }
        let idx = plan[i];
        let val = eval_expr(&vars[idx].expr, scalars, &row_data);
        let key = vars[idx].path.clone();
        row_data.set(key, val);
        i = i + 1;
    }
    proof {
        assert(plan_vars(vars@, plan@.subrange(plan@.len() as int, plan@.len() as int))
            =~= Seq::<Variable>::empty());
    }
    row_data
}

/// Relies on rayon's `into_par_iter().map(..).collect()` on a `Vec`: an
/// indexed parallel iterator applies the closure to every element and the
/// collected results keep the input order, whatever the completion order;
/// the closure only calls the verified `compute_row`.
#[verifier::external_body]
fn par_map_rows(
    rows: Vec<Bindings>,
    vars: &Vec<Variable>,
    plan: &Vec<usize>,
    scalars: &Bindings,
) -> (out: Vec<Bindings>)
    requires
        forall|k: int| 0 <= k < plan@.len() ==> plan@[k] < vars@.len(),
    ensures
        out@.len() == rows@.len(),
        forall|i: int|
            0 <= i < rows@.len() ==> out@[i]@ == spec_compute_row(
                rows@[i]@,
                plan_vars(vars@, plan@),
                scalars@,
            ),
{
    rows.into_par_iter().map(|r| compute_row(r, vars, plan, scalars)).collect()
}

/// The views of a vector of binding sets, in order.
pub open spec fn row_views(rows: Seq<Bindings>) -> Seq<Map<Seq<char>, u64>> {
    rows.map_values(|b: Bindings| b@)
}

/// The whole run: every output row is its input row extended by the plan
/// for the requested entity, under the scalar bindings of one sequential
/// pass. Each output depends on its own input row alone, so the rows may
/// be computed in any order, or concurrently.
pub open spec fn spec_execute(
    vars: Seq<Variable>,
    order: Seq<String>,
    entity: Seq<char>,
    rows: Seq<Map<Seq<char>, u64>>,
) -> Seq<Map<Seq<char>, u64>> {
    rows.map_values(
        |r: Map<Seq<char>, u64>|
            spec_compute_row(r, spec_plan(vars, order, entity), spec_scalar_pass(vars, order)),
    )
}

/// Run a rule set over a dataset: compute the scalars once, then extend
/// every row independently and in parallel with the row-scope variables of
/// `entity_name`, the output index-aligned with the input.
pub fn execute(
    vars: &Vec<Variable>,
    order: &Vec<String>,
    entity_name: &str,
    rows: Vec<Bindings>,
) -> (out: Vec<Bindings>)
    ensures
        out@.len() == rows@.len(),
        row_views(out@) == spec_execute(vars@, order@, entity_name@, row_views(rows@)),
{
    let scalars = compute_scalars(vars, order);
    let plan = build_plan(vars, order, entity_name);
    let ghost rows0 = rows@;
    let out = par_map_rows(rows, vars, &plan, &scalars);
    proof {
        assert(row_views(out@) =~= spec_execute(vars@, order@, entity_name@, row_views(rows0)));
    }
    out
}

} // verus!
