//! The expression intermediate representation: a closed tree of literals,
//! variable references, binary operations, calls and conditionals. Pure
//! data; all semantics live in the evaluator.

use vstd::prelude::*;

verus! {

/// One node of an expression tree. Operator and function names are kept as
/// strings and are only interpreted at evaluation time: an unrecognised
/// name evaluates to zero rather than failing, so that one malformed rule
/// cannot abort a whole run. Literals carry the binary64 bit pattern of
/// their value.
pub enum Expr {
    Literal(u64),
    Var(String),
    BinOp { op: String, left: Box<Expr>, right: Box<Expr> },
    Call { func: String, args: Vec<Expr> },
    Cond { cond: Box<Expr>, then_expr: Box<Expr>, else_expr: Box<Expr> },
}

} // verus!
