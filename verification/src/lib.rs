//! A small compute engine for tax-and-benefit style rule sets.
//!
//! A rule set is a collection of variables, each defined by an expression
//! over earlier variables; the engine evaluates every population-wide
//! ("scalar") variable once, then every per-record ("row") variable for
//! each row of a dataset, rows independently of one another and in
//! parallel. Values are IEEE-754 binary64 numbers, carried as their bit
//! patterns in `u64`.

pub mod arith;
pub mod bindings;
pub mod engine;
pub mod eval;
pub mod expr;
pub mod laws;
