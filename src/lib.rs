//! A type checker and an evaluator for a small imperative language with scoped
//! variables, while loops and procedures that take inputs by value and outputs by
//! reference. Both are specified over mathematical models of the syntax tree and
//! the run-time state, and verified against those specifications.

pub mod display;
pub mod eval;
pub mod gcd;
pub mod laws;
pub mod text;
pub mod typecheck;
pub mod types;
