//! A verified statement/expression enforcement engine for a circuit-oriented
//! source language compiled to a rank-1 constraint system.
//!
//! The engine walks a typed abstract syntax tree and emits constraints into a
//! constraint-system model. Because a circuit's topology must not depend on
//! input values, every branch of every conditional is compiled, and the
//! selection between branch outcomes is carried by boolean indicator bits
//! combined with AND/NOT gadgets.

pub mod ast;
pub mod conditional;
pub mod errors;
pub mod expression;
pub mod function;
pub mod laws;
pub mod list;
pub mod program;
pub mod r1cs;
pub mod statement;
pub mod span;
pub mod types;
pub mod value;
