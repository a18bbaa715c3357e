//! An expression evaluator for a graph query runtime.
//!
//! A compiled expression arrives as a sequence of units in reverse-Polish
//! (postfix) order.  The evaluator binds variable references to properties of
//! graph elements supplied through a pluggable context, and reduces the
//! program to a single dynamically typed value.

pub mod context;
pub mod error;
pub mod eval;
pub mod float;
pub mod ops;
pub mod program;
pub mod value;
pub mod wire;
