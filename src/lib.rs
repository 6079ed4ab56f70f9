//! The execution core of a small dynamically typed scripting language: how
//! names are bound to values and functions, how calls are dispatched, and
//! how `return`, `pass` and `yield` move control between nested blocks.
//!
//! Scopes live in a `Runtime` and are named by their index. Operators that
//! need a block run hand back an `Outcome` for the evaluator that owns the
//! blocks.

pub mod value;
pub mod function;
pub mod scope;
pub mod error;
pub mod runtime;
pub mod module;
pub mod laws;
