//! A small calculator service: expression templates with positional `{}`
//! placeholders are filled in from an ordered list of values, the resulting
//! expression is handed to an external evaluator, and the outcome is either
//! returned directly or delivered through a single-resolution deferred value.

pub mod deferred;
pub mod engine;
pub mod guard;
pub mod outcome;
pub mod subst;
