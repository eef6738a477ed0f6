//! Diagnostics for a language front end and an expression tree traversed by visitors.
pub mod diagnostic;
pub mod expr;
