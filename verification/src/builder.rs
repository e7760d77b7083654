//! The builders of sea-query, as far as this crate uses them.
//!
//! Everything below this module is trusted: the types are sea-query's own,
//! opaque to the verifier, and each function makes one call into sea-query
//! under a contract that restates what that call does. A contract speaks of
//! a builder through its view, a value of the [model](crate::model).

pub mod column;
pub mod statement;
