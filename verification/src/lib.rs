//! Validation rules of the forum's `posts` integrity zome.
//!
//! The zome's validation callback walks a flattened DHT operation, fetches
//! the records it depends on, and hands the entry and link checks to the
//! per-type validators. This crate holds that decision procedure as a
//! verified state machine: `validation::validate` makes the first decision
//! for an operation, and `validation::resume` takes each answer of the host
//! and decides the next step, until a final outcome is reached.

pub mod laws;
pub mod model;
pub mod reasons;
pub mod validation;
