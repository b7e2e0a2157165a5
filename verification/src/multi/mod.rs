//! Ask several independent providers the same question and settle on one answer.
//!
//! [`parallel_call`] puts one operation to every provider and gathers the
//! outcomes in a [`MultiResults`]. A policy ([`ReduceWithEquality`],
//! [`ReduceWithThreshold`]) then either finds an answer that enough providers
//! agree on, or reports how they disagree.

pub mod classes;
pub mod dispatch;
pub mod laws;
pub mod model;
pub mod pending;
pub mod proofs;
pub mod reduce;
pub mod results;

pub use dispatch::parallel_call;
pub use model::OutcomeClass;
pub use pending::PendingResults;
pub use reduce::{Reduce, ReduceWithEquality, ReduceWithThreshold, ReducedResult, ReductionError};
pub use results::{first_repetition, has_distinct_keys, InvalidResults, MultiResults};
