//! What the operations of the store promise.
//!
//! Each law speaks of an operation by what goes into it and what comes out: its `requires` says
//! that `result` is what the operation gave back, its `ensures` says what the fields of the
//! result then are, or when there is a result at all.

pub mod approvals;
pub mod artifacts;
pub mod authorities;
pub mod capacities;
pub mod effects;
pub mod hierarchies;
pub mod identities;
pub mod journals;
pub mod launches;
pub mod mailboxes;
pub mod names;
pub mod operations;
pub mod pages;
pub mod payloads;
pub mod projections;
pub mod records;
pub mod recoveries;
pub mod refusals;
pub mod sessions;
pub mod tools;
pub mod values;
pub mod words;
