//! The decision core of a durable session store.
//!
//! Every module states one part of the store as functions from what was read
//! to what is to be written. The surrounding application runs the database
//! transactions and hands plain values in and out.

pub mod approval;
pub mod artifact;
pub mod authority;
pub mod capacity;
pub mod database;
pub mod effect;
pub mod error;
pub mod hierarchy;
pub mod identity;
pub mod ids;
pub mod journal;
pub mod launch;
pub mod laws;
pub mod ledger;
pub mod mailbox;
pub mod operation;
pub mod payload;
pub mod projection;
pub mod recovery;
pub mod session;
pub mod sorted;
pub mod text;
pub mod time;
pub mod tool;
