//! Server-side state persistence for a form-based data logger.
//!
//! Each user's latest form state is kept as a snapshot; every recorded
//! sample is appended to a relational log and to a per-user delimited file.
//! The decisions of one submit are a verified state machine
//! ([`coordinator::Submission`]); the effects of its actions on the stores
//! are modelled in [`ledger`], and the consistency laws over that model are
//! proved in [`laws`].

pub mod coordinator;
pub mod csv_log;
pub mod laws;
pub mod ledger;
pub mod registry;
pub mod user_state;
