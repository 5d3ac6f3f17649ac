//! Decisions of the listener and the workers.
pub mod listener;
pub mod worker;
