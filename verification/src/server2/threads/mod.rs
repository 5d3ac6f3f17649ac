//! The second server's worker.
pub mod worker;
