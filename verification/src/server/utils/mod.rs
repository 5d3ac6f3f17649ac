//! Helpers of the judge server.
pub mod compare;
