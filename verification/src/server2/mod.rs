//! The second judge server: the same judging with per-language compile limits.
pub mod config;
pub mod lang;
pub mod sandbox;
pub mod threads;
pub mod types;
