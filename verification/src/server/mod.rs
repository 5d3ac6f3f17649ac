//! The judge server: takes submissions, compiles and runs them case by case, and
//! reports the verdicts.
pub mod config;
pub mod types;
pub mod comparer;
pub mod utils;
pub mod threads;
pub mod redis;
pub mod sandbox;
pub mod compiler;
pub mod lang;
