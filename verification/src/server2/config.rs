//! Settings of the second judge server.
use super::types::judge::Language;
use std::collections::HashMap;
use vstd::prelude::*;

verus! {

/// Limits of a compiler run.
pub struct CompileLimit {
    /// In seconds.
    pub time: u64,
    /// In megabytes.
    pub memory: u64,
    /// In megabytes.
    pub output: u64,
    pub security_cfg_path: Option<String>,
}

/// Settings of the second judge server.
pub struct Config {
    pub redis_url: String,
    pub output_hard_limit: u64,
    pub memory_hard_limit: u64,
    pub data_dir: String,
    pub compile_limit: HashMap<Language, CompileLimit>,
}

} // verus!
