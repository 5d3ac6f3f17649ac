//! Settings of the judge server.
use super::types::sandbox::Limit;
use vstd::prelude::*;

verus! {

/// Where the queues and records live in the key-value store.
pub struct RedisConfig {
    pub url: String,
    pub key_prefix: String,
    pub submission_queue_key: String,
    pub temp_queue_key: String,
    pub submission_key_prefix: String,
    pub submission_status_key_prefix: String,
    pub judge_result_queue_key: String,
    pub data_time_map_key: String,
    pub data_key_prefix: String,
}

/// Settings of the judge server.
pub struct Config {
    pub redis: RedisConfig,
    /// In megabytes.
    pub output_hard_limit: u64,
    /// In megabytes.
    pub memory_hard_limit: u64,
    pub data_dir: String,
    pub workspace: String,
    pub compile_limit: Option<Limit>,
    pub worker_num: u32,
}

} // verus!
