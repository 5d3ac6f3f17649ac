//! Names of the judge's keys in the key-value store.
use super::config::RedisConfig;
use crate::text::{dashed, decimal, decimal_string};
use vstd::prelude::*;

verus! {

/// The keys of the judge's queues, each the configured prefix, a dash and its name.
pub struct RedisKeys {
    pub submission_queue_key: String,
    pub temp_queue_key: String,
    pub judge_result_queue_key: String,
    pub data_time_map_key: String,
}

pub open spec fn prefixed(redis: RedisConfig, key: Seq<char>) -> Seq<char> {
    redis.key_prefix@ + seq!['-'] + key
}

impl RedisKeys {
    pub fn new(redis: &RedisConfig) -> (r: RedisKeys)
        ensures
            r.submission_queue_key@ == prefixed(*redis, redis.submission_queue_key@),
            r.temp_queue_key@ == prefixed(*redis, redis.temp_queue_key@),
            r.judge_result_queue_key@ == prefixed(*redis, redis.judge_result_queue_key@),
            r.data_time_map_key@ == prefixed(*redis, redis.data_time_map_key@),
    {
        RedisKeys {
            submission_queue_key: dashed(redis.key_prefix.as_str(), redis.submission_queue_key.as_str()),
            temp_queue_key: dashed(redis.key_prefix.as_str(), redis.temp_queue_key.as_str()),
            judge_result_queue_key: dashed(redis.key_prefix.as_str(), redis.judge_result_queue_key.as_str()),
            data_time_map_key: dashed(redis.key_prefix.as_str(), redis.data_time_map_key.as_str()),
        }
    }
}

/// `prefix-name-id`.
fn keyed(redis: &RedisConfig, name: &String, id: u64) -> (r: String)
    ensures
        r@ == prefixed(*redis, name@) + seq!['-'] + decimal(id as nat),
{
    let head = dashed(redis.key_prefix.as_str(), name.as_str());
    let n = decimal_string(id);
    dashed(head.as_str(), n.as_str())
}

/// The key under which submission `id` is stored.
pub fn submission_key(redis: &RedisConfig, id: u64) -> (r: String)
    ensures
        r@ == prefixed(*redis, redis.submission_key_prefix@) + seq!['-'] + decimal(id as nat),
{
    keyed(redis, &redis.submission_key_prefix, id)
}

/// The key under which the status of submission `id` is stored.
pub fn submission_status_key(redis: &RedisConfig, id: u64) -> (r: String)
    ensures
        r@ == prefixed(*redis, redis.submission_status_key_prefix@) + seq!['-'] + decimal(id as nat),
{
    keyed(redis, &redis.submission_status_key_prefix, id)
}

/// The key under which the test data of problem `problem_id` is stored.
pub fn problem_data_key(redis: &RedisConfig, problem_id: u64) -> (r: String)
    ensures
        r@ == prefixed(*redis, redis.data_key_prefix@) + seq!['-'] + decimal(problem_id as nat),
{
    keyed(redis, &redis.data_key_prefix, problem_id)
}

} // verus!
