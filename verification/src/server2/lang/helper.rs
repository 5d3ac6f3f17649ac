use crate::monitor::types::TargetStatus;
use crate::server::threads::worker::status_verdict;
use crate::server::types::judge::JudgeCaseResult;
use crate::server::types::sandbox::Limit as RunLimit;
use crate::server2::sandbox::Limit;
use vstd::prelude::*;

verus! {

/// The same limits, as a sandbox run reads them.
pub open spec fn run_limit(limit: Limit) -> RunLimit {
    RunLimit { time: limit.time, memory: limit.memory, output: limit.output }
}

/// The CPU time and memory of a run, and the case result its verdict gives (see
/// `status_verdict`), if it has one.
pub fn parse_status(status: &TargetStatus, limit: &Limit) -> (r: (u64, u64, Option<JudgeCaseResult>))
    requires
        status.user_time + status.sys_time <= u64::MAX,
    ensures
        r.0 == status.user_time + status.sys_time,
        r.1 == status.memory,
        r.2 == match status_verdict(*status, run_limit(*limit)) {
            Some(v) => Some(JudgeCaseResult { time: r.0, memory: r.1, status: v }),
            None => None,
        },
{
    let run = RunLimit { time: limit.time, memory: limit.memory, output: limit.output };
    let (time, memory, verdict) = crate::server::threads::worker::parse_status(status, &run);
    match verdict {
        Some(v) => (time, memory, Some(JudgeCaseResult { time, memory, status: v })),
        None => (time, memory, None),
    }
}

} // verus!
