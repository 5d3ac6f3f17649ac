//! The process monitor: runs a program and reports how it ended and what it used.
pub mod types;

use vstd::prelude::*;

pub use types::{Target, TargetStatus};

verus! {

/// Failures of the monitor, as numbered by its first version.
#[derive(Debug, Clone, Copy, PartialEq, Eq, Structural)]
pub enum MonitorErrorKind {
    PipeError,
    ForkError,
    PipeReadError,
    Wait4Error,
    ChildError,
    ExecvpError,
}

impl MonitorErrorKind {
    /// The exit code that stands for this error.
    pub fn code(self) -> (r: i32)
        ensures
            r == match self {
                MonitorErrorKind::PipeError => 2i32,
                MonitorErrorKind::ForkError => 3i32,
                MonitorErrorKind::PipeReadError => 4i32,
                MonitorErrorKind::Wait4Error => 5i32,
                MonitorErrorKind::ChildError => 6i32,
                MonitorErrorKind::ExecvpError => 7i32,
            },
    {
        match self {
            MonitorErrorKind::PipeError => 2,
            MonitorErrorKind::ForkError => 3,
            MonitorErrorKind::PipeReadError => 4,
            MonitorErrorKind::Wait4Error => 5,
            MonitorErrorKind::ChildError => 6,
            MonitorErrorKind::ExecvpError => 7,
        }
    }
}

/// `libc::WIFEXITED`: whether a wait status says that the child exited.
#[verifier::external_body]
fn wait_exited(status: i32) -> (r: bool)
    ensures
        r == (status & 0x7fi32 == 0i32),
{
    libc::WIFEXITED(status)
}

/// `libc::WEXITSTATUS`: the exit code held in a wait status.
#[verifier::external_body]
fn wait_exit_status(status: i32) -> (r: i32)
    ensures
        r == (status >> 8i32) & 0xffi32,
{
    libc::WEXITSTATUS(status)
}

/// `libc::WTERMSIG`: the signal held in a wait status.
#[verifier::external_body]
fn wait_term_signal(status: i32) -> (r: i32)
    ensures
        r == status & 0x7fi32,
{
    libc::WTERMSIG(status)
}

/// Splits a wait status into the exit code (when the child exited) or the
/// terminating signal (when it did not).
pub fn decode_wait_status(status: i32) -> (r: (Option<i32>, Option<i32>))
    ensures
        status & 0x7fi32 == 0i32 ==> r == (Some((status >> 8i32) & 0xffi32), None::<i32>),
        status & 0x7fi32 != 0i32 ==> r == (None::<i32>, Some(status & 0x7fi32)),
{
    if wait_exited(status) {
        (Some(wait_exit_status(status)), None)
    } else {
        (None, Some(wait_term_signal(status)))
    }
}

/// A `timeval` in microseconds.
pub fn timeval_micros(sec: i64, usec: i64) -> (r: u64)
    requires
        (sec as u64) * 1000000 + (usec as u64) <= u64::MAX,
    ensures
        r == (sec as u64) * 1000000 + (usec as u64),
{
    (sec as u64) * 1000000 + (usec as u64)
}

/// The report on a child that `wait4` returned: its wait status, elapsed wall time,
/// user and system CPU times (seconds, microseconds) and peak resident memory.
pub fn target_status(
    status: i32,
    real_time: u64,
    user_sec: i64,
    user_usec: i64,
    sys_sec: i64,
    sys_usec: i64,
    max_rss: i64,
) -> (r: TargetStatus)
    requires
        (user_sec as u64) * 1000000 + (user_usec as u64) <= u64::MAX,
        (sys_sec as u64) * 1000000 + (sys_usec as u64) <= u64::MAX,
    ensures
        (r.code, r.signal) == (if status & 0x7fi32 == 0i32 {
            (Some((status >> 8i32) & 0xffi32), None::<i32>)
        } else {
            (None::<i32>, Some(status & 0x7fi32))
        }),
        r.real_time == real_time,
        r.user_time == (user_sec as u64) * 1000000 + (user_usec as u64),
        r.sys_time == (sys_sec as u64) * 1000000 + (sys_usec as u64),
        r.memory == max_rss as u64,
{
    let (code, signal) = decode_wait_status(status);
    TargetStatus {
        code,
        signal,
        real_time,
        user_time: timeval_micros(user_sec, user_usec),
        sys_time: timeval_micros(sys_sec, sys_usec),
        memory: max_rss as u64,
    }
}

impl Target {
    /// The argument vector handed to `execvp`: the program, then its arguments.
    pub fn argv(&self) -> (r: Vec<String>)
        ensures
            r@ == seq![self.bin].add(self.args@),
    {
        let mut r: Vec<String> = Vec::new();
        r.push(self.bin.clone());
        let n = self.args.len();
        for k in 0..n
            invariant
                n == self.args@.len(),
                r@ == seq![self.bin].add(self.args@.take(k as int)),
        {
            r.push(self.args[k].clone());
            proof {
                assert(self.args@.take(k + 1) =~= self.args@.take(k as int).push(self.args@[k as int]));
            }
        }
        proof {
            assert(self.args@.take(n as int) =~= self.args@);
        }
        r
    }
}

} // verus!
