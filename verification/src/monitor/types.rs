//! Values the process monitor reports.
use vstd::prelude::*;

verus! {

/// Why the monitor itself failed; the monitor exits with `code()`.
#[derive(Debug, Clone, Copy, PartialEq, Eq, Structural)]
pub enum MonitorErrorKind {
    Unknown,
    PipeError,
    ForkError,
    PipeReadError,
    Wait4Error,
    ChildError,
    FifoError,
    ThreadError,
    /// Cannot be told apart from a failing program, hence an unusual number.
    ExecvpError,
}

pub open spec fn error_code(k: MonitorErrorKind) -> i32 {
    match k {
        MonitorErrorKind::Unknown => 1,
        MonitorErrorKind::PipeError => 2,
        MonitorErrorKind::ForkError => 3,
        MonitorErrorKind::PipeReadError => 4,
        MonitorErrorKind::Wait4Error => 5,
        MonitorErrorKind::ChildError => 6,
        MonitorErrorKind::FifoError => 7,
        MonitorErrorKind::ThreadError => 8,
        MonitorErrorKind::ExecvpError => 42,
    }
}

impl MonitorErrorKind {
    /// The exit code that stands for this error.
    pub fn code(self) -> (r: i32)
        ensures
            r == error_code(self),
    {
        match self {
            MonitorErrorKind::Unknown => 1,
            MonitorErrorKind::PipeError => 2,
            MonitorErrorKind::ForkError => 3,
            MonitorErrorKind::PipeReadError => 4,
            MonitorErrorKind::Wait4Error => 5,
            MonitorErrorKind::ChildError => 6,
            MonitorErrorKind::FifoError => 7,
            MonitorErrorKind::ThreadError => 8,
            MonitorErrorKind::ExecvpError => 42,
        }
    }

    /// The error whose code is `n`, if any.
    pub fn from_i32(n: i32) -> (r: Option<MonitorErrorKind>)
        ensures
            r == kind_of_code(n),
    {
        match n {
            1 => Some(MonitorErrorKind::Unknown),
            2 => Some(MonitorErrorKind::PipeError),
            3 => Some(MonitorErrorKind::ForkError),
            4 => Some(MonitorErrorKind::PipeReadError),
            5 => Some(MonitorErrorKind::Wait4Error),
            6 => Some(MonitorErrorKind::ChildError),
            7 => Some(MonitorErrorKind::FifoError),
            8 => Some(MonitorErrorKind::ThreadError),
            42 => Some(MonitorErrorKind::ExecvpError),
            _ => None,
        }
    }
}

/// The error whose code is `n`, if any.
pub open spec fn kind_of_code(n: i32) -> Option<MonitorErrorKind> {
    if n == 1 {
        Some(MonitorErrorKind::Unknown)
    } else if n == 2 {
        Some(MonitorErrorKind::PipeError)
    } else if n == 3 {
        Some(MonitorErrorKind::ForkError)
    } else if n == 4 {
        Some(MonitorErrorKind::PipeReadError)
    } else if n == 5 {
        Some(MonitorErrorKind::Wait4Error)
    } else if n == 6 {
        Some(MonitorErrorKind::ChildError)
    } else if n == 7 {
        Some(MonitorErrorKind::FifoError)
    } else if n == 8 {
        Some(MonitorErrorKind::ThreadError)
    } else if n == 42 {
        Some(MonitorErrorKind::ExecvpError)
    } else {
        None
    }
}

/// An error is found again from its code.
pub proof fn law_code_roundtrip(k: MonitorErrorKind)
    ensures
        kind_of_code(error_code(k)) == Some(k),
{
}

/// A code names at most one error: the one whose code it is.
pub proof fn law_code_names_its_error(n: i32)
    ensures
        kind_of_code(n) matches Some(k) ==> error_code(k) == n,
        kind_of_code(n) is None ==> forall|k: MonitorErrorKind| error_code(k) != n,
{
}

/// How a monitored program ended and what it used.
#[derive(Debug, Clone, Copy, PartialEq, Eq, Structural)]
pub struct TargetStatus {
    /// Exit code, when the program exited.
    pub code: Option<i32>,
    /// Terminating signal, when it did not.
    pub signal: Option<i32>,
    pub real_time: u64,
    pub user_time: u64,
    pub sys_time: u64,
    /// Peak resident memory in kilobytes.
    pub memory: u64,
}

/// A program to run, with files for its standard streams.
pub struct Target {
    pub bin: String,
    pub args: Vec<String>,
    pub stdin: Option<String>,
    pub stdout: Option<String>,
    pub stderr: Option<String>,
}

} // verus!
