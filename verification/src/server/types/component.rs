//! Data handed to compilers and comparers.
use vstd::prelude::*;

verus! {

/// A command for the sandbox.
pub struct Target {
    pub working_dir: String,
    pub bin: String,
    pub args: Vec<String>,
    pub stdin: Option<String>,
    pub stdout: Option<String>,
    pub stderr: Option<String>,
}

/// Resource limits of a run, with an optional security profile.
pub struct Limit {
    pub time: u64,
    pub memory: u64,
    pub output: u64,
    pub security_cfg_path: Option<String>,
}

/// What a compiler works on.
pub struct CompileTask {
    pub working_dir: String,
    pub source_path: String,
    pub binary_path: String,
    pub ce_message_path: String,
}

/// What a comparer works on.
pub struct CompareTask {
    pub working_dir: String,
    pub stdin_path: String,
    pub stdout_path: String,
    pub userout_path: String,
}

/// Verdict of an output comparison; `code` gives its number.
#[derive(Debug, Clone, Copy, PartialEq, Eq, Structural)]
pub enum Comparision {
    AC,
    WA,
    PE,
}

impl Comparision {
    /// 0 for `AC`, 1 for `WA`, 2 for `PE`.
    pub fn code(self) -> (r: u8)
        ensures
            r == match self {
                Comparision::AC => 0u8,
                Comparision::WA => 1u8,
                Comparision::PE => 2u8,
            },
    {
        match self {
            Comparision::AC => 0,
            Comparision::WA => 1,
            Comparision::PE => 2,
        }
    }
}

impl Limit {
    /// No limit at all.
    pub fn no_effect() -> (r: Option<Limit>)
        ensures
            r is None,
    {
        None
    }
}

} // verus!
