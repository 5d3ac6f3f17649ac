use crate::monitor::types::{error_code, kind_of_code, MonitorErrorKind};
use crate::server::types::sandbox::Target;
use crate::text::{extend_strings, push_str, views};
use vstd::prelude::*;

verus! {

/// The monitor program the sandbox starts.
pub const MONITOR_PATH: &'static str = "wa-monitor";

/// Where a stream without a file goes.
pub const NULL_DEVICE: &'static str = "/dev/null";

/// Runs targets through the process monitor, without further isolation.
#[derive(Debug, Clone, Copy)]
pub struct BareMonitorSandBox;

pub open spec fn stream_path(p: Option<String>) -> Seq<char> {
    match p {
        Some(s) => s@,
        None => NULL_DEVICE@,
    }
}

pub open spec fn monitor_failure_of(code: Option<i32>) -> Option<MonitorErrorKind> {
    match code {
        Some(0i32) => None,
        Some(c) => match kind_of_code(c) {
            Some(k) => Some(k),
            None => Some(MonitorErrorKind::Unknown),
        },
        None => Some(MonitorErrorKind::Unknown),
    }
}

fn push_stream(v: &mut Vec<String>, p: &Option<String>)
    ensures
        views(final(v)@) == views(old(v)@).push(stream_path(*p)),
{
    match p {
        Some(s) => push_str(v, s.as_str()),
        None => push_str(v, NULL_DEVICE),
    }
}

impl BareMonitorSandBox {
    /// The monitor's arguments for a target, to be run in the target's working
    /// directory: its three stream files (the null device where it has none),
    /// then `--`, the program and its arguments.
    pub fn monitor_args(&self, target: &Target) -> (r: Vec<String>)
        ensures
            views(r@) == seq![
                "-i"@,
                stream_path(target.stdin),
                "-o"@,
                stream_path(target.stdout),
                "-e"@,
                stream_path(target.stderr),
                "--"@,
                target.bin@,
            ] + views(target.args@),
    {
        let mut r: Vec<String> = Vec::new();
        push_str(&mut r, "-i");
        push_stream(&mut r, &target.stdin);
        push_str(&mut r, "-o");
        push_stream(&mut r, &target.stdout);
        push_str(&mut r, "-e");
        push_stream(&mut r, &target.stderr);
        push_str(&mut r, "--");
        push_str(&mut r, target.bin.as_str());
        extend_strings(&mut r, &target.args);
        proof {
            assert(views(r@) =~= seq![
                "-i"@,
                stream_path(target.stdin),
                "-o"@,
                stream_path(target.stdout),
                "-e"@,
                stream_path(target.stderr),
                "--"@,
                target.bin@,
            ] + views(target.args@));
        }
        r
    }

    /// The monitor's own failure that its exit code reports: none for 0; the error
    /// with that code, or `Unknown` for another code or no code.
    pub fn monitor_failure(&self, code: Option<i32>) -> (r: Option<MonitorErrorKind>)
        ensures
            r == monitor_failure_of(code),
    {
        match code {
            Some(0i32) => None,
            Some(c) => match MonitorErrorKind::from_i32(c) {
                Some(k) => Some(k),
                None => Some(MonitorErrorKind::Unknown),
            },
            None => Some(MonitorErrorKind::Unknown),
        }
    }
}

/// A monitor that exits with an error's code reports that very error.
pub proof fn law_monitor_failure_roundtrip(k: MonitorErrorKind)
    ensures
        monitor_failure_of(Some(error_code(k))) == Some(k),
{
}

} // verus!
