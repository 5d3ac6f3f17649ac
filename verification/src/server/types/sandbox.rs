use super::judge::{CaseTask, Submission};
use crate::server::config::Config;
use crate::text::{join_path, path_join, push_str, extend_strings, views};
use vstd::prelude::*;

verus! {

/// A program to run in the sandbox.
pub struct Target {
    pub working_dir: String,
    pub bin: String,
    pub args: Vec<String>,
    pub stdin: Option<String>,
    pub stdout: Option<String>,
    pub stderr: Option<String>,
}

/// A target as values: its texts, arguments and stream files.
pub struct TargetView {
    pub working_dir: Seq<char>,
    pub bin: Seq<char>,
    pub args: Seq<Seq<char>>,
    pub stdin: Option<Seq<char>>,
    pub stdout: Option<Seq<char>>,
    pub stderr: Option<Seq<char>>,
}

impl View for Target {
    type V = TargetView;

    open spec fn view(&self) -> TargetView {
        TargetView {
            working_dir: self.working_dir@,
            bin: self.bin@,
            args: views(self.args@),
            stdin: opt_view(self.stdin),
            stdout: opt_view(self.stdout),
            stderr: opt_view(self.stderr),
        }
    }
}

/// The direct run of a case's compiled binary: it reads the case input and writes
/// the contestant's output file.
pub open spec fn direct_view(task: CaseTask) -> TargetView {
    TargetView {
        working_dir: task.working_dir@,
        bin: path_join(task.working_dir@, task.bin_filename.unwrap()@),
        args: Seq::empty(),
        stdin: Some(task.stdin_path@),
        stdout: Some(task.userout_path@),
        stderr: opt_view(task.err_log_path),
    }
}

/// The run of a case through an interpreter `vm` given one argument.
pub open spec fn vm_view(task: CaseTask, vm: Seq<char>, arg1: Seq<char>) -> TargetView {
    TargetView {
        working_dir: task.working_dir@,
        bin: vm,
        args: seq![arg1],
        stdin: Some(task.stdin_path@),
        stdout: Some(task.userout_path@),
        stderr: None,
    }
}

/// Resource limits of a run.
#[derive(Debug, Clone, Copy, PartialEq, Eq, Structural)]
pub struct Limit {
    /// In milliseconds.
    pub time: u64,
    /// In kilobytes.
    pub memory: u64,
    /// In kilobytes.
    pub output: u64,
}

pub open spec fn saturating_product(a: u64, b: u64) -> u64 {
    if a * b > u64::MAX {
        u64::MAX
    } else {
        (a * b) as u64
    }
}

/// `a * b`, or `u64::MAX` when that overflows.
pub fn saturating_times(a: u64, b: u64) -> (r: u64)
    ensures
        r == saturating_product(a, b),
{
    match a.checked_mul(b) {
        Some(p) => p,
        None => u64::MAX,
    }
}

pub open spec fn opt_view(o: Option<String>) -> Option<Seq<char>> {
    match o {
        Some(s) => Some(s@),
        None => None,
    }
}

fn clone_opt(o: &Option<String>) -> (r: Option<String>)
    ensures
        opt_view(r) == opt_view(*o),
{
    match o {
        Some(s) => Some(s.clone()),
        None => None,
    }
}

impl Limit {
    /// No limit at all.
    pub fn no_effect() -> (r: Option<&'static Limit>)
        ensures
            r is None,
    {
        None
    }

    /// The limits of a submission's runs: its time limit in milliseconds; twice its
    /// memory limit, capped by the configured hard limit, in kilobytes; the
    /// configured output limit in kilobytes. Products saturate.
    pub fn from_submission(submission: &Submission, config: &Config) -> (r: Limit)
        ensures
            r.time == saturating_product(submission.time_limit, 1000),
            r.memory == saturating_product(
                if saturating_product(submission.memory_limit, 2) <= config.memory_hard_limit {
                    saturating_product(submission.memory_limit, 2)
                } else {
                    config.memory_hard_limit
                },
                1024,
            ),
            r.output == saturating_product(config.output_hard_limit, 1024),
    {
        let doubled = saturating_times(submission.memory_limit, 2);
        let capped = if doubled <= config.memory_hard_limit {
            doubled
        } else {
            config.memory_hard_limit
        };
        Limit {
            time: saturating_times(submission.time_limit, 1000),
            memory: saturating_times(capped, 1024),
            output: saturating_times(config.output_hard_limit, 1024),
        }
    }
}

impl Target {
    /// Runs the compiled binary of a case directly, reading the case input and
    /// writing the contestant's output file.
    pub fn direct(task: &CaseTask) -> (r: Target)
        requires
            task.bin_filename is Some,
        ensures
            r@ == direct_view(*task),
    {
        let bin = match &task.bin_filename {
            Some(b) => join_path(task.working_dir.as_str(), b.as_str()),
            None => String::new(),
        };
        let args: Vec<String> = Vec::new();
        proof {
            assert(views(args@) =~= Seq::empty());
        }
        Target {
            working_dir: task.working_dir.clone(),
            bin,
            args,
            stdin: Some(task.stdin_path.clone()),
            stdout: Some(task.userout_path.clone()),
            stderr: clone_opt(&task.err_log_path),
        }
    }

    /// Runs a case through an interpreter `vm` given one argument.
    pub fn vm(task: &CaseTask, vm: String, arg1: String) -> (r: Target)
        ensures
            r@ == vm_view(*task, vm@, arg1@),
    {
        let mut args: Vec<String> = Vec::new();
        args.push(arg1);
        proof {
            assert(views(args@) =~= seq![arg1@]);
        }
        Target {
            working_dir: task.working_dir.clone(),
            bin: vm,
            args,
            stdin: Some(task.stdin_path.clone()),
            stdout: Some(task.userout_path.clone()),
            stderr: None,
        }
    }

    /// Runs this target as the contestant's side of an interactive judge: the
    /// interaction helper starts the interactor `act_path` on the case's input and
    /// answer files and connects both through the two named pipes.
    pub fn wrap_interact(self, act_path: &str, aupipe: &str, uapipe: &str, err_log_path: Option<String>) -> (r: Target)
        requires
            self.stdin is Some,
            self.stdout is Some,
        ensures
            r.working_dir == self.working_dir,
            r.bin@ == "wa-interact"@,
            views(r.args@) == seq![
                "--actin"@,
                self.stdin.unwrap()@,
                "--actout"@,
                self.stdout.unwrap()@,
                "--actpath"@,
                act_path@,
                "--aupipe"@,
                aupipe@,
                "--uapipe"@,
                uapipe@,
                "--"@,
                self.bin@,
            ] + views(self.args@),
            r.stdin is None,
            r.stdout is None,
            r.stderr == err_log_path,
    {
        let mut args: Vec<String> = Vec::new();
        push_str(&mut args, "--actin");
        match &self.stdin {
            Some(p) => push_str(&mut args, p.as_str()),
            None => {},
        }
        push_str(&mut args, "--actout");
        match &self.stdout {
            Some(p) => push_str(&mut args, p.as_str()),
            None => {},
        }
        push_str(&mut args, "--actpath");
        push_str(&mut args, act_path);
        push_str(&mut args, "--aupipe");
        push_str(&mut args, aupipe);
        push_str(&mut args, "--uapipe");
        push_str(&mut args, uapipe);
        push_str(&mut args, "--");
        push_str(&mut args, self.bin.as_str());
        extend_strings(&mut args, &self.args);
        proof {
            assert(views(args@) =~= seq![
                "--actin"@,
                self.stdin.unwrap()@,
                "--actout"@,
                self.stdout.unwrap()@,
                "--actpath"@,
                act_path@,
                "--aupipe"@,
                aupipe@,
                "--uapipe"@,
                uapipe@,
                "--"@,
                self.bin@,
            ] + views(self.args@));
        }
        Target {
            working_dir: self.working_dir,
            bin: String::from_str("wa-interact"),
            args,
            stdin: None,
            stdout: None,
            stderr: err_log_path,
        }
    }
}

} // verus!
