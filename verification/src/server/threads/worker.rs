//! How a worker judges a submission: the compile outcome, the verdict of each case,
//! and the tally over the cases.
use crate::monitor::types::TargetStatus;
use crate::server::types::judge::{CaseTask, JudgeCaseResult, JudgeResult, JudgeStatus, JudgeType, Submission, Update};
use crate::server::types::sandbox::opt_view;
use crate::server::types::sandbox::Limit;
use crate::text::{decimal, decimal_string, join_path, path_join, suffixed};
use vstd::prelude::*;

verus! {

/// The verdict that a run's resource use and ending give, checked in this order:
/// CPU time over the limit, memory over the limit, killed by signal 25 (the output
/// limit), an exit other than code 0. None when the run ended well.
pub open spec fn status_verdict(status: TargetStatus, limit: Limit) -> Option<JudgeStatus> {
    if status.user_time + status.sys_time > limit.time {
        Some(JudgeStatus::TLE)
    } else if status.memory > limit.memory {
        Some(JudgeStatus::MLE)
    } else if status.signal == Some(25i32) {
        Some(JudgeStatus::OLE)
    } else if status.code != Some(0i32) {
        Some(JudgeStatus::RE)
    } else {
        None
    }
}

/// The CPU time and memory of a run, and the verdict they and its ending give.
pub fn parse_status(status: &TargetStatus, limit: &Limit) -> (r: (u64, u64, Option<JudgeStatus>))
    requires
        status.user_time + status.sys_time <= u64::MAX,
    ensures
        r.0 == status.user_time + status.sys_time,
        r.1 == status.memory,
        r.2 == status_verdict(*status, *limit),
{
    let cpu_time = status.user_time + status.sys_time;
    let memory = status.memory;
    if cpu_time > limit.time {
        return (cpu_time, memory, Some(JudgeStatus::TLE));
    }
    if memory > limit.memory {
        return (cpu_time, memory, Some(JudgeStatus::MLE));
    }
    if matches!(status.signal, Some(25i32)) {
        return (cpu_time, memory, Some(JudgeStatus::OLE));
    }
    if !matches!(status.code, Some(0i32)) {
        return (cpu_time, memory, Some(JudgeStatus::RE));
    }
    (cpu_time, memory, None)
}

/// The run verdict by cases: over the time limit is `TLE`; within it, over the
/// memory limit is `MLE`; within both, a run ended by signal 25, which the output
/// limit raises, is `OLE`; any other run that did not exit with code 0 (another
/// signal, or a nonzero code) is `RE`; a run within both limits that exited with
/// code 0 gets no verdict and goes on to the comparison.
pub proof fn law_run_verdict(status: TargetStatus, limit: Limit)
    ensures
        (status_verdict(status, limit) == Some(JudgeStatus::TLE)) == (status.user_time + status.sys_time > limit.time),
        (status_verdict(status, limit) == Some(JudgeStatus::MLE)) == (status.user_time + status.sys_time <= limit.time
            && status.memory > limit.memory),
        (status_verdict(status, limit) == Some(JudgeStatus::OLE)) == (status.user_time + status.sys_time <= limit.time
            && status.memory <= limit.memory && status.signal == Some(25i32)),
        (status_verdict(status, limit) == Some(JudgeStatus::RE)) == (status.user_time + status.sys_time <= limit.time
            && status.memory <= limit.memory && status.signal != Some(25i32) && status.code != Some(0i32)),
        (status_verdict(status, limit) is None) == (status.user_time + status.sys_time <= limit.time && status.memory
            <= limit.memory && status.signal != Some(25i32) && status.code == Some(0i32)),
{
}

/// How compilation ended.
#[derive(Debug, Clone, Copy, PartialEq, Eq, Structural)]
pub enum CompileOutcome {
    Success,
    CompileError,
    LimitExceeded,
}

/// Exit code 0 is a success, another code a compile error, and no code (the
/// compiler was killed) a compile limit exceeded.
pub fn compile_outcome(code: Option<i32>) -> (r: CompileOutcome)
    ensures
        r == match code {
            Some(0i32) => CompileOutcome::Success,
            Some(_) => CompileOutcome::CompileError,
            None => CompileOutcome::LimitExceeded,
        },
{
    match code {
        Some(0i32) => CompileOutcome::Success,
        Some(_) => CompileOutcome::CompileError,
        None => CompileOutcome::LimitExceeded,
    }
}

/// The final update of a submission that did not compile, with the compiler's message.
pub fn compile_error_update(submission: &Submission, message: String) -> (u: Update)
    ensures
        u.submission_id == submission.id,
        u.status == JudgeStatus::CE,
        u.result matches Some(r) && r.time == 0 && r.memory == 0 && r.compile_message == Some(message)
            && r.cases@.len() == 0,
{
    submission.final_update(JudgeStatus::CE, JudgeResult::from_ce(message))
}

/// The final update of a submission whose compilation exceeded its limits.
pub fn compile_limit_update(submission: &Submission) -> (u: Update)
    ensures
        u.submission_id == submission.id,
        u.status == JudgeStatus::CLE,
        u.result matches Some(r) && r.time == 0 && r.memory == 0 && r.compile_message is None
            && r.cases@.len() == 0,
{
    submission.final_update(JudgeStatus::CLE, JudgeResult::zero())
}

/// The update sent when judging a submission failed on the judge's side.
pub fn system_error_update(submission_id: u64) -> (u: Update)
    ensures
        u.submission_id == submission_id,
        u.status == JudgeStatus::SE,
        u.result matches Some(r) && r.time == 0 && r.memory == 0 && r.compile_message is None
            && r.cases@.len() == 0,
{
    Update { submission_id, status: JudgeStatus::SE, result: Some(JudgeResult::zero()) }
}

/// What remains to decide a case after its run.
#[derive(Debug, Clone, Copy, PartialEq, Eq, Structural)]
pub enum CaseStep {
    /// The run alone decides the case.
    Done(JudgeCaseResult),
    /// The special judge decides; `time` and `memory` are the run's.
    SpecialJudge { time: u64, memory: u64 },
    /// The outputs are compared; `time` and `memory` are the run's.
    Compare { time: u64, memory: u64, ignore_trailing_space: bool },
}

/// Whether a judge type ignores trailing whitespace; only the two comparing judge
/// types have an answer.
pub fn ignore_trailing_space(judge_type: JudgeType) -> (r: bool)
    requires
        judge_type == JudgeType::Strict || judge_type == JudgeType::IgnoreTrialingSpace,
    ensures
        r == (judge_type == JudgeType::IgnoreTrialingSpace),
{
    match judge_type {
        JudgeType::IgnoreTrialingSpace => true,
        _ => false,
    }
}

/// The next step of a case after its run: the run's verdict when it has one; else
/// the special judge when the problem has one; else the output comparison.
pub fn after_run(status: &TargetStatus, limit: &Limit, judge_type: JudgeType, has_special_judge: bool) -> (r: CaseStep)
    requires
        status.user_time + status.sys_time <= u64::MAX,
        status_verdict(*status, *limit) is None ==> has_special_judge || judge_type == JudgeType::Strict
            || judge_type == JudgeType::IgnoreTrialingSpace,
    ensures
        r == match status_verdict(*status, *limit) {
            Some(v) => CaseStep::Done(
                JudgeCaseResult { time: (status.user_time + status.sys_time) as u64, memory: status.memory, status: v },
            ),
            None => if has_special_judge {
                CaseStep::SpecialJudge { time: (status.user_time + status.sys_time) as u64, memory: status.memory }
            } else {
                CaseStep::Compare {
                    time: (status.user_time + status.sys_time) as u64,
                    memory: status.memory,
                    ignore_trailing_space: judge_type == JudgeType::IgnoreTrialingSpace,
                }
            },
        },
{
    let (time, memory, verdict) = parse_status(status, limit);
    match verdict {
        Some(v) => CaseStep::Done(JudgeCaseResult { time, memory, status: v }),
        None => if has_special_judge {
            CaseStep::SpecialJudge { time, memory }
        } else {
            CaseStep::Compare { time, memory, ignore_trailing_space: ignore_trailing_space(judge_type) }
        },
    }
}

pub open spec fn special_judge_verdict(code: Option<i32>) -> JudgeStatus {
    match code {
        Some(0i32) => JudgeStatus::AC,
        Some(1i32) => JudgeStatus::WA,
        Some(2i32) => JudgeStatus::PE,
        _ => JudgeStatus::WA,
    }
}

/// The special judge's exit code 0 accepts, 1 is a wrong answer, 2 a presentation
/// error; anything else is taken as a wrong answer.
pub fn special_judge_status(code: Option<i32>) -> (r: JudgeStatus)
    ensures
        r == special_judge_verdict(code),
{
    match code {
        Some(0i32) => JudgeStatus::AC,
        Some(1i32) => JudgeStatus::WA,
        Some(2i32) => JudgeStatus::PE,
        _ => JudgeStatus::WA,
    }
}

/// The verdict of a submission over its cases: the last case status that is not
/// `AC`, or `AC` when there is none.
pub open spec fn tally_status(cases: Seq<JudgeCaseResult>) -> JudgeStatus
    decreases cases.len(),
{
    if cases.len() == 0 {
        JudgeStatus::AC
    } else if cases.last().status != JudgeStatus::AC {
        cases.last().status
    } else {
        tally_status(cases.drop_last())
    }
}

pub open spec fn total_time(cases: Seq<JudgeCaseResult>) -> nat
    decreases cases.len(),
{
    if cases.len() == 0 {
        0
    } else {
        total_time(cases.drop_last()) + cases.last().time as nat
    }
}

pub open spec fn total_memory(cases: Seq<JudgeCaseResult>) -> nat
    decreases cases.len(),
{
    if cases.len() == 0 {
        0
    } else {
        total_memory(cases.drop_last()) + cases.last().memory as nat
    }
}

/// The running verdict and result of a submission's cases.
pub struct CaseTally {
    pub status: JudgeStatus,
    pub result: JudgeResult,
}

impl CaseTally {
    /// The tally agrees with its cases: status, total time and total memory.
    pub open spec fn wf(&self) -> bool {
        &&& self.status == tally_status(self.result.cases@)
        &&& self.result.time == total_time(self.result.cases@)
        &&& self.result.memory == total_memory(self.result.cases@)
        &&& self.result.compile_message is None
    }

    /// A tally over no case.
    pub fn new() -> (t: CaseTally)
        ensures
            t.wf(),
            t.status == JudgeStatus::AC,
            t.result.cases@.len() == 0,
    {
        CaseTally { status: JudgeStatus::AC, result: JudgeResult::zero() }
    }

    /// Counts one more case.
    pub fn add(&mut self, res: JudgeCaseResult)
        requires
            old(self).wf(),
            old(self).result.time + res.time <= u64::MAX,
            old(self).result.memory + res.memory <= u64::MAX,
        ensures
            final(self).wf(),
            final(self).result.cases@ == old(self).result.cases@.push(res),
            final(self).status == if res.status != JudgeStatus::AC {
                res.status
            } else {
                old(self).status
            },
            final(self).result.time == old(self).result.time + res.time,
            final(self).result.memory == old(self).result.memory + res.memory,
    {
        if res.status != JudgeStatus::AC {
            self.status = res.status;
        }
        self.result.time = self.result.time + res.time;
        self.result.memory = self.result.memory + res.memory;
        self.result.cases.push(res);
        proof {
            assert(self.result.cases@.drop_last() =~= old(self).result.cases@);
        }
    }

    /// The final update of the submission with this tally.
    pub fn into_update(self, submission: &Submission) -> (u: Update)
        ensures
            u.submission_id == submission.id,
            u.status == self.status,
            u.result == Some(self.result),
    {
        submission.final_update(self.status, self.result)
    }
}

/// Where the judging of a submission stands.
#[derive(Debug, Clone, Copy, PartialEq, Eq, Structural)]
pub enum Phase {
    /// The source is being compiled.
    Compiling,
    /// The compiler failed; its message is being read.
    AwaitingMessage,
    /// The cases are being run, in order.
    Judging,
    /// The final update has been given.
    Done,
}

/// The judging of one submission, step by step: the worker performs each step's
/// work (compiling, reading the compiler's message, running a case) and reports
/// its outcome; the machine answers with the status updates to send.
pub struct JudgeMachine {
    pub submission_id: u64,
    pub case_num: u32,
    pub phase: Phase,
    pub tally: CaseTally,
}

/// `u` is a final update of submission `id` with `status` and an empty result.
pub open spec fn empty_final(u: Option<Update>, id: u64, status: JudgeStatus) -> bool {
    match u {
        Some(u) => u.submission_id == id && u.status == status && match u.result {
            Some(res) => res.compile_message is None && res.cases@.len() == 0 && res.time == 0 && res.memory == 0,
            None => false,
        },
        None => false,
    }
}

impl JudgeMachine {
    pub open spec fn wf(&self) -> bool {
        &&& self.tally.wf()
        &&& self.tally.result.cases@.len() <= self.case_num
        &&& self.phase != Phase::Judging ==> self.tally.result.cases@.len() == 0
    }

    /// Starts judging `submission`; its status becomes `Compiling`.
    pub fn new(submission: &Submission) -> (r: (JudgeMachine, Update))
        ensures
            r.0.wf(),
            r.0.submission_id == submission.id,
            r.0.case_num == submission.case_num,
            r.0.phase == Phase::Compiling,
            r.1.submission_id == submission.id,
            r.1.status == JudgeStatus::Compiling,
            r.1.result is None,
    {
        (
            JudgeMachine {
                submission_id: submission.id,
                case_num: submission.case_num,
                phase: Phase::Compiling,
                tally: CaseTally::new(),
            },
            submission.update(JudgeStatus::Compiling),
        )
    }

    /// The compiler exited with `code`. On success judging starts (status
    /// `Judging`); on a compile error the compiler's message is awaited; when the
    /// compiler was killed the submission ends with `CLE`.
    pub fn compiled(&mut self, code: Option<i32>) -> (r: Option<Update>)
        requires
            old(self).wf(),
            old(self).phase == Phase::Compiling,
        ensures
            final(self).wf(),
            final(self).submission_id == old(self).submission_id,
            final(self).case_num == old(self).case_num,
            final(self).tally.result.cases@.len() == 0,
            code == Some(0i32) ==> final(self).phase == Phase::Judging && (r matches Some(u) && u.submission_id
                == old(self).submission_id && u.status == JudgeStatus::Judging && u.result is None),
            (code matches Some(c) && c != 0) ==> final(self).phase == Phase::AwaitingMessage && r is None,
            code is None ==> final(self).phase == Phase::Done && empty_final(r, old(self).submission_id, JudgeStatus::CLE),
    {
        match compile_outcome(code) {
            CompileOutcome::Success => {
                self.phase = Phase::Judging;
                Some(Update { submission_id: self.submission_id, status: JudgeStatus::Judging, result: None })
            },
            CompileOutcome::CompileError => {
                self.phase = Phase::AwaitingMessage;
                None
            },
            CompileOutcome::LimitExceeded => {
                self.phase = Phase::Done;
                Some(
                    Update {
                        submission_id: self.submission_id,
                        status: JudgeStatus::CLE,
                        result: Some(JudgeResult::zero()),
                    },
                )
            },
        }
    }

    /// The compiler's message was read: the submission ends with `CE`.
    pub fn compile_message(&mut self, message: String) -> (u: Update)
        requires
            old(self).wf(),
            old(self).phase == Phase::AwaitingMessage,
        ensures
            final(self).wf(),
            final(self).phase == Phase::Done,
            u.submission_id == old(self).submission_id,
            u.status == JudgeStatus::CE,
            u.result matches Some(res) && res.compile_message == Some(message) && res.cases@.len() == 0
                && res.time == 0 && res.memory == 0,
    {
        self.phase = Phase::Done;
        Update { submission_id: self.submission_id, status: JudgeStatus::CE, result: Some(JudgeResult::from_ce(message)) }
    }

    /// The number of the next case to run, from 1; none once all have run.
    pub fn next_case(&self) -> (r: Option<u32>)
        requires
            self.wf(),
            self.phase == Phase::Judging,
        ensures
            self.tally.result.cases@.len() < self.case_num ==> r == Some((self.tally.result.cases@.len() + 1) as u32),
            self.tally.result.cases@.len() == self.case_num ==> r is None,
    {
        let done = self.tally.result.cases.len();
        if done < self.case_num as usize {
            Some((done + 1) as u32)
        } else {
            None
        }
    }

    /// The next case ended with `res`.
    pub fn case_judged(&mut self, res: JudgeCaseResult)
        requires
            old(self).wf(),
            old(self).phase == Phase::Judging,
            old(self).tally.result.cases@.len() < old(self).case_num,
            old(self).tally.result.time + res.time <= u64::MAX,
            old(self).tally.result.memory + res.memory <= u64::MAX,
        ensures
            final(self).wf(),
            final(self).phase == Phase::Judging,
            final(self).submission_id == old(self).submission_id,
            final(self).case_num == old(self).case_num,
            final(self).tally.result.cases@ == old(self).tally.result.cases@.push(res),
    {
        self.tally.add(res);
    }

    /// All cases have run: the final update, whose status is the tally's verdict.
    pub fn finish(self) -> (u: Update)
        requires
            self.wf(),
            self.phase == Phase::Judging,
            self.tally.result.cases@.len() == self.case_num,
        ensures
            u.submission_id == self.submission_id,
            u.status == tally_status(self.tally.result.cases@),
            u.result matches Some(res) && res.cases@ == self.tally.result.cases@ && res.time == total_time(
                res.cases@,
            ) && res.memory == total_memory(res.cases@) && res.compile_message is None,
    {
        Update { submission_id: self.submission_id, status: self.tally.status, result: Some(self.tally.result) }
    }
}

/// A submission is accepted exactly when all of its cases are.
pub proof fn law_tally_accepted(cases: Seq<JudgeCaseResult>)
    ensures
        (tally_status(cases) == JudgeStatus::AC) == (forall|i: int|
            0 <= i < cases.len() ==> #[trigger] cases[i].status == JudgeStatus::AC),
    decreases cases.len(),
{
    if cases.len() > 0 {
        law_tally_accepted(cases.drop_last());
        if tally_status(cases) == JudgeStatus::AC {
            assert forall|i: int| 0 <= i < cases.len() implies #[trigger] cases[i].status == JudgeStatus::AC by {
                if i < cases.len() - 1 {
                    assert(cases[i] == cases.drop_last()[i]);
                }
            }
        } else if cases.last().status == JudgeStatus::AC {
            let i = choose|i: int| 0 <= i < cases.drop_last().len() && #[trigger] cases.drop_last()[i].status != JudgeStatus::AC;
            assert(cases[i] == cases.drop_last()[i]);
        }
    }
}

/// The verdict over some cases is one of their statuses, or `AC`.
pub proof fn law_tally_from_cases(cases: Seq<JudgeCaseResult>)
    ensures
        tally_status(cases) == JudgeStatus::AC || exists|i: int|
            0 <= i < cases.len() && #[trigger] cases[i].status == tally_status(cases),
    decreases cases.len(),
{
    if cases.len() > 0 {
        law_tally_from_cases(cases.drop_last());
        if cases.last().status != JudgeStatus::AC {
            assert(cases[cases.len() - 1].status == tally_status(cases));
        } else if tally_status(cases) != JudgeStatus::AC {
            let i = choose|i: int| 0 <= i < cases.drop_last().len() && #[trigger] cases.drop_last()[i].status == tally_status(cases.drop_last());
            assert(cases[i] == cases.drop_last()[i]);
        }
    }
}

/// The input and answer file names of case `i`: `i.in` and `i.out`.
pub fn case_file_names(i: u32) -> (r: (String, String))
    ensures
        r.0@ == decimal(i as nat) + ".in"@,
        r.1@ == decimal(i as nat) + ".out"@,
{
    let n = decimal_string(i as u64);
    (suffixed(n.as_str(), ".in"), suffixed(n.as_str(), ".out"))
}

/// The directory a submission is judged in: its id under the workspace.
pub fn working_dir_of(workspace: &str, submission_id: u64) -> (r: String)
    ensures
        r@ == path_join(workspace@, decimal(submission_id as nat)),
{
    let id = decimal_string(submission_id);
    join_path(workspace, id.as_str())
}

pub open spec fn str_opt_view(o: Option<&str>) -> Option<Seq<char>> {
    match o {
        Some(s) => Some(s@),
        None => None,
    }
}

/// What case `case_index` of `submission` runs with, in `working_dir`: the case's
/// input and answer files in the problem's directory under `data_dir`, the
/// contestant's output file `userout.out`, and the interactor or special judge
/// the judge type calls for.
pub fn case_task<'a>(
    submission: &'a Submission,
    working_dir: &str,
    data_dir: &str,
    src_filename: &str,
    bin_filename: Option<&str>,
    case_index: u32,
) -> (t: CaseTask<'a>)
    ensures
        t.submission == submission,
        t.working_dir@ == working_dir@,
        t.src_filename@ == src_filename@,
        opt_view(t.bin_filename) == str_opt_view(bin_filename),
        t.case_index == case_index,
        t.stdin_path@ == path_join(
            path_join(data_dir@, decimal(submission.problem_id as nat)),
            decimal(case_index as nat) + ".in"@,
        ),
        t.stdout_path@ == path_join(
            path_join(data_dir@, decimal(submission.problem_id as nat)),
            decimal(case_index as nat) + ".out"@,
        ),
        t.userout_path@ == path_join(working_dir@, "userout.out"@),
        opt_view(t.act_path) == if submission.judge_type == JudgeType::Interactive {
            Some(path_join(working_dir@, "act"@))
        } else {
            None
        },
        opt_view(t.spj_path) == if submission.judge_type == JudgeType::SpecialJudge {
            Some(path_join(working_dir@, "spj"@))
        } else {
            None
        },
        t.err_log_path is None,
{
    let pid = decimal_string(submission.problem_id);
    let problem_dir = join_path(data_dir, pid.as_str());
    let (input, output) = case_file_names(case_index);
    let bin = match bin_filename {
        Some(b) => Some(String::from_str(b)),
        None => None,
    };
    CaseTask {
        working_dir: String::from_str(working_dir),
        submission,
        src_filename: String::from_str(src_filename),
        bin_filename: bin,
        case_index,
        stdin_path: join_path(problem_dir.as_str(), input.as_str()),
        stdout_path: join_path(problem_dir.as_str(), output.as_str()),
        userout_path: join_path(working_dir, "userout.out"),
        act_path: if submission.judge_type == JudgeType::Interactive {
            Some(join_path(working_dir, "act"))
        } else {
            None
        },
        spj_path: if submission.judge_type == JudgeType::SpecialJudge {
            Some(join_path(working_dir, "spj"))
        } else {
            None
        },
        err_log_path: None,
    }
}

} // verus!
