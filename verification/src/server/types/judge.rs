use super::lang::Language;
use crate::compare::Comparison;
use vstd::prelude::*;

verus! {

/// How a submission's output is judged.
#[derive(Debug, Clone, Copy, PartialEq, Eq, Structural)]
pub enum JudgeType {
    Strict,
    IgnoreTrialingSpace,
    SpecialJudge,
    Interactive,
}

/// A submission to judge.
#[derive(Debug)]
pub struct Submission {
    pub id: u64,
    pub problem_id: u64,
    pub judge_type: JudgeType,
    /// In seconds.
    pub time_limit: u64,
    /// In megabytes.
    pub memory_limit: u64,
    pub case_num: u32,
    pub source_code: String,
    pub lang: Language,
}

/// Status of a submission, or verdict on it or on one of its cases.
#[derive(Debug, Clone, Copy, PartialEq, Eq, Structural)]
pub enum JudgeStatus {
    Pending,
    Queuing,
    Compiling,
    Judging,
    /// Accepted
    AC,
    /// Wrong Answer
    WA,
    /// Runtime Error
    RE,
    /// Similar Code
    SC,
    /// Compile Limit Exceeded
    CLE,
    /// Compile Error
    CE,
    /// Presentation Error
    PE,
    /// Time Limit Exceeded
    TLE,
    /// Memory Limit Exceeded
    MLE,
    /// Output Limit Exceeded
    OLE,
    /// System Error
    SE,
}

/// Outcome of one test case.
#[derive(Debug, Clone, Copy, PartialEq, Eq, Structural)]
pub struct JudgeCaseResult {
    /// In milliseconds.
    pub time: u64,
    /// In kilobytes.
    pub memory: u64,
    pub status: JudgeStatus,
}

/// Outcome of a whole submission.
#[derive(Debug)]
pub struct JudgeResult {
    pub time: u64,
    pub memory: u64,
    /// The compiler's message, on a compile error.
    pub compile_message: Option<String>,
    pub cases: Vec<JudgeCaseResult>,
}

/// A status change of a submission; a final one carries the result.
#[derive(Debug)]
pub struct Update {
    pub submission_id: u64,
    pub status: JudgeStatus,
    pub result: Option<JudgeResult>,
}

/// Verdict of an output comparison.
#[derive(Debug, Clone, Copy, PartialEq, Eq, Structural)]
pub enum Comparision {
    AC,
    WA,
    PE,
}

/// What one test case runs with.
pub struct CaseTask<'a> {
    pub working_dir: String,
    pub submission: &'a Submission,
    pub src_filename: String,
    pub bin_filename: Option<String>,
    pub case_index: u32,
    pub stdin_path: String,
    pub stdout_path: String,
    pub userout_path: String,
    pub act_path: Option<String>,
    pub spj_path: Option<String>,
    pub err_log_path: Option<String>,
}

impl Submission {
    /// A status change that is not final.
    pub fn update(&self, status: JudgeStatus) -> (u: Update)
        ensures
            u.submission_id == self.id,
            u.status == status,
            u.result is None,
    {
        Update { submission_id: self.id, status, result: None }
    }

    /// The final status change, with its result.
    pub fn final_update(&self, status: JudgeStatus, result: JudgeResult) -> (u: Update)
        ensures
            u.submission_id == self.id,
            u.status == status,
            u.result == Some(result),
    {
        Update { submission_id: self.id, status, result: Some(result) }
    }
}

impl JudgeResult {
    /// A result with no time, memory, message or case.
    pub fn zero() -> (r: JudgeResult)
        ensures
            r.time == 0,
            r.memory == 0,
            r.compile_message is None,
            r.cases@.len() == 0,
    {
        JudgeResult { time: 0, memory: 0, compile_message: None, cases: Vec::new() }
    }

    /// The result of a compile error with message `msg`.
    pub fn from_ce(msg: String) -> (r: JudgeResult)
        ensures
            r.time == 0,
            r.memory == 0,
            r.compile_message == Some(msg),
            r.cases@.len() == 0,
    {
        JudgeResult { time: 0, memory: 0, compile_message: Some(msg), cases: Vec::new() }
    }
}

pub open spec fn comparison_status(c: Comparision) -> JudgeStatus {
    match c {
        Comparision::AC => JudgeStatus::AC,
        Comparision::PE => JudgeStatus::PE,
        Comparision::WA => JudgeStatus::WA,
    }
}

impl Comparision {
    /// The case status this comparison verdict gives.
    pub fn to_status(self) -> (r: JudgeStatus)
        ensures
            r == comparison_status(self),
    {
        match self {
            Comparision::AC => JudgeStatus::AC,
            Comparision::PE => JudgeStatus::PE,
            Comparision::WA => JudgeStatus::WA,
        }
    }

    /// The same verdict as a comparer's.
    pub fn from_comparison(c: Comparison) -> (r: Comparision)
        ensures
            r == same_verdict(c),
    {
        match c {
            Comparison::AC => Comparision::AC,
            Comparison::WA => Comparision::WA,
            Comparison::PE => Comparision::PE,
        }
    }
}

pub open spec fn same_verdict(c: Comparison) -> Comparision {
    match c {
        Comparison::AC => Comparision::AC,
        Comparison::WA => Comparision::WA,
        Comparison::PE => Comparision::PE,
    }
}

impl Update {
    /// Whether this is the final status change, the one that carries a result.
    pub fn is_final(&self) -> (r: bool)
        ensures
            r == self.result is Some,
    {
        self.result.is_some()
    }
}

} // verus!
