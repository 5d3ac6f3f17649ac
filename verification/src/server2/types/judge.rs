use vstd::prelude::*;

pub use crate::server::types::component::Comparision;
pub use crate::server::types::judge::{JudgeCaseResult, JudgeStatus, JudgeType};

verus! {

/// Languages a submission may be written in.
#[derive(Debug, Clone, Copy, PartialEq, Eq, Hash, Structural)]
pub enum Language {
    C11,
    C89,
    C99,
    Cpp11,
    Cpp14,
    Cpp17,
    Java,
    Python3,
    JavaScript,
    TypeScript,
    Rust,
}

/// A submission to judge.
pub struct Submission {
    pub id: u64,
    pub problem_id: u64,
    pub judge_type: JudgeType,
    pub time_limit: u64,
    pub memory_limit: u64,
    pub case_num: u32,
    pub source_code: String,
    pub lang: Language,
}

/// Outcome of a whole submission; the compiler's message is empty unless it failed.
pub struct JudgeResult {
    pub time: u64,
    pub memory: u64,
    pub compile_message: String,
    pub cases: Vec<JudgeCaseResult>,
}

/// A status change of a submission; a final one carries the result.
pub struct Update {
    pub submission_id: u64,
    pub status: JudgeStatus,
    pub result: Option<JudgeResult>,
}

} // verus!
