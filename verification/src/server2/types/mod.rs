//! Data of the second judge server.
pub mod judge;

pub use judge::{Comparision, JudgeCaseResult, JudgeResult, JudgeStatus, JudgeType, Language, Submission, Update};
