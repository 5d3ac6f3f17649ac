//! Data of the judge server.
pub mod component;
pub mod judge;
pub mod lang;
pub mod sandbox;
pub mod unit;

pub use judge::{CaseTask, Comparision, JudgeCaseResult, JudgeResult, JudgeStatus, JudgeType, Submission, Update};
pub use lang::Language;
pub use sandbox::{Limit, Target};
