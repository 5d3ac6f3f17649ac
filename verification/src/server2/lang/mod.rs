//! Language handling of the second server.
pub mod gcc;
pub mod helper;

pub use gcc::{CompileResult, Gcc};
