//! Compiler command lines.
pub mod gcc;
pub mod javac;
pub mod rustc;

pub use gcc::Gcc;
pub use javac::Javac;
pub use rustc::Rustc;
