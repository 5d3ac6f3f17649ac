//! The sandbox's command and limits, shared with the first server's components.
pub use crate::server::types::component::{Limit, Target};
