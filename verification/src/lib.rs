//! Judging core of the WA online judge: output comparison, the process monitor's
//! status decoding, and the judge server's decisions and command lines.
pub mod compare;
pub mod monitor;
pub mod server;
pub mod server2;
pub mod text;

