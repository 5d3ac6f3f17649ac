//! Running targets under the process monitor.
pub mod bare_monitor;

pub use bare_monitor::BareMonitorSandBox;
