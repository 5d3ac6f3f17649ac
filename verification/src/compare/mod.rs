//! Comparison of a reference output with a contestant's output.
pub mod ascii;
pub mod fast;
pub mod laws;
pub mod lines;
pub mod utf8;

use vstd::prelude::*;

pub use ascii::compare_ascii;
pub use fast::compare_fast;
pub use utf8::compare_utf8;

verus! {

/// Verdict of an output comparison: accepted, wrong answer, presentation error.
#[derive(Debug, Clone, Copy, PartialEq, Eq, Structural)]
pub enum Comparison {
    AC,
    WA,
    PE,
}

} // verus!
