//! Units of the quantities the judge handles.
use vstd::prelude::*;

verus! {

pub type KiloByte = u64;

pub type MegaByte = u64;

pub type Second = u64;

pub type MilliSecond = u64;

} // verus!
