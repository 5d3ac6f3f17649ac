use crate::server::comparer::{simple_compare_chars, simple_verdict};
use crate::server::types::judge::{same_verdict, Comparision};
use crate::text::chars_of;
use vstd::prelude::*;

verus! {

/// The simple comparison as a plain function: lines must agree up to trailing
/// whitespace (else `WA`), and unless `ignore_trailing_space`, in it too (else `PE`).
pub fn compare(ignore_trailing_space: bool, std: &str, user: &str) -> (r: Comparision)
    ensures
        r == same_verdict(simple_verdict(ignore_trailing_space, std@, user@)),
{
    let sv = chars_of(std);
    let uv = chars_of(user);
    Comparision::from_comparison(simple_compare_chars(ignore_trailing_space, sv.as_slice(), uv.as_slice()))
}

} // verus!
