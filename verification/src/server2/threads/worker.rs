use crate::server::threads::worker::case_file_names;
use crate::text::decimal;
use vstd::prelude::*;

verus! {

/// The input and answer file names of cases `1..=case_num`: `i.in` and `i.out`.
pub fn cases(case_num: u32) -> (r: Vec<(String, String)>)
    ensures
        r@.len() == case_num,
        forall|k: int|
            0 <= k < case_num ==> #[trigger] r@[k].0@ == decimal((k + 1) as nat) + ".in"@ && r@[k].1@
                == decimal((k + 1) as nat) + ".out"@,
{
    let mut r: Vec<(String, String)> = Vec::new();
    let mut i: u32 = 0;
    while i < case_num
        invariant
            i <= case_num,
            r@.len() == i,
            forall|k: int|
                0 <= k < i ==> #[trigger] r@[k].0@ == decimal((k + 1) as nat) + ".in"@ && r@[k].1@
                    == decimal((k + 1) as nat) + ".out"@,
        decreases case_num - i,
    {
        r.push(case_file_names(i + 1));
        i = i + 1;
    }
    r
}

} // verus!
