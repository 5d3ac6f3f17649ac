//! The judge server's comparer: a line matches when it agrees up to its trailing
//! whitespace, which counts only as a presentation error.
use super::types::judge::{same_verdict, Comparision};
use crate::compare::laws::{lemma_compare_lines_avoids, lemma_compare_lines_lenient, lemma_compare_lines_reflexive};
use crate::compare::lines::{
    chars_range_eq, compare_lines, join_lines, law_lines_of_joined, law_lines_without_final_break, lines, next_line_chars,
    plain_lines,
};
use crate::compare::utf8::{is_unicode_ws, is_whitespace};
use crate::compare::Comparison;
use crate::text::chars_of;
use vstd::prelude::*;

verus! {

/// `s` without trailing Unicode whitespace, as `str::trim_end` leaves it.
pub open spec fn trim_end_ws(s: Seq<char>) -> Seq<char>
    decreases s.len(),
{
    if s.len() > 0 && is_unicode_ws(s.last()) {
        trim_end_ws(s.drop_last())
    } else {
        s
    }
}

/// Verdict on one pair of lines: `WA` when they differ once trailing whitespace is
/// removed; otherwise, unless trailing whitespace is ignored, `PE` when the removed
/// whitespace differs.
pub open spec fn simple_line_verdict(ignore_trailing_space: bool, sl: Seq<char>, ul: Seq<char>) -> Option<Comparison> {
    let st = trim_end_ws(sl);
    let ut = trim_end_ws(ul);
    if st != ut {
        Some(Comparison::WA)
    } else if ignore_trailing_space {
        None
    } else if sl.skip(st.len() as int) != ul.skip(ut.len() as int) {
        Some(Comparison::PE)
    } else {
        None
    }
}

pub open spec fn simple_line_verdict_fn(ignore_trailing_space: bool) -> spec_fn(Seq<char>, Seq<char>) -> Option<Comparison> {
    |sl: Seq<char>, ul: Seq<char>| simple_line_verdict(ignore_trailing_space, sl, ul)
}

/// What the simple comparer answers for the reference text `std` and the contestant's `user`.
pub open spec fn simple_verdict(ignore_trailing_space: bool, std: Seq<char>, user: Seq<char>) -> Comparison {
    compare_lines(lines(std, '\n', '\r'), lines(user, '\n', '\r'), simple_line_verdict_fn(ignore_trailing_space))
}

/// Compares outputs line by line, up to trailing whitespace.
pub struct SimpleComparer {
    pub ignore_trailing_space: bool,
}

/// `s[a..r]` is `s[a..b]` without its trailing whitespace.
pub fn trim_end_range(s: &[char], a: usize, b: usize) -> (r: usize)
    requires
        a <= b <= s@.len(),
    ensures
        a <= r <= b,
        trim_end_ws(s@.subrange(a as int, b as int)) == s@.subrange(a as int, r as int),
{
    let mut y = b;
    while a < y && is_whitespace(s[y - 1])
        invariant
            a <= y <= b <= s@.len(),
            trim_end_ws(s@.subrange(a as int, b as int)) == trim_end_ws(s@.subrange(a as int, y as int)),
        decreases y - a,
    {
        proof {
            assert(s@.subrange(a as int, y - 1) =~= s@.subrange(a as int, y as int).drop_last());
        }
        y = y - 1;
    }
    y
}

fn simple_line_check(
    ignore_trailing_space: bool,
    s: &[char],
    s0: usize,
    s1: usize,
    u: &[char],
    u0: usize,
    u1: usize,
) -> (r: Option<Comparison>)
    requires
        s0 <= s1 <= s@.len(),
        u0 <= u1 <= u@.len(),
    ensures
        r == simple_line_verdict(ignore_trailing_space, s@.subrange(s0 as int, s1 as int), u@.subrange(u0 as int, u1 as int)),
{
    let ys = trim_end_range(s, s0, s1);
    let yu = trim_end_range(u, u0, u1);
    proof {
        assert(s@.subrange(s0 as int, s1 as int).skip(ys - s0) =~= s@.subrange(ys as int, s1 as int));
        assert(u@.subrange(u0 as int, u1 as int).skip(yu - u0) =~= u@.subrange(yu as int, u1 as int));
    }
    if !chars_range_eq(s, s0, ys, u, u0, yu) {
        return Some(Comparison::WA);
    }
    if ignore_trailing_space {
        return None;
    }
    if !chars_range_eq(s, ys, s1, u, yu, u1) {
        return Some(Comparison::PE);
    }
    None
}

/// The simple comparison on texts given as characters.
pub fn simple_compare_chars(ignore_trailing_space: bool, std: &[char], user: &[char]) -> (r: Comparison)
    ensures
        r == simple_verdict(ignore_trailing_space, std@, user@),
{
    let ghost v = simple_line_verdict_fn(ignore_trailing_space);
    let mut i: usize = 0;
    let mut j: usize = 0;
    proof {
        assert(std@.subrange(0, std@.len() as int) =~= std@);
        assert(user@.subrange(0, user@.len() as int) =~= user@);
    }
    loop
        invariant
            i <= std@.len(),
            j <= user@.len(),
            v == simple_line_verdict_fn(ignore_trailing_space),
            simple_verdict(ignore_trailing_space, std@, user@) == compare_lines(
                lines(std@.subrange(i as int, std@.len() as int), '\n', '\r'),
                lines(user@.subrange(j as int, user@.len() as int), '\n', '\r'),
                v,
            ),
        decreases std@.len() - i,
    {
        let ghost ls = lines(std@.subrange(i as int, std@.len() as int), '\n', '\r');
        let ghost lu = lines(user@.subrange(j as int, user@.len() as int), '\n', '\r');
        let (s0, s1, sn) = match next_line_chars(std, i) {
            Some(t) => t,
            None => {
                proof {
                    assert(std@.subrange(i as int, std@.len() as int).len() == 0);
                }
                return match next_line_chars(user, j) {
                    None => {
                        proof {
                            assert(user@.subrange(j as int, user@.len() as int).len() == 0);
                        }
                        Comparison::AC
                    },
                    Some(_) => Comparison::WA,
                };
            },
        };
        let (u0, u1, un) = match next_line_chars(user, j) {
            Some(t) => t,
            None => {
                proof {
                    assert(user@.subrange(j as int, user@.len() as int).len() == 0);
                }
                return Comparison::WA;
            },
        };
        let c = simple_line_check(ignore_trailing_space, std, s0, s1, user, u0, u1);
        proof {
            assert(ls[0] == std@.subrange(s0 as int, s1 as int));
            assert(lu[0] == user@.subrange(u0 as int, u1 as int));
            assert(ls.drop_first() =~= lines(std@.subrange(sn as int, std@.len() as int), '\n', '\r'));
            assert(lu.drop_first() =~= lines(user@.subrange(un as int, user@.len() as int), '\n', '\r'));
        }
        match c {
            Some(res) => {
                return res;
            },
            None => {},
        }
        i = sn;
        j = un;
    }
}

impl SimpleComparer {
    /// Compares the reference output `std` with the contestant's output `user`, line
    /// by line. Lines end at `\n` (a `\r` before it is dropped). Lines that differ
    /// once trailing whitespace is removed give `WA`; otherwise, unless trailing
    /// whitespace is ignored, differing trailing whitespace gives `PE`. Running out
    /// of lines on one side only is `WA`.
    pub fn compare(&self, std: &str, user: &str) -> (r: Comparision)
        ensures
            r == same_verdict(simple_verdict(self.ignore_trailing_space, std@, user@)),
    {
        let sv = chars_of(std);
        let uv = chars_of(user);
        let c = simple_compare_chars(self.ignore_trailing_space, sv.as_slice(), uv.as_slice());
        Comparision::from_comparison(c)
    }
}

/// When trailing whitespace is ignored, the simple comparer never answers `PE`.
pub proof fn law_simple_ignoring_never_pe(std: Seq<char>, user: Seq<char>)
    ensures
        simple_verdict(true, std, user) != Comparison::PE,
{
    lemma_compare_lines_avoids(lines(std, '\n', '\r'), lines(user, '\n', '\r'), simple_line_verdict_fn(true));
}

/// An output compared with itself is accepted by the simple comparer.
pub proof fn law_simple_reflexive(ignore_trailing_space: bool, s: Seq<char>)
    ensures
        simple_verdict(ignore_trailing_space, s, s) == Comparison::AC,
{
    lemma_compare_lines_reflexive(lines(s, '\n', '\r'), simple_line_verdict_fn(ignore_trailing_space));
}

/// Unless the strict simple comparer answers `PE`, the one that ignores trailing
/// whitespace answers the same.
pub proof fn law_simple_strict_and_ignoring_agree(std: Seq<char>, user: Seq<char>)
    ensures
        simple_verdict(false, std, user) != Comparison::PE ==> simple_verdict(true, std, user)
            == simple_verdict(false, std, user),
{
    lemma_compare_lines_lenient(
        lines(std, '\n', '\r'),
        lines(user, '\n', '\r'),
        simple_line_verdict_fn(false),
        simple_line_verdict_fn(true),
    );
}

/// Whether a contestant ends lines with `\n` or with `\r\n` does not change the
/// verdict of the simple comparer.
pub proof fn law_simple_line_endings(ignore_trailing_space: bool, ls: Seq<Seq<char>>, lu: Seq<Seq<char>>)
    requires
        plain_lines(ls, '\n', '\r'),
        plain_lines(lu, '\n', '\r'),
    ensures
        simple_verdict(ignore_trailing_space, join_lines(ls, seq!['\n']), join_lines(lu, seq!['\r', '\n']))
            == simple_verdict(ignore_trailing_space, join_lines(ls, seq!['\n']), join_lines(lu, seq!['\n'])),
{
    law_lines_of_joined(ls, '\n', '\r');
    law_lines_of_joined(lu, '\n', '\r');
}

/// Whether a contestant ends the last line with `\n` or not does not change the
/// verdict of the simple comparer, when that line is not empty.
pub proof fn law_simple_final_line_break(ignore_trailing_space: bool, std: Seq<char>, lu: Seq<Seq<char>>)
    requires
        plain_lines(lu, '\n', '\r'),
        lu.len() > 0,
        lu.last().len() > 0,
    ensures
        simple_verdict(ignore_trailing_space, std, join_lines(lu, seq!['\n']).drop_last()) == simple_verdict(
            ignore_trailing_space,
            std,
            join_lines(lu, seq!['\n']),
        ),
{
    law_lines_of_joined(lu, '\n', '\r');
    law_lines_without_final_break(lu, '\n', '\r');
}

} // verus!
