//! Character-oriented comparison: Unicode whitespace separates the words of a line.
use super::lines::{chars_range_eq, compare_lines, lines, next_line_chars};
use super::Comparison;
use crate::text::chars_of;
use vstd::prelude::*;

verus! {

/// The Unicode `White_Space` property, which `char::is_whitespace` tests.
pub open spec fn is_unicode_ws(c: char) -> bool {
    let u = c as u32;
    (9u32 <= u <= 13u32) || u == 32u32 || u == 0x85u32 || u == 0xA0u32 || u == 0x1680u32 || (
    0x2000u32 <= u <= 0x200Au32) || u == 0x2028u32 || u == 0x2029u32 || u == 0x202Fu32 || u
        == 0x205Fu32 || u == 0x3000u32
}

/// Tests the Unicode `White_Space` property.
pub fn is_whitespace(c: char) -> (r: bool)
    ensures
        r == is_unicode_ws(c),
{
    let u = c as u32;
    (9u32 <= u && u <= 13u32) || u == 32u32 || u == 0x85u32 || u == 0xA0u32 || u == 0x1680u32 || (
    0x2000u32 <= u && u <= 0x200Au32) || u == 0x2028u32 || u == 0x2029u32 || u == 0x202Fu32 || u
        == 0x205Fu32 || u == 0x3000u32
}

/// Number of leading characters of `s` that are not whitespace.
pub open spec fn word_len(s: Seq<char>) -> nat
    decreases s.len(),
{
    if s.len() == 0 || is_unicode_ws(s[0]) {
        0
    } else {
        1 + word_len(s.drop_first())
    }
}

pub proof fn lemma_word_len_bound(s: Seq<char>)
    ensures
        word_len(s) <= s.len(),
    decreases s.len(),
{
    if s.len() > 0 && !is_unicode_ws(s[0]) {
        lemma_word_len_bound(s.drop_first());
    }
}

/// The maximal runs of non-whitespace characters of `s`, in order.
pub open spec fn words(s: Seq<char>) -> Seq<Seq<char>>
    decreases s.len(),
{
    if s.len() == 0 {
        Seq::empty()
    } else if is_unicode_ws(s[0]) {
        words(s.drop_first())
    } else {
        let k = word_len(s);
        proof {
            lemma_word_len_bound(s);
        }
        seq![s.take(k as int)] + words(s.skip(k as int))
    }
}

/// Verdict on one pair of lines: `WA` when their words differ, `PE` (unless allowed)
/// when the lines differ otherwise, none when they agree.
pub open spec fn utf8_line_verdict(allow_pe: bool, sl: Seq<char>, ul: Seq<char>) -> Option<Comparison> {
    if words(sl) != words(ul) {
        Some(Comparison::WA)
    } else if !allow_pe && sl != ul {
        Some(Comparison::PE)
    } else {
        None
    }
}

pub open spec fn utf8_line_verdict_fn(allow_pe: bool) -> spec_fn(Seq<char>, Seq<char>) -> Option<Comparison> {
    |sl: Seq<char>, ul: Seq<char>| utf8_line_verdict(allow_pe, sl, ul)
}

/// What `compare_utf8` answers for the reference text `std` and the contestant's `user`.
pub open spec fn utf8_verdict(allow_pe: bool, std: Seq<char>, user: Seq<char>) -> Comparison {
    compare_lines(lines(std, '\n', '\r'), lines(user, '\n', '\r'), utf8_line_verdict_fn(allow_pe))
}

proof fn lemma_word_len_unique(s: Seq<char>, k: int)
    requires
        0 <= k <= s.len(),
        forall|i: int| 0 <= i < k ==> !is_unicode_ws(s[i]),
        k < s.len() ==> is_unicode_ws(s[k]),
    ensures
        word_len(s) == k,
    decreases s.len(),
{
    if s.len() > 0 && k > 0 {
        assert forall|i: int| 0 <= i < k - 1 implies !is_unicode_ws(s.drop_first()[i]) by {
            assert(s.drop_first()[i] == s[i + 1]);
        }
        lemma_word_len_unique(s.drop_first(), k - 1);
    }
}

pub proof fn lemma_cons_eq<A>(x: A, xs: Seq<A>, y: A, ys: Seq<A>)
    ensures
        (seq![x] + xs == seq![y] + ys) == (x == y && xs == ys),
{
    if seq![x] + xs == seq![y] + ys {
        assert((seq![x] + xs)[0] == x);
        assert((seq![y] + ys)[0] == y);
        assert((seq![x] + xs).drop_first() =~= xs);
        assert((seq![y] + ys).drop_first() =~= ys);
    }
    if x == y && xs == ys {
        assert(seq![x] + xs =~= seq![y] + ys);
    }
}

/// The first word of `s[p..end]`: `None` when it has none, else its bounds.
pub fn next_word(s: &[char], p: usize, end: usize) -> (r: Option<(usize, usize)>)
    requires
        p <= end <= s@.len(),
    ensures
        r is None ==> words(s@.subrange(p as int, end as int)) == Seq::<Seq<char>>::empty(),
        r matches Some(w) ==> p <= w.0 < w.1 <= end && words(s@.subrange(p as int, end as int)) == seq![
            s@.subrange(w.0 as int, w.1 as int),
        ] + words(s@.subrange(w.1 as int, end as int)),
{
    let mut a = p;
    while a < end && is_whitespace(s[a])
        invariant
            p <= a <= end <= s@.len(),
            words(s@.subrange(p as int, end as int)) == words(s@.subrange(a as int, end as int)),
        decreases end - a,
    {
        proof {
            assert(s@.subrange(a + 1, end as int) =~= s@.subrange(a as int, end as int).drop_first());
        }
        a = a + 1;
    }
    if a == end {
        return None;
    }
    let mut w = a;
    while w < end && !is_whitespace(s[w])
        invariant
            a <= w <= end <= s@.len(),
            forall|m: int| a <= m < w ==> !is_unicode_ws(#[trigger] s@[m]),
        decreases end - w,
    {
        w = w + 1;
    }
    proof {
        let x = s@.subrange(a as int, end as int);
        assert forall|i: int| 0 <= i < w - a implies !is_unicode_ws(x[i]) by {
            assert(x[i] == s@[a + i]);
        }
        lemma_word_len_unique(x, w - a);
        assert(x.take(w - a) =~= s@.subrange(a as int, w as int));
        assert(x.skip(w - a) =~= s@.subrange(w as int, end as int));
    }
    Some((a, w))
}

/// Whether `t[ta..tb]` and `u[ua..ub]` have the same words.
pub fn words_equal(t: &[char], ta: usize, tb: usize, u: &[char], ua: usize, ub: usize) -> (r: bool)
    requires
        ta <= tb <= t@.len(),
        ua <= ub <= u@.len(),
    ensures
        r == (words(t@.subrange(ta as int, tb as int)) == words(u@.subrange(ua as int, ub as int))),
{
    let mut p = ta;
    let mut q = ua;
    loop
        invariant
            ta <= p <= tb <= t@.len(),
            ua <= q <= ub <= u@.len(),
            (words(t@.subrange(ta as int, tb as int)) == words(u@.subrange(ua as int, ub as int))) == (
            words(t@.subrange(p as int, tb as int)) == words(u@.subrange(q as int, ub as int))),
        decreases tb - p,
    {
        let wt = next_word(t, p, tb);
        let wu = next_word(u, q, ub);
        match (wt, wu) {
            (None, None) => {
                return true;
            },
            (None, Some(_)) => {
                proof {
                    assert(words(u@.subrange(q as int, ub as int)).len() > 0);
                }
                return false;
            },
            (Some(_), None) => {
                proof {
                    assert(words(t@.subrange(p as int, tb as int)).len() > 0);
                }
                return false;
            },
            (Some((a, w)), Some((b, x))) => {
                let same = chars_range_eq(t, a, w, u, b, x);
                proof {
                    lemma_cons_eq(
                        t@.subrange(a as int, w as int),
                        words(t@.subrange(w as int, tb as int)),
                        u@.subrange(b as int, x as int),
                        words(u@.subrange(x as int, ub as int)),
                    );
                }
                if !same {
                    return false;
                }
                p = w;
                q = x;
            },
        }
    }
}

/// Verdict on the lines `s[s0..s1]` and `u[u0..u1]`.
fn utf8_line_check(allow_pe: bool, s: &[char], s0: usize, s1: usize, u: &[char], u0: usize, u1: usize) -> (r: Option<Comparison>)
    requires
        s0 <= s1 <= s@.len(),
        u0 <= u1 <= u@.len(),
    ensures
        r == utf8_line_verdict(allow_pe, s@.subrange(s0 as int, s1 as int), u@.subrange(u0 as int, u1 as int)),
{
    if !words_equal(s, s0, s1, u, u0, u1) {
        return Some(Comparison::WA);
    }
    if !allow_pe && !chars_range_eq(s, s0, s1, u, u0, u1) {
        return Some(Comparison::PE);
    }
    None
}

/// Compares the reference output `std` with the contestant's output `user`, line by
/// line. Lines end at `\n` (a `\r` before it is dropped). On each line pair the
/// whitespace-separated words must be the same (else `WA`); unless `allow_pe`, the
/// lines must then be identical (else `PE`). Running out of lines on one side only
/// is `WA`.
pub fn compare_utf8(allow_pe: bool, std: &str, user: &str) -> (r: Comparison)
    ensures
        r == utf8_verdict(allow_pe, std@, user@),
{
    let sv = chars_of(std);
    let uv = chars_of(user);
    compare_utf8_chars(allow_pe, sv.as_slice(), uv.as_slice())
}

/// `compare_utf8` on texts given as characters.
pub fn compare_utf8_chars(allow_pe: bool, std: &[char], user: &[char]) -> (r: Comparison)
    ensures
        r == utf8_verdict(allow_pe, std@, user@),
{
    let ghost v = utf8_line_verdict_fn(allow_pe);
    let mut i: usize = 0;
    let mut j: usize = 0;
    proof {
        assert(std@.subrange(0, std@.len() as int) =~= std@);
        assert(user@.subrange(0, user@.len() as int) =~= user@);
    }
    loop
        invariant
            i <= std@.len(),
            j <= user@.len(),
            v == utf8_line_verdict_fn(allow_pe),
            utf8_verdict(allow_pe, std@, user@) == compare_lines(
                lines(std@.subrange(i as int, std@.len() as int), '\n', '\r'),
                lines(user@.subrange(j as int, user@.len() as int), '\n', '\r'),
                v,
            ),
        decreases std@.len() - i,
    {
        let ghost ls = lines(std@.subrange(i as int, std@.len() as int), '\n', '\r');
        let ghost lu = lines(user@.subrange(j as int, user@.len() as int), '\n', '\r');
        let (s0, s1, sn) = match next_line_chars(std, i) {
            Some(t) => t,
            None => {
                proof {
                    assert(std@.subrange(i as int, std@.len() as int).len() == 0);
                }
                return match next_line_chars(user, j) {
                    None => {
                        proof {
                            assert(user@.subrange(j as int, user@.len() as int).len() == 0);
                        }
                        Comparison::AC
                    },
                    Some(_) => Comparison::WA,
                };
            },
        };
        let (u0, u1, un) = match next_line_chars(user, j) {
            Some(t) => t,
            None => {
                proof {
                    assert(user@.subrange(j as int, user@.len() as int).len() == 0);
                }
                return Comparison::WA;
            },
        };
        let c = utf8_line_check(allow_pe, std, s0, s1, user, u0, u1);
        proof {
            assert(ls[0] == std@.subrange(s0 as int, s1 as int));
            assert(lu[0] == user@.subrange(u0 as int, u1 as int));
            assert(ls.drop_first() =~= lines(std@.subrange(sn as int, std@.len() as int), '\n', '\r'));
            assert(lu.drop_first() =~= lines(user@.subrange(un as int, user@.len() as int), '\n', '\r'));
        }
        match c {
            Some(res) => {
                return res;
            },
            None => {},
        }
        i = sn;
        j = un;
    }
}

} // verus!
