//! What the listener decides about a problem's test data.
use crate::compare::utf8::{is_unicode_ws, is_whitespace};
use crate::server::comparer::{trim_end_range, trim_end_ws};
use crate::text::chars_of;
use vstd::prelude::*;

verus! {

/// The test data of a problem must be fetched when no local copy is stamped, or
/// when the local stamp is older than the remote one.
pub fn needs_sync(local_timestamp: Option<u64>, remote_timestamp: u64) -> (r: bool)
    ensures
        r == match local_timestamp {
            None => true,
            Some(l) => l < remote_timestamp,
        },
{
    match local_timestamp {
        None => true,
        Some(l) => l < remote_timestamp,
    }
}

/// `s` without leading Unicode whitespace.
pub open spec fn trim_start_ws(s: Seq<char>) -> Seq<char>
    decreases s.len(),
{
    if s.len() > 0 && is_unicode_ws(s[0]) {
        trim_start_ws(s.drop_first())
    } else {
        s
    }
}

pub open spec fn is_digit(c: char) -> bool {
    '0' <= c <= '9'
}

/// The number written by the decimal digits `d`.
pub open spec fn digits_value(d: Seq<char>) -> nat
    decreases d.len(),
{
    if d.len() == 0 {
        0
    } else {
        digits_value(d.drop_last()) * 10 + ((d.last() as nat) - ('0' as nat)) as nat
    }
}

/// The value of one or more ASCII digits, when it fits in a `u64`.
pub open spec fn digits_u64(d: Seq<char>) -> Option<u64> {
    if d.len() > 0 && (forall|i: int| 0 <= i < d.len() ==> is_digit(#[trigger] d[i])) && digits_value(d)
        <= u64::MAX {
        Some(digits_value(d) as u64)
    } else {
        None
    }
}

/// `u64::from_str`: an optional `+`, then one or more ASCII digits whose value fits.
pub open spec fn parse_u64(t: Seq<char>) -> Option<u64> {
    digits_u64(
        if t.len() > 0 && t[0] == '+' {
            t.drop_first()
        } else {
            t
        },
    )
}

/// The timestamp written in a stamp file: its text, trimmed of whitespace, as a
/// `u64`; none when that is not a number.
pub open spec fn timestamp_of(s: Seq<char>) -> Option<u64> {
    parse_u64(trim_end_ws(trim_start_ws(s)))
}

proof fn lemma_digits_value_prefix(d: Seq<char>, m: int)
    requires
        0 <= m <= d.len(),
        forall|i: int| 0 <= i < d.len() ==> is_digit(#[trigger] d[i]),
    ensures
        digits_value(d) >= digits_value(d.take(m)),
    decreases d.len(),
{
    if m < d.len() {
        assert(d.drop_last().take(m) =~= d.take(m));
        assert forall|i: int| 0 <= i < d.drop_last().len() implies is_digit(#[trigger] d.drop_last()[i]) by {
            assert(d.drop_last()[i] == d[i]);
        }
        lemma_digits_value_prefix(d.drop_last(), m);
    } else {
        assert(d.take(m) =~= d);
    }
}

/// Reads a stamp file's text as `timestamp_of` says.
pub fn parse_timestamp(s: &str) -> (r: Option<u64>)
    ensures
        r == timestamp_of(s@),
{
    let v = chars_of(s);
    let c = v.as_slice();
    let n = c.len();
    let mut a: usize = 0;
    proof {
        assert(c@.subrange(0, n as int) =~= c@);
    }
    while a < n && is_whitespace(c[a])
        invariant
            n == c@.len(),
            a <= n,
            trim_start_ws(s@) == trim_start_ws(c@.subrange(a as int, n as int)),
        decreases n - a,
    {
        proof {
            assert(c@.subrange(a + 1, n as int) =~= c@.subrange(a as int, n as int).drop_first());
        }
        a = a + 1;
    }
    let b = trim_end_range(c, a, n);
    let ghost t = c@.subrange(a as int, b as int);
    assert(t == trim_end_ws(trim_start_ws(s@)));
    let mut k = a;
    if k < b && c[k] == '+' {
        k = k + 1;
    }
    let ghost d = c@.subrange(k as int, b as int);
    proof {
        if a < b && c@[a as int] == '+' {
            assert(d =~= t.drop_first());
        } else {
            assert(d =~= t);
        }
    }
    if k == b {
        return None;
    }
    let mut acc: u64 = 0;
    let mut p = k;
    proof {
        assert(d.take(0) =~= Seq::<char>::empty());
    }
    while p < b
        invariant
            k <= p <= b <= n == c@.len(),
            d == c@.subrange(k as int, b as int),
            timestamp_of(s@) == digits_u64(d),
            acc == digits_value(d.take(p - k)),
            forall|i: int| 0 <= i < p - k ==> is_digit(#[trigger] d[i]),
        decreases b - p,
    {
        let ch = c[p];
        if !('0' <= ch && ch <= '9') {
            proof {
                assert(!is_digit(d[p - k]));
            }
            return None;
        }
        let digit = (ch as u32 - '0' as u32) as u64;
        proof {
            assert(d.take(p - k + 1).drop_last() =~= d.take(p - k));
            assert(d.take(p - k + 1).last() == ch);
        }
        match acc.checked_mul(10) {
            Some(m) => match m.checked_add(digit) {
                Some(x) => {
                    acc = x;
                },
                None => {
                    proof {
                        if forall|i: int| 0 <= i < d.len() ==> is_digit(#[trigger] d[i]) {
                            lemma_digits_value_prefix(d, p - k + 1);
                        }
                    }
                    return None;
                },
            },
            None => {
                proof {
                    if forall|i: int| 0 <= i < d.len() ==> is_digit(#[trigger] d[i]) {
                        lemma_digits_value_prefix(d, p - k + 1);
                    }
                }
                return None;
            },
        }
        p = p + 1;
    }
    proof {
        assert(d.take(p - k) =~= d);
    }
    Some(acc)
}

} // verus!
