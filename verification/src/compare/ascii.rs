//! Byte-oriented comparison: ASCII whitespace separates the fields of a line.
use super::lines::{bytes_range_eq, compare_lines, lines, next_line_bytes};
use super::Comparison;
use vstd::prelude::*;

verus! {

/// ASCII whitespace: space, tab, line feed, form feed, carriage return.
pub open spec fn is_ascii_ws(b: u8) -> bool {
    b == 32u8 || b == 9u8 || b == 10u8 || b == 12u8 || b == 13u8
}

pub open spec fn trim_start(s: Seq<u8>) -> Seq<u8>
    decreases s.len(),
{
    if s.len() > 0 && is_ascii_ws(s[0]) {
        trim_start(s.drop_first())
    } else {
        s
    }
}

pub open spec fn trim_end(s: Seq<u8>) -> Seq<u8>
    decreases s.len(),
{
    if s.len() > 0 && is_ascii_ws(s.last()) {
        trim_end(s.drop_last())
    } else {
        s
    }
}

/// `s` without ASCII whitespace at either end.
pub open spec fn trim_ascii(s: Seq<u8>) -> Seq<u8> {
    trim_end(trim_start(s))
}

/// Number of bytes before the first ASCII whitespace byte; the whole length when there is none.
pub open spec fn ws_len(s: Seq<u8>) -> nat
    decreases s.len(),
{
    if s.len() == 0 {
        0
    } else if is_ascii_ws(s[0]) {
        0
    } else {
        1 + ws_len(s.drop_first())
    }
}

/// The pieces of `s` between single ASCII whitespace bytes; two adjacent whitespace
/// bytes give an empty piece, and an empty text gives one empty piece.
pub open spec fn fields(s: Seq<u8>) -> Seq<Seq<u8>>
    decreases s.len(),
{
    let k = ws_len(s);
    if k < s.len() {
        seq![s.take(k as int)] + fields(s.skip(k + 1int))
    } else {
        seq![s]
    }
}

/// The reference fields are matched one by one with the contestant's; after them the
/// contestant may have at most an empty piece.
pub open spec fn fields_match(sp: Seq<Seq<u8>>, up: Seq<Seq<u8>>) -> bool
    decreases sp.len(),
{
    if sp.len() == 0 {
        up.len() == 0 || up[0].len() == 0
    } else if up.len() == 0 {
        false
    } else {
        sp[0] == up[0] && fields_match(sp.drop_first(), up.drop_first())
    }
}

/// Verdict on one pair of lines: `WA` when the fields of the trimmed lines do not
/// match, `PE` (unless allowed) when the lines differ otherwise, none when they agree.
pub open spec fn ascii_line_verdict(allow_pe: bool, sl: Seq<u8>, ul: Seq<u8>) -> Option<Comparison> {
    if !fields_match(fields(trim_ascii(sl)), fields(trim_ascii(ul))) {
        Some(Comparison::WA)
    } else if !allow_pe && sl != ul {
        Some(Comparison::PE)
    } else {
        None
    }
}

pub open spec fn ascii_line_verdict_fn(allow_pe: bool) -> spec_fn(Seq<u8>, Seq<u8>) -> Option<Comparison> {
    |sl: Seq<u8>, ul: Seq<u8>| ascii_line_verdict(allow_pe, sl, ul)
}

/// What `compare_ascii` answers for the reference text `std` and the contestant's `user`.
pub open spec fn ascii_verdict(allow_pe: bool, std: Seq<u8>, user: Seq<u8>) -> Comparison {
    compare_lines(lines(std, 10u8, 13u8), lines(user, 10u8, 13u8), ascii_line_verdict_fn(allow_pe))
}

proof fn lemma_ws_len_unique(s: Seq<u8>, k: int)
    requires
        0 <= k <= s.len(),
        forall|i: int| 0 <= i < k ==> !is_ascii_ws(s[i]),
        k < s.len() ==> is_ascii_ws(s[k]),
    ensures
        ws_len(s) == k,
    decreases s.len(),
{
    if s.len() > 0 && k > 0 {
        assert forall|i: int| 0 <= i < k - 1 implies !is_ascii_ws(s.drop_first()[i]) by {
            assert(s.drop_first()[i] == s[i + 1]);
        }
        lemma_ws_len_unique(s.drop_first(), k - 1);
    }
}

fn is_ws(b: u8) -> (r: bool)
    ensures
        r == is_ascii_ws(b),
{
    b == 32u8 || b == 9u8 || b == 10u8 || b == 12u8 || b == 13u8
}

/// Finds the first ASCII whitespace byte in `s[from..to]`, or `to`.
fn find_ws(s: &[u8], from: usize, to: usize) -> (e: usize)
    requires
        from <= to <= s@.len(),
    ensures
        from <= e <= to,
        ws_len(s@.subrange(from as int, to as int)) == e - from,
        e < to ==> is_ascii_ws(s@[e as int]),
{
    let mut e = from;
    while e < to && !is_ws(s[e])
        invariant
            from <= e <= to <= s@.len(),
            forall|m: int| from <= m < e ==> !is_ascii_ws(#[trigger] s@[m]),
        decreases to - e,
    {
        e = e + 1;
    }
    proof {
        let x = s@.subrange(from as int, to as int);
        assert forall|i: int| 0 <= i < e - from implies !is_ascii_ws(x[i]) by {
            assert(x[i] == s@[from + i]);
        }
        lemma_ws_len_unique(x, e - from);
    }
    e
}

/// `s[r.0..r.1]` is `s[a..b]` trimmed of ASCII whitespace.
fn trim_range(s: &[u8], a: usize, b: usize) -> (r: (usize, usize))
    requires
        a <= b <= s@.len(),
    ensures
        a <= r.0 <= r.1 <= b,
        s@.subrange(r.0 as int, r.1 as int) == trim_ascii(s@.subrange(a as int, b as int)),
{
    let mut x = a;
    while x < b && is_ws(s[x])
        invariant
            a <= x <= b <= s@.len(),
            trim_start(s@.subrange(a as int, b as int)) == trim_start(s@.subrange(x as int, b as int)),
        decreases b - x,
    {
        proof {
            assert(s@.subrange(x + 1, b as int) =~= s@.subrange(x as int, b as int).drop_first());
        }
        x = x + 1;
    }
    let mut y = b;
    while x < y && is_ws(s[y - 1])
        invariant
            a <= x <= y <= b <= s@.len(),
            trim_start(s@.subrange(a as int, b as int)) == s@.subrange(x as int, b as int),
            trim_end(s@.subrange(x as int, b as int)) == trim_end(s@.subrange(x as int, y as int)),
        decreases y - x,
    {
        proof {
            assert(s@.subrange(x as int, y - 1) =~= s@.subrange(x as int, y as int).drop_last());
        }
        y = y - 1;
    }
    (x, y)
}

/// Unfolds `fields` on `s[p..tb]` whose first whitespace is at `k`.
proof fn lemma_fields_step(s: Seq<u8>, p: int, tb: int, k: int)
    requires
        0 <= p <= k <= tb <= s.len(),
        ws_len(s.subrange(p, tb)) == k - p,
    ensures
        fields(s.subrange(p, tb)) == seq![s.subrange(p, k)] + if k < tb {
            fields(s.subrange(k + 1, tb))
        } else {
            Seq::<Seq<u8>>::empty()
        },
{
    let x = s.subrange(p, tb);
    assert(x.take(k - p) =~= s.subrange(p, k));
    if k < tb {
        assert(x.skip(k - p + 1) =~= s.subrange(k + 1, tb));
    } else {
        assert(x =~= s.subrange(p, k));
        assert(seq![x] =~= seq![x] + Seq::<Seq<u8>>::empty());
    }
}

/// Whether the fields of `t[ta..tb]` match those of `u[ua..ub]`.
fn fields_match_ranges(t: &[u8], ta: usize, tb: usize, u: &[u8], ua: usize, ub: usize) -> (r: bool)
    requires
        ta <= tb <= t@.len(),
        ua <= ub <= u@.len(),
    ensures
        r == fields_match(fields(t@.subrange(ta as int, tb as int)), fields(u@.subrange(ua as int, ub as int))),
{
    let ghost goal = fields_match(fields(t@.subrange(ta as int, tb as int)), fields(u@.subrange(ua as int, ub as int)));
    let mut p = ta;
    let mut sm = true;
    let mut q = ua;
    let mut um = true;
    while sm
        invariant
            ta <= p <= tb <= t@.len(),
            ua <= q <= ub <= u@.len(),
            goal == fields_match(fields(t@.subrange(ta as int, tb as int)), fields(u@.subrange(ua as int, ub as int))),
            goal == fields_match(
                if sm { fields(t@.subrange(p as int, tb as int)) } else { Seq::empty() },
                if um { fields(u@.subrange(q as int, ub as int)) } else { Seq::empty() },
            ),
        decreases tb - p + if sm { 1int } else { 0int },
    {
        let ks = find_ws(t, p, tb);
        proof {
            lemma_fields_step(t@, p as int, tb as int, ks as int);
        }
        if !um {
            return false;
        }
        let ku = find_ws(u, q, ub);
        proof {
            lemma_fields_step(u@, q as int, ub as int, ku as int);
        }
        let same = bytes_range_eq(t, p, ks, u, q, ku);
        proof {
            let sp = fields(t@.subrange(p as int, tb as int));
            let up = fields(u@.subrange(q as int, ub as int));
            assert(sp[0] == t@.subrange(p as int, ks as int));
            assert(up[0] == u@.subrange(q as int, ku as int));
            assert(sp.drop_first() =~= if ks < tb { fields(t@.subrange(ks + 1, tb as int)) } else { Seq::empty() });
            assert(up.drop_first() =~= if ku < ub { fields(u@.subrange(ku + 1, ub as int)) } else { Seq::empty() });
        }
        if !same {
            return false;
        }
        if ks < tb {
            p = ks + 1;
        } else {
            sm = false;
        }
        if ku < ub {
            q = ku + 1;
        } else {
            um = false;
        }
    }
    if um {
        let ku = find_ws(u, q, ub);
        proof {
            lemma_fields_step(u@, q as int, ub as int, ku as int);
        }
        return ku == q;
    }
    true
}

/// Verdict on the lines `s[s0..s1]` and `u[u0..u1]`.
fn ascii_line_check(allow_pe: bool, s: &[u8], s0: usize, s1: usize, u: &[u8], u0: usize, u1: usize) -> (r: Option<Comparison>)
    requires
        s0 <= s1 <= s@.len(),
        u0 <= u1 <= u@.len(),
    ensures
        r == ascii_line_verdict(allow_pe, s@.subrange(s0 as int, s1 as int), u@.subrange(u0 as int, u1 as int)),
{
    let (a0, a1) = trim_range(s, s0, s1);
    let (b0, b1) = trim_range(u, u0, u1);
    if !fields_match_ranges(s, a0, a1, u, b0, b1) {
        return Some(Comparison::WA);
    }
    if !allow_pe && !bytes_range_eq(s, s0, s1, u, u0, u1) {
        return Some(Comparison::PE);
    }
    None
}

/// Compares the reference output `std` with the contestant's output `user`, line by
/// line. Lines end at `\n` (a `\r` before it is dropped). On each line pair the
/// fields of the trimmed lines, split at every ASCII whitespace byte, must match
/// (else `WA`); unless `allow_pe`, the lines must then be identical (else `PE`).
/// Running out of lines on one side only is `WA`.
pub fn compare_ascii(allow_pe: bool, std: &[u8], user: &[u8]) -> (r: Comparison)
    ensures
        r == ascii_verdict(allow_pe, std@, user@),
{
    let ghost v = ascii_line_verdict_fn(allow_pe);
    let mut i: usize = 0;
    let mut j: usize = 0;
    proof {
        assert(std@.subrange(0, std@.len() as int) =~= std@);
        assert(user@.subrange(0, user@.len() as int) =~= user@);
    }
    loop
        invariant
            i <= std@.len(),
            j <= user@.len(),
            v == ascii_line_verdict_fn(allow_pe),
            ascii_verdict(allow_pe, std@, user@) == compare_lines(
                lines(std@.subrange(i as int, std@.len() as int), 10u8, 13u8),
                lines(user@.subrange(j as int, user@.len() as int), 10u8, 13u8),
                v,
            ),
        decreases std@.len() - i,
    {
        let ghost ls = lines(std@.subrange(i as int, std@.len() as int), 10u8, 13u8);
        let ghost lu = lines(user@.subrange(j as int, user@.len() as int), 10u8, 13u8);
        let (s0, s1, sn) = match next_line_bytes(std, i) {
            Some(t) => t,
            None => {
                proof {
                    assert(std@.subrange(i as int, std@.len() as int).len() == 0);
                }
                return match next_line_bytes(user, j) {
                    None => {
                        proof {
                            assert(user@.subrange(j as int, user@.len() as int).len() == 0);
                        }
                        Comparison::AC
                    },
                    Some(_) => Comparison::WA,
                };
            },
        };
        let (u0, u1, un) = match next_line_bytes(user, j) {
            Some(t) => t,
            None => {
                proof {
                    assert(user@.subrange(j as int, user@.len() as int).len() == 0);
                }
                return Comparison::WA;
            },
        };
        let c = ascii_line_check(allow_pe, std, s0, s1, user, u0, u1);
        proof {
            assert(ls[0] == std@.subrange(s0 as int, s1 as int));
            assert(lu[0] == user@.subrange(u0 as int, u1 as int));
            assert(ls.drop_first() =~= lines(std@.subrange(sn as int, std@.len() as int), 10u8, 13u8));
            assert(lu.drop_first() =~= lines(user@.subrange(un as int, user@.len() as int), 10u8, 13u8));
        }
        match c {
            Some(res) => {
                return res;
            },
            None => {},
        }
        i = sn;
        j = un;
    }
}

} // verus!
