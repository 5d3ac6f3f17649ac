//! Line structure of a text, as a line reader sees it, and the line-by-line
//! comparison loop shared by the comparers.
use super::Comparison;
use vstd::prelude::*;

verus! {

/// Number of elements before the first `nl` in `s`; the whole length when there is none.
pub open spec fn line_len<T>(s: Seq<T>, nl: T) -> nat
    decreases s.len(),
{
    if s.len() == 0 {
        0
    } else if s[0] == nl {
        0
    } else {
        1 + line_len(s.drop_first(), nl)
    }
}

/// The first line of `s` without its terminator; when the line ends with `nl`,
/// a `cr` right before it is dropped too.
pub open spec fn first_line<T>(s: Seq<T>, nl: T, cr: T) -> Seq<T> {
    let k = line_len(s, nl);
    if k < s.len() && k > 0 && s[k - 1] == cr {
        s.take(k - 1)
    } else {
        s.take(k as int)
    }
}

/// What follows the first line and its terminator.
pub open spec fn after_first_line<T>(s: Seq<T>, nl: T) -> Seq<T> {
    let k = line_len(s, nl);
    if k < s.len() {
        s.skip(k + 1int)
    } else {
        Seq::empty()
    }
}

/// The lines of `s`: an empty text has none; a final line without terminator counts.
pub open spec fn lines<T>(s: Seq<T>, nl: T, cr: T) -> Seq<Seq<T>>
    decreases s.len(),
{
    if s.len() == 0 {
        Seq::empty()
    } else {
        seq![first_line(s, nl, cr)] + lines(after_first_line(s, nl), nl, cr)
    }
}

/// Line-by-line comparison: the first line pair on which `verdict` decides gives the
/// result; a text that runs out of lines before the other gives `WA`; otherwise `AC`.
pub open spec fn compare_lines<T>(
    ls: Seq<Seq<T>>,
    lu: Seq<Seq<T>>,
    verdict: spec_fn(Seq<T>, Seq<T>) -> Option<Comparison>,
) -> Comparison
    decreases ls.len(),
{
    if ls.len() == 0 {
        if lu.len() == 0 {
            Comparison::AC
        } else {
            Comparison::WA
        }
    } else if lu.len() == 0 {
        Comparison::WA
    } else {
        match verdict(ls[0], lu[0]) {
            Some(v) => v,
            None => compare_lines(ls.drop_first(), lu.drop_first(), verdict),
        }
    }
}

/// The text made of the lines `ls`, each followed by `term`.
pub open spec fn join_lines<T>(ls: Seq<Seq<T>>, term: Seq<T>) -> Seq<T>
    decreases ls.len(),
{
    if ls.len() == 0 {
        Seq::empty()
    } else {
        ls[0] + term + join_lines(ls.drop_first(), term)
    }
}

/// Lines that a terminator can follow without changing them: none holds `nl`, and
/// none ends with `cr`.
pub open spec fn plain_lines<T>(ls: Seq<Seq<T>>, nl: T, cr: T) -> bool {
    forall|i: int|
        0 <= i < ls.len() ==> !(#[trigger] ls[i]).contains(nl) && (ls[i].len() == 0 || ls[i].last() != cr)
}

/// Lines written one after the other, each ended by `nl` or each by `cr nl`, are
/// read back as the same lines.
pub proof fn law_lines_of_joined<T>(ls: Seq<Seq<T>>, nl: T, cr: T)
    requires
        nl != cr,
        plain_lines(ls, nl, cr),
    ensures
        lines(join_lines(ls, seq![nl]), nl, cr) == ls,
        lines(join_lines(ls, seq![cr, nl]), nl, cr) == ls,
    decreases ls.len(),
{
    if ls.len() > 0 {
        let l = ls[0];
        let rest = ls.drop_first();
        assert(plain_lines(rest, nl, cr)) by {
            assert forall|i: int| 0 <= i < rest.len() implies !(#[trigger] rest[i]).contains(nl) && (rest[i].len() == 0
                || rest[i].last() != cr) by {
                assert(rest[i] == ls[i + 1]);
            }
        }
        law_lines_of_joined(rest, nl, cr);
        assert(!l.contains(nl) && (l.len() == 0 || l.last() != cr));
        let s1 = join_lines(ls, seq![nl]);
        let s2 = join_lines(ls, seq![cr, nl]);
        assert(s1 == l + seq![nl] + join_lines(rest, seq![nl]));
        assert(s2 == l + seq![cr, nl] + join_lines(rest, seq![cr, nl]));
        assert forall|m: int| 0 <= m < l.len() implies s1[m] != nl by {
            assert(s1[m] == l[m]);
            if s1[m] == nl {
                assert(l.contains(nl));
            }
        }
        lemma_line_len_unique(s1, nl, l.len() as int);
        assert(first_line(s1, nl, cr) =~= l);
        assert(after_first_line(s1, nl) =~= join_lines(rest, seq![nl]));
        assert(lines(s1, nl, cr) =~= ls);
        assert forall|m: int| 0 <= m < l.len() + 1 implies s2[m] != nl by {
            if m < l.len() {
                assert(s2[m] == l[m]);
                if s2[m] == nl {
                    assert(l.contains(nl));
                }
            } else {
                assert(s2[m] == cr);
            }
        }
        lemma_line_len_unique(s2, nl, l.len() + 1int);
        assert(first_line(s2, nl, cr) =~= l);
        assert(after_first_line(s2, nl) =~= join_lines(rest, seq![cr, nl]));
        assert(lines(s2, nl, cr) =~= ls);
    } else {
        assert(join_lines(ls, seq![nl]).len() == 0);
        assert(join_lines(ls, seq![cr, nl]).len() == 0);
    }
}

/// Without the terminator of its last line, a text of lines ended by `nl` still
/// reads as the same lines, when the last line is not empty.
pub proof fn law_lines_without_final_break<T>(ls: Seq<Seq<T>>, nl: T, cr: T)
    requires
        nl != cr,
        plain_lines(ls, nl, cr),
        ls.len() > 0,
        ls.last().len() > 0,
    ensures
        lines(join_lines(ls, seq![nl]).drop_last(), nl, cr) == ls,
    decreases ls.len(),
{
    let l = ls[0];
    let rest = ls.drop_first();
    assert(!l.contains(nl) && (l.len() == 0 || l.last() != cr));
    let s = join_lines(ls, seq![nl]).drop_last();
    assert(join_lines(ls, seq![nl]) == l + seq![nl] + join_lines(rest, seq![nl]));
    if rest.len() == 0 {
        assert(join_lines(rest, seq![nl]) =~= Seq::<T>::empty());
        assert(s =~= l);
        assert forall|m: int| 0 <= m < l.len() implies s[m] != nl by {
            if s[m] == nl {
                assert(l.contains(nl));
            }
        }
        lemma_line_len_unique(s, nl, l.len() as int);
        assert(first_line(s, nl, cr) =~= l);
        assert(after_first_line(s, nl) =~= Seq::<T>::empty());
        assert(lines(Seq::<T>::empty(), nl, cr) =~= Seq::<Seq<T>>::empty());
        assert(lines(s, nl, cr) =~= ls);
    } else {
        assert(plain_lines(rest, nl, cr)) by {
            assert forall|i: int| 0 <= i < rest.len() implies !(#[trigger] rest[i]).contains(nl) && (rest[i].len() == 0
                || rest[i].last() != cr) by {
                assert(rest[i] == ls[i + 1]);
            }
        }
        assert(rest.last() == ls.last());
        law_lines_without_final_break(rest, nl, cr);
        let tail = join_lines(rest, seq![nl]);
        assert(tail.len() > 0);
        assert(s =~= l + seq![nl] + tail.drop_last());
        assert forall|m: int| 0 <= m < l.len() implies s[m] != nl by {
            assert(s[m] == l[m]);
            if s[m] == nl {
                assert(l.contains(nl));
            }
        }
        lemma_line_len_unique(s, nl, l.len() as int);
        assert(first_line(s, nl, cr) =~= l);
        assert(after_first_line(s, nl) =~= tail.drop_last());
        assert(lines(s, nl, cr) =~= ls);
    }
}

pub proof fn lemma_line_len_unique<T>(s: Seq<T>, nl: T, k: int)
    requires
        0 <= k <= s.len(),
        forall|i: int| 0 <= i < k ==> s[i] != nl,
        k < s.len() ==> s[k] == nl,
    ensures
        line_len(s, nl) == k,
    decreases s.len(),
{
    if s.len() > 0 && k > 0 {
        assert forall|i: int| 0 <= i < k - 1 implies s.drop_first()[i] != nl by {
            assert(s.drop_first()[i] == s[i + 1]);
        }
        lemma_line_len_unique(s.drop_first(), nl, k - 1);
    }
}

/// Unfolds `lines` on the suffix of `s` that starts at `i`, whose first line ends at `e`.
pub proof fn lemma_lines_step<T>(s: Seq<T>, nl: T, cr: T, i: int, e: int)
    requires
        0 <= i <= e <= s.len(),
        i < s.len(),
        forall|m: int| i <= m < e ==> s[m] != nl,
        e < s.len() ==> s[e] == nl,
    ensures
        line_len(s.subrange(i, s.len() as int), nl) == e - i,
        lines(s.subrange(i, s.len() as int), nl, cr) == seq![
            first_line(s.subrange(i, s.len() as int), nl, cr),
        ] + lines(s.subrange(if e < s.len() { e + 1 } else { s.len() as int }, s.len() as int), nl, cr),
        first_line(s.subrange(i, s.len() as int), nl, cr) == if e < s.len() && e > i && s[e - 1] == cr {
            s.subrange(i, e - 1)
        } else {
            s.subrange(i, e)
        },
{
    let r = s.subrange(i, s.len() as int);
    assert forall|m: int| 0 <= m < e - i implies r[m] != nl by {
        assert(r[m] == s[i + m]);
    }
    lemma_line_len_unique(r, nl, e - i);
    let next = if e < s.len() { e + 1 } else { s.len() as int };
    assert(after_first_line(r, nl) =~= s.subrange(next, s.len() as int));
    assert(r.take(e - i) =~= s.subrange(i, e));
    if e > i {
        assert(r.take(e - i - 1) =~= s.subrange(i, e - 1));
    }
}

/// Finds the first `b` in `s[from..to]`, or `to`.
pub fn find_byte(s: &[u8], from: usize, to: usize, b: u8) -> (e: usize)
    requires
        from <= to <= s@.len(),
    ensures
        from <= e <= to,
        forall|m: int| from <= m < e ==> s@[m] != b,
        e < to ==> s@[e as int] == b,
{
    let mut e = from;
    while e < to && s[e] != b
        invariant
            from <= e <= to <= s@.len(),
            forall|m: int| from <= m < e ==> s@[m] != b,
        decreases to - e,
    {
        e = e + 1;
    }
    e
}

/// Finds the first `c` in `s[from..to]`, or `to`.
pub fn find_char(s: &[char], from: usize, to: usize, c: char) -> (e: usize)
    requires
        from <= to <= s@.len(),
    ensures
        from <= e <= to,
        forall|m: int| from <= m < e ==> s@[m] != c,
        e < to ==> s@[e as int] == c,
{
    let mut e = from;
    while e < to && s[e] != c
        invariant
            from <= e <= to <= s@.len(),
            forall|m: int| from <= m < e ==> s@[m] != c,
        decreases to - e,
    {
        e = e + 1;
    }
    e
}

/// Reads the line of `s` that starts at `i`, as a line reader does: none at the end
/// of the text; else the line's body `s[start..end]` (its `\n` removed, and a `\r`
/// right before that `\n`) and `next`, one past the first `\n` at or after `i`, or
/// the end of the text when there is none.
pub fn next_line_bytes(s: &[u8], i: usize) -> (r: Option<(usize, usize, usize)>)
    requires
        i <= s@.len(),
    ensures
        r is None <==> i == s@.len(),
        r matches Some(t) ==> {
            let rest = s@.subrange(i as int, s@.len() as int);
            let k = line_len(rest, 10u8);
            &&& i == t.0 <= t.1 <= s@.len()
            &&& s@.subrange(t.0 as int, t.1 as int) == first_line(rest, 10u8, 13u8)
            &&& t.2 == if i + k < s@.len() { i + k + 1 } else { s@.len() as int }
            &&& forall|m: int| i <= m < i + k ==> s@[m] != 10u8
            &&& i + k < s@.len() ==> s@[i + k] == 10u8
            &&& lines(rest, 10u8, 13u8) == seq![s@.subrange(t.0 as int, t.1 as int)] + lines(
                s@.subrange(t.2 as int, s@.len() as int),
                10u8,
                13u8,
            )
        },
{
    if i == s.len() {
        return None;
    }
    let e = find_byte(s, i, s.len(), 10u8);
    proof {
        lemma_lines_step(s@, 10u8, 13u8, i as int, e as int);
    }
    if e < s.len() {
        if e > i && s[e - 1] == 13u8 {
            Some((i, e - 1, e + 1))
        } else {
            Some((i, e, e + 1))
        }
    } else {
        Some((i, e, e))
    }
}

/// Same as `next_line_bytes`, on characters.
pub fn next_line_chars(s: &[char], i: usize) -> (r: Option<(usize, usize, usize)>)
    requires
        i <= s@.len(),
    ensures
        r is None <==> i == s@.len(),
        r matches Some(t) ==> {
            let rest = s@.subrange(i as int, s@.len() as int);
            let k = line_len(rest, '\n');
            &&& i == t.0 <= t.1 <= s@.len()
            &&& s@.subrange(t.0 as int, t.1 as int) == first_line(rest, '\n', '\r')
            &&& t.2 == if i + k < s@.len() { i + k + 1 } else { s@.len() as int }
            &&& forall|m: int| i <= m < i + k ==> s@[m] != '\n'
            &&& i + k < s@.len() ==> s@[i + k] == '\n'
            &&& lines(rest, '\n', '\r') == seq![s@.subrange(t.0 as int, t.1 as int)] + lines(
                s@.subrange(t.2 as int, s@.len() as int),
                '\n',
                '\r',
            )
        },
{
    if i == s.len() {
        return None;
    }
    let e = find_char(s, i, s.len(), '\n');
    proof {
        lemma_lines_step(s@, '\n', '\r', i as int, e as int);
    }
    if e < s.len() {
        if e > i && s[e - 1] == '\r' {
            Some((i, e - 1, e + 1))
        } else {
            Some((i, e, e + 1))
        }
    } else {
        Some((i, e, e))
    }
}

/// Whether `a[a0..a1]` and `b[b0..b1]` hold the same bytes.
pub fn bytes_range_eq(a: &[u8], a0: usize, a1: usize, b: &[u8], b0: usize, b1: usize) -> (r: bool)
    requires
        a0 <= a1 <= a@.len(),
        b0 <= b1 <= b@.len(),
    ensures
        r == (a@.subrange(a0 as int, a1 as int) == b@.subrange(b0 as int, b1 as int)),
{
    if a1 - a0 != b1 - b0 {
        proof {
            assert(a@.subrange(a0 as int, a1 as int).len() != b@.subrange(b0 as int, b1 as int).len());
        }
        return false;
    }
    let n = a1 - a0;
    let mut k: usize = 0;
    while k < n
        invariant
            n == a1 - a0 == b1 - b0,
            a0 <= a1 <= a@.len(),
            b0 <= b1 <= b@.len(),
            k <= n,
            a@.subrange(a0 as int, a0 + k) == b@.subrange(b0 as int, b0 + k),
        decreases n - k,
    {
        if a[a0 + k] != b[b0 + k] {
            proof {
                assert(a@.subrange(a0 as int, a1 as int)[k as int] != b@.subrange(b0 as int, b1 as int)[k as int]);
            }
            return false;
        }
        proof {
            assert(a@.subrange(a0 as int, a0 + k + 1) =~= a@.subrange(a0 as int, a0 + k).push(a@[a0 + k]));
            assert(b@.subrange(b0 as int, b0 + k + 1) =~= b@.subrange(b0 as int, b0 + k).push(b@[b0 + k]));
        }
        k = k + 1;
    }
    true
}

/// Whether `a[a0..a1]` and `b[b0..b1]` hold the same characters.
pub fn chars_range_eq(a: &[char], a0: usize, a1: usize, b: &[char], b0: usize, b1: usize) -> (r: bool)
    requires
        a0 <= a1 <= a@.len(),
        b0 <= b1 <= b@.len(),
    ensures
        r == (a@.subrange(a0 as int, a1 as int) == b@.subrange(b0 as int, b1 as int)),
{
    if a1 - a0 != b1 - b0 {
        proof {
            assert(a@.subrange(a0 as int, a1 as int).len() != b@.subrange(b0 as int, b1 as int).len());
        }
        return false;
    }
    let n = a1 - a0;
    let mut k: usize = 0;
    while k < n
        invariant
            n == a1 - a0 == b1 - b0,
            a0 <= a1 <= a@.len(),
            b0 <= b1 <= b@.len(),
            k <= n,
            a@.subrange(a0 as int, a0 + k) == b@.subrange(b0 as int, b0 + k),
        decreases n - k,
    {
        if a[a0 + k] != b[b0 + k] {
            proof {
                assert(a@.subrange(a0 as int, a1 as int)[k as int] != b@.subrange(b0 as int, b1 as int)[k as int]);
            }
            return false;
        }
        proof {
            assert(a@.subrange(a0 as int, a0 + k + 1) =~= a@.subrange(a0 as int, a0 + k).push(a@[a0 + k]));
            assert(b@.subrange(b0 as int, b0 + k + 1) =~= b@.subrange(b0 as int, b0 + k).push(b@[b0 + k]));
        }
        k = k + 1;
    }
    true
}

} // verus!
