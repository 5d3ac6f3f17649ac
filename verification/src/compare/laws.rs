//! Properties that hold of the comparers on all inputs.
use super::ascii::{
    ascii_line_verdict, ascii_line_verdict_fn, ascii_verdict, fields, fields_match, is_ascii_ws, trim_ascii, trim_end,
    trim_start, ws_len,
};
use super::fast::{chunk_at, chunk_compare, chunk_match, fast_from, fast_verdict, FAST_CHUNK};
use super::lines::{
    after_first_line, compare_lines, first_line, join_lines, law_lines_of_joined, law_lines_without_final_break, lemma_line_len_unique,
    line_len, lines, plain_lines,
};
use super::utf8::{is_unicode_ws, utf8_line_verdict, utf8_line_verdict_fn, utf8_verdict, word_len, words};
use super::Comparison;
use vstd::prelude::*;

verus! {

pub proof fn lemma_compare_lines_reflexive<T>(ls: Seq<Seq<T>>, v: spec_fn(Seq<T>, Seq<T>) -> Option<Comparison>)
    requires
        forall|x: Seq<T>| #[trigger] v(x, x) is None,
    ensures
        compare_lines(ls, ls, v) == Comparison::AC,
    decreases ls.len(),
{
    if ls.len() > 0 {
        assert(v(ls[0], ls[0]) is None);
        lemma_compare_lines_reflexive(ls.drop_first(), v);
    }
}

pub proof fn lemma_compare_lines_avoids<T>(
    ls: Seq<Seq<T>>,
    lu: Seq<Seq<T>>,
    v: spec_fn(Seq<T>, Seq<T>) -> Option<Comparison>,
)
    requires
        forall|x: Seq<T>, y: Seq<T>| #[trigger] v(x, y) != Some(Comparison::PE),
    ensures
        compare_lines(ls, lu, v) != Comparison::PE,
    decreases ls.len(),
{
    if ls.len() > 0 && lu.len() > 0 {
        assert(v(ls[0], lu[0]) != Some(Comparison::PE));
        lemma_compare_lines_avoids(ls.drop_first(), lu.drop_first(), v);
    }
}

pub proof fn lemma_compare_lines_lenient<T>(
    ls: Seq<Seq<T>>,
    lu: Seq<Seq<T>>,
    strict: spec_fn(Seq<T>, Seq<T>) -> Option<Comparison>,
    lenient: spec_fn(Seq<T>, Seq<T>) -> Option<Comparison>,
)
    requires
        forall|x: Seq<T>, y: Seq<T>|
            #![trigger strict(x, y)]
            #![trigger lenient(x, y)]
            if strict(x, y) == Some(Comparison::PE) {
                lenient(x, y) is None
            } else {
                lenient(x, y) == strict(x, y)
            },
    ensures
        compare_lines(ls, lu, strict) != Comparison::PE ==> compare_lines(ls, lu, lenient)
            == compare_lines(ls, lu, strict),
    decreases ls.len(),
{
    if ls.len() > 0 && lu.len() > 0 {
        assert(strict(ls[0], lu[0]) == Some(Comparison::PE) || lenient(ls[0], lu[0]) == strict(ls[0], lu[0]));
        lemma_compare_lines_lenient(ls.drop_first(), lu.drop_first(), strict, lenient);
    }
}

proof fn lemma_fields_match_reflexive(sp: Seq<Seq<u8>>)
    ensures
        fields_match(sp, sp),
    decreases sp.len(),
{
    if sp.len() > 0 {
        lemma_fields_match_reflexive(sp.drop_first());
    }
}

/// With presentation errors allowed, `compare_ascii` never answers `PE`.
pub proof fn law_ascii_permissive_never_pe(std: Seq<u8>, user: Seq<u8>)
    ensures
        ascii_verdict(true, std, user) != Comparison::PE,
{
    lemma_compare_lines_avoids(lines(std, 10u8, 13u8), lines(user, 10u8, 13u8), ascii_line_verdict_fn(true));
}

/// An output compared with itself is accepted by `compare_ascii`.
pub proof fn law_ascii_reflexive(allow_pe: bool, s: Seq<u8>)
    ensures
        ascii_verdict(allow_pe, s, s) == Comparison::AC,
{
    let v = ascii_line_verdict_fn(allow_pe);
    assert forall|x: Seq<u8>| #[trigger] v(x, x) is None by {
        lemma_fields_match_reflexive(super::ascii::fields(super::ascii::trim_ascii(x)));
    }
    lemma_compare_lines_reflexive(lines(s, 10u8, 13u8), v);
}

/// Unless the strict `compare_ascii` answers `PE`, the permissive one answers the same.
pub proof fn law_ascii_strict_and_permissive_agree(std: Seq<u8>, user: Seq<u8>)
    ensures
        ascii_verdict(false, std, user) != Comparison::PE ==> ascii_verdict(true, std, user)
            == ascii_verdict(false, std, user),
{
    lemma_compare_lines_lenient(
        lines(std, 10u8, 13u8),
        lines(user, 10u8, 13u8),
        ascii_line_verdict_fn(false),
        ascii_line_verdict_fn(true),
    );
}

/// With presentation errors allowed, `compare_utf8` never answers `PE`.
pub proof fn law_utf8_permissive_never_pe(std: Seq<char>, user: Seq<char>)
    ensures
        utf8_verdict(true, std, user) != Comparison::PE,
{
    lemma_compare_lines_avoids(lines(std, '\n', '\r'), lines(user, '\n', '\r'), utf8_line_verdict_fn(true));
}

/// An output compared with itself is accepted by `compare_utf8`.
pub proof fn law_utf8_reflexive(allow_pe: bool, s: Seq<char>)
    ensures
        utf8_verdict(allow_pe, s, s) == Comparison::AC,
{
    lemma_compare_lines_reflexive(lines(s, '\n', '\r'), utf8_line_verdict_fn(allow_pe));
}

/// Unless the strict `compare_utf8` answers `PE`, the permissive one answers the same.
pub proof fn law_utf8_strict_and_permissive_agree(std: Seq<char>, user: Seq<char>)
    ensures
        utf8_verdict(false, std, user) != Comparison::PE ==> utf8_verdict(true, std, user)
            == utf8_verdict(false, std, user),
{
    lemma_compare_lines_lenient(
        lines(std, '\n', '\r'),
        lines(user, '\n', '\r'),
        utf8_line_verdict_fn(false),
        utf8_line_verdict_fn(true),
    );
}

/// Whether a contestant ends lines with `\n` or with `\r\n` does not change the
/// verdict of `compare_ascii`.
pub proof fn law_ascii_line_endings(allow_pe: bool, ls: Seq<Seq<u8>>, lu: Seq<Seq<u8>>)
    requires
        plain_lines(ls, 10u8, 13u8),
        plain_lines(lu, 10u8, 13u8),
    ensures
        ascii_verdict(allow_pe, join_lines(ls, seq![10u8]), join_lines(lu, seq![13u8, 10u8])) == ascii_verdict(
            allow_pe,
            join_lines(ls, seq![10u8]),
            join_lines(lu, seq![10u8]),
        ),
{
    law_lines_of_joined(ls, 10u8, 13u8);
    law_lines_of_joined(lu, 10u8, 13u8);
}

/// Whether a contestant ends lines with `\n` or with `\r\n` does not change the
/// verdict of `compare_utf8`.
pub proof fn law_utf8_line_endings(allow_pe: bool, ls: Seq<Seq<char>>, lu: Seq<Seq<char>>)
    requires
        plain_lines(ls, '\n', '\r'),
        plain_lines(lu, '\n', '\r'),
    ensures
        utf8_verdict(allow_pe, join_lines(ls, seq!['\n']), join_lines(lu, seq!['\r', '\n'])) == utf8_verdict(
            allow_pe,
            join_lines(ls, seq!['\n']),
            join_lines(lu, seq!['\n']),
        ),
{
    law_lines_of_joined(ls, '\n', '\r');
    law_lines_of_joined(lu, '\n', '\r');
}

/// Whether a contestant ends the last line with `\n` or not does not change the
/// verdict of `compare_ascii`, when that line is not empty.
pub proof fn law_ascii_final_line_break(allow_pe: bool, std: Seq<u8>, lu: Seq<Seq<u8>>)
    requires
        plain_lines(lu, 10u8, 13u8),
        lu.len() > 0,
        lu.last().len() > 0,
    ensures
        ascii_verdict(allow_pe, std, join_lines(lu, seq![10u8]).drop_last()) == ascii_verdict(
            allow_pe,
            std,
            join_lines(lu, seq![10u8]),
        ),
{
    law_lines_of_joined(lu, 10u8, 13u8);
    law_lines_without_final_break(lu, 10u8, 13u8);
}

/// Whether a contestant ends the last line with `\n` or not does not change the
/// verdict of `compare_utf8`, when that line is not empty.
pub proof fn law_utf8_final_line_break(allow_pe: bool, std: Seq<char>, lu: Seq<Seq<char>>)
    requires
        plain_lines(lu, '\n', '\r'),
        lu.len() > 0,
        lu.last().len() > 0,
    ensures
        utf8_verdict(allow_pe, std, join_lines(lu, seq!['\n']).drop_last()) == utf8_verdict(
            allow_pe,
            std,
            join_lines(lu, seq!['\n']),
        ),
{
    law_lines_of_joined(lu, '\n', '\r');
    law_lines_without_final_break(lu, '\n', '\r');
}

proof fn lemma_chunk_match_reflexive(a: Seq<u8>, i: int)
    requires
        0 <= i < a.len(),
    ensures
        chunk_match(a, a, i, i),
    decreases a.len() - i,
{
    if i + 1 < a.len() {
        lemma_chunk_match_reflexive(a, i + 1);
    }
}

proof fn lemma_chunk_match_symmetric(a: Seq<u8>, b: Seq<u8>, i: int, j: int)
    ensures
        chunk_match(a, b, i, j) == chunk_match(b, a, j, i),
    decreases a.len() - i + b.len() - j,
{
    if 0 <= i < a.len() && 0 <= j < b.len() {
        if a[i] == b[j] {
            if i + 1 < a.len() && j + 1 < b.len() {
                lemma_chunk_match_symmetric(a, b, i + 1, j + 1);
            }
        } else {
            let ta = i + 1 < a.len() && a[i] == 13u8 && a[i + 1] == 10u8;
            let tb = j + 1 < b.len() && b[j] == 13u8 && b[j + 1] == 10u8;
            if ta || tb {
                lemma_chunk_match_symmetric(
                    a,
                    b,
                    if ta {
                        i + 1
                    } else {
                        i
                    },
                    if tb {
                        j + 1
                    } else {
                        j
                    },
                );
            }
        }
    }
}

/// `s` with every `\n` written as `\r\n`.
pub open spec fn crlf(s: Seq<u8>) -> Seq<u8>
    decreases s.len(),
{
    if s.len() == 0 {
        Seq::empty()
    } else {
        crlf(s.drop_last()) + if s.last() == 10u8 {
            seq![13u8, 10u8]
        } else {
            seq![s.last()]
        }
    }
}

proof fn lemma_crlf_take(s: Seq<u8>, i: int)
    requires
        0 <= i < s.len(),
    ensures
        crlf(s.take(i + 1)) == crlf(s.take(i)) + if s[i] == 10u8 {
            seq![13u8, 10u8]
        } else {
            seq![s[i]]
        },
{
    assert(s.take(i + 1).drop_last() =~= s.take(i));
}

proof fn lemma_crlf_prefix(s: Seq<u8>, k: int)
    requires
        0 <= k <= s.len(),
    ensures
        crlf(s.take(k)).len() <= crlf(s).len(),
        crlf(s) == crlf(s.take(k)) + crlf(s).skip(crlf(s.take(k)).len() as int),
    decreases s.len() - k,
{
    if k == s.len() {
        assert(s.take(k) =~= s);
        assert(crlf(s).skip(crlf(s).len() as int) =~= Seq::<u8>::empty());
        assert(crlf(s) =~= crlf(s) + Seq::<u8>::empty());
    } else {
        lemma_crlf_prefix(s, k + 1);
        lemma_crlf_take(s, k);
        let a = crlf(s.take(k));
        let b = crlf(s.take(k + 1));
        assert(crlf(s) =~= a + crlf(s).skip(a.len() as int)) by {
            assert forall|m: int| 0 <= m < a.len() implies crlf(s)[m] == a[m] by {
                assert(crlf(s)[m] == b[m]);
                assert(b[m] == a[m]);
            }
        }
    }
}

/// Walking `s` and `crlf(s)` from matching positions reaches their ends together.
proof fn lemma_chunk_match_crlf(s: Seq<u8>, i: int)
    requires
        0 <= i < s.len(),
        !s.contains(13u8),
    ensures
        chunk_match(s, crlf(s), i, crlf(s.take(i)).len() as int),
    decreases s.len() - i,
{
    let c = crlf(s);
    let j = crlf(s.take(i)).len() as int;
    lemma_crlf_take(s, i);
    lemma_crlf_prefix(s, i + 1);
    lemma_crlf_prefix(s, s.len() as int);
    assert(s.take(s.len() as int) =~= s);
    let j2 = crlf(s.take(i + 1)).len() as int;
    assert(s[i] != 13u8) by {
        if s[i] == 13u8 {
            assert(s.contains(13u8));
        }
    }
    assert(c[j] == crlf(s.take(i + 1))[j]);
    if s[i] == 10u8 {
        assert(c[j] == 13u8);
        assert(c[j + 1] == crlf(s.take(i + 1))[j + 1]);
        assert(c[j + 1] == 10u8);
        assert(j2 == j + 2);
    } else {
        assert(c[j] == s[i]);
        assert(j2 == j + 1);
    }
    if i + 1 < s.len() {
        lemma_crlf_prefix(s, i + 2);
        lemma_crlf_take(s, i + 1);
        assert(j2 < crlf(s.take(i + 2)).len());
        lemma_chunk_match_crlf(s, i + 1);
        assert(chunk_match(s, c, i + 1, j2));
    } else {
        assert(s.take(i + 1) =~= s);
        assert(j2 == c.len());
    }
    if s[i] == 10u8 {
        assert(chunk_match(s, c, i, j + 1));
        assert(chunk_match(s, c, i, j));
    } else {
        assert(chunk_match(s, c, i, j));
    }
}

proof fn lemma_crlf_len(s: Seq<u8>)
    ensures
        crlf(s).len() >= s.len(),
    decreases s.len(),
{
    if s.len() > 0 {
        lemma_crlf_len(s.drop_last());
    }
}

/// A text and the same text with every `\n` written as `\r\n` are accepted by
/// `compare_fast`, whichever is the reference, when the text holds no `\r` and
/// fits in one read chunk.
pub proof fn law_fast_crlf(s: Seq<u8>)
    requires
        !s.contains(13u8),
        crlf(s).len() <= FAST_CHUNK,
    ensures
        fast_verdict(s, crlf(s)) == Comparison::AC,
        fast_verdict(crlf(s), s) == Comparison::AC,
{
    lemma_crlf_len(s);
    if s.len() > 0 {
        lemma_crlf_prefix(s, s.len() as int);
        assert(s.take(s.len() as int) =~= s);
        lemma_crlf_take(s, 0);
        assert(s.take(0) =~= Seq::<u8>::empty());
        assert(crlf(s.take(1)).len() > 0);
        lemma_crlf_prefix(s, 1);
        lemma_chunk_match_crlf(s, 0);
        assert(chunk_at(s, 0) =~= s);
        assert(chunk_at(crlf(s), 0) =~= crlf(s));
        assert(chunk_compare(chunk_at(s, 0), chunk_at(crlf(s), 0)));
        assert(fast_from(s, crlf(s), s.len() as int, crlf(s).len() as int) == Comparison::AC);
    } else {
        assert(crlf(s) =~= Seq::<u8>::empty());
    }
    law_fast_symmetric(s, crlf(s));
}

proof fn lemma_fast_from_reflexive(s: Seq<u8>, i: int)
    requires
        0 <= i,
    ensures
        fast_from(s, s, i, i) == Comparison::AC,
    decreases s.len() - i,
{
    if i < s.len() {
        let c = chunk_at(s, i);
        lemma_chunk_match_reflexive(c, 0);
        lemma_fast_from_reflexive(s, i + c.len());
    }
}

/// An output compared with itself is accepted by `compare_fast`.
pub proof fn law_fast_reflexive(s: Seq<u8>)
    ensures
        fast_verdict(s, s) == Comparison::AC,
{
    lemma_fast_from_reflexive(s, 0);
}

proof fn lemma_fast_from_symmetric(a: Seq<u8>, b: Seq<u8>, i: int, j: int)
    requires
        0 <= i,
        0 <= j,
    ensures
        fast_from(a, b, i, j) == fast_from(b, a, j, i),
    decreases a.len() - i,
{
    if i < a.len() && j < b.len() {
        let ca = chunk_at(a, i);
        let cb = chunk_at(b, j);
        lemma_chunk_match_symmetric(ca, cb, 0, 0);
        lemma_fast_from_symmetric(a, b, i + ca.len(), j + cb.len());
    }
}

/// `compare_fast` does not depend on which side is the reference.
pub proof fn law_fast_symmetric(a: Seq<u8>, b: Seq<u8>)
    ensures
        fast_verdict(a, b) == fast_verdict(b, a),
{
    lemma_fast_from_symmetric(a, b, 0, 0);
}

proof fn lemma_fast_from_never_pe(a: Seq<u8>, b: Seq<u8>, i: int, j: int)
    ensures
        fast_from(a, b, i, j) != Comparison::PE,
    decreases a.len() - i,
{
    if 0 <= i < a.len() && 0 <= j < b.len() {
        lemma_fast_from_never_pe(a, b, i + chunk_at(a, i).len(), j + chunk_at(b, j).len());
    }
}

/// `compare_fast` answers only `AC` or `WA`.
pub proof fn law_fast_never_pe(a: Seq<u8>, b: Seq<u8>)
    ensures
        fast_verdict(a, b) != Comparison::PE,
{
    lemma_fast_from_never_pe(a, b, 0, 0);
}


/// The characters of a text read one per byte.
pub open spec fn ascii_chars(s: Seq<u8>) -> Seq<char> {
    s.map_values(|b: u8| b as char)
}

/// `ascii_chars` applied to each line.
pub open spec fn ascii_lines(ls: Seq<Seq<u8>>) -> Seq<Seq<char>> {
    ls.map_values(|l: Seq<u8>| ascii_chars(l))
}

/// Every byte is ASCII, and none is a vertical tab (whitespace to Unicode, but not
/// to ASCII trimming).
pub open spec fn ascii_without_vt(s: Seq<u8>) -> bool {
    forall|i: int| 0 <= i < s.len() ==> #[trigger] s[i] < 128u8 && s[i] != 11u8
}

/// No two whitespace bytes stand side by side in `t`.
pub open spec fn no_double_ws(t: Seq<u8>) -> bool {
    forall|i: int, j: int|
        0 <= i && j == i + 1 && j < t.len() ==> !(is_ascii_ws(#[trigger] t[i]) && is_ascii_ws(#[trigger] t[j]))
}

/// Between its first and last non-whitespace byte, the line never has two
/// whitespace bytes side by side.
pub open spec fn single_spaced(l: Seq<u8>) -> bool {
    no_double_ws(trim_ascii(l))
}

/// An ASCII text without vertical tabs whose lines are all single-spaced.
pub open spec fn plain_ascii_text(s: Seq<u8>) -> bool {
    &&& ascii_without_vt(s)
    &&& forall|i: int| 0 <= i < lines(s, 10u8, 13u8).len() ==> single_spaced(#[trigger] lines(s, 10u8, 13u8)[i])
}

proof fn lemma_byte_char(b: u8, c: u8)
    ensures
        (b as char) as u32 == b as u32,
        ((b as char) == (c as char)) == (b == c),
        '\n' == (10u8 as char),
        '\r' == (13u8 as char),
{
}

proof fn lemma_byte_char_ws(b: u8)
    requires
        b < 128u8,
    ensures
        is_unicode_ws(b as char) == (is_ascii_ws(b) || b == 11u8),
{
}

proof fn lemma_ascii_chars_injective(a: Seq<u8>, b: Seq<u8>)
    ensures
        (ascii_chars(a) == ascii_chars(b)) == (a == b),
{
    if ascii_chars(a) == ascii_chars(b) {
        assert(a.len() == ascii_chars(a).len() && b.len() == ascii_chars(b).len());
        assert forall|i: int| 0 <= i < a.len() implies a[i] == b[i] by {
            assert(ascii_chars(a)[i] == (a[i] as char));
            assert(ascii_chars(b)[i] == (b[i] as char));
            lemma_byte_char(a[i], b[i]);
        }
        assert(a =~= b);
    }
}

proof fn lemma_ascii_lines_injective(a: Seq<Seq<u8>>, b: Seq<Seq<u8>>)
    ensures
        (ascii_lines(a) == ascii_lines(b)) == (a == b),
{
    if ascii_lines(a) == ascii_lines(b) {
        assert(a.len() == ascii_lines(a).len() && b.len() == ascii_lines(b).len());
        assert forall|i: int| 0 <= i < a.len() implies a[i] == b[i] by {
            assert(ascii_lines(a)[i] == ascii_chars(a[i]));
            assert(ascii_lines(b)[i] == ascii_chars(b[i]));
            lemma_ascii_chars_injective(a[i], b[i]);
        }
        assert(a =~= b);
    }
}

proof fn lemma_line_len_ascii(s: Seq<u8>)
    ensures
        line_len(ascii_chars(s), '\n') == line_len(s, 10u8),
    decreases s.len(),
{
    if s.len() > 0 {
        lemma_byte_char(s[0], 10u8);
        assert(ascii_chars(s).drop_first() =~= ascii_chars(s.drop_first()));
        lemma_line_len_ascii(s.drop_first());
    }
}

proof fn lemma_line_len_bound<T>(s: Seq<T>, nl: T)
    ensures
        line_len(s, nl) <= s.len(),
    decreases s.len(),
{
    if s.len() > 0 && s[0] != nl {
        lemma_line_len_bound(s.drop_first(), nl);
    }
}

proof fn lemma_lines_ascii(s: Seq<u8>)
    ensures
        lines(ascii_chars(s), '\n', '\r') == ascii_lines(lines(s, 10u8, 13u8)),
    decreases s.len(),
{
    let c = ascii_chars(s);
    if s.len() == 0 {
        assert(ascii_lines(lines(s, 10u8, 13u8)) =~= Seq::<Seq<char>>::empty());
    } else {
        let k = line_len(s, 10u8) as int;
        lemma_line_len_ascii(s);
        lemma_line_len_bound(s, 10u8);
        if k < s.len() && k > 0 {
            lemma_byte_char(s[k - 1], 13u8);
        }
        assert(first_line(c, '\n', '\r') =~= ascii_chars(first_line(s, 10u8, 13u8)));
        assert(after_first_line(c, '\n') =~= ascii_chars(after_first_line(s, 10u8)));
        lemma_lines_ascii(after_first_line(s, 10u8));
        assert(ascii_lines(lines(s, 10u8, 13u8)) =~= seq![ascii_chars(first_line(s, 10u8, 13u8))] + ascii_lines(
            lines(after_first_line(s, 10u8), 10u8, 13u8),
        ));
    }
}

proof fn lemma_lines_ascii_without_vt(s: Seq<u8>)
    requires
        ascii_without_vt(s),
    ensures
        forall|i: int| 0 <= i < lines(s, 10u8, 13u8).len() ==> ascii_without_vt(#[trigger] lines(s, 10u8, 13u8)[i]),
    decreases s.len(),
{
    if s.len() > 0 {
        lemma_line_len_bound(s, 10u8);
        let f = first_line(s, 10u8, 13u8);
        let a = after_first_line(s, 10u8);
        assert forall|m: int| 0 <= m < f.len() implies #[trigger] f[m] < 128u8 && f[m] != 11u8 by {
            assert(f[m] == s[m]);
        }
        assert forall|m: int| 0 <= m < a.len() implies #[trigger] a[m] < 128u8 && a[m] != 11u8 by {
            assert(a[m] == s[m + line_len(s, 10u8) + 1]);
        }
        lemma_lines_ascii_without_vt(a);
        let ls = lines(s, 10u8, 13u8);
        assert forall|i: int| 0 <= i < ls.len() implies ascii_without_vt(#[trigger] ls[i]) by {
            if i > 0 {
                assert(ls[i] == lines(a, 10u8, 13u8)[i - 1]);
            }
        }
    }
}

proof fn lemma_ws_len_bound(s: Seq<u8>)
    ensures
        ws_len(s) <= s.len(),
        forall|i: int| 0 <= i < ws_len(s) ==> !is_ascii_ws(#[trigger] s[i]),
        ws_len(s) < s.len() ==> is_ascii_ws(s[ws_len(s) as int]),
    decreases s.len(),
{
    if s.len() > 0 && !is_ascii_ws(s[0]) {
        let r = s.drop_first();
        lemma_ws_len_bound(r);
        assert forall|i: int| 0 <= i < ws_len(s) implies !is_ascii_ws(#[trigger] s[i]) by {
            if i > 0 {
                assert(s[i] == r[i - 1]);
            }
        }
    }
}

/// The maximal runs of non-whitespace bytes of `s`, in order.
spec fn ascii_words(s: Seq<u8>) -> Seq<Seq<u8>>
    decreases s.len(),
{
    if s.len() == 0 {
        Seq::empty()
    } else if is_ascii_ws(s[0]) {
        ascii_words(s.drop_first())
    } else {
        let k = ws_len(s);
        proof {
            lemma_ws_len_bound(s);
        }
        seq![s.take(k as int)] + ascii_words(s.skip(k as int))
    }
}

proof fn lemma_word_len_ascii(s: Seq<u8>)
    requires
        ascii_without_vt(s),
    ensures
        word_len(ascii_chars(s)) == ws_len(s),
    decreases s.len(),
{
    if s.len() > 0 {
        assert(s[0] < 128u8 && s[0] != 11u8);
        lemma_byte_char_ws(s[0]);
        assert(ascii_chars(s).drop_first() =~= ascii_chars(s.drop_first()));
        assert forall|i: int| 0 <= i < s.drop_first().len() implies #[trigger] s.drop_first()[i] < 128u8
            && s.drop_first()[i] != 11u8 by {
            assert(s.drop_first()[i] == s[i + 1]);
        }
        lemma_word_len_ascii(s.drop_first());
    }
}

proof fn lemma_words_ascii(s: Seq<u8>)
    requires
        ascii_without_vt(s),
    ensures
        words(ascii_chars(s)) == ascii_lines(ascii_words(s)),
    decreases s.len(),
{
    let c = ascii_chars(s);
    if s.len() == 0 {
        assert(ascii_lines(ascii_words(s)) =~= Seq::<Seq<char>>::empty());
    } else {
        assert(s[0] < 128u8 && s[0] != 11u8);
        lemma_byte_char_ws(s[0]);
        if is_ascii_ws(s[0]) {
            assert(c.drop_first() =~= ascii_chars(s.drop_first()));
            assert forall|i: int| 0 <= i < s.drop_first().len() implies #[trigger] s.drop_first()[i] < 128u8
                && s.drop_first()[i] != 11u8 by {
                assert(s.drop_first()[i] == s[i + 1]);
            }
            lemma_words_ascii(s.drop_first());
        } else {
            let k = ws_len(s) as int;
            lemma_ws_len_bound(s);
            lemma_word_len_ascii(s);
            assert(c.take(k) =~= ascii_chars(s.take(k)));
            assert(c.skip(k) =~= ascii_chars(s.skip(k)));
            assert forall|i: int| 0 <= i < s.skip(k).len() implies #[trigger] s.skip(k)[i] < 128u8 && s.skip(k)[i]
                != 11u8 by {
                assert(s.skip(k)[i] == s[i + k]);
            }
            lemma_words_ascii(s.skip(k));
            assert(ascii_lines(ascii_words(s)) =~= seq![ascii_chars(s.take(k))] + ascii_lines(ascii_words(s.skip(k))));
        }
    }
}

proof fn lemma_ascii_words_trim_start(s: Seq<u8>)
    ensures
        ascii_words(trim_start(s)) == ascii_words(s),
    decreases s.len(),
{
    if s.len() > 0 && is_ascii_ws(s[0]) {
        lemma_ascii_words_trim_start(s.drop_first());
    }
}

proof fn lemma_ws_len_push(s: Seq<u8>, w: u8)
    requires
        is_ascii_ws(w),
    ensures
        ws_len(s.push(w)) == ws_len(s),
    decreases s.len(),
{
    if s.len() > 0 && !is_ascii_ws(s[0]) {
        assert(s.push(w).drop_first() =~= s.drop_first().push(w));
        lemma_ws_len_push(s.drop_first(), w);
    }
}

proof fn lemma_ascii_words_push_ws(s: Seq<u8>, w: u8)
    requires
        is_ascii_ws(w),
    ensures
        ascii_words(s.push(w)) == ascii_words(s),
    decreases s.len(),
{
    let t = s.push(w);
    if s.len() == 0 {
        assert(t[0] == w);
        assert(t.drop_first() =~= s);
        assert(ascii_words(t) == ascii_words(s));
    } else if is_ascii_ws(s[0]) {
        assert(t[0] == s[0]);
        assert(t.drop_first() =~= s.drop_first().push(w));
        lemma_ascii_words_push_ws(s.drop_first(), w);
        assert(ascii_words(t) == ascii_words(t.drop_first()));
    } else {
        let k = ws_len(s) as int;
        lemma_ws_len_push(s, w);
        lemma_ws_len_bound(s);
        assert(t[0] == s[0]);
        assert(t.take(k) =~= s.take(k));
        assert(t.skip(k) =~= s.skip(k).push(w));
        lemma_ascii_words_push_ws(s.skip(k), w);
    }
}

proof fn lemma_ascii_words_trim_end(s: Seq<u8>)
    ensures
        ascii_words(trim_end(s)) == ascii_words(s),
    decreases s.len(),
{
    if s.len() > 0 && is_ascii_ws(s.last()) {
        assert(s =~= s.drop_last().push(s.last()));
        lemma_ascii_words_push_ws(s.drop_last(), s.last());
        lemma_ascii_words_trim_end(s.drop_last());
    }
}

proof fn lemma_trim_start_first(s: Seq<u8>)
    ensures
        trim_start(s).len() > 0 ==> !is_ascii_ws(trim_start(s)[0]),
    decreases s.len(),
{
    if s.len() > 0 && is_ascii_ws(s[0]) {
        lemma_trim_start_first(s.drop_first());
    }
}

proof fn lemma_trim_end_prefix(s: Seq<u8>)
    ensures
        trim_end(s).len() <= s.len(),
        forall|i: int| 0 <= i < trim_end(s).len() ==> #[trigger] trim_end(s)[i] == s[i],
        trim_end(s).len() > 0 ==> !is_ascii_ws(trim_end(s).last()),
    decreases s.len(),
{
    if s.len() > 0 && is_ascii_ws(s.last()) {
        lemma_trim_end_prefix(s.drop_last());
    }
}

proof fn lemma_trim_ascii_ends(l: Seq<u8>)
    ensures
        trim_ascii(l).len() > 0 ==> !is_ascii_ws(trim_ascii(l)[0]) && !is_ascii_ws(trim_ascii(l).last()),
        ascii_words(trim_ascii(l)) == ascii_words(l),
{
    lemma_trim_start_first(l);
    lemma_trim_end_prefix(trim_start(l));
    if trim_ascii(l).len() > 0 {
        assert(trim_ascii(l)[0] == trim_start(l)[0]);
    }
    lemma_ascii_words_trim_start(l);
    lemma_ascii_words_trim_end(trim_start(l));
}

proof fn lemma_fields_are_words(t: Seq<u8>)
    requires
        t.len() > 0,
        !is_ascii_ws(t[0]),
        !is_ascii_ws(t.last()),
        no_double_ws(t),
    ensures
        fields(t) == ascii_words(t),
    decreases t.len(),
{
    let k = ws_len(t) as int;
    lemma_ws_len_bound(t);
    if k == t.len() {
        assert(t.take(k) =~= t);
        assert(t.skip(k) =~= Seq::<u8>::empty());
        assert(ascii_words(t) == seq![t.take(k)] + ascii_words(t.skip(k)));
        assert(ascii_words(t.skip(k)).len() == 0);
        assert(ascii_words(t) =~= seq![t]);
    } else {
        let r = t.skip(k + 1);
        assert(is_ascii_ws(t[k]));
        assert(k + 1 < t.len());
        assert(t.skip(k).drop_first() =~= r);
        assert(ascii_words(t.skip(k)) == ascii_words(r));
        assert(r[0] == t[k + 1]);
        assert(!(is_ascii_ws(t[k]) && is_ascii_ws(t[k + 1])));
        assert(r.last() == t.last());
        assert forall|i: int, j: int| 0 <= i && j == i + 1 && j < r.len() implies !(is_ascii_ws(#[trigger] r[i])
            && is_ascii_ws(#[trigger] r[j])) by {
            assert(r[i] == t[i + k + 1]);
            assert(r[j] == t[j + k + 1]);
            assert(!(is_ascii_ws(t[i + k + 1]) && is_ascii_ws(t[j + k + 1])));
        }
        lemma_fields_are_words(r);
    }
}

proof fn lemma_ascii_words_nonempty(s: Seq<u8>)
    ensures
        forall|i: int| 0 <= i < ascii_words(s).len() ==> (#[trigger] ascii_words(s)[i]).len() > 0,
        s.len() > 0 && !is_ascii_ws(s[0]) ==> ascii_words(s).len() > 0,
    decreases s.len(),
{
    if s.len() > 0 {
        if is_ascii_ws(s[0]) {
            lemma_ascii_words_nonempty(s.drop_first());
            assert(ascii_words(s) == ascii_words(s.drop_first()));
        } else {
            let k = ws_len(s) as int;
            lemma_ws_len_bound(s);
            lemma_ascii_words_nonempty(s.skip(k));
            assert(k > 0);
            let w = ascii_words(s);
            assert(w == seq![s.take(k)] + ascii_words(s.skip(k)));
            assert(w[0] == s.take(k));
            assert forall|i: int| 0 <= i < w.len() implies (#[trigger] w[i]).len() > 0 by {
                if i > 0 {
                    assert(w[i] == ascii_words(s.skip(k))[i - 1]);
                }
            }
        }
    }
}

proof fn lemma_fields_match_nonempty(sp: Seq<Seq<u8>>, up: Seq<Seq<u8>>)
    requires
        forall|i: int| 0 <= i < up.len() ==> (#[trigger] up[i]).len() > 0,
    ensures
        fields_match(sp, up) == (sp == up),
    decreases sp.len(),
{
    if sp.len() > 0 && up.len() > 0 {
        assert forall|i: int| 0 <= i < up.drop_first().len() implies (#[trigger] up.drop_first()[i]).len() > 0 by {
            assert(up.drop_first()[i] == up[i + 1]);
        }
        lemma_fields_match_nonempty(sp.drop_first(), up.drop_first());
        assert(sp =~= seq![sp[0]] + sp.drop_first());
        assert(up =~= seq![up[0]] + up.drop_first());
        super::utf8::lemma_cons_eq(sp[0], sp.drop_first(), up[0], up.drop_first());
    } else if sp.len() == 0 && up.len() > 0 {
        assert(up[0].len() > 0);
    } else if sp.len() == 0 && up.len() == 0 {
        assert(sp =~= up);
    }
}

proof fn lemma_fields_match_words(l1: Seq<u8>, l2: Seq<u8>)
    requires
        single_spaced(l1),
        single_spaced(l2),
    ensures
        fields_match(fields(trim_ascii(l1)), fields(trim_ascii(l2))) == (ascii_words(l1) == ascii_words(l2)),
{
    let t1 = trim_ascii(l1);
    let t2 = trim_ascii(l2);
    lemma_trim_ascii_ends(l1);
    lemma_trim_ascii_ends(l2);
    lemma_ascii_words_nonempty(t1);
    lemma_ascii_words_nonempty(t2);
    let e = Seq::<u8>::empty();
    if t1.len() == 0 {
        assert(t1 =~= e);
        assert(fields(t1) =~= seq![e]);
        assert(ascii_words(t1) =~= Seq::<Seq<u8>>::empty());
    } else {
        lemma_fields_are_words(t1);
    }
    if t2.len() == 0 {
        assert(t2 =~= e);
        assert(fields(t2) =~= seq![e]);
        assert(ascii_words(t2) =~= Seq::<Seq<u8>>::empty());
    } else {
        lemma_fields_are_words(t2);
    }
    if t1.len() == 0 && t2.len() == 0 {
        assert(fields_match(seq![e].drop_first(), seq![e].drop_first()));
    } else if t1.len() == 0 {
        assert(ascii_words(t2)[0].len() > 0);
    } else if t2.len() == 0 {
        assert(ascii_words(t1)[0].len() > 0);
        assert(ascii_words(t1) != ascii_words(t2));
    } else {
        lemma_fields_match_nonempty(fields(t1), fields(t2));
    }
}

proof fn lemma_line_verdict_ascii(allow_pe: bool, l1: Seq<u8>, l2: Seq<u8>)
    requires
        ascii_without_vt(l1),
        ascii_without_vt(l2),
        single_spaced(l1),
        single_spaced(l2),
    ensures
        ascii_line_verdict(allow_pe, l1, l2) == utf8_line_verdict(allow_pe, ascii_chars(l1), ascii_chars(l2)),
{
    lemma_fields_match_words(l1, l2);
    lemma_words_ascii(l1);
    lemma_words_ascii(l2);
    lemma_ascii_lines_injective(ascii_words(l1), ascii_words(l2));
    lemma_ascii_chars_injective(l1, l2);
}

proof fn lemma_compare_lines_ascii(allow_pe: bool, ls: Seq<Seq<u8>>, lu: Seq<Seq<u8>>)
    requires
        forall|i: int| 0 <= i < ls.len() ==> ascii_without_vt(#[trigger] ls[i]) && single_spaced(ls[i]),
        forall|i: int| 0 <= i < lu.len() ==> ascii_without_vt(#[trigger] lu[i]) && single_spaced(lu[i]),
    ensures
        compare_lines(ls, lu, ascii_line_verdict_fn(allow_pe)) == compare_lines(
            ascii_lines(ls),
            ascii_lines(lu),
            utf8_line_verdict_fn(allow_pe),
        ),
    decreases ls.len(),
{
    if ls.len() > 0 && lu.len() > 0 {
        lemma_line_verdict_ascii(allow_pe, ls[0], lu[0]);
        assert(ascii_lines(ls).drop_first() =~= ascii_lines(ls.drop_first()));
        assert(ascii_lines(lu).drop_first() =~= ascii_lines(lu.drop_first()));
        assert forall|i: int| 0 <= i < ls.drop_first().len() implies ascii_without_vt(#[trigger] ls.drop_first()[i])
            && single_spaced(ls.drop_first()[i]) by {
            assert(ls.drop_first()[i] == ls[i + 1]);
        }
        assert forall|i: int| 0 <= i < lu.drop_first().len() implies ascii_without_vt(#[trigger] lu.drop_first()[i])
            && single_spaced(lu.drop_first()[i]) by {
            assert(lu.drop_first()[i] == lu[i + 1]);
        }
        lemma_compare_lines_ascii(allow_pe, ls.drop_first(), lu.drop_first());
    }
}

/// On ASCII texts without vertical tabs whose lines never hold two whitespace bytes
/// side by side between their words, `compare_ascii` answers as `compare_utf8` does on
/// the same texts read as characters.
pub proof fn law_ascii_agrees_with_utf8(allow_pe: bool, std: Seq<u8>, user: Seq<u8>)
    requires
        plain_ascii_text(std),
        plain_ascii_text(user),
    ensures
        ascii_verdict(allow_pe, std, user) == utf8_verdict(allow_pe, ascii_chars(std), ascii_chars(user)),
{
    lemma_lines_ascii(std);
    lemma_lines_ascii(user);
    lemma_lines_ascii_without_vt(std);
    lemma_lines_ascii_without_vt(user);
    lemma_compare_lines_ascii(allow_pe, lines(std, 10u8, 13u8), lines(user, 10u8, 13u8));
}

/// No carriage return in `s`.
pub open spec fn no_cr(s: Seq<u8>) -> bool {
    forall|i: int| 0 <= i < s.len() ==> #[trigger] s[i] != 13u8
}

proof fn lemma_chunk_match_no_cr(a: Seq<u8>, b: Seq<u8>, i: int)
    requires
        no_cr(a),
        no_cr(b),
        0 <= i < a.len(),
        i < b.len(),
    ensures
        chunk_match(a, b, i, i) == (a.len() == b.len() && a.skip(i) == b.skip(i)),
    decreases a.len() - i,
{
    assert(a.skip(i)[0] == a[i]);
    assert(b.skip(i)[0] == b[i]);
    if a[i] == b[i] {
        if i + 1 < a.len() && i + 1 < b.len() {
            lemma_chunk_match_no_cr(a, b, i + 1);
            assert(a.skip(i) =~= seq![a[i]] + a.skip(i + 1));
            assert(b.skip(i) =~= seq![b[i]] + b.skip(i + 1));
            super::utf8::lemma_cons_eq(a[i], a.skip(i + 1), b[i], b.skip(i + 1));
        } else if a.len() == b.len() {
            assert(a.skip(i) =~= b.skip(i));
        }
    } else {
        assert(a[i] != 13u8);
        assert(b[i] != 13u8);
    }
}

proof fn lemma_chunk_compare_no_cr(a: Seq<u8>, b: Seq<u8>)
    requires
        no_cr(a),
        no_cr(b),
    ensures
        chunk_compare(a, b) == (a == b),
{
    if a.len() > 0 && b.len() > 0 {
        lemma_chunk_match_no_cr(a, b, 0);
        assert(a.skip(0) =~= a);
        assert(b.skip(0) =~= b);
    } else if a.len() == b.len() {
        assert(a =~= b);
    }
}

proof fn lemma_fast_from_no_cr(s: Seq<u8>, u: Seq<u8>, i: int)
    requires
        no_cr(s),
        no_cr(u),
        0 <= i <= s.len(),
        i <= u.len(),
    ensures
        (fast_from(s, u, i, i) == Comparison::AC) == (s.skip(i) == u.skip(i)),
    decreases s.len() - i,
{
    if i >= s.len() {
        if i >= u.len() {
            assert(s.skip(i) =~= u.skip(i));
        } else {
            assert(u.skip(i).len() > 0);
        }
    } else if i >= u.len() {
        assert(u.skip(i).len() == 0);
    } else {
        let ca = chunk_at(s, i);
        let cu = chunk_at(u, i);
        assert forall|k: int| 0 <= k < ca.len() implies #[trigger] ca[k] != 13u8 by {
            assert(ca[k] == s[i + k]);
        }
        assert forall|k: int| 0 <= k < cu.len() implies #[trigger] cu[k] != 13u8 by {
            assert(cu[k] == u[i + k]);
        }
        lemma_chunk_compare_no_cr(ca, cu);
        if ca == cu {
            let n = i + ca.len();
            lemma_fast_from_no_cr(s, u, n);
            assert(s.skip(i) =~= ca + s.skip(n));
            assert(u.skip(i) =~= cu + u.skip(n));
            if s.skip(i) == u.skip(i) {
                assert(s.skip(n) =~= s.skip(i).skip(ca.len() as int));
                assert(u.skip(n) =~= u.skip(i).skip(cu.len() as int));
            }
        } else if s.skip(i) == u.skip(i) {
            assert(s.skip(i).len() == s.len() - i);
            assert(u.skip(i).len() == u.len() - i);
            assert(s.len() == u.len());
            assert forall|k: int| 0 <= k < ca.len() implies ca[k] == cu[k] by {
                assert(ca[k] == s.skip(i)[k]);
                assert(cu[k] == u.skip(i)[k]);
            }
            assert(ca =~= cu);
        }
    }
}

/// On texts without carriage returns, `compare_fast` accepts exactly the equal
/// texts: every pair of chunks, up to the end of both texts, must agree.
pub proof fn law_fast_exact_without_cr(std: Seq<u8>, user: Seq<u8>)
    requires
        no_cr(std),
        no_cr(user),
    ensures
        (fast_verdict(std, user) == Comparison::AC) == (std == user),
{
    lemma_fast_from_no_cr(std, user, 0);
    assert(std.skip(0) =~= std);
    assert(user.skip(0) =~= user);
}

proof fn lemma_fast_from_shift(s: Seq<u8>, u: Seq<u8>, p: int, q: int, i: int, j: int)
    requires
        0 <= p <= s.len(),
        0 <= q <= u.len(),
        0 <= i,
        0 <= j,
    ensures
        fast_from(s, u, i + p, j + q) == fast_from(s.skip(p), u.skip(q), i, j),
    decreases s.len() - p - i,
{
    let s2 = s.skip(p);
    let u2 = u.skip(q);
    if i + p < s.len() && j + q < u.len() {
        assert(chunk_at(s, i + p) =~= chunk_at(s2, i));
        assert(chunk_at(u, j + q) =~= chunk_at(u2, j));
        lemma_fast_from_shift(s, u, p, q, i + chunk_at(s2, i).len(), j + chunk_at(u2, j).len());
    }
}

/// `compare_fast` reads both texts a full chunk at a time: on texts of at least
/// `FAST_CHUNK` bytes, the verdict is `WA` when the first chunks disagree, and
/// otherwise the verdict on what follows them.
pub proof fn law_fast_first_chunk(std: Seq<u8>, user: Seq<u8>)
    requires
        std.len() >= FAST_CHUNK,
        user.len() >= FAST_CHUNK,
    ensures
        fast_verdict(std, user) == if chunk_compare(std.take(FAST_CHUNK as int), user.take(FAST_CHUNK as int)) {
            fast_verdict(std.skip(FAST_CHUNK as int), user.skip(FAST_CHUNK as int))
        } else {
            Comparison::WA
        },
{
    let c = FAST_CHUNK as int;
    assert(chunk_at(std, 0) =~= std.take(c));
    assert(chunk_at(user, 0) =~= user.take(c));
    lemma_fast_from_shift(std, user, c, c, 0, 0);
}

/// A line without ASCII whitespace is one line, and one field.
proof fn lemma_line_without_ws(s: Seq<u8>)
    requires
        forall|i: int|
            0 <= i < s.len() ==> !(#[trigger] s[i] == 9u8 || s[i] == 10u8 || s[i] == 12u8 || s[i] == 13u8 || s[i]
                == 32u8),
    ensures
        s.len() == 0 ==> lines(s, 10u8, 13u8).len() == 0,
        s.len() > 0 ==> lines(s, 10u8, 13u8) == seq![s],
        s.len() > 0 ==> fields(trim_ascii(s)) == seq![s],
{
    if s.len() > 0 {
        lemma_line_len_unique(s, 10u8, s.len() as int);
        assert(first_line(s, 10u8, 13u8) =~= s);
        assert(after_first_line(s, 10u8) =~= Seq::<u8>::empty());
        assert(lines(after_first_line(s, 10u8), 10u8, 13u8) =~= Seq::<Seq<u8>>::empty());
        assert(lines(s, 10u8, 13u8) =~= seq![s]);
        assert(!is_ascii_ws(s[0]));
        assert(!is_ascii_ws(s[s.len() - 1]));
        assert(trim_start(s) == s);
        assert(trim_end(s) == s);
        lemma_ws_len_bound(s);
        if ws_len(s) < s.len() {
            assert(!is_ascii_ws(s[ws_len(s) as int]));
        }
        assert(ws_len(s) == s.len());
        assert(fields(s) == seq![s]);
    }
}

/// `compare_ascii` splits fields only at the ASCII whitespace bytes (tab, line
/// feed, form feed, carriage return, space): two texts with none of them, whatever
/// their other bytes, are accepted when equal and are a wrong answer otherwise.
pub proof fn law_ascii_splits_only_at_ascii_whitespace(allow_pe: bool, std: Seq<u8>, user: Seq<u8>)
    requires
        forall|i: int|
            0 <= i < std.len() ==> !(#[trigger] std[i] == 9u8 || std[i] == 10u8 || std[i] == 12u8 || std[i] == 13u8
                || std[i] == 32u8),
        forall|i: int|
            0 <= i < user.len() ==> !(#[trigger] user[i] == 9u8 || user[i] == 10u8 || user[i] == 12u8 || user[i] == 13u8
                || user[i] == 32u8),
    ensures
        ascii_verdict(allow_pe, std, user) == if std == user {
            Comparison::AC
        } else {
            Comparison::WA
        },
{
    lemma_line_without_ws(std);
    lemma_line_without_ws(user);
    let v = ascii_line_verdict_fn(allow_pe);
    if std.len() > 0 && user.len() > 0 {
        assert(fields_match(seq![std], seq![user]) == (std == user)) by {
            let e = Seq::<Seq<u8>>::empty();
            assert(seq![std].drop_first() =~= e);
            assert(seq![user].drop_first() =~= e);
            assert(fields_match(e, e));
            assert(seq![std][0] == std);
            assert(seq![user][0] == user);
            assert(fields_match(seq![std], seq![user]) == (std == user && fields_match(e, e)));
        }
        assert(v(std, user) == ascii_line_verdict(allow_pe, std, user));
        assert(ascii_line_verdict(allow_pe, std, user) == if std == user {
            None
        } else {
            Some(Comparison::WA)
        });
        let e = Seq::<Seq<u8>>::empty();
        assert(seq![std].drop_first() =~= e);
        assert(seq![user].drop_first() =~= e);
        assert(compare_lines(e, e, v) == Comparison::AC);
        assert(compare_lines(seq![std], seq![user], v) == match v(std, user) {
            Some(r) => r,
            None => compare_lines(e, e, v),
        });
    } else if std.len() == 0 && user.len() == 0 {
        assert(std =~= user);
    }
}

/// A line made of the words `x` and `y` separated by the byte `w`.
proof fn lemma_two_fields(x: Seq<u8>, y: Seq<u8>, w: u8)
    requires
        x.len() > 0,
        y.len() > 0,
        forall|i: int|
            0 <= i < x.len() ==> !(#[trigger] x[i] == 9u8 || x[i] == 10u8 || x[i] == 12u8 || x[i] == 13u8 || x[i]
                == 32u8),
        forall|i: int|
            0 <= i < y.len() ==> !(#[trigger] y[i] == 9u8 || y[i] == 10u8 || y[i] == 12u8 || y[i] == 13u8 || y[i]
                == 32u8),
        w == 9u8 || w == 12u8 || w == 13u8 || w == 32u8,
    ensures
        lines(x + seq![w] + y, 10u8, 13u8) == seq![x + seq![w] + y],
        fields(trim_ascii(x + seq![w] + y)) == seq![x, y],
{
    let t = x + seq![w] + y;
    let n = x.len() as int;
    assert forall|i: int| 0 <= i < t.len() implies t[i] != 10u8 by {
        if i < n {
            assert(t[i] == x[i]);
        } else if i > n {
            assert(t[i] == y[i - n - 1]);
        }
    }
    lemma_line_len_unique(t, 10u8, t.len() as int);
    assert(first_line(t, 10u8, 13u8) =~= t) by {
        assert(t[t.len() - 1] == y[y.len() - 1]);
    }
    assert(after_first_line(t, 10u8) =~= Seq::<u8>::empty());
    assert(lines(after_first_line(t, 10u8), 10u8, 13u8) =~= Seq::<Seq<u8>>::empty());
    assert(lines(t, 10u8, 13u8) =~= seq![t]);
    assert(t[0] == x[0]);
    assert(t[t.len() - 1] == y[y.len() - 1]);
    assert(trim_start(t) == t);
    assert(trim_end(t) == t);
    lemma_ws_len_bound(t);
    let k = ws_len(t) as int;
    if k < n {
        assert(t[k] == x[k]);
    } else if k > n {
        assert(t[n] == w);
    }
    assert(k == n);
    assert(t.take(n) =~= x);
    assert(t.skip(n + 1) =~= y);
    lemma_line_without_ws(y);
    assert(trim_ascii(y) == y) by {
        assert(trim_start(y) == y);
        assert(trim_end(y) == y);
    }
    assert(fields(t) =~= seq![x] + seq![y]);
    assert(seq![x] + seq![y] =~= seq![x, y]);
}

/// Each of tab, form feed, carriage return and space separates two fields for
/// `compare_ascii`, exactly as a space does: with presentation errors allowed, a
/// line `x w y` is accepted against `x y` (a space between) for any such `w`.
pub proof fn law_ascii_whitespace_separates_fields(x: Seq<u8>, y: Seq<u8>, w: u8)
    requires
        x.len() > 0,
        y.len() > 0,
        forall|i: int|
            0 <= i < x.len() ==> !(#[trigger] x[i] == 9u8 || x[i] == 10u8 || x[i] == 12u8 || x[i] == 13u8 || x[i]
                == 32u8),
        forall|i: int|
            0 <= i < y.len() ==> !(#[trigger] y[i] == 9u8 || y[i] == 10u8 || y[i] == 12u8 || y[i] == 13u8 || y[i]
                == 32u8),
        w == 9u8 || w == 12u8 || w == 13u8 || w == 32u8,
    ensures
        ascii_verdict(true, x + seq![w] + y, x + seq![32u8] + y) == Comparison::AC,
{
    let s = x + seq![w] + y;
    let u = x + seq![32u8] + y;
    lemma_two_fields(x, y, w);
    lemma_two_fields(x, y, 32u8);
    lemma_fields_match_reflexive(seq![x, y]);
    let v = ascii_line_verdict_fn(true);
    assert(v(s, u) is None);
    let e = Seq::<Seq<u8>>::empty();
    assert(seq![s].drop_first() =~= e);
    assert(seq![u].drop_first() =~= e);
    assert(compare_lines(e, e, v) == Comparison::AC);
}

/// The code points of the Unicode `White_Space` property.
pub open spec fn white_space_code(u: u32) -> bool {
    (9u32 <= u && u <= 13u32) || u == 32u32 || u == 0x85u32 || u == 0xA0u32 || u == 0x1680u32 || (0x2000u32 <= u
        && u <= 0x200Au32) || u == 0x2028u32 || u == 0x2029u32 || u == 0x202Fu32 || u == 0x205Fu32 || u
        == 0x3000u32
}

proof fn lemma_word_len_full(s: Seq<char>)
    requires
        forall|i: int| 0 <= i < s.len() ==> !white_space_code(#[trigger] s[i] as u32),
    ensures
        word_len(s) == s.len(),
    decreases s.len(),
{
    if s.len() > 0 {
        assert(!white_space_code(s[0] as u32));
        assert forall|i: int| 0 <= i < s.drop_first().len() implies !white_space_code(
            #[trigger] s.drop_first()[i] as u32,
        ) by {
            assert(s.drop_first()[i] == s[i + 1]);
        }
        lemma_word_len_full(s.drop_first());
    }
}

proof fn lemma_char_line_without_ws(s: Seq<char>)
    requires
        forall|i: int| 0 <= i < s.len() ==> !white_space_code(#[trigger] s[i] as u32),
    ensures
        s.len() == 0 ==> lines(s, '\n', '\r').len() == 0,
        s.len() > 0 ==> lines(s, '\n', '\r') == seq![s],
        s.len() > 0 ==> words(s) == seq![s],
{
    if s.len() > 0 {
        assert forall|i: int| 0 <= i < s.len() implies s[i] != '\n' by {
            assert(!white_space_code(s[i] as u32));
        }
        lemma_line_len_unique(s, '\n', s.len() as int);
        assert(first_line(s, '\n', '\r') =~= s);
        assert(after_first_line(s, '\n') =~= Seq::<char>::empty());
        assert(lines(after_first_line(s, '\n'), '\n', '\r') =~= Seq::<Seq<char>>::empty());
        assert(lines(s, '\n', '\r') =~= seq![s]);
        lemma_word_len_full(s);
        assert(!white_space_code(s[0] as u32));
        assert(s.take(s.len() as int) =~= s);
        assert(s.skip(s.len() as int) =~= Seq::<char>::empty());
        assert(words(s.skip(s.len() as int)) =~= Seq::<Seq<char>>::empty());
        assert(words(s) =~= seq![s]);
    }
}

/// `compare_utf8` splits words only at Unicode whitespace: two texts with no
/// `White_Space` character, whatever their other characters, are accepted when
/// equal and are a wrong answer otherwise.
pub proof fn law_utf8_splits_only_at_whitespace(allow_pe: bool, std: Seq<char>, user: Seq<char>)
    requires
        forall|i: int| 0 <= i < std.len() ==> !white_space_code(#[trigger] std[i] as u32),
        forall|i: int| 0 <= i < user.len() ==> !white_space_code(#[trigger] user[i] as u32),
    ensures
        utf8_verdict(allow_pe, std, user) == if std == user {
            Comparison::AC
        } else {
            Comparison::WA
        },
{
    lemma_char_line_without_ws(std);
    lemma_char_line_without_ws(user);
    let v = utf8_line_verdict_fn(allow_pe);
    if std.len() > 0 && user.len() > 0 {
        super::utf8::lemma_cons_eq(std, Seq::<Seq<char>>::empty(), user, Seq::<Seq<char>>::empty());
        assert(seq![std] =~= seq![std] + Seq::<Seq<char>>::empty());
        assert(seq![user] =~= seq![user] + Seq::<Seq<char>>::empty());
        assert(v(std, user) == if std == user {
            None
        } else {
            Some(Comparison::WA)
        });
        let e = Seq::<Seq<char>>::empty();
        assert(seq![std].drop_first() =~= e);
        assert(seq![user].drop_first() =~= e);
        assert(compare_lines(e, e, v) == Comparison::AC);
    } else if std.len() == 0 && user.len() == 0 {
        assert(std =~= user);
    }
}

} // verus!
