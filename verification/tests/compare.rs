use wa_judge::compare::Comparison::{AC, PE, WA};
use wa_judge::compare::{compare_ascii, compare_fast, compare_utf8, Comparison};

fn utf8(allow_pe: bool, expected: Comparison, std: &[u8], user: &[u8]) {
    let std = std::str::from_utf8(std).unwrap();
    let user = std::str::from_utf8(user).unwrap();
    assert_eq!(compare_utf8(allow_pe, std, user), expected, "{:?} vs {:?}", std, user);
}

fn ascii(allow_pe: bool, expected: Comparison, std: &[u8], user: &[u8]) {
    assert_eq!(compare_ascii(allow_pe, std, user), expected, "{:?} vs {:?}", std, user);
}

fn fast(expected: Comparison, std: &[u8], user: &[u8]) {
    assert_eq!(compare_fast(std, user), expected, "{:?} vs {:?}", std, user);
}

fn test_compare_utf8() {
    utf8(true, AC, b"1 2\n3 4", b"1 2\r\n3 4\n");
    utf8(true, AC, b"1 2 \n3 4", b"1 2 \r\n3 4 \n");
    utf8(true, WA, b"1 2 \n3 4", b"1 2 \r\n3 4 5\n");
    utf8(true, WA, b"1 2 \n3 4 5", b"1 2 \r\n3 4 \n");
    utf8(true, WA, b"\n", b"");
    utf8(true, WA, b"", b"\n");
    utf8(true, AC, b" \n", b" ");
    utf8(true, AC, b"1\n", b"1");

    utf8(false, AC, b"1 2\n3 4", b"1 2\r\n3 4\n");
    utf8(false, PE, b"1 2 \n3 4", b"1 2 \r\n3 4 \n");
    utf8(false, WA, b"1 2 \n3 4", b"1 2 \r\n3 4 5\n");
    utf8(false, WA, b"1 2 \n3 4 5", b"1 2 \r\n3 4 \n");
    utf8(false, WA, b"\n", b"");
    utf8(false, WA, b"", b"\n");
    utf8(false, AC, b" \n", b" ");
    utf8(false, AC, b"1\n", b"1");
    utf8(false, PE, b"1 \n", b"1");
}

fn test_compare_ascii() {
    ascii(true, AC, b"1 2\n3 4", b"1 2\r\n3 4\n");
    ascii(true, AC, b"1 2 \n3 4", b"1 2 \r\n3 4 \n");
    ascii(true, WA, b"1 2 \n3 4", b"1 2 \r\n3 4 5\n");
    ascii(true, WA, b"1 2 \n3 4 5", b"1 2 \r\n3 4 \n");
    ascii(true, WA, b"\n", b"");
    ascii(true, WA, b"", b"\n");
    ascii(true, AC, b" \n", b" ");
    ascii(true, AC, b"1\n", b"1");

    ascii(false, AC, b"1 2\n3 4", b"1 2\r\n3 4\n");
    ascii(false, PE, b"1 2 \n3 4", b"1 2 \r\n3 4 \n");
    ascii(false, WA, b"1 2 \n3 4", b"1 2 \r\n3 4 5\n");
    ascii(false, WA, b"1 2 \n3 4 5", b"1 2 \r\n3 4 \n");
    ascii(false, WA, b"\n", b"");
    ascii(false, WA, b"", b"\n");
    ascii(false, AC, b" \n", b" ");
    ascii(false, AC, b"1\n", b"1");
    ascii(false, PE, b"1 \n", b"1");
}

fn test_compare_fast() {
    fast(WA, b"1 2\n3 4", b"1 2\r\n3 4\n");
    fast(WA, b"1 2 \n3 4", b"1 2 \r\n3 4 \n");
    fast(WA, b"1 2 \n3 4", b"1 2 \r\n3 4 5\n");
    fast(WA, b"1 2 \n3 4 5", b"1 2 \r\n3 4 \n");
    fast(WA, b"\n", b"");
    fast(WA, b"", b"\n");
    fast(WA, b" \n", b" ");
    fast(WA, b"1\n", b"1");
    fast(WA, b"1 \n", b"1");
    fast(WA, b"1\r\n", b"1\r");

    fast(AC, b"1 2\n3 4", b"1 2\r\n3 4");
    fast(AC, b"1 2 \n3 4", b"1 2 \r\n3 4");
    fast(AC, b"\n", b"\r\n");
    fast(AC, b"", b"");
    fast(AC, b" ", b" ");
    fast(AC, b"1\n", b"1\n");
    fast(AC, b"1\n\r", b"1\n\r");
    fast(AC, b"\r\n", b"\r\n");
    fast(AC, b"\r\n\r\n", b"\r\n\r\n");
    fast(AC, b"\r\n\n", b"\r\n\r\n");
}

#[test]
fn test_compare() {
    test_compare_utf8();
    test_compare_ascii();
    test_compare_fast();
}

#[test]
fn ascii_fields_split_at_every_whitespace_byte() {
    // Two spaces make an empty field, which a single space does not match.
    assert_eq!(compare_ascii(true, b"1  2", b"1 2"), Comparison::WA);
    // A contestant's extra empty field after the last one is tolerated.
    assert_eq!(compare_ascii(true, b"1", b"1  2"), Comparison::AC);
    assert_eq!(compare_ascii(false, b"1", b"1  2"), Comparison::PE);
    // Form feed and tab are whitespace; vertical tab is not.
    assert_eq!(compare_ascii(true, b"1\t2", b"1\x0c2"), Comparison::AC);
    assert_eq!(compare_ascii(true, b"1\x0b2", b"1 2"), Comparison::WA);
}

#[test]
fn ascii_lone_carriage_return_is_kept_on_last_line() {
    assert_eq!(compare_ascii(false, b"1", b"1\r"), Comparison::PE);
    assert_eq!(compare_ascii(true, b"1", b"1\r"), Comparison::AC);
    assert_eq!(compare_ascii(false, b"1\n", b"1\r\n"), Comparison::AC);
}

#[test]
fn utf8_words_ignore_runs_of_whitespace() {
    assert_eq!(compare_utf8(true, "1  2", "1 2"), Comparison::AC);
    assert_eq!(compare_utf8(false, "1  2", "1 2"), Comparison::PE);
    // U+3000 (ideographic space) and U+00A0 are Unicode whitespace.
    assert_eq!(compare_utf8(true, "a\u{3000}b", "a b"), Comparison::AC);
    assert_eq!(compare_utf8(true, "a\u{a0}b", "a b"), Comparison::AC);
    assert_eq!(compare_utf8(true, "a\u{200b}b", "a b"), Comparison::WA);
    assert_eq!(compare_utf8(true, "é ü", "é  ü\n"), Comparison::AC);
}

#[test]
fn verdicts_on_missing_and_extra_lines() {
    assert_eq!(compare_utf8(true, "1\n2\n", "1\n"), Comparison::WA);
    assert_eq!(compare_utf8(true, "1\n", "1\n2\n"), Comparison::WA);
    assert_eq!(compare_ascii(true, b"1\n2\n", b"1\n"), Comparison::WA);
    assert_eq!(compare_ascii(true, b"1\n", b"1\n\n"), Comparison::WA);
    // The first deciding line wins: a presentation error before a wrong answer.
    assert_eq!(compare_ascii(false, b"1 \n2\n", b"1\n3\n"), Comparison::PE);
    assert_eq!(compare_ascii(true, b"1 \n2\n", b"1\n3\n"), Comparison::WA);
}

#[test]
fn comparers_accept_identical_outputs() {
    let samples: [&str; 5] = ["", "\n", "1 2\r\n3", " a  b \n\n c", "x\ry\n"];
    for s in samples.iter() {
        for allow in [false, true] {
            assert_eq!(compare_ascii(allow, s.as_bytes(), s.as_bytes()), Comparison::AC);
            assert_eq!(compare_utf8(allow, s, s), Comparison::AC);
        }
        assert_eq!(compare_fast(s.as_bytes(), s.as_bytes()), Comparison::AC);
    }
}

#[test]
fn permissive_never_answers_pe_and_agrees_otherwise() {
    let pairs: [(&str, &str); 6] = [
        ("1 2\n", "1  2\n"),
        ("1 \n2", "1\n3"),
        ("a\n", "b\n"),
        ("a\n", "a \n"),
        ("", ""),
        ("x", "x\ny"),
    ];
    for (s, u) in pairs.iter() {
        let strict = compare_ascii(false, s.as_bytes(), u.as_bytes());
        let lenient = compare_ascii(true, s.as_bytes(), u.as_bytes());
        assert_ne!(lenient, Comparison::PE);
        if strict != Comparison::PE {
            assert_eq!(lenient, strict);
        }
        let strict = compare_utf8(false, s, u);
        let lenient = compare_utf8(true, s, u);
        assert_ne!(lenient, Comparison::PE);
        if strict != Comparison::PE {
            assert_eq!(lenient, strict);
        }
    }
}

#[test]
fn line_endings_do_not_matter() {
    assert_eq!(compare_ascii(false, b"a b\nc\n", b"a b\r\nc\r\n"), Comparison::AC);
    assert_eq!(compare_utf8(false, "a b\nc\n", "a b\r\nc\r\n"), Comparison::AC);
}

#[test]
fn fast_is_symmetric() {
    let pairs: [(&[u8], &[u8]); 4] = [
        (b"\r\n\n", b"\r\n\r\n"),
        (b"1\r\n", b"1\r"),
        (b"ab", b"a"),
        (b"\r\r\n", b"\r\n"),
    ];
    for (a, b) in pairs.iter() {
        assert_eq!(compare_fast(a, b), compare_fast(b, a));
    }
    // A `\r` is skipped only where it mismatches.
    assert_eq!(compare_fast(b"\r\r\n", b"\r\n"), Comparison::AC);
    assert_eq!(compare_fast(b"a\rb", b"ab"), Comparison::WA);
}

#[test]
fn fast_accepts_crlf_rewriting() {
    let texts: [&[u8]; 4] = [b"1 2\n3 4", b"\n\n", b"x\n", b"abc"];
    for t in texts.iter() {
        let mut crlf: Vec<u8> = Vec::new();
        for &b in t.iter() {
            if b == b'\n' {
                crlf.push(b'\r');
            }
            crlf.push(b);
        }
        assert_eq!(compare_fast(t, &crlf), AC);
        assert_eq!(compare_fast(&crlf, t), AC);
    }
}

#[test]
fn final_line_break_is_optional() {
    let pairs: [(&str, &str); 3] = [("1 2\n3 4\n", "1 2\n3 4"), ("a\n", "a"), ("x y", "x y")];
    for (s, u) in pairs.iter() {
        let with_break = format!("{}\n", u);
        for allow in [false, true] {
            assert_eq!(compare_ascii(allow, s.as_bytes(), u.as_bytes()), compare_ascii(allow, s.as_bytes(), with_break.as_bytes()));
            assert_eq!(compare_utf8(allow, s, u), compare_utf8(allow, s, &with_break));
        }
    }
}

#[test]
fn ascii_and_utf8_agree_on_plain_ascii_text() {
    let texts: [&str; 7] = ["1 2\n3 4\n", "1 2\r\n3 4", "1  2\n", "1 3\n3 4\n", "\n\n", "a\tb\n", " x y \n"];
    for s in texts.iter() {
        for u in texts.iter() {
            for allow in [false, true] {
                let plain = !s.contains("  ") && !u.contains("  ");
                if plain {
                    assert_eq!(compare_ascii(allow, s.as_bytes(), u.as_bytes()), compare_utf8(allow, s, u), "{:?} vs {:?}", s, u);
                }
            }
        }
    }
    // Doubled inner whitespace is where they part: `1  2` has an empty field.
    assert_eq!(compare_ascii(true, b"1 2\n", b"1  2\n"), WA);
    assert_eq!(compare_utf8(true, "1 2\n", "1  2\n"), AC);
}

#[test]
fn fast_reads_in_chunks() {
    const CHUNK: usize = 4 * 1024 * 1024;
    let mut std = vec![b'a'; CHUNK - 1];
    std.extend_from_slice(b"\nb");
    let mut user = vec![b'a'; CHUNK - 1];
    user.extend_from_slice(b"\r\nb");
    // The `\r\n` is split by the end of the first chunk.
    assert_eq!(compare_fast(&std, &user), WA);
    // The same texts without the first part fit in one chunk.
    assert_eq!(compare_fast(b"a\nb", b"a\r\nb"), AC);
    // Equal texts longer than a chunk are accepted.
    assert_eq!(compare_fast(&std, &std), AC);
}
