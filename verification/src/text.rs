//! Text helpers: characters of a string, decimal numerals, path joining.
use vstd::prelude::*;

verus! {

/// Copies the characters of a string into a vector, one element per `char`.
pub fn chars_of(s: &str) -> (r: Vec<char>)
    ensures
        r@ == s@,
{
    let mut r: Vec<char> = Vec::new();
    for c in it: s.chars()
        invariant
            r@ == it.seq().take(it.index() as int),
    {
        r.push(c);
    }
    r
}

/// The decimal digit for `d` (taken modulo ten).
pub open spec fn digit_char(d: nat) -> char {
    let d = d % 10;
    if d == 0 {
        '0'
    } else if d == 1 {
        '1'
    } else if d == 2 {
        '2'
    } else if d == 3 {
        '3'
    } else if d == 4 {
        '4'
    } else if d == 5 {
        '5'
    } else if d == 6 {
        '6'
    } else if d == 7 {
        '7'
    } else if d == 8 {
        '8'
    } else {
        '9'
    }
}

/// The decimal numeral of `n`, without sign or leading zeros.
pub open spec fn decimal(n: nat) -> Seq<char>
    decreases n,
{
    if n < 10 {
        seq![digit_char(n)]
    } else {
        decimal(n / 10) + seq![digit_char(n % 10)]
    }
}

fn digit_str(d: u64) -> (r: &'static str)
    requires
        d < 10,
    ensures
        r@ == seq![digit_char(d as nat)],
{
    proof {
        reveal_strlit("0");
        reveal_strlit("1");
        reveal_strlit("2");
        reveal_strlit("3");
        reveal_strlit("4");
        reveal_strlit("5");
        reveal_strlit("6");
        reveal_strlit("7");
        reveal_strlit("8");
        reveal_strlit("9");
    }
    if d == 0 {
        "0"
    } else if d == 1 {
        "1"
    } else if d == 2 {
        "2"
    } else if d == 3 {
        "3"
    } else if d == 4 {
        "4"
    } else if d == 5 {
        "5"
    } else if d == 6 {
        "6"
    } else if d == 7 {
        "7"
    } else if d == 8 {
        "8"
    } else {
        "9"
    }
}

/// The decimal numeral of `n`, as `n.to_string()` writes it.
pub fn decimal_string(n: u64) -> (r: String)
    ensures
        r@ == decimal(n as nat),
    decreases n,
{
    if n < 10 {
        String::from_str(digit_str(n))
    } else {
        let mut s = decimal_string(n / 10);
        s.append(digit_str(n % 10));
        s
    }
}

/// `Path::join` on Unix: an absolute `name` replaces `dir`; otherwise a `/` is put
/// between them unless `dir` is empty or already ends with one.
pub open spec fn path_join(dir: Seq<char>, name: Seq<char>) -> Seq<char> {
    if name.len() > 0 && name[0] == '/' {
        name
    } else if dir.len() == 0 {
        name
    } else if dir.last() == '/' {
        dir + name
    } else {
        dir + seq!['/'] + name
    }
}

/// Joins a path and a file name as `Path::join` does on Unix.
pub fn join_path(dir: &str, name: &str) -> (r: String)
    ensures
        r@ == path_join(dir@, name@),
{
    proof {
        reveal_strlit("/");
    }
    let nl = name.unicode_len();
    if nl > 0 && name.get_char(0) == '/' {
        return String::from_str(name);
    }
    let dl = dir.unicode_len();
    if dl == 0 {
        return String::from_str(name);
    }
    let mut r = String::from_str(dir);
    if dir.get_char(dl - 1) != '/' {
        r.append("/");
    }
    r.append(name);
    r
}

/// `a` and `b` joined by a dash.
pub fn dashed(a: &str, b: &str) -> (r: String)
    ensures
        r@ == a@ + seq!['-'] + b@,
{
    proof {
        reveal_strlit("-");
    }
    let mut r = String::from_str(a);
    r.append("-");
    r.append(b);
    r
}

/// `s` followed by `suffix`.
pub fn suffixed(s: &str, suffix: &str) -> (r: String)
    ensures
        r@ == s@ + suffix@,
{
    let mut r = String::from_str(s);
    r.append(suffix);
    r
}

/// The character sequences of a list of strings.
pub open spec fn views(v: Seq<String>) -> Seq<Seq<char>> {
    v.map_values(|s: String| s@)
}

/// Appends a copy of `s` to `v`.
pub fn push_str(v: &mut Vec<String>, s: &str)
    ensures
        views(final(v)@) == views(old(v)@).push(s@),
{
    v.push(String::from_str(s));
    proof {
        assert(views(v@) =~= views(old(v)@).push(s@));
    }
}

/// Appends the strings of `w` to `v`.
pub fn extend_strings(v: &mut Vec<String>, w: &Vec<String>)
    ensures
        views(final(v)@) == views(old(v)@) + views(w@),
{
    let n = w.len();
    for k in 0..n
        invariant
            n == w@.len(),
            views(v@) == views(old(v)@) + views(w@.take(k as int)),
    {
        let ghost prev = v@;
        v.push(w[k].clone());
        proof {
            assert(views(v@) =~= views(prev).push(w@[k as int]@));
            assert(views(w@.take(k + 1)) =~= views(w@.take(k as int)).push(w@[k as int]@));
            assert(views(v@) =~= views(old(v)@) + views(w@.take(k + 1)));
        }
    }
    proof {
        assert(w@.take(n as int) =~= w@);
    }
}

} // verus!
