//! Raw comparison: the texts must agree byte for byte, except that a `\r\n` on one
//! side may stand where the other side has `\n`.
use super::Comparison;
use vstd::prelude::*;

verus! {

/// Walks `a` from `i` and `b` from `j` together. Equal bytes advance both; on a
/// mismatch, a side that stands on a `\r` followed by `\n` skips the `\r`, and when
/// neither does the texts differ. Both texts must end at the same step.
pub open spec fn chunk_match(a: Seq<u8>, b: Seq<u8>, i: int, j: int) -> bool
    decreases a.len() - i + b.len() - j,
{
    if !(0 <= i < a.len() && 0 <= j < b.len()) {
        false
    } else if a[i] == b[j] {
        if i + 1 >= a.len() || j + 1 >= b.len() {
            i + 1 >= a.len() && j + 1 >= b.len()
        } else {
            chunk_match(a, b, i + 1, j + 1)
        }
    } else {
        let ta = i + 1 < a.len() && a[i] == 13u8 && a[i + 1] == 10u8;
        let tb = j + 1 < b.len() && b[j] == 13u8 && b[j + 1] == 10u8;
        if ta || tb {
            chunk_match(
                a,
                b,
                if ta {
                    i + 1
                } else {
                    i
                },
                if tb {
                    j + 1
                } else {
                    j
                },
            )
        } else {
            false
        }
    }
}

/// A pair of read chunks agree: both empty, or `chunk_match` from their starts. An
/// empty chunk agrees only with an empty one.
pub open spec fn chunk_compare(a: Seq<u8>, b: Seq<u8>) -> bool {
    if a.len() == 0 || b.len() == 0 {
        a.len() == b.len()
    } else {
        chunk_match(a, b, 0, 0)
    }
}

/// How many bytes `compare_fast` reads from each text at a time.
pub const FAST_CHUNK: usize = 4194304;

/// The chunk of `s` that a read at `i` gives: up to `FAST_CHUNK` bytes.
pub open spec fn chunk_at(s: Seq<u8>, i: int) -> Seq<u8> {
    s.subrange(
        i,
        if i + FAST_CHUNK <= s.len() {
            i + FAST_CHUNK
        } else {
            s.len() as int
        },
    )
}

/// Reading `std` from `i` and `user` from `j` chunk by chunk: each pair of chunks
/// must agree; the reference running out first requires the contestant's text to
/// end too, and the contestant's running out first is `WA`.
pub open spec fn fast_from(std: Seq<u8>, user: Seq<u8>, i: int, j: int) -> Comparison
    decreases std.len() - i,
{
    if i < 0 || j < 0 || i >= std.len() {
        if j >= user.len() {
            Comparison::AC
        } else {
            Comparison::WA
        }
    } else if j >= user.len() {
        Comparison::WA
    } else if !chunk_compare(chunk_at(std, i), chunk_at(user, j)) {
        Comparison::WA
    } else {
        fast_from(std, user, i + chunk_at(std, i).len(), j + chunk_at(user, j).len())
    }
}

/// What `compare_fast` answers for the reference text `std` and the contestant's `user`.
pub open spec fn fast_verdict(std: Seq<u8>, user: Seq<u8>) -> Comparison {
    fast_from(std, user, 0, 0)
}

/// Compares two outputs in chunks of `FAST_CHUNK` bytes read from each side in
/// turn: within a pair of chunks the bytes must agree, where a `\r\n` on one side
/// may match a `\n` on the other (see `chunk_match`); a `\r\n` split by a chunk
/// boundary does not match. Never answers `PE`.
pub fn compare_fast(std: &[u8], user: &[u8]) -> (r: Comparison)
    ensures
        r == fast_verdict(std@, user@),
{
    let mut i: usize = 0;
    let mut j: usize = 0;
    loop
        invariant
            i <= std@.len(),
            j <= user@.len(),
            fast_verdict(std@, user@) == fast_from(std@, user@, i as int, j as int),
        decreases std@.len() - i,
    {
        if i >= std.len() {
            if j >= user.len() {
                return Comparison::AC;
            }
            return Comparison::WA;
        }
        if j >= user.len() {
            return Comparison::WA;
        }
        let ei = if std.len() - i >= FAST_CHUNK {
            i + FAST_CHUNK
        } else {
            std.len()
        };
        let ej = if user.len() - j >= FAST_CHUNK {
            j + FAST_CHUNK
        } else {
            user.len()
        };
        proof {
            assert(chunk_at(std@, i as int) == std@.subrange(i as int, ei as int));
            assert(chunk_at(user@, j as int) == user@.subrange(j as int, ej as int));
        }
        if !compare_chunk(std, i, ei, user, j, ej) {
            return Comparison::WA;
        }
        i = ei;
        j = ej;
    }
}

/// Whether the chunks `a[a0..a1]` and `b[b0..b1]` agree.
fn compare_chunk(a: &[u8], a0: usize, a1: usize, b: &[u8], b0: usize, b1: usize) -> (r: bool)
    requires
        a0 <= a1 <= a@.len(),
        b0 <= b1 <= b@.len(),
    ensures
        r == chunk_compare(a@.subrange(a0 as int, a1 as int), b@.subrange(b0 as int, b1 as int)),
{
    let ghost sa = a@.subrange(a0 as int, a1 as int);
    let ghost sb = b@.subrange(b0 as int, b1 as int);
    if a0 == a1 || b0 == b1 {
        return a1 - a0 == b1 - b0;
    }
    let ea = a1 - a0 - 1;
    let eb = b1 - b0 - 1;
    let mut i: usize = 0;
    let mut j: usize = 0;
    loop
        invariant
            a0 < a1 <= a@.len(),
            b0 < b1 <= b@.len(),
            sa == a@.subrange(a0 as int, a1 as int),
            sb == b@.subrange(b0 as int, b1 as int),
            ea == sa.len() - 1,
            eb == sb.len() - 1,
            i <= ea,
            j <= eb,
            chunk_compare(sa, sb) == chunk_match(sa, sb, i as int, j as int),
        decreases sa.len() - i + sb.len() - j,
    {
        if a[a0 + i] != b[b0 + j] {
            let ta = i < ea && a[a0 + i] == 13u8 && a[a0 + i + 1] == 10u8;
            if ta {
                i = i + 1;
            }
            let tb = j < eb && b[b0 + j] == 13u8 && b[b0 + j + 1] == 10u8;
            if tb {
                j = j + 1;
            }
            if ta || tb {
                continue;
            }
            return false;
        }
        if i == ea || j == eb {
            return i == ea && j == eb;
        }
        i = i + 1;
        j = j + 1;
    }
}

} // verus!
