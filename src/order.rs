//! Lexicographic order on strings and on counter keys.

use vstd::prelude::*;
use vstd::utf8::char_u32_cast;

verus! {

/// Lexicographic order on character sequences, code point by code point
/// (for UTF-8 text the same as byte order).
pub open spec fn seq_lt(x: Seq<char>, y: Seq<char>) -> bool
    decreases x.len(),
{
    if x.len() == 0 {
        y.len() > 0
    } else if y.len() == 0 {
        false
    } else if (x[0] as u32) != (y[0] as u32) {
        (x[0] as u32) < (y[0] as u32)
    } else {
        seq_lt(x.subrange(1, x.len() as int), y.subrange(1, y.len() as int))
    }
}

/// Order of counter keys: by type id, then object name, then stat id.
pub open spec fn key_lt(a: (Seq<char>, u32, u32), b: (Seq<char>, u32, u32)) -> bool {
    a.1 < b.1 || (a.1 == b.1 && (seq_lt(a.0, b.0) || (a.0 == b.0 && a.2 < b.2)))
}

pub proof fn lemma_seq_lt_transitive(x: Seq<char>, y: Seq<char>, z: Seq<char>)
    requires
        seq_lt(x, y),
        seq_lt(y, z),
    ensures
        seq_lt(x, z),
    decreases x.len(),
{
    if x.len() > 0 && y.len() > 0 && z.len() > 0 {
        if (x[0] as u32) == (y[0] as u32) && (y[0] as u32) == (z[0] as u32) {
            lemma_seq_lt_transitive(x.subrange(1, x.len() as int), y.subrange(1, y.len() as int), z.subrange(1, z.len() as int));
        }
    }
}

pub proof fn lemma_seq_lt_total(x: Seq<char>, y: Seq<char>)
    requires
        x != y,
    ensures
        seq_lt(x, y) || seq_lt(y, x),
    decreases x.len(),
{
    if x.len() > 0 && y.len() > 0 && (x[0] as u32) == (y[0] as u32) {
        char_u32_cast(x[0], x[0] as u32);
        char_u32_cast(y[0], y[0] as u32);
        let xs = x.subrange(1, x.len() as int);
        let ys = y.subrange(1, y.len() as int);
        if xs == ys {
            assert(x =~= seq![x[0]] + xs);
            assert(y =~= seq![y[0]] + ys);
        }
        lemma_seq_lt_total(xs, ys);
    } else if x.len() == 0 && y.len() == 0 {
        assert(x =~= y);
    }
}

pub proof fn lemma_key_lt_transitive(a: (Seq<char>, u32, u32), b: (Seq<char>, u32, u32), c: (Seq<char>, u32, u32))
    requires
        key_lt(a, b),
        key_lt(b, c),
    ensures
        key_lt(a, c),
{
    if a.1 == b.1 && b.1 == c.1 && seq_lt(a.0, b.0) && seq_lt(b.0, c.0) {
        lemma_seq_lt_transitive(a.0, b.0, c.0);
    }
}

pub proof fn lemma_key_lt_total(a: (Seq<char>, u32, u32), b: (Seq<char>, u32, u32))
    requires
        a != b,
    ensures
        key_lt(a, b) || key_lt(b, a),
{
    if a.0 != b.0 {
        lemma_seq_lt_total(a.0, b.0);
    }
}

/// Whether `x` orders before `y`.
pub fn str_lt(x: &str, y: &str) -> (r: bool)
    ensures
        r == seq_lt(x@, y@),
{
    let n = x.unicode_len();
    let m = y.unicode_len();
    let mut i: usize = 0;
    assert(x@.subrange(0, n as int) =~= x@);
    assert(y@.subrange(0, m as int) =~= y@);
    while i < n && i < m && (x.get_char(i) as u32) == (y.get_char(i) as u32)
        invariant
            i <= n == x@.len(),
            i <= m == y@.len(),
            seq_lt(x@, y@) == seq_lt(x@.subrange(i as int, n as int), y@.subrange(i as int, m as int)),
        decreases n - i,
    {
        assert(x@.subrange(i as int, n as int).subrange(1, (n - i) as int) =~= x@.subrange(i + 1, n as int));
        assert(y@.subrange(i as int, m as int).subrange(1, (m - i) as int) =~= y@.subrange(i + 1, m as int));
        i = i + 1;
    }
    if i == n {
        return i < m;
    }
    if i == m {
        return false;
    }
    (x.get_char(i) as u32) < (y.get_char(i) as u32)
}

} // verus!
