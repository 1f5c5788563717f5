//! Byte-level helpers shared by the wire codecs.

use vstd::prelude::*;

verus! {

/// Unsigned value of `s` read most significant byte first; an empty
/// sequence is zero, so a short sequence reads as if zero-extended on the left.
pub open spec fn be_value(s: Seq<u8>) -> nat
    decreases s.len(),
{
    if s.len() == 0 {
        0
    } else {
        be_value(s.drop_last()) * 256 + s.last() as nat
    }
}

/// Little-endian 32-bit value of the four bytes of `s` starting at `i`.
pub open spec fn le_u32_at(s: Seq<u8>, i: int) -> nat {
    s[i] as nat + s[i + 1] as nat * 256 + s[i + 2] as nat * 65536 + s[i + 3] as nat * 16777216
}

/// Little-endian 16-bit value of the two bytes of `s` starting at `i`.
pub open spec fn le_u16_at(s: Seq<u8>, i: int) -> nat {
    s[i] as nat + s[i + 1] as nat * 256
}

/// Big-endian 16-bit value of the two bytes of `s` starting at `i`.
pub open spec fn be_u16_at(s: Seq<u8>, i: int) -> nat {
    s[i] as nat * 256 + s[i + 1] as nat
}

/// Big-endian 32-bit value of the four bytes of `s` starting at `i`.
pub open spec fn be_u32_at(s: Seq<u8>, i: int) -> nat {
    s[i] as nat * 16777216 + s[i + 1] as nat * 65536 + s[i + 2] as nat * 256 + s[i + 3] as nat
}

pub fn read_le_u32(s: &[u8], i: usize) -> (r: u32)
    requires
        i + 4 <= s@.len(),
    ensures
        r as nat == le_u32_at(s@, i as int),
{
    s[i] as u32 + s[i + 1] as u32 * 256 + s[i + 2] as u32 * 65536 + s[i + 3] as u32 * 16777216
}

pub fn read_le_u16(s: &[u8], i: usize) -> (r: u16)
    requires
        i + 2 <= s@.len(),
    ensures
        r as nat == le_u16_at(s@, i as int),
{
    s[i] as u16 + s[i + 1] as u16 * 256
}

pub fn read_be_u16(s: &[u8], i: usize) -> (r: u16)
    requires
        i + 2 <= s@.len(),
    ensures
        r as nat == be_u16_at(s@, i as int),
{
    s[i] as u16 * 256 + s[i + 1] as u16
}

pub fn read_be_u32(s: &[u8], i: usize) -> (r: u32)
    requires
        i + 4 <= s@.len(),
    ensures
        r as nat == be_u32_at(s@, i as int),
{
    s[i] as u32 * 16777216 + s[i + 1] as u32 * 65536 + s[i + 2] as u32 * 256 + s[i + 3] as u32
}

/// A value of at most eight bytes fits in 64 bits.
pub proof fn lemma_be_value_bound(s: Seq<u8>)
    ensures
        be_value(s) < pow256(s.len()),
    decreases s.len(),
{
    if s.len() > 0 {
        lemma_be_value_bound(s.drop_last());
        assert(be_value(s.drop_last()) * 256 + (s.last() as nat) < pow256(s.len())) by (nonlinear_arith)
            requires
                be_value(s.drop_last()) < pow256((s.len() - 1) as nat),
                pow256(s.len()) == pow256((s.len() - 1) as nat) * 256,
                s.last() < 256,
        ;
    }
}

pub open spec fn pow256(n: nat) -> nat
    decreases n,
{
    if n == 0 {
        1
    } else {
        pow256((n - 1) as nat) * 256
    }
}

/// Big-endian value of `s[from..to]`, zero-extended to 64 bits.
pub fn read_be_uint(s: &[u8], from: usize, to: usize) -> (r: u64)
    requires
        from <= to <= s@.len(),
        to - from <= 8,
    ensures
        r as nat == be_value(s@.subrange(from as int, to as int)),
{
    let mut acc: u64 = 0;
    let mut i: usize = from;
    while i < to
        invariant
            from <= i <= to <= s@.len(),
            to - from <= 8,
            acc as nat == be_value(s@.subrange(from as int, i as int)),
        decreases to - i,
    {
        proof {
            let prefix = s@.subrange(from as int, i as int);
            lemma_be_value_bound(prefix);
            assert(pow256(prefix.len()) <= pow256(7)) by {
                lemma_pow256_mono(prefix.len(), 7);
            }
            assert(pow256(7) == 0x100000000000000) by {
                reveal_with_fuel(pow256, 8);
            }
            assert(s@.subrange(from as int, i + 1).drop_last() =~= prefix);
        }
        acc = acc * 256 + s[i] as u64;
        i = i + 1;
    }
    acc
}

pub proof fn lemma_pow256_mono(a: nat, b: nat)
    requires
        a <= b,
    ensures
        pow256(a) <= pow256(b),
    decreases b,
{
    if a < b {
        lemma_pow256_mono(a, (b - 1) as nat);
    }
}

/// Appends `src[from..to]` to `dst`.
pub fn push_range(dst: &mut Vec<u8>, src: &[u8], from: usize, to: usize)
    requires
        from <= to <= src@.len(),
    ensures
        final(dst)@ == old(dst)@ + src@.subrange(from as int, to as int),
{
    let mut i: usize = from;
    while i < to
        invariant
            from <= i <= to <= src@.len(),
            dst@ == old(dst)@ + src@.subrange(from as int, i as int),
        decreases to - i,
    {
        dst.push(src[i]);
        i = i + 1;
        assert(dst@ =~= old(dst)@ + src@.subrange(from as int, i as int));
    }
}

} // verus!
