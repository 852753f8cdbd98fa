//! Byte-sequence helpers shared by the codecs.

use vstd::prelude::*;

verus! {

/// Appends every byte of `src` to `out`.
pub fn push_all(out: &mut Vec<u8>, src: &[u8])
    ensures
        final(out)@ == old(out)@ + src@,
{
    let mut i: usize = 0;
    while i < src.len()
        invariant
            i <= src@.len(),
            out@ == old(out)@ + src@.subrange(0, i as int),
        decreases src@.len() - i,
    {
        out.push(src[i]);
        i += 1;
        assert(src@.subrange(0, i as int) =~= src@.subrange(0, i - 1) + seq![src@[i - 1]]);
    }
    assert(src@.subrange(0, i as int) =~= src@);
}

/// The 2 bytes of `b` from offset `at` on.
pub fn read2(b: &[u8], at: usize) -> (r: [u8; 2])
    requires
        at + 2 <= b@.len(),
    ensures
        r@ == b@.subrange(at as int, at + 2),
{
    let r = [b[at], b[at + 1]];
    assert(r@ =~= b@.subrange(at as int, at + 2));
    r
}

/// The 4 bytes of `b` from offset `at` on.
pub fn read4(b: &[u8], at: usize) -> (r: [u8; 4])
    requires
        at + 4 <= b@.len(),
    ensures
        r@ == b@.subrange(at as int, at + 4),
{
    let r = [b[at], b[at + 1], b[at + 2], b[at + 3]];
    assert(r@ =~= b@.subrange(at as int, at + 4));
    r
}

/// The 6 bytes of `b` from offset `at` on.
pub fn read6(b: &[u8], at: usize) -> (r: [u8; 6])
    requires
        at + 6 <= b@.len(),
    ensures
        r@ == b@.subrange(at as int, at + 6),
{
    let r = [b[at], b[at + 1], b[at + 2], b[at + 3], b[at + 4], b[at + 5]];
    assert(r@ =~= b@.subrange(at as int, at + 6));
    r
}

/// The 7 bytes of `b` from offset `at` on.
pub fn read7(b: &[u8], at: usize) -> (r: [u8; 7])
    requires
        at + 7 <= b@.len(),
    ensures
        r@ == b@.subrange(at as int, at + 7),
{
    let r = [b[at], b[at + 1], b[at + 2], b[at + 3], b[at + 4], b[at + 5], b[at + 6]];
    assert(r@ =~= b@.subrange(at as int, at + 7));
    r
}

/// The 16 bytes of `b` from offset `at` on.
pub fn read16(b: &[u8], at: usize) -> (r: [u8; 16])
    requires
        at + 16 <= b@.len(),
    ensures
        r@ == b@.subrange(at as int, at + 16),
{
    let r = [b[at], b[at + 1], b[at + 2], b[at + 3], b[at + 4], b[at + 5], b[at + 6], b[at + 7], b[at + 8], b[at + 9], b[at + 10], b[at + 11], b[at + 12], b[at + 13], b[at + 14], b[at + 15]];
    assert(r@ =~= b@.subrange(at as int, at + 16));
    r
}

/// The two bytes of `v` in network (big-endian) order.
pub open spec fn be16(v: u16) -> Seq<u8> {
    seq![(v / 256) as u8, (v % 256) as u8]
}

/// The 16-bit value whose network-order bytes are `hi` then `lo`.
pub open spec fn from_be16(hi: u8, lo: u8) -> u16 {
    (hi as int * 256 + lo as int) as u16
}

/// The two bytes of `v` in network (big-endian) order.
pub fn network_order(v: u16) -> (r: [u8; 2])
    ensures
        r@ == be16(v),
{
    let r = [(v / 256) as u8, (v % 256) as u8];
    assert(r@ =~= be16(v));
    r
}

/// Reads a 16-bit value stored in network order at offset `at` of `b`.
pub fn read_be16(b: &[u8], at: usize) -> (r: u16)
    requires
        at + 2 <= b@.len(),
    ensures
        r == from_be16(b@[at as int], b@[at + 1]),
{
    (b[at] as u16) * 256 + (b[at + 1] as u16)
}

/// Reading back the network-order bytes of a value gives the value.
pub proof fn lemma_be16_round_trip(v: u16)
    ensures
        from_be16(be16(v)[0], be16(v)[1]) == v,
{
    assert((v / 256) as u8 as int * 256 + (v % 256) as u8 as int == v as int) by (nonlinear_arith);
}

} // verus!
