//! Byte-string helpers shared by the handshake and the frame codec.

use vstd::prelude::*;

verus! {

proof fn lemma_xor_or_zero(acc: u8, x: u8, y: u8)
    ensures
        (acc | (x ^ y)) == 0u8 <==> (acc == 0u8 && x == y),
{
    assert((acc | (x ^ y)) == 0u8 <==> (acc == 0u8 && x == y)) by (bit_vector);
}

/// Compares two byte strings in time that depends on their lengths only,
/// not on where they first differ.
pub fn ct_eq(a: &Vec<u8>, b: &Vec<u8>) -> (r: bool)
    ensures
        r == (a@ == b@),
{
    if a.len() != b.len() {
        return false;
    }
    let mut acc: u8 = 0;
    let mut i: usize = 0;
    assert(a@.subrange(0, 0) =~= b@.subrange(0, 0));
    while i < a.len()
        invariant
            a@.len() == b@.len(),
            i <= a@.len(),
            (acc == 0u8) <==> (a@.subrange(0, i as int) == b@.subrange(0, i as int)),
        decreases a@.len() - i,
    {
        proof {
            lemma_xor_or_zero(acc, a@[i as int], b@[i as int]);
            assert(a@.subrange(0, i as int + 1) == a@.subrange(0, i as int).push(a@[i as int]));
            assert(b@.subrange(0, i as int + 1) == b@.subrange(0, i as int).push(b@[i as int]));
            if a@.subrange(0, i as int + 1) == b@.subrange(0, i as int + 1) {
                assert(a@.subrange(0, i as int) == a@.subrange(0, i as int + 1).subrange(0, i as int));
                assert(b@.subrange(0, i as int) == b@.subrange(0, i as int + 1).subrange(0, i as int));
                assert(a@.subrange(0, i as int + 1)[i as int] == b@.subrange(0, i as int + 1)[i as int]);
            }
        }
        acc = acc | (a[i] ^ b[i]);
        i = i + 1;
    }
    assert(a@.subrange(0, a@.len() as int) == a@);
    assert(b@.subrange(0, b@.len() as int) == b@);
    acc == 0
}

/// Copies the bytes of `src` from `start` up to `end`.
pub fn copy_range(src: &Vec<u8>, start: usize, end: usize) -> (r: Vec<u8>)
    requires
        start <= end <= src@.len(),
    ensures
        r@ == src@.subrange(start as int, end as int),
{
    let mut out: Vec<u8> = Vec::with_capacity(end - start);
    let mut i: usize = start;
    while i < end
        invariant
            start <= i <= end <= src@.len(),
            out@ == src@.subrange(start as int, i as int),
        decreases end - i,
    {
        out.push(src[i]);
        i = i + 1;
        assert(out@ =~= src@.subrange(start as int, i as int));
    }
    out
}

/// Appends every byte of `src` to `dst`.
pub fn append_all(dst: &mut Vec<u8>, src: &Vec<u8>)
    ensures
        final(dst)@ == old(dst)@ + src@,
{
    let mut i: usize = 0;
    while i < src.len()
        invariant
            i <= src@.len(),
            dst@ == old(dst)@ + src@.subrange(0, i as int),
        decreases src@.len() - i,
    {
        dst.push(src[i]);
        i = i + 1;
        assert(dst@ =~= old(dst)@ + src@.subrange(0, i as int));
    }
    assert(src@.subrange(0, src@.len() as int) == src@);
}

} // verus!
