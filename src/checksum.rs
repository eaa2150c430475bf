//! The two-byte Fletcher-style checksum that guards every UBX frame.
use vstd::prelude::*;

verus! {

/// Accumulator `a` after folding every byte of `s`: the byte sum modulo 256.
pub open spec fn ck_a(s: Seq<u8>) -> u8
    decreases s.len(),
{
    if s.len() == 0 {
        0
    } else {
        ((ck_a(s.drop_last()) + s.last()) % 256) as u8
    }
}

/// Accumulator `b` after folding every byte of `s`: the sum, modulo 256, of the
/// values taken by `a` after each byte.
pub open spec fn ck_b(s: Seq<u8>) -> u8
    decreases s.len(),
{
    if s.len() == 0 {
        0
    } else {
        ((ck_b(s.drop_last()) + ck_a(s)) % 256) as u8
    }
}

/// Plain sum of the bytes of `s`.
pub open spec fn byte_sum(s: Seq<u8>) -> int
    decreases s.len(),
{
    if s.len() == 0 {
        0
    } else {
        byte_sum(s.drop_last()) + s.last()
    }
}

/// Computes both checksum accumulators over `data`, each wrapping modulo 256.
pub fn ubx_checksum(data: &[u8]) -> (r: (u8, u8))
    ensures
        r == (ck_a(data@), ck_b(data@)),
{
    let mut a: u8 = 0;
    let mut b: u8 = 0;
    let mut i: usize = 0;
    while i < data.len()
        invariant
            i <= data@.len(),
            a == ck_a(data@.subrange(0, i as int)),
            b == ck_b(data@.subrange(0, i as int)),
        decreases data@.len() - i,
    {
        proof {
            let next = data@.subrange(0, i + 1);
            assert(next.drop_last() =~= data@.subrange(0, i as int));
        }
        a = a.wrapping_add(data[i]);
        b = b.wrapping_add(a);
        i = i + 1;
    }
    assert(data@.subrange(0, data@.len() as int) =~= data@);
    (a, b)
}

/// Accumulator `a` is the byte sum taken modulo 256.
pub proof fn lemma_ck_a_is_sum(s: Seq<u8>)
    ensures
        ck_a(s) as int == byte_sum(s) % 256,
    decreases s.len(),
{
    if s.len() > 0 {
        lemma_ck_a_is_sum(s.drop_last());
    }
}

/// The byte sum over a concatenation is the sum of the two byte sums.
pub proof fn lemma_byte_sum_concat(s: Seq<u8>, t: Seq<u8>)
    ensures
        byte_sum(s + t) == byte_sum(s) + byte_sum(t),
    decreases t.len(),
{
    if t.len() == 0 {
        assert(s + t =~= s);
    } else {
        assert((s + t).drop_last() =~= s + t.drop_last());
        lemma_byte_sum_concat(s, t.drop_last());
    }
}

} // verus!
