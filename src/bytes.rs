//! Little-endian byte encodings of fixed-width integers.
use vstd::prelude::*;

verus! {

/// Byte `i` (counting from the least significant) of `v`.
pub open spec fn byte_of(v: u64, i: int) -> u8 {
    ((v >> (8 * i) as u64) & 0xff) as u8
}

/// The eight bytes of `v`, least significant first.
pub open spec fn u64_le(v: u64) -> Seq<u8> {
    Seq::new(8, |i: int| byte_of(v, i))
}

/// The four bytes of `v`, least significant first.
pub open spec fn u32_le(v: u32) -> Seq<u8> {
    Seq::new(4, |i: int| byte_of(v as u64, i))
}

/// Appends the little-endian bytes of the low `n` bytes of `v` to `out`.
fn push_le(out: &mut Vec<u8>, v: u64, n: usize)
    requires
        n <= 8,
    ensures
        final(out)@ == old(out)@ + Seq::new(n as nat, |i: int| byte_of(v, i)),
{
    let ghost start = old(out)@;
    let mut i: usize = 0;
    while i < n
        invariant
            i <= n <= 8,
            out@ == start + Seq::new(i as nat, |k: int| byte_of(v, k)),
        decreases n - i,
    {
        let b: u8 = ((v >> (8 * i) as u64) & 0xff) as u8;
        out.push(b);
        i = i + 1;
        assert(out@ =~= start + Seq::new(i as nat, |k: int| byte_of(v, k)));
    }
}

/// Appends the eight little-endian bytes of `v` to `out`.
pub fn push_u64_le(out: &mut Vec<u8>, v: u64)
    ensures
        final(out)@ == old(out)@ + u64_le(v),
{
    push_le(out, v, 8);
}

/// Appends the four little-endian bytes of `v` to `out`.
pub fn push_u32_le(out: &mut Vec<u8>, v: u32)
    ensures
        final(out)@ == old(out)@ + u32_le(v),
{
    push_le(out, v as u64, 4);
}

/// Appends the bytes of `src` to `out`.
pub fn append(out: &mut Vec<u8>, src: &[u8])
    ensures
        final(out)@ == old(out)@ + src@,
{
    let ghost start = old(out)@;
    let mut i: usize = 0;
    while i < src.len()
        invariant
            i <= src@.len(),
            out@ == start + src@.subrange(0, i as int),
        decreases src@.len() - i,
    {
        out.push(src[i]);
        i = i + 1;
        assert(out@ =~= start + src@.subrange(0, i as int));
    }
    assert(src@.subrange(0, src@.len() as int) =~= src@);
}

proof fn lemma_bytes_determine_u64(a: u64, b: u64)
    requires
        (a >> 0u64) & 0xff == (b >> 0u64) & 0xff,
        (a >> 8u64) & 0xff == (b >> 8u64) & 0xff,
        (a >> 16u64) & 0xff == (b >> 16u64) & 0xff,
        (a >> 24u64) & 0xff == (b >> 24u64) & 0xff,
        (a >> 32u64) & 0xff == (b >> 32u64) & 0xff,
        (a >> 40u64) & 0xff == (b >> 40u64) & 0xff,
        (a >> 48u64) & 0xff == (b >> 48u64) & 0xff,
        (a >> 56u64) & 0xff == (b >> 56u64) & 0xff,
    ensures
        a == b,
{
    assert(a == b) by (bit_vector)
        requires
            (a >> 0u64) & 0xff == (b >> 0u64) & 0xff,
            (a >> 8u64) & 0xff == (b >> 8u64) & 0xff,
            (a >> 16u64) & 0xff == (b >> 16u64) & 0xff,
            (a >> 24u64) & 0xff == (b >> 24u64) & 0xff,
            (a >> 32u64) & 0xff == (b >> 32u64) & 0xff,
            (a >> 40u64) & 0xff == (b >> 40u64) & 0xff,
            (a >> 48u64) & 0xff == (b >> 48u64) & 0xff,
            (a >> 56u64) & 0xff == (b >> 56u64) & 0xff,
    ;
}

proof fn lemma_mask_byte(x: u64)
    by (bit_vector)
    ensures
        x & 0xff <= 0xff,
{
}

/// Equal bytes of two values mean equal masked shifts.
proof fn lemma_byte_eq(a: u64, b: u64, i: int)
    requires
        0 <= i < 8,
        byte_of(a, i) == byte_of(b, i),
    ensures
        (a >> (8 * i) as u64) & 0xff == (b >> (8 * i) as u64) & 0xff,
{
    lemma_mask_byte(a >> (8 * i) as u64);
    lemma_mask_byte(b >> (8 * i) as u64);
}

/// Distinct values have distinct eight-byte encodings.
pub proof fn lemma_u64_le_injective(a: u64, b: u64)
    requires
        u64_le(a) == u64_le(b),
    ensures
        a == b,
{
    let (ea, eb) = (u64_le(a), u64_le(b));
    assert(ea[0] == eb[0] && ea[1] == eb[1] && ea[2] == eb[2] && ea[3] == eb[3]);
    assert(ea[4] == eb[4] && ea[5] == eb[5] && ea[6] == eb[6] && ea[7] == eb[7]);
    lemma_byte_eq(a, b, 0);
    lemma_byte_eq(a, b, 1);
    lemma_byte_eq(a, b, 2);
    lemma_byte_eq(a, b, 3);
    lemma_byte_eq(a, b, 4);
    lemma_byte_eq(a, b, 5);
    lemma_byte_eq(a, b, 6);
    lemma_byte_eq(a, b, 7);
    lemma_bytes_determine_u64(a, b);
}

/// Distinct values have distinct four-byte encodings.
pub proof fn lemma_u32_le_injective(a: u32, b: u32)
    requires
        u32_le(a) == u32_le(b),
    ensures
        a == b,
{
    let (wa, wb) = (a as u64, b as u64);
    let (ea, eb) = (u32_le(a), u32_le(b));
    assert(ea[0] == eb[0] && ea[1] == eb[1] && ea[2] == eb[2] && ea[3] == eb[3]);
    lemma_byte_eq(wa, wb, 0);
    lemma_byte_eq(wa, wb, 1);
    lemma_byte_eq(wa, wb, 2);
    lemma_byte_eq(wa, wb, 3);
    assert(wa == wb) by (bit_vector)
        requires
            wa <= 0xffff_ffff,
            wb <= 0xffff_ffff,
            (wa >> 0u64) & 0xff == (wb >> 0u64) & 0xff,
            (wa >> 8u64) & 0xff == (wb >> 8u64) & 0xff,
            (wa >> 16u64) & 0xff == (wb >> 16u64) & 0xff,
            (wa >> 24u64) & 0xff == (wb >> 24u64) & 0xff,
    ;
}

} // verus!
