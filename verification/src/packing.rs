//! Little-endian integers and byte runs inside account buffers.

use crate::math::decimal::{scaled, Decimal};
use vstd::prelude::*;

verus! {

/// The eight bytes of `x`, least significant first.
pub open spec fn u64_le(x: u64) -> Seq<u8> {
    seq![
        (x & 0xff) as u8,
        ((x >> 8) & 0xff) as u8,
        ((x >> 16) & 0xff) as u8,
        ((x >> 24) & 0xff) as u8,
        ((x >> 32) & 0xff) as u8,
        ((x >> 40) & 0xff) as u8,
        ((x >> 48) & 0xff) as u8,
        ((x >> 56) & 0xff) as u8,
    ]
}

/// The number that eight bytes hold, least significant first.
pub open spec fn le_u64(s: Seq<u8>) -> u64
    recommends
        s.len() == 8,
{
    join_u64(s[0], s[1], s[2], s[3], s[4], s[5], s[6], s[7])
}

/// The number whose bytes, least significant first, are `b0` to `b7`.
pub open spec fn join_u64(b0: u8, b1: u8, b2: u8, b3: u8, b4: u8, b5: u8, b6: u8, b7: u8) -> u64 {
    (b0 as u64) | ((b1 as u64) << 8) | ((b2 as u64) << 16) | ((b3 as u64) << 24) | ((b4 as u64)
        << 32) | ((b5 as u64) << 40) | ((b6 as u64) << 48) | ((b7 as u64) << 56)
}

/// The sixteen bytes of `x`, least significant first.
pub open spec fn u128_le(x: u128) -> Seq<u8> {
    u64_le((x % 0x1_0000_0000_0000_0000) as u64) + u64_le((x / 0x1_0000_0000_0000_0000) as u64)
}

/// The number that sixteen bytes hold, least significant first.
pub open spec fn le_u128(s: Seq<u8>) -> u128
    recommends
        s.len() == 16,
{
    (le_u64(s.subrange(0, 8)) as nat + le_u64(s.subrange(8, 16)) as nat
        * 0x1_0000_0000_0000_0000) as u128
}

/// The sixteen bytes that carry a decimal: its scaled integer, which has to
/// fit in 128 bits.
pub open spec fn decimal_le(d: Decimal) -> Seq<u8>
    recommends
        d@ <= u128::MAX,
{
    u128_le(d@ as u128)
}

/// The decimal that sixteen bytes carry.
pub open spec fn le_decimal(s: Seq<u8>) -> Decimal
    recommends
        s.len() == 16,
{
    scaled(le_u128(s) as nat)
}

/// Reading back what was written gives the number.
pub proof fn lemma_u64_le_round_trip(x: u64)
    ensures
        u64_le(x).len() == 8,
        le_u64(u64_le(x)) == x,
{
    assert(join_u64(
        (x & 0xff) as u8,
        ((x >> 8) & 0xff) as u8,
        ((x >> 16) & 0xff) as u8,
        ((x >> 24) & 0xff) as u8,
        ((x >> 32) & 0xff) as u8,
        ((x >> 40) & 0xff) as u8,
        ((x >> 48) & 0xff) as u8,
        ((x >> 56) & 0xff) as u8,
    ) == x) by {
        lemma_split_join(x);
    }
}

proof fn lemma_split_join(x: u64)
    ensures
        (((x & 0xff) as u8) as u64) | (((((x >> 8) & 0xff) as u8) as u64) << 8) | (((((x >> 16)
            & 0xff) as u8) as u64) << 16) | (((((x >> 24) & 0xff) as u8) as u64) << 24) | (((((x
            >> 32) & 0xff) as u8) as u64) << 32) | (((((x >> 40) & 0xff) as u8) as u64) << 40) | (((((x
            >> 48) & 0xff) as u8) as u64) << 48) | (((((x >> 56) & 0xff) as u8) as u64) << 56) == x,
{
    assert((((x & 0xff) as u8) as u64) | (((((x >> 8) & 0xff) as u8) as u64) << 8) | (((((x >> 16)
        & 0xff) as u8) as u64) << 16) | (((((x >> 24) & 0xff) as u8) as u64) << 24) | (((((x >> 32)
        & 0xff) as u8) as u64) << 32) | (((((x >> 40) & 0xff) as u8) as u64) << 40) | (((((x >> 48)
        & 0xff) as u8) as u64) << 48) | (((((x >> 56) & 0xff) as u8) as u64) << 56) == x)
        by (bit_vector);
}

proof fn lemma_join_split(b0: u8, b1: u8, b2: u8, b3: u8, b4: u8, b5: u8, b6: u8, b7: u8)
    ensures
        ({
            let x = join_u64(b0, b1, b2, b3, b4, b5, b6, b7);
            &&& (x & 0xff) as u8 == b0
            &&& ((x >> 8) & 0xff) as u8 == b1
            &&& ((x >> 16) & 0xff) as u8 == b2
            &&& ((x >> 24) & 0xff) as u8 == b3
            &&& ((x >> 32) & 0xff) as u8 == b4
            &&& ((x >> 40) & 0xff) as u8 == b5
            &&& ((x >> 48) & 0xff) as u8 == b6
            &&& ((x >> 56) & 0xff) as u8 == b7
        }),
{
    let x = (b0 as u64) | ((b1 as u64) << 8) | ((b2 as u64) << 16) | ((b3 as u64) << 24) | ((b4 as u64)
        << 32) | ((b5 as u64) << 40) | ((b6 as u64) << 48) | ((b7 as u64) << 56);
    assert((x & 0xff) as u8 == b0 && ((x >> 8) & 0xff) as u8 == b1 && ((x >> 16) & 0xff) as u8 == b2
        && ((x >> 24) & 0xff) as u8 == b3 && ((x >> 32) & 0xff) as u8 == b4 && ((x >> 40)
        & 0xff) as u8 == b5 && ((x >> 48) & 0xff) as u8 == b6 && ((x >> 56) & 0xff) as u8 == b7)
        by (bit_vector)
        requires
            x == (b0 as u64) | ((b1 as u64) << 8) | ((b2 as u64) << 16) | ((b3 as u64) << 24) | ((
            b4 as u64) << 32) | ((b5 as u64) << 40) | ((b6 as u64) << 48) | ((b7 as u64) << 56),
    ;
}

/// Writing what was read gives the bytes.
pub proof fn lemma_le_u64_round_trip(s: Seq<u8>)
    requires
        s.len() == 8,
    ensures
        u64_le(le_u64(s)) == s,
{
    lemma_join_split(s[0], s[1], s[2], s[3], s[4], s[5], s[6], s[7]);
    assert(u64_le(le_u64(s)) =~= s);
}

/// Reading back what was written gives the number.
pub proof fn lemma_u128_le_round_trip(x: u128)
    ensures
        u128_le(x).len() == 16,
        le_u128(u128_le(x)) == x,
{
    let lo = (x % 0x1_0000_0000_0000_0000) as u64;
    let hi = (x / 0x1_0000_0000_0000_0000) as u64;
    lemma_u64_le_round_trip(lo);
    lemma_u64_le_round_trip(hi);
    assert(u128_le(x).subrange(0, 8) =~= u64_le(lo));
    assert(u128_le(x).subrange(8, 16) =~= u64_le(hi));
}

/// Writing what was read gives the bytes.
pub proof fn lemma_le_u128_round_trip(s: Seq<u8>)
    requires
        s.len() == 16,
    ensures
        u128_le(le_u128(s)) == s,
{
    lemma_le_u64_round_trip(s.subrange(0, 8));
    lemma_le_u64_round_trip(s.subrange(8, 16));
    assert(u128_le(le_u128(s)) =~= s);
}

/// A decimal that fits in 128 bits comes back from its bytes.
pub proof fn lemma_decimal_le_round_trip(d: Decimal)
    requires
        d@ <= u128::MAX,
    ensures
        decimal_le(d).len() == 16,
        le_decimal(decimal_le(d)) == d,
{
    lemma_u128_le_round_trip(d@ as u128);
    crate::math::decimal::lemma_scaled_of_view(d);
}

/// The bytes that were read as a decimal come back from it.
pub proof fn lemma_le_decimal_round_trip(s: Seq<u8>)
    requires
        s.len() == 16,
    ensures
        le_decimal(s)@ <= u128::MAX,
        decimal_le(le_decimal(s)) == s,
{
    lemma_le_u128_round_trip(s);
    crate::math::decimal::lemma_scaled_view(le_u128(s) as nat);
}

/// Appends the eight bytes of `x`.
pub fn push_u64_le(dst: &mut Vec<u8>, x: u64)
    ensures
        final(dst)@ == old(dst)@ + u64_le(x),
{
    dst.push((x & 0xff) as u8);
    dst.push(((x >> 8) & 0xff) as u8);
    dst.push(((x >> 16) & 0xff) as u8);
    dst.push(((x >> 24) & 0xff) as u8);
    dst.push(((x >> 32) & 0xff) as u8);
    dst.push(((x >> 40) & 0xff) as u8);
    dst.push(((x >> 48) & 0xff) as u8);
    dst.push(((x >> 56) & 0xff) as u8);
    assert(dst@ =~= old(dst)@ + u64_le(x));
}

/// Appends the sixteen bytes of `x`.
pub fn push_u128_le(dst: &mut Vec<u8>, x: u128)
    ensures
        final(dst)@ == old(dst)@ + u128_le(x),
{
    push_u64_le(dst, (x % 0x1_0000_0000_0000_0000) as u64);
    push_u64_le(dst, (x / 0x1_0000_0000_0000_0000) as u64);
    assert(dst@ =~= old(dst)@ + u128_le(x));
}

/// Appends the sixteen bytes of a decimal that fits in 128 bits.
pub fn push_decimal(dst: &mut Vec<u8>, d: Decimal)
    requires
        d@ <= u128::MAX,
    ensures
        final(dst)@ == old(dst)@ + decimal_le(d),
{
    match d.to_scaled_val() {
        Ok(v) => push_u128_le(dst, v),
        Err(_) => {},
    }
}

/// Appends `src`.
pub fn push_bytes(dst: &mut Vec<u8>, src: &[u8])
    ensures
        final(dst)@ == old(dst)@ + src@,
{
    let mut i: usize = 0;
    while i < src.len()
        invariant
            i <= src@.len(),
            dst@ == old(dst)@ + src@.subrange(0, i as int),
        decreases src@.len() - i,
    {
        dst.push(src[i]);
        i = i + 1;
        assert(dst@ =~= old(dst)@ + src@.subrange(0, i as int));
    }
    assert(src@.subrange(0, i as int) =~= src@);
}

/// Appends `count` zero bytes.
pub fn push_zeros(dst: &mut Vec<u8>, count: usize)
    ensures
        final(dst)@ == old(dst)@ + Seq::new(count as nat, |i: int| 0u8),
{
    let mut i: usize = 0;
    while i < count
        invariant
            i <= count,
            dst@ == old(dst)@ + Seq::new(i as nat, |j: int| 0u8),
        decreases count - i,
    {
        dst.push(0u8);
        i = i + 1;
        assert(dst@ =~= old(dst)@ + Seq::new(i as nat, |j: int| 0u8));
    }
}

/// `base` with `part` written over it from position `at` on.
pub open spec fn overwritten(base: Seq<u8>, at: int, part: Seq<u8>) -> Seq<u8>
    recommends
        0 <= at,
        at + part.len() <= base.len(),
{
    base.subrange(0, at) + part + base.subrange(at + part.len(), base.len() as int)
}

/// Writes `src` over `dst` from position `at` on.
pub fn write_bytes(dst: &mut Vec<u8>, at: usize, src: &[u8])
    requires
        at + src@.len() <= old(dst)@.len(),
    ensures
        final(dst)@ == overwritten(old(dst)@, at as int, src@),
{
    let _len: usize = dst.len();
    let mut i: usize = 0;
    while i < src.len()
        invariant
            i <= src@.len(),
            at + src@.len() <= dst@.len(),
            dst@.len() <= usize::MAX,
            dst@.len() == old(dst)@.len(),
            dst@ == overwritten(old(dst)@, at as int, src@.subrange(0, i as int)),
        decreases src@.len() - i,
    {
        dst[at + i] = src[i];
        i = i + 1;
        assert(dst@ =~= overwritten(old(dst)@, at as int, src@.subrange(0, i as int)));
    }
    assert(src@.subrange(0, i as int) =~= src@);
}

/// The number in the eight bytes from position `at` on.
pub fn read_u64_le(src: &[u8], at: usize) -> (x: u64)
    requires
        at + 8 <= src@.len(),
    ensures
        x == le_u64(src@.subrange(at as int, at + 8)),
{
    let _len: usize = src.len();
    let b0: u64 = src[at] as u64;
    let b1: u64 = src[at + 1] as u64;
    let b2: u64 = src[at + 2] as u64;
    let b3: u64 = src[at + 3] as u64;
    let b4: u64 = src[at + 4] as u64;
    let b5: u64 = src[at + 5] as u64;
    let b6: u64 = src[at + 6] as u64;
    let b7: u64 = src[at + 7] as u64;
    b0 | (b1 << 8) | (b2 << 16) | (b3 << 24) | (b4 << 32) | (b5 << 40) | (b6 << 48) | (b7 << 56)
}

/// The number in the sixteen bytes from position `at` on.
pub fn read_u128_le(src: &[u8], at: usize) -> (x: u128)
    requires
        at + 16 <= src@.len(),
    ensures
        x == le_u128(src@.subrange(at as int, at + 16)),
{
    let _len: usize = src.len();
    let lo: u64 = read_u64_le(src, at);
    let hi: u64 = read_u64_le(src, at + 8);
    proof {
        let s = src@.subrange(at as int, at + 16);
        assert(s.subrange(0, 8) =~= src@.subrange(at as int, at + 8));
        assert(s.subrange(8, 16) =~= src@.subrange(at + 8, at + 16));
    }
    (lo as u128) + (hi as u128) * 0x1_0000_0000_0000_0000u128
}

/// The decimal in the sixteen bytes from position `at` on.
pub fn read_decimal(src: &[u8], at: usize) -> (d: Decimal)
    requires
        at + 16 <= src@.len(),
    ensures
        d == le_decimal(src@.subrange(at as int, at + 16)),
{
    Decimal::from_scaled_val(read_u128_le(src, at))
}

/// The `N` bytes from position `at` on.
pub fn read_array<const N: usize>(src: &[u8], at: usize) -> (out: [u8; N])
    requires
        at + N <= src@.len(),
    ensures
        out@ == src@.subrange(at as int, at + N),
{
    let _len: usize = src.len();
    let mut out: [u8; N] = [0u8; N];
    let mut i: usize = 0;
    while i < N
        invariant
            i <= N,
            at + N <= src@.len(),
            src@.len() <= usize::MAX,
            forall|j: int| 0 <= j < i ==> out@[j] == src@[at + j],
        decreases N - i,
    {
        out[i] = src[at + i];
        i = i + 1;
    }
    assert(out@ =~= src@.subrange(at as int, at + N));
    out
}

/// Two adjoining runs of bytes make up the run that spans both.
pub proof fn lemma_subrange_join(src: Seq<u8>, a: int, b: int, c: int)
    requires
        0 <= a <= b <= c <= src.len(),
    ensures
        src.subrange(a, b) + src.subrange(b, c) == src.subrange(a, c),
{
    assert(src.subrange(a, b) + src.subrange(b, c) =~= src.subrange(a, c));
}

/// A run of one byte is that byte.
pub proof fn lemma_subrange_one(src: Seq<u8>, a: int)
    requires
        0 <= a < src.len(),
    ensures
        seq![src[a]] == src.subrange(a, a + 1),
{
    assert(seq![src[a]] =~= src.subrange(a, a + 1));
}

/// Two arrays with the same bytes are the same array.
pub proof fn lemma_array_ext<const N: usize>(a: [u8; N], b: [u8; N])
    requires
        a@ == b@,
    ensures
        a == b,
{
    assert(a =~= b);
}

} // verus!
