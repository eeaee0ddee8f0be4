//! Little-endian views of the fixed-width integers stored inside staged
//! byte buffers.
//!
//! The mediated accessors read and write whole protected structures as
//! bytes; these helpers decode and encode the individual fields.

use vstd::prelude::*;

verus! {

/// The 16-bit value stored little-endian in `s`.
pub open spec fn u16_le(s: Seq<u8>) -> u16
    recommends
        s.len() == 2,
{
    (s[0] as u16) | ((s[1] as u16) << 8u16)
}

/// The 32-bit value stored little-endian in `s`.
pub open spec fn u32_le(s: Seq<u8>) -> u32
    recommends
        s.len() == 4,
{
    (s[0] as u32) | ((s[1] as u32) << 8u32) | ((s[2] as u32) << 16u32) | ((s[3] as u32) << 24u32)
}

/// The 64-bit value stored little-endian in `s`.
pub open spec fn u64_le(s: Seq<u8>) -> u64
    recommends
        s.len() == 8,
{
    (s[0] as u64) | ((s[1] as u64) << 8u64) | ((s[2] as u64) << 16u64) | ((s[3] as u64) << 24u64)
        | ((s[4] as u64) << 32u64) | ((s[5] as u64) << 40u64) | ((s[6] as u64) << 48u64) | ((
    s[7] as u64) << 56u64)
}

/// The little-endian bytes of a 16-bit value.
pub open spec fn u16_le_bytes(x: u16) -> Seq<u8> {
    seq![(x & 0xFF) as u8, ((x >> 8u16) & 0xFF) as u8]
}

/// The little-endian bytes of a 32-bit value.
pub open spec fn u32_le_bytes(x: u32) -> Seq<u8> {
    seq![
        (x & 0xFF) as u8,
        ((x >> 8u32) & 0xFF) as u8,
        ((x >> 16u32) & 0xFF) as u8,
        ((x >> 24u32) & 0xFF) as u8,
    ]
}

/// The little-endian bytes of a 64-bit value.
pub open spec fn u64_le_bytes(x: u64) -> Seq<u8> {
    seq![
        (x & 0xFF) as u8,
        ((x >> 8u64) & 0xFF) as u8,
        ((x >> 16u64) & 0xFF) as u8,
        ((x >> 24u64) & 0xFF) as u8,
        ((x >> 32u64) & 0xFF) as u8,
        ((x >> 40u64) & 0xFF) as u8,
        ((x >> 48u64) & 0xFF) as u8,
        ((x >> 56u64) & 0xFF) as u8,
    ]
}

/// Reads the 16-bit little-endian value at `off`.
pub fn read_u16_le(v: &Vec<u8>, off: usize) -> (r: u16)
    requires
        off + 2 <= v@.len(),
    ensures
        r == u16_le(v@.subrange(off as int, off + 2)),
{
    // Learning the length as a machine word shows the index sums below fit.
    let n = v.len();
    let r = (v[off] as u16) | ((v[off + 1] as u16) << 8u16);
    proof {
        let s = v@.subrange(off as int, off + 2);
        assert(s[0] == v@[off as int] && s[1] == v@[off + 1]);
    }
    r
}

/// Reads the 32-bit little-endian value at `off`.
pub fn read_u32_le(v: &Vec<u8>, off: usize) -> (r: u32)
    requires
        off + 4 <= v@.len(),
    ensures
        r == u32_le(v@.subrange(off as int, off + 4)),
{
    // Learning the length as a machine word shows the index sums below fit.
    let n = v.len();
    let r = (v[off] as u32) | ((v[off + 1] as u32) << 8u32) | ((v[off + 2] as u32) << 16u32) | ((v[off
        + 3] as u32) << 24u32);
    proof {
        let s = v@.subrange(off as int, off + 4);
        assert(s[0] == v@[off as int] && s[1] == v@[off + 1] && s[2] == v@[off + 2] && s[3] == v@[off
            + 3]);
    }
    r
}

/// Reads the 64-bit little-endian value at `off`.
pub fn read_u64_le(v: &Vec<u8>, off: usize) -> (r: u64)
    requires
        off + 8 <= v@.len(),
    ensures
        r == u64_le(v@.subrange(off as int, off + 8)),
{
    // Learning the length as a machine word shows the index sums below fit.
    let n = v.len();
    let r = (v[off] as u64) | ((v[off + 1] as u64) << 8u64) | ((v[off + 2] as u64) << 16u64) | ((v[off
        + 3] as u64) << 24u64) | ((v[off + 4] as u64) << 32u64) | ((v[off + 5] as u64) << 40u64) | ((
    v[off + 6] as u64) << 48u64) | ((v[off + 7] as u64) << 56u64);
    proof {
        let s = v@.subrange(off as int, off + 8);
        assert(s[0] == v@[off as int] && s[1] == v@[off + 1] && s[2] == v@[off + 2] && s[3] == v@[off
            + 3] && s[4] == v@[off + 4] && s[5] == v@[off + 5] && s[6] == v@[off + 6] && s[7] == v@[off
            + 7]);
    }
    r
}

/// Writes `x` little-endian at `off`, leaving every other byte alone.
pub fn write_u16_le(v: &mut Vec<u8>, off: usize, x: u16)
    requires
        off + 2 <= old(v)@.len(),
    ensures
        final(v)@.len() == old(v)@.len(),
        final(v)@.subrange(off as int, off + 2) == u16_le_bytes(x),
        forall|j: int| 0 <= j < old(v)@.len() && !(off <= j < off + 2) ==> final(v)@[j] == old(v)@[j],
{
    // Learning the length as a machine word shows the index sums below fit.
    let n = v.len();
    v[off] = #[verifier::truncate] ((x & 0xFF) as u8);
    v[off + 1] = #[verifier::truncate] (((x >> 8u16) & 0xFF) as u8);
    proof {
        assert(v@.subrange(off as int, off + 2) =~= u16_le_bytes(x));
    }
}

/// Writes `x` little-endian at `off`, leaving every other byte alone.
pub fn write_u32_le(v: &mut Vec<u8>, off: usize, x: u32)
    requires
        off + 4 <= old(v)@.len(),
    ensures
        final(v)@.len() == old(v)@.len(),
        final(v)@.subrange(off as int, off + 4) == u32_le_bytes(x),
        forall|j: int| 0 <= j < old(v)@.len() && !(off <= j < off + 4) ==> final(v)@[j] == old(v)@[j],
{
    // Learning the length as a machine word shows the index sums below fit.
    let n = v.len();
    v[off] = #[verifier::truncate] ((x & 0xFF) as u8);
    v[off + 1] = #[verifier::truncate] (((x >> 8u32) & 0xFF) as u8);
    v[off + 2] = #[verifier::truncate] (((x >> 16u32) & 0xFF) as u8);
    v[off + 3] = #[verifier::truncate] (((x >> 24u32) & 0xFF) as u8);
    proof {
        assert(v@.subrange(off as int, off + 4) =~= u32_le_bytes(x));
    }
}

/// Writes `x` little-endian at `off`, leaving every other byte alone.
pub fn write_u64_le(v: &mut Vec<u8>, off: usize, x: u64)
    requires
        off + 8 <= old(v)@.len(),
    ensures
        final(v)@.len() == old(v)@.len(),
        final(v)@.subrange(off as int, off + 8) == u64_le_bytes(x),
        forall|j: int| 0 <= j < old(v)@.len() && !(off <= j < off + 8) ==> final(v)@[j] == old(v)@[j],
{
    // Learning the length as a machine word shows the index sums below fit.
    let n = v.len();
    v[off] = #[verifier::truncate] ((x & 0xFF) as u8);
    v[off + 1] = #[verifier::truncate] (((x >> 8u64) & 0xFF) as u8);
    v[off + 2] = #[verifier::truncate] (((x >> 16u64) & 0xFF) as u8);
    v[off + 3] = #[verifier::truncate] (((x >> 24u64) & 0xFF) as u8);
    v[off + 4] = #[verifier::truncate] (((x >> 32u64) & 0xFF) as u8);
    v[off + 5] = #[verifier::truncate] (((x >> 40u64) & 0xFF) as u8);
    v[off + 6] = #[verifier::truncate] (((x >> 48u64) & 0xFF) as u8);
    v[off + 7] = #[verifier::truncate] (((x >> 56u64) & 0xFF) as u8);
    proof {
        assert(v@.subrange(off as int, off + 8) =~= u64_le_bytes(x));
    }
}

/// Appends one byte.
pub fn push_u8(v: &mut Vec<u8>, x: u8)
    ensures
        final(v)@ == old(v)@ + seq![x],
{
    v.push(x);
    proof {
        assert(v@ =~= old(v)@ + seq![x]);
    }
}

/// Appends `x` little-endian.
pub fn push_u16_le(v: &mut Vec<u8>, x: u16)
    ensures
        final(v)@ == old(v)@ + u16_le_bytes(x),
{
    v.push(#[verifier::truncate] ((x & 0xFF) as u8));
    v.push(#[verifier::truncate] (((x >> 8u16) & 0xFF) as u8));
    proof {
        assert(v@ =~= old(v)@ + u16_le_bytes(x));
    }
}

/// Appends `x` little-endian.
pub fn push_u32_le(v: &mut Vec<u8>, x: u32)
    ensures
        final(v)@ == old(v)@ + u32_le_bytes(x),
{
    v.push(#[verifier::truncate] ((x & 0xFF) as u8));
    v.push(#[verifier::truncate] (((x >> 8u32) & 0xFF) as u8));
    v.push(#[verifier::truncate] (((x >> 16u32) & 0xFF) as u8));
    v.push(#[verifier::truncate] (((x >> 24u32) & 0xFF) as u8));
    proof {
        assert(v@ =~= old(v)@ + u32_le_bytes(x));
    }
}

/// Appends `x` little-endian.
pub fn push_u64_le(v: &mut Vec<u8>, x: u64)
    ensures
        final(v)@ == old(v)@ + u64_le_bytes(x),
{
    v.push(#[verifier::truncate] ((x & 0xFF) as u8));
    v.push(#[verifier::truncate] (((x >> 8u64) & 0xFF) as u8));
    v.push(#[verifier::truncate] (((x >> 16u64) & 0xFF) as u8));
    v.push(#[verifier::truncate] (((x >> 24u64) & 0xFF) as u8));
    v.push(#[verifier::truncate] (((x >> 32u64) & 0xFF) as u8));
    v.push(#[verifier::truncate] (((x >> 40u64) & 0xFF) as u8));
    v.push(#[verifier::truncate] (((x >> 48u64) & 0xFF) as u8));
    v.push(#[verifier::truncate] (((x >> 56u64) & 0xFF) as u8));
    proof {
        assert(v@ =~= old(v)@ + u64_le_bytes(x));
    }
}

/// Decoding the encoding of a 16-bit value gives the value back.
pub proof fn lemma_u16_le_round_trip(x: u16)
    ensures
        u16_le(u16_le_bytes(x)) == x,
{
    assert(((x & 0xFF) as u8 as u16) | ((((x >> 8u16) & 0xFF) as u8 as u16) << 8u16) == x)
        by (bit_vector);
}

/// Decoding the encoding of a 32-bit value gives the value back.
pub proof fn lemma_u32_le_round_trip(x: u32)
    ensures
        u32_le(u32_le_bytes(x)) == x,
{
    assert(((x & 0xFF) as u8 as u32) | ((((x >> 8u32) & 0xFF) as u8 as u32) << 8u32) | ((((x
        >> 16u32) & 0xFF) as u8 as u32) << 16u32) | ((((x >> 24u32) & 0xFF) as u8 as u32) << 24u32)
        == x) by (bit_vector);
}

/// Decoding the encoding of a 64-bit value gives the value back.
pub proof fn lemma_u64_le_round_trip(x: u64)
    ensures
        u64_le(u64_le_bytes(x)) == x,
{
    assert(((x & 0xFF) as u8 as u64) | ((((x >> 8u64) & 0xFF) as u8 as u64) << 8u64) | ((((x
        >> 16u64) & 0xFF) as u8 as u64) << 16u64) | ((((x >> 24u64) & 0xFF) as u8 as u64) << 24u64)
        | ((((x >> 32u64) & 0xFF) as u8 as u64) << 32u64) | ((((x >> 40u64) & 0xFF) as u8 as u64)
        << 40u64) | ((((x >> 48u64) & 0xFF) as u8 as u64) << 48u64) | ((((x >> 56u64) & 0xFF) as u8
        as u64) << 56u64) == x) by (bit_vector);
}

} // verus!
