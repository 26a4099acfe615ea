//! Big-endian byte encodings of the fixed-width integers used on the wire,
//! together with the decoding functions and the round-trip lemmas the frame
//! codec is built on. Every decoder takes the byte sequence and a cursor and
//! returns the decoded value with the new cursor, or nothing when too few
//! bytes remain.

use vstd::prelude::*;

verus! {

// ---------------------------------------------------------------------------
// Specification-level encodings
// ---------------------------------------------------------------------------

pub open spec fn spec_be16(x: u16) -> Seq<u8> {
    seq![((x >> 8) & 0xff) as u8, (x & 0xff) as u8]
}

pub open spec fn spec_be32(x: u32) -> Seq<u8> {
    seq![
        ((x >> 24) & 0xff) as u8,
        ((x >> 16) & 0xff) as u8,
        ((x >> 8) & 0xff) as u8,
        (x & 0xff) as u8,
    ]
}

pub open spec fn spec_be64(x: u64) -> Seq<u8> {
    seq![
        ((x >> 56) & 0xff) as u8,
        ((x >> 48) & 0xff) as u8,
        ((x >> 40) & 0xff) as u8,
        ((x >> 32) & 0xff) as u8,
        ((x >> 24) & 0xff) as u8,
        ((x >> 16) & 0xff) as u8,
        ((x >> 8) & 0xff) as u8,
        (x & 0xff) as u8,
    ]
}

pub open spec fn spec_u16_of(b0: u8, b1: u8) -> u16 {
    (((b0 as u16) << 8) | (b1 as u16))
}

pub open spec fn spec_u32_of(b0: u8, b1: u8, b2: u8, b3: u8) -> u32 {
    (((b0 as u32) << 24) | ((b1 as u32) << 16) | ((b2 as u32) << 8) | (b3 as u32))
}

pub open spec fn spec_u64_of(
    b0: u8,
    b1: u8,
    b2: u8,
    b3: u8,
    b4: u8,
    b5: u8,
    b6: u8,
    b7: u8,
) -> u64 {
    (((b0 as u64) << 56) | ((b1 as u64) << 48) | ((b2 as u64) << 40) | ((b3 as u64) << 32)
        | ((b4 as u64) << 24) | ((b5 as u64) << 16) | ((b6 as u64) << 8) | (b7 as u64))
}

// ---------------------------------------------------------------------------
// Specification-level decoders (cursor based)
// ---------------------------------------------------------------------------

pub open spec fn spec_dec_u16(b: Seq<u8>, i: int) -> Option<(u16, int)> {
    if 0 <= i && i + 2 <= b.len() {
        Some((spec_u16_of(b[i], b[i + 1]), i + 2))
    } else {
        None
    }
}

pub open spec fn spec_dec_u32(b: Seq<u8>, i: int) -> Option<(u32, int)> {
    if 0 <= i && i + 4 <= b.len() {
        Some((spec_u32_of(b[i], b[i + 1], b[i + 2], b[i + 3]), i + 4))
    } else {
        None
    }
}

pub open spec fn spec_dec_u64(b: Seq<u8>, i: int) -> Option<(u64, int)> {
    if 0 <= i && i + 8 <= b.len() {
        Some((
            spec_u64_of(
                b[i],
                b[i + 1],
                b[i + 2],
                b[i + 3],
                b[i + 4],
                b[i + 5],
                b[i + 6],
                b[i + 7],
            ),
            i + 8,
        ))
    } else {
        None
    }
}

// ---------------------------------------------------------------------------
// Round-trip lemmas
// ---------------------------------------------------------------------------

pub proof fn lemma_be16_round_trip(x: u16)
    ensures
        spec_u16_of(((x >> 8) & 0xff) as u8, (x & 0xff) as u8) == x,
{
    assert(spec_u16_of(((x >> 8) & 0xff) as u8, (x & 0xff) as u8) == x) by (bit_vector);
}

pub proof fn lemma_be32_round_trip(x: u32)
    ensures
        spec_u32_of(
            ((x >> 24) & 0xff) as u8,
            ((x >> 16) & 0xff) as u8,
            ((x >> 8) & 0xff) as u8,
            (x & 0xff) as u8,
        ) == x,
{
    assert(spec_u32_of(
        ((x >> 24) & 0xff) as u8,
        ((x >> 16) & 0xff) as u8,
        ((x >> 8) & 0xff) as u8,
        (x & 0xff) as u8,
    ) == x) by (bit_vector);
}

pub proof fn lemma_be64_round_trip(x: u64)
    ensures
        spec_u64_of(
            ((x >> 56) & 0xff) as u8,
            ((x >> 48) & 0xff) as u8,
            ((x >> 40) & 0xff) as u8,
            ((x >> 32) & 0xff) as u8,
            ((x >> 24) & 0xff) as u8,
            ((x >> 16) & 0xff) as u8,
            ((x >> 8) & 0xff) as u8,
            (x & 0xff) as u8,
        ) == x,
{
    assert(spec_u64_of(
        ((x >> 56) & 0xff) as u8,
        ((x >> 48) & 0xff) as u8,
        ((x >> 40) & 0xff) as u8,
        ((x >> 32) & 0xff) as u8,
        ((x >> 24) & 0xff) as u8,
        ((x >> 16) & 0xff) as u8,
        ((x >> 8) & 0xff) as u8,
        (x & 0xff) as u8,
    ) == x) by (bit_vector);
}

/// Decoding at a position where an encoded `u16` was laid down yields it back.
pub proof fn lemma_dec_u16_at(b: Seq<u8>, i: int, x: u16)
    requires
        0 <= i,
        i + 2 <= b.len(),
        b[i] == spec_be16(x)[0],
        b[i + 1] == spec_be16(x)[1],
    ensures
        spec_dec_u16(b, i) == Some((x, i + 2)),
{
    lemma_be16_round_trip(x);
}

/// Decoding at a position where an encoded `u32` was laid down yields it back.
pub proof fn lemma_dec_u32_at(b: Seq<u8>, i: int, x: u32)
    requires
        0 <= i,
        i + 4 <= b.len(),
        b[i] == spec_be32(x)[0],
        b[i + 1] == spec_be32(x)[1],
        b[i + 2] == spec_be32(x)[2],
        b[i + 3] == spec_be32(x)[3],
    ensures
        spec_dec_u32(b, i) == Some((x, i + 4)),
{
    lemma_be32_round_trip(x);
}

/// Decoding at a position where an encoded `u64` was laid down yields it back.
pub proof fn lemma_dec_u64_at(b: Seq<u8>, i: int, x: u64)
    requires
        0 <= i,
        i + 8 <= b.len(),
        forall|k: int| 0 <= k < 8 ==> b[i + k] == spec_be64(x)[k],
    ensures
        spec_dec_u64(b, i) == Some((x, i + 8)),
{
    assert(b[i + 0] == spec_be64(x)[0]);
    assert(b[i + 1] == spec_be64(x)[1]);
    assert(b[i + 2] == spec_be64(x)[2]);
    assert(b[i + 3] == spec_be64(x)[3]);
    assert(b[i + 4] == spec_be64(x)[4]);
    assert(b[i + 5] == spec_be64(x)[5]);
    assert(b[i + 6] == spec_be64(x)[6]);
    assert(b[i + 7] == spec_be64(x)[7]);
    lemma_be64_round_trip(x);
}

// ---------------------------------------------------------------------------
// Executable encoders
// ---------------------------------------------------------------------------

pub fn push_be16(out: &mut Vec<u8>, x: u16)
    ensures
        final(out)@ == old(out)@ + spec_be16(x),
{
    out.push(((x >> 8) & 0xff) as u8);
    out.push((x & 0xff) as u8);
    assert(out@ =~= old(out)@ + spec_be16(x));
}

pub fn push_be32(out: &mut Vec<u8>, x: u32)
    ensures
        final(out)@ == old(out)@ + spec_be32(x),
{
    out.push(((x >> 24) & 0xff) as u8);
    out.push(((x >> 16) & 0xff) as u8);
    out.push(((x >> 8) & 0xff) as u8);
    out.push((x & 0xff) as u8);
    assert(out@ =~= old(out)@ + spec_be32(x));
}

pub fn push_be64(out: &mut Vec<u8>, x: u64)
    ensures
        final(out)@ == old(out)@ + spec_be64(x),
{
    out.push(((x >> 56) & 0xff) as u8);
    out.push(((x >> 48) & 0xff) as u8);
    out.push(((x >> 40) & 0xff) as u8);
    out.push(((x >> 32) & 0xff) as u8);
    out.push(((x >> 24) & 0xff) as u8);
    out.push(((x >> 16) & 0xff) as u8);
    out.push(((x >> 8) & 0xff) as u8);
    out.push((x & 0xff) as u8);
    assert(out@ =~= old(out)@ + spec_be64(x));
}

// ---------------------------------------------------------------------------
// Executable decoders
// ---------------------------------------------------------------------------

pub fn read_u16(b: &Vec<u8>, i: usize) -> (r: Option<(u16, usize)>)
    ensures
        r is Some <==> spec_dec_u16(b@, i as int) is Some,
        r matches Some(p) ==> spec_dec_u16(b@, i as int) == Some((p.0, p.1 as int)),
{
    if i < b.len() && b.len() - i >= 2 {
        let x = ((b[i] as u16) << 8) | (b[i + 1] as u16);
        Some((x, i + 2))
    } else {
        None
    }
}

pub fn read_u32(b: &Vec<u8>, i: usize) -> (r: Option<(u32, usize)>)
    ensures
        r is Some <==> spec_dec_u32(b@, i as int) is Some,
        r matches Some(p) ==> spec_dec_u32(b@, i as int) == Some((p.0, p.1 as int)),
{
    if i < b.len() && b.len() - i >= 4 {
        let x = ((b[i] as u32) << 24) | ((b[i + 1] as u32) << 16) | ((b[i + 2] as u32) << 8)
            | (b[i + 3] as u32);
        Some((x, i + 4))
    } else {
        None
    }
}

pub fn read_u64(b: &Vec<u8>, i: usize) -> (r: Option<(u64, usize)>)
    ensures
        r is Some <==> spec_dec_u64(b@, i as int) is Some,
        r matches Some(p) ==> spec_dec_u64(b@, i as int) == Some((p.0, p.1 as int)),
{
    if i < b.len() && b.len() - i >= 8 {
        let x = ((b[i] as u64) << 56) | ((b[i + 1] as u64) << 48) | ((b[i + 2] as u64) << 40)
            | ((b[i + 3] as u64) << 32) | ((b[i + 4] as u64) << 24) | ((b[i + 5] as u64) << 16)
            | ((b[i + 6] as u64) << 8) | (b[i + 7] as u64);
        Some((x, i + 8))
    } else {
        None
    }
}

} // verus!
