//! Little-endian integers in byte buffers.

use byteorder::{ByteOrder, LittleEndian};
use vstd::prelude::*;

verus! {

/// The `u32` whose little-endian bytes start `b`.
pub open spec fn u32_from_le(b: Seq<u8>) -> u32 {
    (b[0] as u32) | ((b[1] as u32) << 8u32) | ((b[2] as u32) << 16u32) | ((b[3] as u32) << 24u32)
}

/// The four little-endian bytes of `n`.
pub open spec fn u32_le_bytes(n: u32) -> Seq<u8> {
    seq![n as u8, (n >> 8u32) as u8, (n >> 16u32) as u8, (n >> 24u32) as u8]
}

/// The `u64` whose little-endian bytes start `b`.
pub open spec fn u64_from_le(b: Seq<u8>) -> u64 {
    (b[0] as u64) | ((b[1] as u64) << 8u64) | ((b[2] as u64) << 16u64) | ((b[3] as u64) << 24u64)
        | ((b[4] as u64) << 32u64) | ((b[5] as u64) << 40u64) | ((b[6] as u64) << 48u64) | ((
    b[7] as u64) << 56u64)
}

/// The eight little-endian bytes of `n`.
pub open spec fn u64_le_bytes(n: u64) -> Seq<u8> {
    seq![
        n as u8,
        (n >> 8u64) as u8,
        (n >> 16u64) as u8,
        (n >> 24u64) as u8,
        (n >> 32u64) as u8,
        (n >> 40u64) as u8,
        (n >> 48u64) as u8,
        (n >> 56u64) as u8,
    ]
}

pub proof fn lemma_u32_le_round_trip(n: u32)
    ensures
        u32_from_le(u32_le_bytes(n)) == n,
{
    assert(((n as u8) as u32) | ((((n >> 8u32) as u8) as u32) << 8u32) | ((((n >> 16u32) as u8)
        as u32) << 16u32) | ((((n >> 24u32) as u8) as u32) << 24u32) == n) by (bit_vector);
}

pub proof fn lemma_u64_le_round_trip(n: u64)
    ensures
        u64_from_le(u64_le_bytes(n)) == n,
{
    assert(((n as u8) as u64) | ((((n >> 8u64) as u8) as u64) << 8u64) | ((((n >> 16u64) as u8)
        as u64) << 16u64) | ((((n >> 24u64) as u8) as u64) << 24u64) | ((((n >> 32u64) as u8)
        as u64) << 32u64) | ((((n >> 40u64) as u8) as u64) << 40u64) | ((((n >> 48u64) as u8)
        as u64) << 48u64) | ((((n >> 56u64) as u8) as u64) << 56u64) == n) by (bit_vector);
}

pub proof fn lemma_u32_from_le_bytes(b: Seq<u8>)
    requires
        b.len() == 4,
    ensures
        u32_le_bytes(u32_from_le(b)) == b,
{
    let (b0, b1, b2, b3) = (b[0], b[1], b[2], b[3]);
    let n = u32_from_le(b);
    assert(n as u8 == b0 && (n >> 8u32) as u8 == b1 && (n >> 16u32) as u8 == b2 && (n
        >> 24u32) as u8 == b3) by (bit_vector)
        requires
            n == (b0 as u32) | ((b1 as u32) << 8u32) | ((b2 as u32) << 16u32) | ((b3 as u32)
                << 24u32),
    ;
    assert(u32_le_bytes(n) =~= b);
}

pub proof fn lemma_u64_from_le_bytes(b: Seq<u8>)
    requires
        b.len() == 8,
    ensures
        u64_le_bytes(u64_from_le(b)) == b,
{
    let (b0, b1, b2, b3, b4, b5, b6, b7) = (b[0], b[1], b[2], b[3], b[4], b[5], b[6], b[7]);
    let n = u64_from_le(b);
    assert(n as u8 == b0 && (n >> 8u64) as u8 == b1 && (n >> 16u64) as u8 == b2 && (n
        >> 24u64) as u8 == b3 && (n >> 32u64) as u8 == b4 && (n >> 40u64) as u8 == b5 && (n
        >> 48u64) as u8 == b6 && (n >> 56u64) as u8 == b7) by (bit_vector)
        requires
            n == (b0 as u64) | ((b1 as u64) << 8u64) | ((b2 as u64) << 16u64) | ((b3 as u64)
                << 24u64) | ((b4 as u64) << 32u64) | ((b5 as u64) << 40u64) | ((b6 as u64)
                << 48u64) | ((b7 as u64) << 56u64),
    ;
    assert(u64_le_bytes(n) =~= b);
}

/// Relies on byteorder's `LittleEndian::read_u32`: the first four bytes of
/// the slice it is given, least significant first (it panics on fewer).
#[verifier::external_body]
pub(crate) fn read_u32_at(src: &[u8], at: usize) -> (r: u32)
    requires
        at + 4 <= src@.len(),
    ensures
        r == u32_from_le(src@.subrange(at as int, at + 4)),
{
    LittleEndian::read_u32(&src[at..])
}

/// Relies on byteorder's `LittleEndian::read_u64`: the first eight bytes of
/// the slice it is given, least significant first (it panics on fewer).
#[verifier::external_body]
pub(crate) fn read_u64_at(src: &[u8], at: usize) -> (r: u64)
    requires
        at + 8 <= src@.len(),
    ensures
        r == u64_from_le(src@.subrange(at as int, at + 8)),
{
    LittleEndian::read_u64(&src[at..])
}

/// Relies on byteorder's `LittleEndian::write_u32`: it overwrites the first
/// four bytes of the slice it is given with `n`, least significant first,
/// and nothing else (it panics on fewer).
#[verifier::external_body]
pub(crate) fn write_u32_at(dst: &mut [u8], at: usize, n: u32)
    requires
        at + 4 <= old(dst)@.len(),
    ensures
        final(dst)@ == old(dst)@.take(at as int) + u32_le_bytes(n) + old(dst)@.skip(at + 4),
{
    LittleEndian::write_u32(&mut dst[at..], n)
}

/// Relies on byteorder's `LittleEndian::write_u64`: it overwrites the first
/// eight bytes of the slice it is given with `n`, least significant first,
/// and nothing else (it panics on fewer).
#[verifier::external_body]
pub(crate) fn write_u64_at(dst: &mut [u8], at: usize, n: u64)
    requires
        at + 8 <= old(dst)@.len(),
    ensures
        final(dst)@ == old(dst)@.take(at as int) + u64_le_bytes(n) + old(dst)@.skip(at + 8),
{
    LittleEndian::write_u64(&mut dst[at..], n)
}

} // verus!
