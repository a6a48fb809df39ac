//! The persisted auction record and its 44-byte layout.

use crate::le::{
    lemma_u32_from_le_bytes, lemma_u32_le_round_trip, lemma_u64_from_le_bytes, lemma_u64_le_round_trip, read_u32_at, read_u64_at, u32_from_le,
    u32_le_bytes, u64_from_le, u64_le_bytes, write_u32_at, write_u64_at,
};
use crate::error::AuctionError;
use vstd::prelude::*;

verus! {

/// Width of an encoded record: deadline, winning bid, winning bidder.
pub const SUMMARY_DATA_LEN: usize = 44;

/// Width of an identity.
pub const PUBKEY_LEN: usize = 32;

/// A 32-byte identity.
#[derive(Clone, Copy, Debug, PartialEq, Eq)]
pub struct Pubkey {
    pub bytes: [u8; 32],
}

/// Public auction information.
#[derive(Clone, Copy, Debug, PartialEq, Eq)]
pub struct AuctionSummary {
    /// The deadline timestamp, in seconds; bids at it are still taken.
    pub deadline: u64,
    /// The winning bid.
    pub winning_bid: u32,
    /// Who placed the winning bid.
    pub winning_pubkey: Pubkey,
}

/// The encoding of `r`: deadline at 0, winning bid at 8, winning bidder at 12,
/// integers little-endian.
pub open spec fn record_bytes(r: AuctionSummary) -> Seq<u8> {
    u64_le_bytes(r.deadline) + u32_le_bytes(r.winning_bid) + r.winning_pubkey.bytes@
}

/// The record that the first 44 bytes of `b` encode.
pub open spec fn record_from_bytes(b: Seq<u8>) -> AuctionSummary {
    choose|r: AuctionSummary| record_bytes(r) == b.take(44)
}

/// Two records with the same encoding are the same record.
pub proof fn lemma_record_bytes_injective(r: AuctionSummary, s: AuctionSummary)
    requires
        record_bytes(r) == record_bytes(s),
    ensures
        r == s,
{
    let (br, bs) = (record_bytes(r), record_bytes(s));
    assert(br.subrange(0, 8) =~= u64_le_bytes(r.deadline));
    assert(bs.subrange(0, 8) =~= u64_le_bytes(s.deadline));
    assert(br.subrange(8, 12) =~= u32_le_bytes(r.winning_bid));
    assert(bs.subrange(8, 12) =~= u32_le_bytes(s.winning_bid));
    assert(br.subrange(12, 44) =~= r.winning_pubkey.bytes@);
    assert(bs.subrange(12, 44) =~= s.winning_pubkey.bytes@);
    lemma_u64_le_round_trip(r.deadline);
    lemma_u64_le_round_trip(s.deadline);
    lemma_u32_le_round_trip(r.winning_bid);
    lemma_u32_le_round_trip(s.winning_bid);
    assert(r.winning_pubkey.bytes =~= s.winning_pubkey.bytes);
}

/// Decoding the encoding of any record gives that record back.
pub proof fn lemma_record_round_trip(r: AuctionSummary)
    ensures
        record_bytes(r).len() == SUMMARY_DATA_LEN,
        record_from_bytes(record_bytes(r)) == r,
{
    let b = record_bytes(r);
    assert(b.take(44) =~= b);
    let s = record_from_bytes(b);
    lemma_record_bytes_injective(r, s);
}

/// Copies an identity out of `src`, starting at `at`.
pub fn pubkey_from_slice(src: &[u8], at: usize) -> (r: Pubkey)
    requires
        at + 32 <= src@.len(),
    ensures
        r.bytes@ == src@.subrange(at as int, at + 32),
{
    let len = src.len();
    let mut bytes: [u8; 32] = [0u8; 32];
    let mut i: usize = 0;
    while i < PUBKEY_LEN
        invariant
            i <= 32,
            at + 32 <= src@.len(),
            len == src@.len(),
            forall|k: int| 0 <= k < i ==> bytes@[k] == src@[at + k],
        decreases 32 - i,
    {
        bytes[i] = src[at + i];
        i = i + 1;
    }
    assert(bytes@ =~= src@.subrange(at as int, at + 32));
    Pubkey { bytes }
}

impl Pubkey {
    /// Whether two identities hold the same bytes.
    pub fn same_as(&self, other: &Pubkey) -> (r: bool)
        ensures
            r == (*self == *other),
    {
        let mut i: usize = 0;
        while i < PUBKEY_LEN
            invariant
                i <= 32,
                forall|k: int| 0 <= k < i ==> self.bytes@[k] == other.bytes@[k],
            decreases 32 - i,
        {
            if self.bytes[i] != other.bytes[i] {
                return false;
            }
            i = i + 1;
        }
        assert(self.bytes =~= other.bytes);
        true
    }
}

impl AuctionSummary {
    /// Reads a record from the first 44 bytes of `src`; the rest is ignored.
    /// No field is checked: every 44 bytes are a record.
    pub fn unpack_from_slice(src: &[u8]) -> (r: Result<AuctionSummary, AuctionError>)
        ensures
            src@.len() < SUMMARY_DATA_LEN ==> r == Err::<AuctionSummary, AuctionError>(
                AuctionError::MalformedRecord,
            ),
            src@.len() >= SUMMARY_DATA_LEN ==> r == Ok::<AuctionSummary, AuctionError>(
                record_from_bytes(src@),
            ),
    {
        if src.len() < SUMMARY_DATA_LEN {
            return Err(AuctionError::MalformedRecord);
        }
        let deadline = read_u64_at(src, 0);
        let winning_bid = read_u32_at(src, 8);
        let winning_pubkey = pubkey_from_slice(src, 12);
        let s = AuctionSummary { deadline, winning_bid, winning_pubkey };
        proof {
            let b = src@;
            let e = record_bytes(s);
            lemma_u64_from_le_bytes(b.subrange(0, 8));
            lemma_u32_from_le_bytes(b.subrange(8, 12));
            assert(e =~= b.take(44));
            lemma_record_bytes_injective(s, record_from_bytes(b));
        }
        Ok(s)
    }

    /// Writes the record over the first 44 bytes of `dst`, all of them; the
    /// rest of `dst` is left as it was.
    pub fn pack_into_slice(&self, dst: &mut [u8])
        requires
            old(dst)@.len() >= SUMMARY_DATA_LEN,
        ensures
            final(dst)@ == record_bytes(*self) + old(dst)@.skip(44),
    {
        write_u64_at(dst, 0, self.deadline);
        write_u32_at(dst, 8, self.winning_bid);
        let mut i: usize = 0;
        while i < PUBKEY_LEN
            invariant
                i <= 32,
                dst@.len() == old(dst)@.len(),
                old(dst)@.len() >= 44,
                dst@.subrange(0, 12) == u64_le_bytes(self.deadline) + u32_le_bytes(
                    self.winning_bid,
                ),
                forall|k: int| 0 <= k < i ==> dst@[12 + k] == self.winning_pubkey.bytes@[k],
                forall|k: int| 12 + i <= k < dst@.len() ==> dst@[k] == old(dst)@[k],
            decreases 32 - i,
        {
            dst[12 + i] = self.winning_pubkey.bytes[i];
            i = i + 1;
        }
        assert(dst@ =~= record_bytes(*self) + old(dst)@.skip(44));
    }
}

} // verus!
