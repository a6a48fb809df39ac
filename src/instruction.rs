//! The two operations and their byte layout: a tag, then a little-endian bid.

use crate::error::AuctionError;
use crate::le::{lemma_u32_le_round_trip, read_u32_at, u32_from_le, u32_le_bytes, write_u32_at};
use vstd::prelude::*;

verus! {

/// A bid amount.
pub type Bid = u32;

/// Width of an encoded instruction: tag and bid.
pub const INSTRUCTION_LEN: usize = 5;

/// Tag of `GetSummary`.
pub const TAG_GET_SUMMARY: u8 = 0;

/// Tag of `PlaceBid`.
pub const TAG_PLACE_BID: u8 = 1;

/// Program instructions.
#[derive(Clone, Copy, Debug, PartialEq, Eq, Structural)]
pub enum Instruction {
    /// Read the deadline, the winning bid and the winning bidder.
    GetSummary,
    /// Place a bid.
    PlaceBid(Bid),
}

/// What the instruction bytes `b` decode to.
pub open spec fn instruction_from_bytes(b: Seq<u8>) -> Result<Instruction, AuctionError> {
    if b.len() == 0 {
        Err(AuctionError::MalformedInstruction)
    } else if b[0] == TAG_GET_SUMMARY {
        Ok(Instruction::GetSummary)
    } else if b[0] == TAG_PLACE_BID {
        if b.len() < 5 {
            Err(AuctionError::MalformedInstruction)
        } else {
            Ok(Instruction::PlaceBid(u32_from_le(b.subrange(1, 5))))
        }
    } else {
        Err(AuctionError::InvalidInstruction)
    }
}

/// The five bytes that encode `i`; `GetSummary` has a zero payload.
pub open spec fn instruction_bytes(i: Instruction) -> Seq<u8> {
    match i {
        Instruction::GetSummary => seq![TAG_GET_SUMMARY] + u32_le_bytes(0),
        Instruction::PlaceBid(amount) => seq![TAG_PLACE_BID] + u32_le_bytes(amount),
    }
}

/// Decoding the encoding of any instruction gives that instruction back.
pub proof fn lemma_instruction_round_trip(i: Instruction)
    ensures
        instruction_bytes(i).len() == INSTRUCTION_LEN,
        instruction_from_bytes(instruction_bytes(i)) == Ok::<Instruction, AuctionError>(i),
{
    let b = instruction_bytes(i);
    if let Instruction::PlaceBid(amount) = i {
        assert(b.subrange(1, 5) =~= u32_le_bytes(amount));
        lemma_u32_le_round_trip(amount);
    }
}

impl Instruction {
    /// Reads an instruction: the first byte is the tag, and a bid takes the
    /// next four. Bytes beyond those are ignored.
    pub fn unpack_from_slice(src: &[u8]) -> (r: Result<Instruction, AuctionError>)
        ensures
            r == instruction_from_bytes(src@),
    {
        if src.len() == 0 {
            return Err(AuctionError::MalformedInstruction);
        }
        let tag = src[0];
        if tag == TAG_GET_SUMMARY {
            Ok(Instruction::GetSummary)
        } else if tag == TAG_PLACE_BID {
            if src.len() < INSTRUCTION_LEN {
                Err(AuctionError::MalformedInstruction)
            } else {
                Ok(Instruction::PlaceBid(read_u32_at(src, 1)))
            }
        } else {
            Err(AuctionError::InvalidInstruction)
        }
    }

    /// Writes the instruction over the first five bytes of `dst`; the rest of
    /// `dst` is left as it was.
    pub fn pack_into_slice(&self, dst: &mut [u8])
        requires
            old(dst)@.len() >= INSTRUCTION_LEN,
        ensures
            final(dst)@ == instruction_bytes(*self) + old(dst)@.skip(5),
    {
        let (tag, amount) = match *self {
            Instruction::GetSummary => (TAG_GET_SUMMARY, 0u32),
            Instruction::PlaceBid(amount) => (TAG_PLACE_BID, amount),
        };
        dst[0] = tag;
        write_u32_at(dst, 1, amount);
        assert(dst@ =~= instruction_bytes(*self) + old(dst)@.skip(5));
    }
}

} // verus!
