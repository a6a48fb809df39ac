//! The bidding rule, and one whole invocation over the record's storage.

use crate::error::AuctionError;
use crate::instruction::{instruction_from_bytes, Bid, Instruction};
use crate::record::{record_bytes, record_from_bytes, AuctionSummary, Pubkey, SUMMARY_DATA_LEN};
use vstd::prelude::*;

verus! {

/// The record after `instruction`, received at time `now` from `bidder`.
pub open spec fn spec_apply(
    record: AuctionSummary,
    instruction: Instruction,
    now: u64,
    bidder: Option<Pubkey>,
) -> Result<AuctionSummary, AuctionError> {
    match instruction {
        Instruction::GetSummary => Ok(record),
        Instruction::PlaceBid(amount) => {
            if now > record.deadline {
                Err(AuctionError::AuctionEnded)
            } else {
                match bidder {
                    None => Err(AuctionError::MissingBidder),
                    Some(b) => {
                        if amount > record.winning_bid {
                            Ok(AuctionSummary { winning_bid: amount, winning_pubkey: b, ..record })
                        } else {
                            Ok(record)
                        }
                    },
                }
            }
        },
    }
}

/// Applies the bidding rule. `GetSummary` leaves the record as it is. A bid
/// after the deadline is refused; a bid above the winning one takes its
/// place; any other bid, an equal one included, leaves the record as it is.
pub fn apply(
    record: &AuctionSummary,
    instruction: &Instruction,
    now: u64,
    bidder: Option<Pubkey>,
) -> (r: Result<AuctionSummary, AuctionError>)
    ensures
        r == spec_apply(*record, *instruction, now, bidder),
{
    match *instruction {
        Instruction::GetSummary => Ok(*record),
        Instruction::PlaceBid(amount) => {
            if now > record.deadline {
                return Err(AuctionError::AuctionEnded);
            }
            match bidder {
                None => Err(AuctionError::MissingBidder),
                Some(b) => {
                    if amount > record.winning_bid {
                        Ok(
                            AuctionSummary {
                                deadline: record.deadline,
                                winning_bid: amount,
                                winning_pubkey: b,
                            },
                        )
                    } else {
                        Ok(*record)
                    }
                },
            }
        },
    }
}

/// The record after each bid of `bids` in turn, each an amount, a time and a
/// bidder; a refused bid leaves the record as it was.
pub open spec fn run_bids(record: AuctionSummary, bids: Seq<(Bid, u64, Pubkey)>) -> AuctionSummary
    decreases bids.len(),
{
    if bids.len() == 0 {
        record
    } else {
        let prev = run_bids(record, bids.drop_last());
        let (amount, now, bidder) = bids.last();
        match spec_apply(prev, Instruction::PlaceBid(amount), now, Some(bidder)) {
            Ok(next) => next,
            Err(_) => prev,
        }
    }
}

/// `GetSummary` returns the record unchanged, whatever the record, the time
/// and the bidder.
pub proof fn lemma_get_summary_keeps_record(
    record: AuctionSummary,
    now: u64,
    bidder: Option<Pubkey>,
)
    ensures
        spec_apply(record, Instruction::GetSummary, now, bidder) == Ok::<
            AuctionSummary,
            AuctionError,
        >(record),
{
}

/// A bid never lowers the winning bid, and never moves the deadline.
pub proof fn lemma_bid_never_lowers(
    record: AuctionSummary,
    amount: Bid,
    now: u64,
    bidder: Option<Pubkey>,
)
    ensures
        spec_apply(record, Instruction::PlaceBid(amount), now, bidder) matches Ok(next) ==> (
        record.winning_bid <= next.winning_bid && next.deadline == record.deadline),
{
}

proof fn lemma_run_bids_step(record: AuctionSummary, bids: Seq<(Bid, u64, Pubkey)>, j: int)
    requires
        0 < j <= bids.len(),
    ensures
        run_bids(record, bids.take(j - 1)).winning_bid <= run_bids(
            record,
            bids.take(j),
        ).winning_bid,
{
    assert(bids.take(j).drop_last() =~= bids.take(j - 1));
    let (amount, now, bidder) = bids.take(j).last();
    lemma_bid_never_lowers(run_bids(record, bids.take(j - 1)), amount, now, Some(bidder));
}

/// Over any sequence of bids applied in order, the winning bid never goes
/// down: it is at least as high after any later bid as after an earlier one.
pub proof fn lemma_winning_bid_monotone(record: AuctionSummary, bids: Seq<(Bid, u64, Pubkey)>)
    ensures
        forall|i: int, j: int|
            0 <= i <= j <= bids.len() ==> run_bids(record, #[trigger] bids.take(i)).winning_bid
                <= run_bids(record, #[trigger] bids.take(j)).winning_bid,
{
    assert forall|i: int, j: int| 0 <= i <= j <= bids.len() implies run_bids(
        record,
        #[trigger] bids.take(i),
    ).winning_bid <= run_bids(record, #[trigger] bids.take(j)).winning_bid by {
        lemma_prefix_monotone(record, bids, i, j);
    }
}

proof fn lemma_prefix_monotone(record: AuctionSummary, bids: Seq<(Bid, u64, Pubkey)>, i: int, j: int)
    requires
        0 <= i <= j <= bids.len(),
    ensures
        run_bids(record, bids.take(i)).winning_bid <= run_bids(record, bids.take(j)).winning_bid,
    decreases j - i,
{
    if i < j {
        lemma_prefix_monotone(record, bids, i, j - 1);
        lemma_run_bids_step(record, bids, j);
    }
}

/// The deadline is inclusive: a bid at the deadline is taken, one a second
/// later is refused with `AuctionEnded`.
pub proof fn lemma_deadline_inclusive(record: AuctionSummary, amount: Bid, bidder: Pubkey)
    requires
        record.deadline < u64::MAX,
    ensures
        spec_apply(record, Instruction::PlaceBid(amount), record.deadline, Some(bidder)) is Ok,
        spec_apply(
            record,
            Instruction::PlaceBid(amount),
            (record.deadline + 1) as u64,
            Some(bidder),
        ) == Err::<AuctionSummary, AuctionError>(AuctionError::AuctionEnded),
{
}

/// A bid equal to the winning one never displaces the winning bidder: before
/// the deadline it leaves the record as it was, after it it is refused.
pub proof fn lemma_tie_keeps_incumbent(record: AuctionSummary, now: u64, bidder: Pubkey)
    ensures
        spec_apply(record, Instruction::PlaceBid(record.winning_bid), now, Some(bidder)) == (if now
            <= record.deadline {
            Ok::<AuctionSummary, AuctionError>(record)
        } else {
            Err::<AuctionSummary, AuctionError>(AuctionError::AuctionEnded)
        }),
{
}

/// The record that one invocation leaves, or why it is rejected: the
/// instruction is decoded first, then the owner and the size of the storage
/// are checked, then the record is decoded and the rule applied.
pub open spec fn spec_process(
    program_id: Pubkey,
    owner: Pubkey,
    data: Seq<u8>,
    instruction_data: Seq<u8>,
    now: u64,
    bidder: Option<Pubkey>,
) -> Result<AuctionSummary, AuctionError> {
    match instruction_from_bytes(instruction_data) {
        Err(e) => Err(e),
        Ok(instruction) => {
            if owner != program_id {
                Err(AuctionError::WrongOwner)
            } else if data.len() < SUMMARY_DATA_LEN {
                Err(AuctionError::MalformedRecord)
            } else {
                spec_apply(record_from_bytes(data), instruction, now, bidder)
            }
        },
    }
}

/// One invocation. `data` is the record's storage, owned by `owner`;
/// `program_id` is this program; `now` is the current time; `bidder` is who
/// sends a bid. On success the record left by the rule is written over the
/// first 44 bytes of `data`; on failure `data` is untouched.
pub fn process_instruction(
    program_id: &Pubkey,
    owner: &Pubkey,
    data: &mut [u8],
    instruction_data: &[u8],
    now: u64,
    bidder: Option<Pubkey>,
) -> (r: Result<(), AuctionError>)
    ensures
        match spec_process(*program_id, *owner, old(data)@, instruction_data@, now, bidder) {
            Ok(s) => r is Ok && final(data)@ == record_bytes(s) + old(data)@.skip(44),
            Err(e) => r == Err::<(), AuctionError>(e) && final(data)@ == old(data)@,
        },
{
    let instruction = match Instruction::unpack_from_slice(instruction_data) {
        Ok(i) => i,
        Err(e) => return Err(e),
    };
    if !owner.same_as(program_id) {
        return Err(AuctionError::WrongOwner);
    }
    let summary = match AuctionSummary::unpack_from_slice(data) {
        Ok(s) => s,
        Err(e) => return Err(e),
    };
    match apply(&summary, &instruction, now, bidder) {
        Ok(next) => {
            next.pack_into_slice(data);
            Ok(())
        },
        Err(e) => Err(e),
    }
}

} // verus!
