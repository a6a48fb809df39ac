//! Sealed-bid auction: a fixed-layout record, a fixed-layout instruction and
//! the bidding rule that turns one record into the next.

mod error;
mod instruction;
mod le;
mod processor;
mod record;

pub use error::AuctionError;
pub use instruction::{
    instruction_bytes, instruction_from_bytes, lemma_instruction_round_trip, Bid, Instruction,
    INSTRUCTION_LEN, TAG_GET_SUMMARY, TAG_PLACE_BID,
};
pub use le::{u32_from_le, u32_le_bytes, u64_from_le, u64_le_bytes};
pub use processor::{
    apply, lemma_bid_never_lowers, lemma_deadline_inclusive, lemma_get_summary_keeps_record,
    lemma_tie_keeps_incumbent, lemma_winning_bid_monotone, process_instruction, run_bids,
    spec_apply, spec_process,
};
pub use record::{
    lemma_record_round_trip, pubkey_from_slice, record_bytes, record_from_bytes, AuctionSummary,
    Pubkey, PUBKEY_LEN, SUMMARY_DATA_LEN,
};
