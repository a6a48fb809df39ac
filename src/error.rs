//! Why an invocation is rejected.

use vstd::prelude::*;

verus! {

/// Every way an invocation can fail. None of them changes the record.
#[derive(Clone, Copy, Debug, PartialEq, Eq, Structural)]
pub enum AuctionError {
    /// The storage region is too small to hold a record.
    MalformedRecord,
    /// The instruction bytes are too short for their tag.
    MalformedInstruction,
    /// The instruction tag is neither of the two known ones.
    InvalidInstruction,
    /// The storage region does not belong to this program.
    WrongOwner,
    /// A bid came after the deadline.
    AuctionEnded,
    /// A bid came without the identity of its bidder.
    MissingBidder,
}

} // verus!
