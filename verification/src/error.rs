//! Why an operation was refused. A refused operation has no effect.

use vstd::prelude::*;

verus! {

#[derive(Clone, Copy, Debug, PartialEq, Eq, Structural)]
pub enum Error {
    /// The operation named an identifier that the store does not hold.
    AuctionDoesNotExist,
    /// The operation was attempted on an auction that is already dead.
    AuctionIsOver,
    /// Someone other than the seller tried to destroy an auction.
    UnAuthorizedCall,
    /// The deposit attached to a bid does not cover its amount.
    InsufficientAttachedDeposit,
    /// The bid does not strictly exceed the highest bid, or is below the
    /// starting bid of an auction without bids.
    BidTooLow,
    /// An auction with the same identifier already exists.
    DuplicateAuction,
}

} // verus!
