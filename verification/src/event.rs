//! What leaves the engine: events for indexers, and notices for the hooks of
//! collaborating modules.
//!
//! The engine calls nobody. It appends to two logs, and the host hands the
//! events on and calls the hook that each notice names, with the record of the
//! auction. A hook therefore cannot abort the transition that it is told of.

use crate::bid::Bid;
use crate::primitives::{AccountId, AuctionId, BlockNumber};
use vstd::prelude::*;

verus! {

#[derive(Clone, Copy, Debug, PartialEq, Eq, Structural)]
pub enum Event {
    /// A seller listed a quantity.
    AuctionCreated { seller: AccountId, quantity: u128, starting_bid: u128 },
    /// The period of an auction with bids ended: its highest bidder buys.
    AuctionMatched {
        seller: AccountId,
        buyer: AccountId,
        quantity: u128,
        starting_bid: u128,
        highest_bid: u128,
        matched_at: BlockNumber,
    },
    /// The settlement side reports that a matched auction was carried out.
    AuctionExecuted {
        seller: AccountId,
        buyer: AccountId,
        quantity: u128,
        starting_bid: u128,
        highest_bid: u128,
        executed_at: BlockNumber,
    },
    /// An auction ended without a match: withdrawn by its seller, or expired
    /// without a bid.
    AuctionDestroyed { seller: AccountId, quantity: u128, starting_bid: u128 },
}

/// The extension points at which collaborating modules are notified.
#[derive(Clone, Copy, Debug, PartialEq, Eq, Structural)]
pub enum Hook {
    /// An auction was created.
    OnAuctionsCreated,
    /// An auction ended without a match.
    OnAuctionDestroyed,
    /// A bid was accepted and is the new highest.
    OnBidAuction,
    /// An auction ended with a match, which is to be settled.
    OnAuctionOver,
}

/// A call that is owed to a hook, for the auction `auction_id`, whose highest
/// bid was `highest_bid` when the notice was left.
#[derive(Clone, Copy, Debug, PartialEq, Eq)]
pub struct Notice {
    pub hook: Hook,
    pub auction_id: AuctionId,
    pub highest_bid: Bid,
}

} // verus!
