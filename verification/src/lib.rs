//! Matching core of a double-auction marketplace for discrete quantities of
//! electricity.
//!
//! A seller lists a quantity at a starting price for a number of blocks. Buyers
//! place strictly increasing bids. When the period has elapsed the auction is
//! resolved exactly once: matched with its highest bidder, or closed unmatched.
//!
//! Every function here is verified against a mathematical model of the data it
//! works on; the model of each type is its view.
//!
//! - [`tier`] maps a listed quantity to its category.
//! - [`bid`] holds the bids of one auction, highest first.
//! - [`auction`] is the record of one auction and the rules by which it changes.
//! - [`digest`] gives each auction its identifier.
//! - [`store`] keeps the records, one per identifier.
//! - [`pallet`] is the state of all auctions and the transitions that change it.
//! - [`event`] and [`error`] are what leaves the engine.
//! - [`laws`] states what holds whatever the inputs.

pub mod auction;
pub mod bid;
pub mod digest;
pub mod error;
pub mod event;
pub mod laws;
pub mod pallet;
pub mod primitives;
pub mod store;
pub mod tier;

pub use auction::{AuctionData, AuctionStatus, AuctionView, BidAttempt};
pub use bid::{Bid, BidLedger};
pub use digest::auction_id;
pub use error::Error;
pub use event::{Event, Hook, Notice};
pub use pallet::{Pallet, PalletView};
pub use primitives::{AccountId, AuctionId, BlockNumber};
pub use store::AuctionStore;
pub use tier::{classify, Tier};
