//! One auction: its record, the model of the record, and the rules by which a
//! record changes.

use crate::bid::{bid_too_low, ledger_valid, top_bid, Bid, BidLedger};
use crate::error::Error;
use crate::event::{Event, Hook, Notice};
use crate::primitives::{AccountId, AuctionId, BlockNumber};
use crate::tier::{classify, tier_of, Tier};
use vstd::prelude::*;

verus! {

/// An alive auction accepts bids. A dead one is final.
#[derive(Clone, Copy, Debug, PartialEq, Eq, Structural)]
pub enum AuctionStatus {
    Alive,
    Dead,
}

impl Default for AuctionStatus {
    fn default() -> (status: AuctionStatus)
        ensures
            status == AuctionStatus::Alive,
    {
        AuctionStatus::Alive
    }
}

/// A bid as it is submitted, with the deposit that backs it.
pub struct BidAttempt {
    pub bid: Bid,
    pub deposit: u128,
}

/// The model of an auction record.
pub struct AuctionView {
    pub seller_id: AccountId,
    pub quantity: u128,
    pub starting_bid: u128,
    /// The accepted bids, highest first.
    pub bids: Seq<Bid>,
    pub auction_period: BlockNumber,
    pub status: AuctionStatus,
    pub start_height: BlockNumber,
    /// The height at which the auction was resolved; unset while it is alive.
    pub end_height: Option<BlockNumber>,
    pub highest_bid: Bid,
    pub category: Tier,
}

impl AuctionView {
    /// What holds of every record at every observable point.
    pub open spec fn valid(self) -> bool {
        &&& self.quantity > 0
        &&& self.auction_period > 0
        &&& self.category == tier_of(self.quantity)
        &&& ledger_valid(self.bids, self.starting_bid)
        &&& self.highest_bid == top_bid(self.bids)
        &&& (self.end_height is Some <==> self.status == AuctionStatus::Dead)
        &&& (self.end_height is Some ==> self.end_height->0 >= self.deadline())
    }

    /// The record of an auction that was just created: alive and without bids.
    pub open spec fn fresh(
        seller_id: AccountId,
        quantity: u128,
        starting_bid: u128,
        auction_period: BlockNumber,
        start_height: BlockNumber,
    ) -> AuctionView {
        AuctionView {
            seller_id,
            quantity,
            starting_bid,
            bids: Seq::empty(),
            auction_period,
            status: AuctionStatus::Alive,
            start_height,
            end_height: None,
            highest_bid: Bid::zero(),
            category: tier_of(quantity),
        }
    }

    pub open spec fn is_alive(self) -> bool {
        self.status == AuctionStatus::Alive
    }

    /// Whether a buyer has bid: the highest bid is then a real one.
    pub open spec fn has_bid(self) -> bool {
        self.highest_bid.amount > 0
    }

    /// The first height at which the auction period has elapsed. It may lie
    /// beyond the last height that there is.
    pub open spec fn deadline(self) -> int {
        self.start_height + self.auction_period
    }

    /// Whether the auction period has elapsed at height `now`.
    pub open spec fn due(self, now: BlockNumber) -> bool {
        now >= self.deadline()
    }

    /// Why a bid of `amount`, backed by `deposit`, is refused, if it is.
    pub open spec fn bid_error(self, amount: u128, deposit: u128) -> Option<Error> {
        if !self.is_alive() {
            Some(Error::AuctionIsOver)
        } else if deposit < amount {
            Some(Error::InsufficientAttachedDeposit)
        } else if bid_too_low(self.bids, self.starting_bid, amount) {
            Some(Error::BidTooLow)
        } else {
            None
        }
    }

    /// The record after `bid` was accepted: the bid is the new first entry of
    /// the ledger and the new highest bid; all earlier entries stay.
    pub open spec fn with_bid(self, bid: Bid) -> AuctionView {
        AuctionView { bids: seq![bid] + self.bids, highest_bid: bid, ..self }
    }

    /// The record after a bid was attempted: with the bid if it was accepted,
    /// unchanged if it was refused.
    pub open spec fn after_attempt(self, attempt: BidAttempt) -> AuctionView {
        if self.bid_error(attempt.bid.amount, attempt.deposit) is None {
            self.with_bid(attempt.bid)
        } else {
            self
        }
    }

    /// The record after the bids of `attempts` were attempted in turn.
    pub open spec fn after_attempts(self, attempts: Seq<BidAttempt>) -> AuctionView
        decreases attempts.len(),
    {
        if attempts.len() == 0 {
            self
        } else {
            self.after_attempts(attempts.drop_last()).after_attempt(attempts.last())
        }
    }

    /// Those bids of `attempts` that were accepted, in order of arrival.
    pub open spec fn accepted_bids(self, attempts: Seq<BidAttempt>) -> Seq<Bid>
        decreases attempts.len(),
    {
        if attempts.len() == 0 {
            Seq::empty()
        } else {
            let earlier = self.accepted_bids(attempts.drop_last());
            let attempt = attempts.last();
            if self.after_attempts(attempts.drop_last()).bid_error(
                attempt.bid.amount,
                attempt.deposit,
            ) is None {
                earlier.push(attempt.bid)
            } else {
                earlier
            }
        }
    }

    /// Why the seller's request to destroy, made by `caller`, is refused, if
    /// it is.
    pub open spec fn destroy_error(self, caller: AccountId) -> Option<Error> {
        if caller != self.seller_id {
            Some(Error::UnAuthorizedCall)
        } else if !self.is_alive() {
            Some(Error::AuctionIsOver)
        } else {
            None
        }
    }

    /// The record after it was resolved at height `now`.
    pub open spec fn resolved(self, now: BlockNumber) -> AuctionView {
        AuctionView { status: AuctionStatus::Dead, end_height: Some(now), ..self }
    }

    /// Whether a sweep at height `now` resolves the auction: it is alive and
    /// its period has elapsed.
    pub open spec fn closes(self, now: BlockNumber) -> bool {
        self.is_alive() && self.due(now)
    }

    /// The record after a sweep at height `now`.
    pub open spec fn swept(self, now: BlockNumber) -> AuctionView {
        if self.closes(now) {
            self.resolved(now)
        } else {
            self
        }
    }

    /// The event that resolving at height `now` emits: a match with the highest
    /// bidder if there is a bid, else the end of an unmatched auction.
    pub open spec fn closing_event(self, now: BlockNumber) -> Event {
        if self.has_bid() {
            Event::AuctionMatched {
                seller: self.seller_id,
                buyer: self.highest_bid.buyer_id,
                quantity: self.quantity,
                starting_bid: self.starting_bid,
                highest_bid: self.highest_bid.amount,
                matched_at: now,
            }
        } else {
            self.destroyed_event()
        }
    }

    /// The hook that is notified when the auction is resolved: the settlement
    /// side if there is a match, else the same hook as for a withdrawn auction.
    pub open spec fn closing_hook(self) -> Hook {
        if self.has_bid() {
            Hook::OnAuctionOver
        } else {
            Hook::OnAuctionDestroyed
        }
    }

    /// The notice that is left when the auction, stored under `id`, is
    /// resolved.
    pub open spec fn closing_notice(self, id: AuctionId) -> Notice {
        Notice { hook: self.closing_hook(), auction_id: id, highest_bid: self.highest_bid }
    }

    pub open spec fn created_event(self) -> Event {
        Event::AuctionCreated {
            seller: self.seller_id,
            quantity: self.quantity,
            starting_bid: self.starting_bid,
        }
    }

    pub open spec fn destroyed_event(self) -> Event {
        Event::AuctionDestroyed {
            seller: self.seller_id,
            quantity: self.quantity,
            starting_bid: self.starting_bid,
        }
    }

    /// Whether the settlement side may report this auction as carried out: it
    /// is dead and was matched.
    pub open spec fn is_matched(self) -> bool {
        !self.is_alive() && self.has_bid()
    }

    pub open spec fn executed_event(self, now: BlockNumber) -> Event {
        Event::AuctionExecuted {
            seller: self.seller_id,
            buyer: self.highest_bid.buyer_id,
            quantity: self.quantity,
            starting_bid: self.starting_bid,
            highest_bid: self.highest_bid.amount,
            executed_at: now,
        }
    }
}

/// The full state of one auction.
#[derive(Clone, Debug, PartialEq, Eq)]
pub struct AuctionData {
    seller_id: AccountId,
    quantity: u128,
    /// The starting bid and the accepted bids.
    ledger: BidLedger,
    auction_period: BlockNumber,
    status: AuctionStatus,
    start_height: BlockNumber,
    end_height: Option<BlockNumber>,
    /// A copy of the ledger's first entry.
    highest_bid: Bid,
    category: Tier,
}

impl View for AuctionData {
    type V = AuctionView;

    closed spec fn view(&self) -> AuctionView {
        AuctionView {
            seller_id: self.seller_id,
            quantity: self.quantity,
            starting_bid: self.ledger.floor(),
            bids: self.ledger@,
            auction_period: self.auction_period,
            status: self.status,
            start_height: self.start_height,
            end_height: self.end_height,
            highest_bid: self.highest_bid,
            category: self.category,
        }
    }
}

impl AuctionData {
    pub open spec fn wf(&self) -> bool {
        self@.valid()
    }

    /// The record of a new auction that starts at `start_height`.
    pub fn new(
        seller_id: AccountId,
        quantity: u128,
        starting_bid: u128,
        auction_period: BlockNumber,
        start_height: BlockNumber,
    ) -> (auction: AuctionData)
        requires
            quantity > 0,
            auction_period > 0,
        ensures
            auction.wf(),
            auction@ == AuctionView::fresh(
                seller_id,
                quantity,
                starting_bid,
                auction_period,
                start_height,
            ),
    {
        AuctionData {
            seller_id,
            quantity,
            ledger: BidLedger::new(starting_bid),
            auction_period,
            status: AuctionStatus::Alive,
            start_height,
            end_height: None,
            highest_bid: Bid::new(0, 0),
            category: classify(quantity),
        }
    }

    /// Rebuilds a record from stored parts, the bids highest first. `None` if
    /// the parts do not make a valid record.
    pub fn from_parts(
        seller_id: AccountId,
        quantity: u128,
        starting_bid: u128,
        bids: &Vec<Bid>,
        auction_period: BlockNumber,
        status: AuctionStatus,
        start_height: BlockNumber,
        end_height: Option<BlockNumber>,
        highest_bid: Bid,
        category: Tier,
    ) -> (auction: Option<AuctionData>)
        ensures
            ({
                let parts = AuctionView {
                    seller_id,
                    quantity,
                    starting_bid,
                    bids: bids@,
                    auction_period,
                    status,
                    start_height,
                    end_height,
                    highest_bid,
                    category,
                };
                &&& auction is Some <==> parts.valid()
                &&& auction is Some ==> auction->0.wf() && auction->0@ == parts
            }),
    {
        if quantity == 0 || auction_period == 0 {
            return None;
        }
        if category != classify(quantity) {
            return None;
        }
        match end_height {
            Some(end) => {
                if status == AuctionStatus::Alive {
                    return None;
                }
                if end < start_height || end - start_height < auction_period {
                    return None;
                }
            },
            None => {
                if status == AuctionStatus::Dead {
                    return None;
                }
            },
        }
        match BidLedger::from_bids(starting_bid, bids) {
            None => None,
            Some(ledger) => {
                if highest_bid != ledger.highest() {
                    return None;
                }
                Some(
                    AuctionData {
                        seller_id,
                        quantity,
                        ledger,
                        auction_period,
                        status,
                        start_height,
                        end_height,
                        highest_bid,
                        category,
                    },
                )
            },
        }
    }

    /// The first height at which the auction period has elapsed, if there is
    /// such a height.
    pub fn deadline(&self) -> (deadline: Option<BlockNumber>)
        ensures
            match deadline {
                Some(height) => height == self@.deadline(),
                None => self@.deadline() > u64::MAX,
            },
    {
        self.start_height.checked_add(self.auction_period)
    }

    /// Whether the auction period has elapsed at height `now`.
    pub fn is_due(&self, now: BlockNumber) -> (due: bool)
        ensures
            due == self@.due(now),
    {
        now >= self.start_height && now - self.start_height >= self.auction_period
    }

    /// Places a bid of `amount` by `buyer_id`, backed by a deposit of
    /// `deposit`. An accepted bid becomes the first entry of the ledger and the
    /// highest bid. A refused bid changes nothing.
    pub fn place_bid(&mut self, buyer_id: AccountId, amount: u128, deposit: u128) -> (result:
        Result<Bid, Error>)
        requires
            old(self).wf(),
        ensures
            final(self).wf(),
            match old(self)@.bid_error(amount, deposit) {
                Some(error) => result == Err::<Bid, Error>(error) && final(self)@ == old(self)@,
                None => result == Ok::<Bid, Error>(Bid { buyer_id, amount }) && final(self)@
                    == old(self)@.with_bid(Bid { buyer_id, amount }),
            },
    {
        if self.status == AuctionStatus::Dead {
            return Err(Error::AuctionIsOver);
        }
        if deposit < amount {
            return Err(Error::InsufficientAttachedDeposit);
        }
        let bid = Bid::new(buyer_id, amount);
        match self.ledger.insert(bid) {
            Err(error) => Err(error),
            Ok(()) => {
                self.highest_bid = bid;
                Ok(bid)
            },
        }
    }

    /// Checks that `caller` may destroy this auction now.
    pub fn check_destroy(&self, caller: AccountId) -> (result: Result<(), Error>)
        ensures
            match self@.destroy_error(caller) {
                Some(error) => result == Err::<(), Error>(error),
                None => result == Ok::<(), Error>(()),
            },
    {
        if caller != self.seller_id {
            Err(Error::UnAuthorizedCall)
        } else if self.status == AuctionStatus::Dead {
            Err(Error::AuctionIsOver)
        } else {
            Ok(())
        }
    }

    /// Resolves the auction at height `now`. A dead auction is not resolved
    /// again. Before the period has elapsed nothing happens. Otherwise the
    /// auction dies at `now`, and the event that closes it is returned.
    pub fn resolve(&mut self, now: BlockNumber) -> (result: Result<Option<Event>, Error>)
        requires
            old(self).wf(),
        ensures
            final(self).wf(),
            !old(self)@.is_alive() ==> result == Err::<Option<Event>, Error>(Error::AuctionIsOver)
                && final(self)@ == old(self)@,
            old(self)@.is_alive() && !old(self)@.due(now) ==> result == Ok::<Option<Event>, Error>(
                None,
            ) && final(self)@ == old(self)@,
            old(self)@.is_alive() && old(self)@.due(now) ==> result == Ok::<Option<Event>, Error>(
                Some(old(self)@.closing_event(now)),
            ) && final(self)@ == old(self)@.resolved(now),
    {
        if self.status == AuctionStatus::Dead {
            return Err(Error::AuctionIsOver);
        }
        if !self.is_due(now) {
            return Ok(None);
        }
        let event = self.closing_event(now);
        self.status = AuctionStatus::Dead;
        self.end_height = Some(now);
        Ok(Some(event))
    }

    /// The event that resolving at height `now` emits.
    pub fn closing_event(&self, now: BlockNumber) -> (event: Event)
        ensures
            event == self@.closing_event(now),
    {
        if self.highest_bid.amount > 0 {
            Event::AuctionMatched {
                seller: self.seller_id,
                buyer: self.highest_bid.buyer_id,
                quantity: self.quantity,
                starting_bid: self.ledger.starting_bid(),
                highest_bid: self.highest_bid.amount,
                matched_at: now,
            }
        } else {
            self.destroyed_event()
        }
    }

    /// The hook that is notified when the auction is resolved.
    pub fn closing_hook(&self) -> (hook: Hook)
        ensures
            hook == self@.closing_hook(),
    {
        if self.highest_bid.amount > 0 {
            Hook::OnAuctionOver
        } else {
            Hook::OnAuctionDestroyed
        }
    }

    /// The notice that is left when the auction, stored under `id`, is
    /// resolved.
    pub fn closing_notice(&self, id: AuctionId) -> (notice: Notice)
        ensures
            notice == self@.closing_notice(id),
    {
        Notice { hook: self.closing_hook(), auction_id: id, highest_bid: self.highest_bid }
    }

    /// The event that tells of the listing.
    pub fn created_event(&self) -> (event: Event)
        ensures
            event == self@.created_event(),
    {
        Event::AuctionCreated {
            seller: self.seller_id,
            quantity: self.quantity,
            starting_bid: self.ledger.starting_bid(),
        }
    }

    /// The event that tells of an end without a match.
    pub fn destroyed_event(&self) -> (event: Event)
        ensures
            event == self@.destroyed_event(),
    {
        Event::AuctionDestroyed {
            seller: self.seller_id,
            quantity: self.quantity,
            starting_bid: self.ledger.starting_bid(),
        }
    }

    /// The event by which the settlement side reports, at height `now`, that
    /// the match was carried out. `None` unless the auction is dead and matched.
    pub fn executed_event(&self, now: BlockNumber) -> (event: Option<Event>)
        ensures
            event == (if self@.is_matched() {
                Some(self@.executed_event(now))
            } else {
                None
            }),
    {
        if self.status == AuctionStatus::Dead && self.highest_bid.amount > 0 {
            Some(
                Event::AuctionExecuted {
                    seller: self.seller_id,
                    buyer: self.highest_bid.buyer_id,
                    quantity: self.quantity,
                    starting_bid: self.ledger.starting_bid(),
                    highest_bid: self.highest_bid.amount,
                    executed_at: now,
                },
            )
        } else {
            None
        }
    }
    /// The seller who listed the quantity.
    pub fn seller_id(&self) -> (seller_id: AccountId)
        ensures
            seller_id == self@.seller_id,
    {
        self.seller_id
    }

    /// The listed quantity.
    pub fn quantity(&self) -> (quantity: u128)
        ensures
            quantity == self@.quantity,
    {
        self.quantity
    }

    /// The floor price.
    pub fn starting_bid(&self) -> (starting_bid: u128)
        ensures
            starting_bid == self@.starting_bid,
    {
        self.ledger.starting_bid()
    }

    /// The accepted bids, highest first.
    pub fn bids(&self) -> (bids: Vec<Bid>)
        ensures
            bids@ == self@.bids,
    {
        self.ledger.to_vec()
    }

    /// The ledger of accepted bids.
    pub fn ledger(&self) -> (ledger: &BidLedger)
        ensures
            ledger@ == self@.bids,
            ledger.floor() == self@.starting_bid,
    {
        &self.ledger
    }

    /// The number of heights for which the auction accepts bids.
    pub fn auction_period(&self) -> (auction_period: BlockNumber)
        ensures
            auction_period == self@.auction_period,
    {
        self.auction_period
    }

    pub fn status(&self) -> (status: AuctionStatus)
        ensures
            status == self@.status,
    {
        self.status
    }

    /// The height at which the auction was created.
    pub fn start_height(&self) -> (start_height: BlockNumber)
        ensures
            start_height == self@.start_height,
    {
        self.start_height
    }

    /// The height at which the auction was resolved; `None` while it is alive.
    pub fn end_height(&self) -> (end_height: Option<BlockNumber>)
        ensures
            end_height == self@.end_height,
    {
        self.end_height
    }

    /// The highest bid, or the zero bid if there is none.
    pub fn highest_bid(&self) -> (highest_bid: Bid)
        ensures
            highest_bid == self@.highest_bid,
    {
        self.highest_bid
    }

    pub fn category(&self) -> (category: Tier)
        ensures
            category == self@.category,
    {
        self.category
    }
}

} // verus!
