//! The auction lifecycle: the state of all auctions and the transitions that
//! change it.
//!
//! Operations are applied one at a time. An operation that is refused changes
//! nothing. Destroying an auction removes its record; resolving one keeps the
//! record, dead, so that it cannot be resolved or bid on again.
//!
//! Expiry is polled: once per height the host calls [`Pallet::check_expiry`].
//! The state keeps a height before which no alive auction has its deadline.
//! A sweep at an earlier height returns at once. Any other sweep visits every
//! record in order of insertion, resolves those that are alive and whose
//! period has elapsed, and finds the earliest deadline that is left.

use crate::auction::{AuctionData, AuctionStatus, AuctionView};
use crate::bid::Bid;
use crate::digest::{auction_id, auction_id_of};
use crate::error::Error;
use crate::event::{Event, Hook, Notice};
use crate::primitives::{AccountId, AuctionId, BlockNumber};
use crate::store::AuctionStore;
use vstd::prelude::*;

verus! {

/// The model of the state: the identifiers in order of insertion, the record
/// under each, the events emitted so far, and the notices owed to hooks.
pub struct PalletView {
    pub ids: Seq<AuctionId>,
    pub auctions: Map<AuctionId, AuctionView>,
    pub events: Seq<Event>,
    pub notices: Seq<Notice>,
}

impl PalletView {
    /// No identifier occurs twice, there is a record under each identifier and
    /// under no other, and every record is valid.
    pub open spec fn valid(self) -> bool {
        &&& self.ids.no_duplicates()
        &&& self.auctions.dom() =~= self.ids.to_set()
        &&& forall|id: AuctionId| #[trigger]
            self.auctions.dom().contains(id) ==> self.auctions[id].valid()
    }

    pub open spec fn contains(self, id: AuctionId) -> bool {
        self.auctions.dom().contains(id)
    }

    /// Creation fails only if the identifier is taken.
    pub open spec fn create_result(self, id: AuctionId) -> Result<AuctionId, Error> {
        if self.contains(id) {
            Err(Error::DuplicateAuction)
        } else {
            Ok(id)
        }
    }

    /// The state after the creation of `auction` under `id` was asked for.
    pub open spec fn after_create(self, id: AuctionId, auction: AuctionView) -> PalletView {
        if self.contains(id) {
            self
        } else {
            PalletView {
                ids: self.ids.push(id),
                auctions: self.auctions.insert(id, auction),
                events: self.events.push(auction.created_event()),
                notices: self.notices.push(
                    Notice {
                        hook: Hook::OnAuctionsCreated,
                        auction_id: id,
                        highest_bid: auction.highest_bid,
                    },
                ),
            }
        }
    }

    /// Why a bid of `amount` on `id`, backed by `deposit`, is refused, if it is.
    pub open spec fn bid_error(self, id: AuctionId, amount: u128, deposit: u128) -> Option<Error> {
        if !self.contains(id) {
            Some(Error::AuctionDoesNotExist)
        } else {
            self.auctions[id].bid_error(amount, deposit)
        }
    }

    pub open spec fn bid_result(self, id: AuctionId, bid: Bid, deposit: u128) -> Result<
        Bid,
        Error,
    > {
        match self.bid_error(id, bid.amount, deposit) {
            Some(error) => Err(error),
            None => Ok(bid),
        }
    }

    /// The state after `bid` on `id`, backed by `deposit`, was asked for.
    pub open spec fn after_bid(self, id: AuctionId, bid: Bid, deposit: u128) -> PalletView {
        if self.bid_error(id, bid.amount, deposit) is Some {
            self
        } else {
            PalletView {
                auctions: self.auctions.insert(id, self.auctions[id].with_bid(bid)),
                notices: self.notices.push(
                    Notice { hook: Hook::OnBidAuction, auction_id: id, highest_bid: bid },
                ),
                ..self
            }
        }
    }

    /// Why the request of `caller` to destroy `id` is refused, if it is.
    pub open spec fn destroy_error(self, id: AuctionId, caller: AccountId) -> Option<Error> {
        if !self.contains(id) {
            Some(Error::AuctionDoesNotExist)
        } else {
            self.auctions[id].destroy_error(caller)
        }
    }

    /// The state after `caller` asked to destroy `id`.
    pub open spec fn after_destroy(self, id: AuctionId, caller: AccountId) -> PalletView {
        if self.destroy_error(id, caller) is Some {
            self
        } else {
            PalletView {
                ids: self.ids.remove(self.ids.index_of(id)),
                auctions: self.auctions.remove(id),
                events: self.events.push(self.auctions[id].destroyed_event()),
                notices: self.notices.push(
                    Notice {
                        hook: Hook::OnAuctionDestroyed,
                        auction_id: id,
                        highest_bid: self.auctions[id].highest_bid,
                    },
                ),
            }
        }
    }

    /// What resolving `id` at height `now` returns: an error for an unknown or
    /// dead auction, nothing before the period has elapsed, else the event that
    /// closes the auction.
    pub open spec fn resolve_result(self, id: AuctionId, now: BlockNumber) -> Result<
        Option<Event>,
        Error,
    > {
        if !self.contains(id) {
            Err(Error::AuctionDoesNotExist)
        } else if !self.auctions[id].is_alive() {
            Err(Error::AuctionIsOver)
        } else if !self.auctions[id].due(now) {
            Ok(None)
        } else {
            Ok(Some(self.auctions[id].closing_event(now)))
        }
    }

    /// The state after resolving `id` at height `now` was asked for.
    pub open spec fn after_resolve(self, id: AuctionId, now: BlockNumber) -> PalletView {
        if self.contains(id) && self.auctions[id].closes(now) {
            PalletView {
                auctions: self.auctions.insert(id, self.auctions[id].resolved(now)),
                events: self.events.push(self.auctions[id].closing_event(now)),
                notices: self.notices.push(self.auctions[id].closing_notice(id)),
                ..self
            }
        } else {
            self
        }
    }

    /// The events that a sweep at height `now` emits for the first `upto`
    /// records, in order of insertion.
    pub open spec fn sweep_events(self, upto: nat, now: BlockNumber) -> Seq<Event>
        decreases upto,
    {
        if upto == 0 {
            Seq::empty()
        } else {
            let before = self.sweep_events((upto - 1) as nat, now);
            let auction = self.auctions[self.ids[upto - 1]];
            if auction.closes(now) {
                before.push(auction.closing_event(now))
            } else {
                before
            }
        }
    }

    /// The notices that a sweep at height `now` leaves for the first `upto`
    /// records, in order of insertion.
    pub open spec fn sweep_notices(self, upto: nat, now: BlockNumber) -> Seq<Notice>
        decreases upto,
    {
        if upto == 0 {
            Seq::empty()
        } else {
            let before = self.sweep_notices((upto - 1) as nat, now);
            let auction = self.auctions[self.ids[upto - 1]];
            if auction.closes(now) {
                before.push(auction.closing_notice(self.ids[upto - 1]))
            } else {
                before
            }
        }
    }

    /// The state after a sweep at height `now`: every record that is alive and
    /// whose period has elapsed is resolved, the others are as before.
    pub open spec fn after_sweep(self, now: BlockNumber) -> PalletView {
        PalletView {
            ids: self.ids,
            auctions: Map::new(
                |id: AuctionId| self.contains(id),
                |id: AuctionId| self.auctions[id].swept(now),
            ),
            events: self.events + self.sweep_events(self.ids.len(), now),
            notices: self.notices + self.sweep_notices(self.ids.len(), now),
        }
    }

    /// The event by which the settlement side reports at height `now` that
    /// the match of `id` was carried out, if `id` is dead and matched.
    pub open spec fn executed_event(self, id: AuctionId, now: BlockNumber) -> Option<Event> {
        if self.contains(id) && self.auctions[id].is_matched() {
            Some(self.auctions[id].executed_event(now))
        } else {
            None
        }
    }

    pub open spec fn after_executed(self, id: AuctionId, now: BlockNumber) -> PalletView {
        match self.executed_event(id, now) {
            Some(event) => PalletView { events: self.events.push(event), ..self },
            None => self,
        }
    }

    /// Whether no auction is resolved by a sweep at height `now`.
    pub open spec fn idle(self, now: BlockNumber) -> bool {
        forall|id: AuctionId| #[trigger] self.contains(id) ==> !self.auctions[id].closes(now)
    }

    /// A sweep at a height at which no auction is to be resolved emits
    /// nothing for any prefix of the records.
    proof fn lemma_idle_prefix(self, upto: nat, now: BlockNumber)
        requires
            self.valid(),
            self.idle(now),
            upto <= self.ids.len(),
        ensures
            self.sweep_events(upto, now) =~= Seq::empty(),
            self.sweep_notices(upto, now) =~= Seq::empty(),
        decreases upto,
    {
        if upto > 0 {
            self.lemma_idle_prefix((upto - 1) as nat, now);
            let id = self.ids[upto - 1];
            assert(self.ids.to_set().contains(id));
            assert(self.contains(id));
        }
    }

    /// A sweep at a height at which no auction is to be resolved changes
    /// nothing.
    pub proof fn lemma_idle_sweep(self, now: BlockNumber)
        requires
            self.valid(),
            self.idle(now),
        ensures
            self.after_sweep(now) == self,
            self.sweep_events(self.ids.len(), now) =~= Seq::empty(),
    {
        self.lemma_idle_prefix(self.ids.len(), now);
        let after = self.after_sweep(now);
        assert(after.auctions =~= self.auctions) by {
            assert forall|id: AuctionId| #[trigger] self.contains(id) implies self.auctions[id].swept(
                now,
            ) == self.auctions[id] by {}
        }
        assert(after.events =~= self.events);
        assert(after.notices =~= self.notices);
    }
}

/// The state of all auctions, the log of the events emitted, and the log of
/// the notices owed to hooks.
#[derive(Clone, Debug)]
pub struct Pallet {
    auctions: AuctionStore,
    events: Vec<Event>,
    notices: Vec<Notice>,
    /// No alive auction has its deadline before this height.
    next_expiry: BlockNumber,
}

impl View for Pallet {
    type V = PalletView;

    closed spec fn view(&self) -> PalletView {
        PalletView {
            ids: self.auctions.ids(),
            auctions: self.auctions@,
            events: self.events@,
            notices: self.notices@,
        }
    }
}

/// The earlier of `earliest` and the deadline of `auction`, if `auction` is
/// alive; else `earliest`.
pub open spec fn sooner_of(earliest: BlockNumber, auction: AuctionView) -> BlockNumber {
    if auction.is_alive() && auction.deadline() < earliest {
        auction.deadline() as BlockNumber
    } else {
        earliest
    }
}

/// The earlier of `earliest` and the deadline of `auction`, if `auction` is
/// alive; else `earliest`.
fn sooner(earliest: BlockNumber, auction: &AuctionData) -> (height: BlockNumber)
    ensures
        height == sooner_of(earliest, auction@),
{
    if auction.status() == AuctionStatus::Alive {
        match auction.deadline() {
            Some(deadline) => if deadline < earliest {
                deadline
            } else {
                earliest
            },
            None => earliest,
        }
    } else {
        earliest
    }
}

/// The earliest deadline among the alive auctions of `auctions`, or the last
/// height if none of them has a deadline.
fn earliest_deadline(auctions: &AuctionStore) -> (earliest: BlockNumber)
    requires
        auctions.wf(),
    ensures
        forall|id: AuctionId| #[trigger]
            auctions@.dom().contains(id) && auctions@[id].is_alive() ==> earliest
                <= auctions@[id].deadline(),
        earliest == u64::MAX || exists|id: AuctionId| #[trigger]
            auctions@.dom().contains(id) && auctions@[id].is_alive() && earliest
                == auctions@[id].deadline(),
{
    let mut earliest: BlockNumber = u64::MAX;
    let n = auctions.len();
    let mut index: usize = 0;
    while index < n
        invariant
            index <= n,
            n == auctions.ids().len(),
            auctions.wf(),
            forall|k: int|
                0 <= k < index && auctions@[#[trigger] auctions.ids()[k]].is_alive() ==> earliest
                    <= auctions@[auctions.ids()[k]].deadline(),
            earliest == u64::MAX || exists|id: AuctionId| #[trigger]
                auctions@.dom().contains(id) && auctions@[id].is_alive() && earliest
                    == auctions@[id].deadline(),
        decreases n - index,
    {
        let ghost id = auctions.ids()[index as int];
        assert(auctions@.dom().contains(id)) by {
            assert(auctions.ids().to_set().contains(id));
        }
        earliest = sooner(earliest, auctions.at(index));
        index = index + 1;
    }
    assert forall|id: AuctionId| #[trigger]
        auctions@.dom().contains(id) && auctions@[id].is_alive() implies earliest
        <= auctions@[id].deadline() by {
        assert(auctions.ids().contains(id));
        let k = auctions.ids().index_of(id);
        assert(auctions.ids()[k] == id);
    }
    earliest
}

impl Pallet {
    /// The height kept as the next expiry is not after the deadline of any
    /// alive auction.
    pub closed spec fn schedule_ok(&self) -> bool {
        forall|id: AuctionId| #[trigger]
            self.auctions@.dom().contains(id) && self.auctions@[id].is_alive()
                ==> self.next_expiry <= self.auctions@[id].deadline()
    }

    pub open spec fn wf(&self) -> bool {
        self@.valid() && self.schedule_ok()
    }

    /// A state without auctions, events or notices.
    pub fn new() -> (pallet: Pallet)
        ensures
            pallet.wf(),
            pallet@.ids =~= Seq::<AuctionId>::empty(),
            pallet@.auctions =~= Map::<AuctionId, AuctionView>::empty(),
            pallet@.events =~= Seq::<Event>::empty(),
            pallet@.notices =~= Seq::<Notice>::empty(),
    {
        Pallet {
            auctions: AuctionStore::new(),
            events: Vec::new(),
            notices: Vec::new(),
            next_expiry: u64::MAX,
        }
    }

    /// A state that holds the records of `auctions`, and no events or notices.
    pub fn restore(auctions: AuctionStore) -> (pallet: Pallet)
        requires
            auctions.wf(),
        ensures
            pallet.wf(),
            pallet@.ids == auctions.ids(),
            pallet@.auctions == auctions@,
            pallet@.events =~= Seq::<Event>::empty(),
            pallet@.notices =~= Seq::<Notice>::empty(),
    {
        let next_expiry = earliest_deadline(&auctions);
        Pallet { auctions, events: Vec::new(), notices: Vec::new(), next_expiry }
    }

    /// Lists `quantity` units of `seller_id` at height `now`, for
    /// `auction_period` heights and from `starting_bid` upwards. The auction
    /// gets the identifier that its defining fields and `salt` hash to; if
    /// that identifier is taken, nothing changes.
    pub fn create_auction(
        &mut self,
        seller_id: AccountId,
        quantity: u128,
        starting_bid: u128,
        auction_period: BlockNumber,
        salt: u64,
        now: BlockNumber,
    ) -> (result: Result<AuctionId, Error>)
        requires
            old(self).wf(),
            quantity > 0,
            auction_period > 0,
        ensures
            final(self).wf(),
            ({
                let auction = AuctionView::fresh(
                    seller_id,
                    quantity,
                    starting_bid,
                    auction_period,
                    now,
                );
                let id = auction_id_of(auction, salt);
                &&& result == old(self)@.create_result(id)
                &&& final(self)@ == old(self)@.after_create(id, auction)
            }),
    {
        let auction = AuctionData::new(seller_id, quantity, starting_bid, auction_period, now);
        let id = auction_id(&auction, salt);
        self.open_auction(id, auction)
    }

    /// Stores `auction` under `id` and tells of its creation, unless `id` is
    /// taken.
    pub fn open_auction(&mut self, id: AuctionId, auction: AuctionData) -> (result: Result<
        AuctionId,
        Error,
    >)
        requires
            old(self).wf(),
            auction.wf(),
        ensures
            final(self).wf(),
            result == old(self)@.create_result(id),
            final(self)@ == old(self)@.after_create(id, auction@),
    {
        let event = auction.created_event();
        let notice = Notice {
            hook: Hook::OnAuctionsCreated,
            auction_id: id,
            highest_bid: auction.highest_bid(),
        };
        let next_expiry = sooner(self.next_expiry, &auction);
        match self.auctions.insert(id, auction) {
            Err(error) => Err(error),
            Ok(()) => {
                self.events.push(event);
                self.notices.push(notice);
                self.next_expiry = next_expiry;
                Ok(id)
            },
        }
    }

    /// Places a bid of `amount` by `buyer_id` on `id`. `deposit` is what the
    /// buyer has in escrow; it must cover the amount.
    pub fn bid_on_auction(
        &mut self,
        id: AuctionId,
        buyer_id: AccountId,
        amount: u128,
        deposit: u128,
    ) -> (result: Result<Bid, Error>)
        requires
            old(self).wf(),
        ensures
            final(self).wf(),
            result == old(self)@.bid_result(id, Bid { buyer_id, amount }, deposit),
            final(self)@ == old(self)@.after_bid(id, Bid { buyer_id, amount }, deposit),
    {
        let result = match self.auctions.get_mut(&id) {
            None => Err(Error::AuctionDoesNotExist),
            Some(auction) => auction.place_bid(buyer_id, amount, deposit),
        };
        assert(self@.auctions =~= old(self)@.after_bid(
            id,
            Bid { buyer_id, amount },
            deposit,
        ).auctions);
        match result {
            Ok(bid) => {
                self.notices.push(
                    Notice { hook: Hook::OnBidAuction, auction_id: id, highest_bid: bid },
                );
            },
            Err(_) => {},
        }
        result
    }

    /// Withdraws the listing `id` at the request of `caller`, who must be its
    /// seller. The record leaves the store and is returned.
    pub fn destroy_auction(&mut self, id: AuctionId, caller: AccountId) -> (result: Result<
        AuctionData,
        Error,
    >)
        requires
            old(self).wf(),
        ensures
            final(self).wf(),
            match old(self)@.destroy_error(id, caller) {
                Some(error) => result == Err::<AuctionData, Error>(error),
                None => result is Ok && result->Ok_0@ == old(self)@.auctions[id],
            },
            final(self)@ == old(self)@.after_destroy(id, caller),
    {
        match self.auctions.get(&id) {
            None => {
                return Err(Error::AuctionDoesNotExist);
            },
            Some(auction) => {
                match auction.check_destroy(caller) {
                    Err(error) => {
                        return Err(error);
                    },
                    Ok(()) => {},
                }
            },
        }
        match self.auctions.remove(&id) {
            None => Err(Error::AuctionDoesNotExist),
            Some(auction) => {
                self.events.push(auction.destroyed_event());
                self.notices.push(
                    Notice {
                        hook: Hook::OnAuctionDestroyed,
                        auction_id: id,
                        highest_bid: auction.highest_bid(),
                    },
                );
                Ok(auction)
            },
        }
    }

    /// Resolves `id` at height `now`, if its period has elapsed.
    pub fn resolve_auction(&mut self, id: AuctionId, now: BlockNumber) -> (result: Result<
        Option<Event>,
        Error,
    >)
        requires
            old(self).wf(),
        ensures
            final(self).wf(),
            result == old(self)@.resolve_result(id, now),
            final(self)@ == old(self)@.after_resolve(id, now),
    {
        let mut notice = Notice {
            hook: Hook::OnAuctionDestroyed,
            auction_id: id,
            highest_bid: Bid::new(0, 0),
        };
        let result = match self.auctions.get_mut(&id) {
            None => Err(Error::AuctionDoesNotExist),
            Some(auction) => {
                notice = auction.closing_notice(id);
                auction.resolve(now)
            },
        };
        assert(self@.auctions =~= old(self)@.after_resolve(id, now).auctions);
        match result {
            Ok(Some(event)) => {
                self.events.push(event);
                self.notices.push(notice);
            },
            _ => {},
        }
        result
    }

    /// Resolves every auction that is alive and whose period has elapsed at
    /// height `now`, in order of insertion. Returns how many it resolved.
    ///
    /// At a height before the earliest deadline nothing is visited.
    pub fn check_expiry(&mut self, now: BlockNumber) -> (closed: usize)
        requires
            old(self).wf(),
        ensures
            final(self).wf(),
            final(self)@ == old(self)@.after_sweep(now),
            closed == old(self)@.sweep_events(old(self)@.ids.len(), now).len(),
    {
        let ghost before = self@;
        if now < self.next_expiry {
            proof {
                before.lemma_idle_sweep(now);
            }
            return 0;
        }
        let mut closed: usize = 0;
        let mut earliest: BlockNumber = u64::MAX;
        let n = self.auctions.len();
        let mut index: usize = 0;
        while index < n
            invariant
                before.valid(),
                index <= n,
                n == before.ids.len(),
                self.auctions.wf(),
                self.auctions.ids() == before.ids,
                forall|k: int|
                    0 <= k < n ==> self.auctions@[#[trigger] before.ids[k]] == (if k < index {
                        before.auctions[before.ids[k]].swept(now)
                    } else {
                        before.auctions[before.ids[k]]
                    }),
                forall|k: int|
                    0 <= k < index && before.auctions[#[trigger] before.ids[k]].swept(
                        now,
                    ).is_alive() ==> earliest <= before.auctions[before.ids[k]].deadline(),
                self.events@ == before.events + before.sweep_events(index as nat, now),
                self.notices@ == before.notices + before.sweep_notices(index as nat, now),
                closed == before.sweep_events(index as nat, now).len(),
                closed <= index,
            decreases n - index,
        {
            let ghost stored = self.auctions@;
            let id = self.auctions.id_at(index);
            assert(stored.dom().contains(id)) by {
                assert(self.auctions.ids()[index as int] == id);
            }
            let auction = self.auctions.at_mut(index);
            let notice = auction.closing_notice(id);
            let result = auction.resolve(now);
            earliest = sooner(earliest, auction);
            match result {
                Ok(Some(event)) => {
                    self.events.push(event);
                    self.notices.push(notice);
                    closed = closed + 1;
                },
                _ => {},
            }
            proof {
                assert forall|k: int| 0 <= k < n implies self.auctions@[#[trigger] before.ids[k]]
                    == (if k < index + 1 {
                    before.auctions[before.ids[k]].swept(now)
                } else {
                    before.auctions[before.ids[k]]
                }) by {
                    if k != index {
                        assert(before.ids[k] != before.ids[index as int]);
                    }
                }
                assert(self.events@ =~= before.events + before.sweep_events(
                    (index + 1) as nat,
                    now,
                ));
                assert(self.notices@ =~= before.notices + before.sweep_notices(
                    (index + 1) as nat,
                    now,
                ));
            }
            index = index + 1;
        }
        self.next_expiry = earliest;
        proof {
            assert forall|key: AuctionId| #[trigger]
                before.auctions.dom().contains(key) implies self.auctions@[key]
                == before.auctions[key].swept(now) && (self.auctions@[key].is_alive()
                ==> self.next_expiry <= self.auctions@[key].deadline()) by {
                assert(before.ids.contains(key));
                let k = before.ids.index_of(key);
                assert(before.ids[k] == key);
            }
            assert(self@.auctions =~= before.after_sweep(now).auctions);
        }
        closed
    }

    /// Tells of the execution of the match of `id`, as the settlement side
    /// reports it at height `now`. Nothing happens unless `id` is dead and
    /// matched. The store is not changed.
    pub fn mark_executed(&mut self, id: AuctionId, now: BlockNumber) -> (event: Option<Event>)
        requires
            old(self).wf(),
        ensures
            final(self).wf(),
            event == old(self)@.executed_event(id, now),
            final(self)@ == old(self)@.after_executed(id, now),
    {
        let event = match self.auctions.get(&id) {
            None => None,
            Some(auction) => auction.executed_event(now),
        };
        match event {
            Some(emitted) => {
                self.events.push(emitted);
            },
            None => {},
        }
        event
    }

    /// The record under `id`, if there is one.
    pub fn get_auction(&self, id: AuctionId) -> (auction: Option<&AuctionData>)
        requires
            self.wf(),
        ensures
            match auction {
                Some(found) => self@.contains(id) && found@ == self@.auctions[id] && found.wf(),
                None => !self@.contains(id),
            },
    {
        self.auctions.get(&id)
    }

    /// The store of records.
    pub fn auctions(&self) -> (auctions: &AuctionStore)
        ensures
            auctions.ids() == self@.ids,
            auctions@ == self@.auctions,
            self.wf() ==> auctions.wf(),
    {
        &self.auctions
    }

    /// The events emitted so far, oldest first.
    pub fn events(&self) -> (events: &Vec<Event>)
        ensures
            events@ == self@.events,
    {
        &self.events
    }

    /// Hands out the events emitted so far and clears the log.
    pub fn take_events(&mut self) -> (events: Vec<Event>)
        ensures
            events@ == old(self)@.events,
            final(self)@ == (PalletView { events: Seq::empty(), ..old(self)@ }),
            old(self).wf() ==> final(self).wf(),
    {
        let mut events: Vec<Event> = Vec::new();
        std::mem::swap(&mut events, &mut self.events);
        events
    }

    /// The notices owed to hooks, oldest first.
    pub fn notices(&self) -> (notices: &Vec<Notice>)
        ensures
            notices@ == self@.notices,
    {
        &self.notices
    }

    /// Hands out the notices owed to hooks and clears the log.
    pub fn take_notices(&mut self) -> (notices: Vec<Notice>)
        ensures
            notices@ == old(self)@.notices,
            final(self)@ == (PalletView { notices: Seq::empty(), ..old(self)@ }),
            old(self).wf() ==> final(self).wf(),
    {
        let mut notices: Vec<Notice> = Vec::new();
        std::mem::swap(&mut notices, &mut self.notices);
        notices
    }
}

} // verus!
