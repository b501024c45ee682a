//! What holds of the engine whatever the inputs, proved from the model.

use crate::auction::{AuctionView, BidAttempt};
use crate::bid::{bid_too_low, top_bid, Bid};
use crate::digest::identity_bytes;
use crate::error::Error;
use crate::event::Event;
use crate::pallet::PalletView;
use crate::primitives::{AccountId, AuctionId, BlockNumber};
use crate::tier::{lemma_tier_level_monotonic, lemma_tier_level_u128, tier_level, tier_of};
use vstd::bytes::{
    lemma_auto_spec_u128_to_from_le_bytes, lemma_auto_spec_u32_to_from_le_bytes,
    lemma_auto_spec_u64_to_from_le_bytes, spec_u128_to_le_bytes, spec_u32_to_le_bytes,
    spec_u64_to_le_bytes,
};
use vstd::prelude::*;

verus! {

/// An accepted bid is strictly greater than every bid accepted before it on
/// the same auction, and all of those stay in the ledger behind it.
pub proof fn law_accepted_bid_exceeds_all(auction: AuctionView, bid: Bid, deposit: u128)
    requires
        auction.valid(),
        auction.bid_error(bid.amount, deposit) is None,
    ensures
        forall|k: int| 0 <= k < auction.bids.len() ==> bid.amount > auction.bids[k].amount,
        auction.with_bid(bid).bids =~= seq![bid] + auction.bids,
        auction.with_bid(bid).valid(),
{
    assert forall|k: int| 0 <= k < auction.bids.len() implies bid.amount
        > auction.bids[k].amount by {
        if k > 0 {
            assert(auction.bids[0].amount > auction.bids[k].amount);
        }
    }
}

/// Whatever bids are attempted on an auction, in whatever order: each accepted
/// amount is strictly greater than every amount accepted before it, and the
/// ledger lists the accepted bids, latest first, in front of those it held.
pub proof fn law_strict_monotonic_bids(auction: AuctionView, attempts: Seq<BidAttempt>)
    requires
        auction.valid(),
    ensures
        ({
            let accepted = auction.accepted_bids(attempts);
            let after = auction.after_attempts(attempts);
            &&& after.valid()
            &&& forall|i: int, j: int|
                0 <= i < j < accepted.len() ==> accepted[i].amount < accepted[j].amount
            &&& after.bids.len() == accepted.len() + auction.bids.len()
            &&& forall|k: int|
                0 <= k < accepted.len() ==> after.bids[k] == accepted[accepted.len() - 1 - k]
            &&& forall|k: int|
                0 <= k < auction.bids.len() ==> after.bids[accepted.len() + k] == auction.bids[k]
        }),
    decreases attempts.len(),
{
    if attempts.len() > 0 {
        let earlier = attempts.drop_last();
        let attempt = attempts.last();
        law_strict_monotonic_bids(auction, earlier);
        let before = auction.after_attempts(earlier);
        let accepted = auction.accepted_bids(earlier);
        if before.bid_error(attempt.bid.amount, attempt.deposit) is None {
            law_accepted_bid_exceeds_all(before, attempt.bid, attempt.deposit);
            let after = before.with_bid(attempt.bid);
            let grown = accepted.push(attempt.bid);
            assert forall|i: int, j: int| 0 <= i < j < grown.len() implies grown[i].amount
                < grown[j].amount by {
                if j == accepted.len() {
                    assert(before.bids[accepted.len() - 1 - i] == accepted[i]);
                }
            }
            assert forall|k: int| 0 <= k < grown.len() implies after.bids[k] == grown[grown.len()
                - 1 - k] by {
                if k > 0 {
                    assert(after.bids[k] == before.bids[k - 1]);
                }
            }
            assert forall|k: int| 0 <= k < auction.bids.len() implies after.bids[grown.len() + k]
                == auction.bids[k] by {
                assert(after.bids[grown.len() + k] == before.bids[accepted.len() + k]);
            }
        }
    }
}

/// A bid equal to the highest bid of a ledger is too low, whatever the ledger
/// holds and whatever its floor.
pub proof fn law_tie_is_too_low(bids: Seq<Bid>, floor: u128)
    ensures
        bid_too_low(bids, floor, top_bid(bids).amount),
{
}

/// A bid on an alive auction that equals its highest bid, with a deposit that
/// covers it, is refused as too low, and nothing changes.
pub proof fn law_tie_rejection(
    state: PalletView,
    id: AuctionId,
    buyer_id: AccountId,
    deposit: u128,
)
    requires
        state.valid(),
        state.contains(id),
        state.auctions[id].is_alive(),
        deposit >= state.auctions[id].highest_bid.amount,
    ensures
        ({
            let bid = Bid { buyer_id, amount: state.auctions[id].highest_bid.amount };
            &&& state.bid_result(id, bid, deposit) == Err::<Bid, Error>(Error::BidTooLow)
            &&& state.after_bid(id, bid, deposit) == state
        }),
{
}

/// After an accepted bid the first entry of the ledger is that bid, and the
/// record's highest bid is the first entry of the ledger.
pub proof fn law_insertion_invariant(state: PalletView, id: AuctionId, bid: Bid, deposit: u128)
    requires
        state.valid(),
        state.bid_result(id, bid, deposit) is Ok,
    ensures
        ({
            let after = state.after_bid(id, bid, deposit);
            &&& after.valid()
            &&& after.contains(id)
            &&& after.auctions[id].bids[0] == bid
            &&& after.auctions[id].highest_bid == after.auctions[id].bids[0]
            &&& after.auctions[id].bids.skip(1) =~= state.auctions[id].bids
        }),
{
    let auction = state.auctions[id];
    law_accepted_bid_exceeds_all(auction, bid, deposit);
    let after = state.after_bid(id, bid, deposit);
    assert(after.auctions.dom() =~= state.auctions.dom());
}

/// An auction is resolved once: after a resolution that took effect, a second
/// one of the same auction fails because the auction is over, at whatever
/// height, and changes nothing.
pub proof fn law_single_resolution(
    state: PalletView,
    id: AuctionId,
    first: BlockNumber,
    second: BlockNumber,
)
    requires
        state.valid(),
        state.resolve_result(id, first) matches Ok(Some(_)),
    ensures
        ({
            let after = state.after_resolve(id, first);
            &&& after.valid()
            &&& after.auctions[id] == state.auctions[id].resolved(first)
            &&& after.events == state.events.push(state.auctions[id].closing_event(first))
            &&& after.notices.len() == state.notices.len() + 1
            &&& after.resolve_result(id, second) == Err::<Option<Event>, Error>(
                Error::AuctionIsOver,
            )
            &&& after.after_resolve(id, second) == after
        }),
{
    let after = state.after_resolve(id, first);
    assert(after.auctions.dom() =~= state.auctions.dom());
}

/// Only the seller can destroy an auction: the request of any other account
/// fails as unauthorized and changes nothing.
pub proof fn law_authorization(state: PalletView, id: AuctionId, caller: AccountId)
    requires
        state.valid(),
        state.contains(id),
        caller != state.auctions[id].seller_id,
    ensures
        state.destroy_error(id, caller) == Some(Error::UnAuthorizedCall),
        state.after_destroy(id, caller) == state,
{
}

/// A dead auction is final: it takes no bid, whatever the amount and the
/// deposit, it is not resolved again, its seller cannot destroy it, a sweep
/// passes it by, and none of these requests changes anything.
pub proof fn law_dead_is_final(
    state: PalletView,
    id: AuctionId,
    bid: Bid,
    deposit: u128,
    now: BlockNumber,
)
    requires
        state.valid(),
        state.contains(id),
        !state.auctions[id].is_alive(),
    ensures
        state.bid_result(id, bid, deposit) == Err::<Bid, Error>(Error::AuctionIsOver),
        state.after_bid(id, bid, deposit) == state,
        state.resolve_result(id, now) == Err::<Option<Event>, Error>(Error::AuctionIsOver),
        state.after_resolve(id, now) == state,
        state.destroy_error(id, state.auctions[id].seller_id) == Some(Error::AuctionIsOver),
        state.after_destroy(id, state.auctions[id].seller_id) == state,
        state.after_sweep(now).auctions[id] == state.auctions[id],
        state.auctions[id].end_height is Some,
{
}

/// A request that names one auction leaves every other auction as it was.
pub proof fn law_requests_are_local(
    state: PalletView,
    id: AuctionId,
    other: AuctionId,
    auction: AuctionView,
    bid: Bid,
    deposit: u128,
    caller: AccountId,
    now: BlockNumber,
)
    requires
        state.valid(),
        state.contains(other),
        other != id,
    ensures
        state.after_create(id, auction).contains(other),
        state.after_create(id, auction).auctions[other] == state.auctions[other],
        state.after_bid(id, bid, deposit).contains(other),
        state.after_bid(id, bid, deposit).auctions[other] == state.auctions[other],
        state.after_destroy(id, caller).contains(other),
        state.after_destroy(id, caller).auctions[other] == state.auctions[other],
        state.after_resolve(id, now).contains(other),
        state.after_resolve(id, now).auctions[other] == state.auctions[other],
        state.after_executed(id, now).auctions == state.auctions,
{
}

/// Every request leaves a valid state valid.
pub proof fn law_requests_keep_validity(
    state: PalletView,
    id: AuctionId,
    auction: AuctionView,
    bid: Bid,
    deposit: u128,
    caller: AccountId,
    now: BlockNumber,
)
    requires
        state.valid(),
        auction.valid(),
    ensures
        state.after_create(id, auction).valid(),
        state.after_bid(id, bid, deposit).valid(),
        state.after_destroy(id, caller).valid(),
        state.after_resolve(id, now).valid(),
        state.after_sweep(now).valid(),
        state.after_executed(id, now).valid(),
{
    let created = state.after_create(id, auction);
    if !state.contains(id) {
        assert(created.ids.no_duplicates()) by {
            assert(!state.ids.to_set().contains(id));
            assert(!state.ids.contains(id));
        }
        assert(created.auctions.dom() =~= created.ids.to_set()) by {
            assert forall|key: AuctionId|
                created.ids.to_set().contains(key) == created.auctions.dom().contains(key) by {
                if state.ids.contains(key) {
                    let k = state.ids.index_of(key);
                    assert(created.ids[k] == key);
                }
                if key == id {
                    assert(created.ids[created.ids.len() - 1] == key);
                }
                if created.ids.contains(key) {
                    let k = created.ids.index_of(key);
                    if k < state.ids.len() {
                        assert(state.ids[k] == key);
                    }
                }
            }
        }
    }
    let bidden = state.after_bid(id, bid, deposit);
    if state.bid_error(id, bid.amount, deposit) is None {
        law_accepted_bid_exceeds_all(state.auctions[id], bid, deposit);
        assert(bidden.auctions.dom() =~= state.auctions.dom());
    }
    let destroyed = state.after_destroy(id, caller);
    if state.destroy_error(id, caller) is None {
        assert(state.ids.to_set().contains(id));
        let at = state.ids.index_of(id);
        assert(state.ids[at] == id);
        assert forall|i: int, j: int|
            0 <= i < destroyed.ids.len() && 0 <= j < destroyed.ids.len() && i
                != j implies destroyed.ids[i] != destroyed.ids[j] by {
            let oi = if i < at { i } else { i + 1 };
            let oj = if j < at { j } else { j + 1 };
            assert(destroyed.ids[i] == state.ids[oi]);
            assert(destroyed.ids[j] == state.ids[oj]);
        }
        assert forall|key: AuctionId|
            destroyed.ids.to_set().contains(key) == destroyed.auctions.dom().contains(key) by {
            if destroyed.ids.contains(key) {
                let k = destroyed.ids.index_of(key);
                let ok = if k < at { k } else { k + 1 };
                assert(state.ids[ok] == key);
                assert(state.ids.to_set().contains(key));
            }
            if state.auctions.dom().contains(key) && key != id {
                assert(state.ids.to_set().contains(key));
                let ok = state.ids.index_of(key);
                assert(state.ids[ok] == key);
                let k = if ok < at { ok } else { ok - 1 };
                assert(destroyed.ids[k] == key);
            }
        }
        assert(destroyed.auctions.dom() =~= destroyed.ids.to_set());
    }
    let resolved = state.after_resolve(id, now);
    assert(resolved.auctions.dom() =~= state.auctions.dom());
    let swept = state.after_sweep(now);
    assert(swept.auctions.dom() =~= state.auctions.dom());
}

/// After a sweep no alive auction is due, so a second sweep at the same
/// height changes nothing.
pub proof fn law_sweep_is_idempotent(state: PalletView, now: BlockNumber)
    requires
        state.valid(),
    ensures
        state.after_sweep(now).valid(),
        state.after_sweep(now).idle(now),
        state.after_sweep(now).after_sweep(now) == state.after_sweep(now),
{
    let after = state.after_sweep(now);
    assert(after.auctions.dom() =~= state.auctions.dom());
    after.lemma_idle_sweep(now);
}

/// Listings that differ in a defining field or in the salt are identified by
/// different bytes.
pub proof fn law_identity_is_injective(a: AuctionView, salt_a: u64, b: AuctionView, salt_b: u64)
    requires
        identity_bytes(a, salt_a) == identity_bytes(b, salt_b),
    ensures
        a.seller_id == b.seller_id,
        a.quantity == b.quantity,
        a.starting_bid == b.starting_bid,
        a.auction_period == b.auction_period,
        a.start_height == b.start_height,
        a.category == b.category,
        salt_a == salt_b,
{
    lemma_auto_spec_u32_to_from_le_bytes();
    lemma_auto_spec_u64_to_from_le_bytes();
    lemma_auto_spec_u128_to_from_le_bytes();
    let x = identity_bytes(a, salt_a);
    let y = identity_bytes(b, salt_b);
    assert(x.subrange(0, 8) =~= spec_u64_to_le_bytes(a.seller_id));
    assert(y.subrange(0, 8) =~= spec_u64_to_le_bytes(b.seller_id));
    assert(x.subrange(8, 24) =~= spec_u128_to_le_bytes(a.quantity));
    assert(y.subrange(8, 24) =~= spec_u128_to_le_bytes(b.quantity));
    assert(x.subrange(24, 40) =~= spec_u128_to_le_bytes(a.starting_bid));
    assert(y.subrange(24, 40) =~= spec_u128_to_le_bytes(b.starting_bid));
    assert(x.subrange(40, 48) =~= spec_u64_to_le_bytes(a.auction_period));
    assert(y.subrange(40, 48) =~= spec_u64_to_le_bytes(b.auction_period));
    assert(x.subrange(48, 56) =~= spec_u64_to_le_bytes(a.start_height));
    assert(y.subrange(48, 56) =~= spec_u64_to_le_bytes(b.start_height));
    assert(x.subrange(56, 60) =~= spec_u32_to_le_bytes(a.category.level));
    assert(y.subrange(56, 60) =~= spec_u32_to_le_bytes(b.category.level));
    assert(x.subrange(60, 68) =~= spec_u64_to_le_bytes(salt_a));
    assert(y.subrange(60, 68) =~= spec_u64_to_le_bytes(salt_b));
}

/// Of two quantities the larger is never in a lower tier.
pub proof fn law_classification_monotonic(q1: u128, q2: u128)
    requires
        q1 < q2,
    ensures
        tier_of(q1).level <= tier_of(q2).level,
        tier_level(q1 as nat) <= tier_level(q2 as nat),
{
    lemma_tier_level_monotonic(q1 as nat, q2 as nat);
    lemma_tier_level_u128(q1);
    lemma_tier_level_u128(q2);
}

} // verus!
