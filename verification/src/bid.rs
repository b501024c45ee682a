//! Bids and the per-auction bid ledger.
//!
//! The ledger lists the accepted bids of one auction, highest first. A bid is
//! accepted only if it strictly exceeds every bid before it, so accepting a bid
//! puts it in front of the others and never re-ranks them.

use crate::error::Error;
use crate::primitives::AccountId;
use vstd::prelude::*;

verus! {

/// An offer of `amount` by `buyer_id`.
#[derive(Clone, Copy, Debug, PartialEq, Eq, Structural)]
pub struct Bid {
    pub buyer_id: AccountId,
    pub amount: u128,
}

impl Bid {
    /// The zero bid, which stands for "no bid yet".
    pub open spec fn zero() -> Bid {
        Bid { buyer_id: 0, amount: 0 }
    }

    pub fn new(buyer_id: AccountId, amount: u128) -> (bid: Bid)
        ensures
            bid == (Bid { buyer_id, amount }),
    {
        Bid { buyer_id, amount }
    }
}

impl Default for Bid {
    fn default() -> (bid: Bid)
        ensures
            bid == Bid::zero(),
    {
        Bid { buyer_id: 0, amount: 0 }
    }
}

/// The highest bid of a ledger: its first entry, or the zero bid if it has none.
pub open spec fn top_bid(bids: Seq<Bid>) -> Bid {
    if bids.len() == 0 {
        Bid::zero()
    } else {
        bids[0]
    }
}

/// Each entry is strictly higher than all entries after it.
pub open spec fn strictly_descending(bids: Seq<Bid>) -> bool {
    forall|i: int, j: int| 0 <= i < j < bids.len() ==> bids[i].amount > bids[j].amount
}

/// What holds of the ledger of an auction with starting bid `floor`: it is
/// strictly descending, and no entry is zero or below the starting bid.
pub open spec fn ledger_valid(bids: Seq<Bid>, floor: u128) -> bool {
    &&& strictly_descending(bids)
    &&& forall|i: int| 0 <= i < bids.len() ==> bids[i].amount >= floor && bids[i].amount > 0
}

/// Whether a bid of `amount` is refused: it does not strictly exceed the
/// highest bid, or the ledger is empty and it is below the starting bid.
pub open spec fn bid_too_low(bids: Seq<Bid>, floor: u128, amount: u128) -> bool {
    amount <= top_bid(bids).amount || (bids.len() == 0 && amount < floor)
}

/// The accepted bids of one auction.
#[derive(Clone, Debug, PartialEq, Eq)]
pub struct BidLedger {
    starting_bid: u128,
    /// The accepted bids in order of arrival, so the highest is last.
    arrivals: Vec<Bid>,
}

impl View for BidLedger {
    type V = Seq<Bid>;

    /// The accepted bids, highest first.
    closed spec fn view(&self) -> Seq<Bid> {
        Seq::new(self.arrivals@.len(), |i: int| self.arrivals@[self.arrivals@.len() - 1 - i])
    }
}

impl BidLedger {
    /// The floor price: the least amount that a first bid may have.
    pub closed spec fn floor(&self) -> u128 {
        self.starting_bid
    }

    pub open spec fn wf(&self) -> bool {
        ledger_valid(self@, self.floor())
    }

    /// An empty ledger with the given floor price.
    pub fn new(starting_bid: u128) -> (ledger: BidLedger)
        ensures
            ledger@ =~= Seq::<Bid>::empty(),
            ledger.floor() == starting_bid,
            ledger.wf(),
    {
        BidLedger { starting_bid, arrivals: Vec::new() }
    }

    /// Rebuilds a ledger from its bids, highest first. `None` if they break a
    /// rule of the ledger.
    pub fn from_bids(starting_bid: u128, bids: &Vec<Bid>) -> (ledger: Option<BidLedger>)
        ensures
            ledger is Some <==> ledger_valid(bids@, starting_bid),
            ledger is Some ==> ledger->0@ == bids@ && ledger->0.floor() == starting_bid
                && ledger->0.wf(),
    {
        let n = bids.len();
        let mut arrivals: Vec<Bid> = Vec::new();
        let mut k: usize = n;
        while k > 0
            invariant
                n == bids@.len(),
                k <= n,
                arrivals@.len() == n - k,
                forall|j: int| 0 <= j < n - k ==> arrivals@[j] == bids@[n - 1 - j],
                forall|i: int, j: int| k <= i < j < n ==> bids@[i].amount > bids@[j].amount,
                forall|i: int|
                    k <= i < n ==> bids@[i].amount >= starting_bid && bids@[i].amount > 0,
            decreases k,
        {
            k = k - 1;
            let bid = bids[k];
            if bid.amount == 0 || bid.amount < starting_bid {
                return None;
            }
            if k + 1 < n && bid.amount <= bids[k + 1].amount {
                return None;
            }
            arrivals.push(bid);
        }
        let ledger = BidLedger { starting_bid, arrivals };
        assert(ledger@ =~= bids@);
        Some(ledger)
    }

    /// The floor price.
    pub fn starting_bid(&self) -> (floor: u128)
        ensures
            floor == self.floor(),
    {
        self.starting_bid
    }

    /// The number of accepted bids.
    pub fn len(&self) -> (n: usize)
        ensures
            n == self@.len(),
    {
        self.arrivals.len()
    }

    /// The highest bid, or the zero bid if there is none.
    pub fn highest(&self) -> (bid: Bid)
        ensures
            bid == top_bid(self@),
    {
        let n = self.arrivals.len();
        if n == 0 {
            Bid { buyer_id: 0, amount: 0 }
        } else {
            self.arrivals[n - 1]
        }
    }

    /// The bid at `rank`, where rank 0 is the highest.
    pub fn get(&self, rank: usize) -> (bid: Option<Bid>)
        ensures
            bid == (if rank < self@.len() {
                Some(self@[rank as int])
            } else {
                None
            }),
    {
        let n = self.arrivals.len();
        if rank < n {
            Some(self.arrivals[n - 1 - rank])
        } else {
            None
        }
    }

    /// All accepted bids, highest first.
    pub fn to_vec(&self) -> (bids: Vec<Bid>)
        ensures
            bids@ == self@,
    {
        let n = self.arrivals.len();
        let mut bids: Vec<Bid> = Vec::new();
        let mut k: usize = n;
        while k > 0
            invariant
                n == self.arrivals@.len(),
                k <= n,
                bids@.len() == n - k,
                forall|j: int| 0 <= j < n - k ==> bids@[j] == self.arrivals@[n - 1 - j],
            decreases k,
        {
            k = k - 1;
            bids.push(self.arrivals[k]);
        }
        assert(bids@ =~= self@);
        bids
    }

    /// Accepts `bid` as the new highest if it is high enough: it must strictly
    /// exceed the highest bid so far and, on an empty ledger, reach the floor.
    /// A refused bid leaves the ledger as it was. No entry is ever removed.
    pub fn insert(&mut self, bid: Bid) -> (result: Result<(), Error>)
        requires
            old(self).wf(),
        ensures
            final(self).wf(),
            final(self).floor() == old(self).floor(),
            bid_too_low(old(self)@, old(self).floor(), bid.amount) ==> result == Err::<(), Error>(
                Error::BidTooLow,
            ) && final(self)@ == old(self)@,
            !bid_too_low(old(self)@, old(self).floor(), bid.amount) ==> result == Ok::<(), Error>(
                (),
            ) && final(self)@ == seq![bid] + old(self)@,
    {
        let top = self.highest();
        if bid.amount <= top.amount || (self.arrivals.len() == 0 && bid.amount < self.starting_bid) {
            return Err(Error::BidTooLow);
        }
        self.arrivals.push(bid);
        assert(self@ =~= seq![bid] + old(self)@);
        Ok(())
    }
}

} // verus!
