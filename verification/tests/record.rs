use energy_auction::{AuctionData, AuctionStatus, Bid, Error, Event, Hook, Notice, Tier};

const SELLER: u64 = 1;
const ALICE: u64 = 11;
const BOB: u64 = 12;

fn listing() -> AuctionData {
    AuctionData::new(SELLER, 100, 50, 10, 5)
}

#[test]
fn new_record_is_alive_and_empty() {
    let auction = listing();
    assert_eq!(auction.seller_id(), SELLER);
    assert_eq!(auction.quantity(), 100);
    assert_eq!(auction.starting_bid(), 50);
    assert_eq!(auction.bids(), Vec::<Bid>::new());
    assert_eq!(auction.ledger().len(), 0);
    assert_eq!(auction.auction_period(), 10);
    assert_eq!(auction.status(), AuctionStatus::Alive);
    assert_eq!(auction.start_height(), 5);
    assert_eq!(auction.end_height(), None);
    assert_eq!(auction.highest_bid(), Bid { buyer_id: 0, amount: 0 });
    assert_eq!(auction.category(), Tier { level: 3 });
}

#[test]
fn default_status_is_alive() {
    assert_eq!(AuctionStatus::default(), AuctionStatus::Alive);
}

#[test]
fn accepted_bid_is_first_and_cached() {
    let mut auction = listing();
    assert_eq!(auction.place_bid(ALICE, 60, 60), Ok(Bid { buyer_id: ALICE, amount: 60 }));
    assert_eq!(auction.highest_bid(), Bid { buyer_id: ALICE, amount: 60 });
    assert_eq!(auction.bids()[0], auction.highest_bid());
    assert_eq!(auction.place_bid(BOB, 75, 1_000), Ok(Bid { buyer_id: BOB, amount: 75 }));
    assert_eq!(auction.highest_bid(), Bid { buyer_id: BOB, amount: 75 });
    assert_eq!(auction.bids(), vec![Bid::new(BOB, 75), Bid::new(ALICE, 60)]);
    assert_eq!(auction.ledger().highest(), auction.highest_bid());
}

#[test]
fn bid_below_starting_bid_is_too_low() {
    let mut auction = listing();
    assert_eq!(auction.place_bid(ALICE, 49, 49), Err(Error::BidTooLow));
    assert_eq!(auction, listing());
    assert_eq!(auction.place_bid(ALICE, 50, 50), Ok(Bid { buyer_id: ALICE, amount: 50 }));
}

#[test]
fn bid_needs_a_deposit_that_covers_it() {
    let mut auction = listing();
    assert_eq!(auction.place_bid(ALICE, 60, 59), Err(Error::InsufficientAttachedDeposit));
    assert_eq!(auction.place_bid(ALICE, 60, 0), Err(Error::InsufficientAttachedDeposit));
    assert_eq!(auction, listing());
    // the deposit is looked at before the amount
    assert_eq!(auction.place_bid(ALICE, 40, 39), Err(Error::InsufficientAttachedDeposit));
    assert_eq!(auction.place_bid(ALICE, 60, 60), Ok(Bid { buyer_id: ALICE, amount: 60 }));
}

#[test]
fn period_elapses_at_start_plus_period() {
    let auction = listing();
    assert!(!auction.is_due(0));
    assert!(!auction.is_due(5));
    assert!(!auction.is_due(14));
    assert!(auction.is_due(15));
    assert!(auction.is_due(16));
    assert!(auction.is_due(u64::MAX));
}

#[test]
fn deadline_is_start_plus_period() {
    assert_eq!(listing().deadline(), Some(15));
    assert_eq!(AuctionData::new(SELLER, 100, 50, 1, u64::MAX - 1).deadline(), Some(u64::MAX));
    assert_eq!(AuctionData::new(SELLER, 100, 50, 1, u64::MAX).deadline(), None);
    assert_eq!(AuctionData::new(SELLER, 100, 50, u64::MAX, u64::MAX).deadline(), None);
}

#[test]
fn period_beyond_the_last_height_never_elapses() {
    let auction = AuctionData::new(SELLER, 100, 50, 1, u64::MAX);
    assert!(!auction.is_due(u64::MAX));
    let auction = AuctionData::new(SELLER, 100, 50, u64::MAX, 1);
    assert!(!auction.is_due(u64::MAX));
    let auction = AuctionData::new(SELLER, 100, 50, u64::MAX, 0);
    assert!(auction.is_due(u64::MAX));
}

#[test]
fn resolve_before_the_deadline_does_nothing() {
    let mut auction = listing();
    auction.place_bid(ALICE, 60, 60).unwrap();
    let before = auction.clone();
    assert_eq!(auction.resolve(14), Ok(None));
    assert_eq!(auction, before);
}

#[test]
fn resolve_with_a_bid_matches_the_highest_bidder() {
    let mut auction = listing();
    auction.place_bid(ALICE, 60, 60).unwrap();
    auction.place_bid(BOB, 61, 61).unwrap();
    assert_eq!(auction.closing_hook(), Hook::OnAuctionOver);
    assert_eq!(
        auction.closing_notice([4u8; 32]),
        Notice { hook: Hook::OnAuctionOver, auction_id: [4u8; 32], highest_bid: Bid::new(BOB, 61) }
    );
    let matched = Event::AuctionMatched {
        seller: SELLER,
        buyer: BOB,
        quantity: 100,
        starting_bid: 50,
        highest_bid: 61,
        matched_at: 20,
    };
    assert_eq!(auction.closing_event(20), matched);
    assert_eq!(auction.resolve(20), Ok(Some(matched)));
    assert_eq!(auction.status(), AuctionStatus::Dead);
    assert_eq!(auction.end_height(), Some(20));
    assert_eq!(auction.bids().len(), 2);
}

#[test]
fn resolve_without_a_bid_ends_unmatched() {
    let mut auction = listing();
    assert_eq!(auction.closing_hook(), Hook::OnAuctionDestroyed);
    let destroyed = Event::AuctionDestroyed { seller: SELLER, quantity: 100, starting_bid: 50 };
    assert_eq!(auction.destroyed_event(), destroyed);
    assert_eq!(auction.resolve(15), Ok(Some(destroyed)));
    assert_eq!(auction.status(), AuctionStatus::Dead);
    assert_eq!(auction.end_height(), Some(15));
}

#[test]
fn dead_record_is_final() {
    let mut auction = listing();
    auction.place_bid(ALICE, 60, 60).unwrap();
    auction.resolve(15).unwrap();
    let dead = auction.clone();
    assert_eq!(auction.resolve(15), Err(Error::AuctionIsOver));
    assert_eq!(auction.resolve(99), Err(Error::AuctionIsOver));
    assert_eq!(auction.place_bid(BOB, 70, 70), Err(Error::AuctionIsOver));
    // a dead auction refuses a bid whatever the deposit
    assert_eq!(auction.place_bid(BOB, 70, 0), Err(Error::AuctionIsOver));
    assert_eq!(auction.check_destroy(SELLER), Err(Error::AuctionIsOver));
    assert_eq!(auction, dead);
}

#[test]
fn only_the_seller_may_destroy() {
    let mut auction = listing();
    assert_eq!(auction.check_destroy(SELLER), Ok(()));
    assert_eq!(auction.check_destroy(ALICE), Err(Error::UnAuthorizedCall));
    auction.place_bid(ALICE, 60, 60).unwrap();
    assert_eq!(auction.check_destroy(SELLER), Ok(()));
    auction.resolve(15).unwrap();
    // the caller is looked at before the status
    assert_eq!(auction.check_destroy(ALICE), Err(Error::UnAuthorizedCall));
}

#[test]
fn created_event_names_the_listing() {
    assert_eq!(
        listing().created_event(),
        Event::AuctionCreated { seller: SELLER, quantity: 100, starting_bid: 50 }
    );
}

#[test]
fn executed_event_needs_a_match() {
    let mut auction = listing();
    assert_eq!(auction.executed_event(30), None);
    auction.place_bid(ALICE, 60, 60).unwrap();
    assert_eq!(auction.executed_event(30), None);
    auction.resolve(15).unwrap();
    assert_eq!(
        auction.executed_event(30),
        Some(Event::AuctionExecuted {
            seller: SELLER,
            buyer: ALICE,
            quantity: 100,
            starting_bid: 50,
            highest_bid: 60,
            executed_at: 30,
        })
    );
    let mut unmatched = listing();
    unmatched.resolve(15).unwrap();
    assert_eq!(unmatched.executed_event(30), None);
}

fn zero() -> Bid {
    Bid::default()
}

fn third() -> Tier {
    Tier { level: 3 }
}

#[test]
fn record_is_rebuilt_from_valid_parts() {
    let mut auction = listing();
    auction.place_bid(ALICE, 60, 60).unwrap();
    auction.place_bid(BOB, 80, 80).unwrap();
    let rebuilt = AuctionData::from_parts(
        auction.seller_id(),
        auction.quantity(),
        auction.starting_bid(),
        &auction.bids(),
        auction.auction_period(),
        auction.status(),
        auction.start_height(),
        auction.end_height(),
        auction.highest_bid(),
        auction.category(),
    );
    assert_eq!(rebuilt, Some(auction.clone()));

    auction.resolve(15).unwrap();
    let rebuilt = AuctionData::from_parts(
        SELLER,
        100,
        50,
        &vec![Bid::new(BOB, 80), Bid::new(ALICE, 60)],
        10,
        AuctionStatus::Dead,
        5,
        Some(15),
        Bid::new(BOB, 80),
        third(),
    );
    assert_eq!(rebuilt, Some(auction));
}

#[test]
fn record_is_not_rebuilt_from_invalid_parts() {
    let none: Vec<Bid> = Vec::new();
    let alive = AuctionStatus::Alive;
    let dead = AuctionStatus::Dead;
    let rebuild = |quantity: u128,
                   bids: &Vec<Bid>,
                   period: u64,
                   status: AuctionStatus,
                   end: Option<u64>,
                   highest: Bid,
                   category: Tier| {
        AuctionData::from_parts(SELLER, quantity, 50, bids, period, status, 5, end, highest, category)
    };
    assert_eq!(rebuild(100, &none, 10, alive, None, zero(), third()), Some(listing()));
    assert!(rebuild(100, &none, 10, dead, Some(15), zero(), third()).is_some());
    // nothing listed
    assert_eq!(rebuild(0, &none, 10, alive, None, zero(), Tier { level: 1 }), None);
    // no period
    assert_eq!(rebuild(100, &none, 0, alive, None, zero(), third()), None);
    // alive with an end height, dead without one
    assert_eq!(rebuild(100, &none, 10, alive, Some(15), zero(), third()), None);
    assert_eq!(rebuild(100, &none, 10, dead, None, zero(), third()), None);
    // ended before the period had elapsed
    assert_eq!(rebuild(100, &none, 10, dead, Some(14), zero(), third()), None);
    assert_eq!(rebuild(100, &none, 10, dead, Some(4), zero(), third()), None);
    // bids out of order
    let unordered = vec![Bid::new(ALICE, 60), Bid::new(BOB, 80)];
    assert_eq!(rebuild(100, &unordered, 10, alive, None, Bid::new(ALICE, 60), third()), None);
    // a bid below the starting bid
    let low = vec![Bid::new(ALICE, 49)];
    assert_eq!(rebuild(100, &low, 10, alive, None, Bid::new(ALICE, 49), third()), None);
    // a highest bid that is not the first entry of the ledger
    let bids = vec![Bid::new(BOB, 80), Bid::new(ALICE, 60)];
    assert!(rebuild(100, &bids, 10, alive, None, Bid::new(BOB, 80), third()).is_some());
    assert_eq!(rebuild(100, &bids, 10, alive, None, Bid::new(ALICE, 60), third()), None);
    assert_eq!(rebuild(100, &bids, 10, alive, None, Bid::new(ALICE, 80), third()), None);
    assert_eq!(rebuild(100, &bids, 10, alive, None, zero(), third()), None);
    assert_eq!(rebuild(100, &none, 10, alive, None, Bid::new(BOB, 80), third()), None);
    // a category that is not the tier of the quantity
    assert_eq!(rebuild(100, &none, 10, alive, None, zero(), Tier { level: 2 }), None);
    assert_eq!(rebuild(100, &none, 10, alive, None, zero(), Tier { level: 4 }), None);
}
