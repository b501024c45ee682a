use energy_auction::{Bid, BidLedger, Error};

fn bid(buyer_id: u64, amount: u128) -> Bid {
    Bid::new(buyer_id, amount)
}

#[test]
fn empty_ledger_has_the_zero_bid_on_top() {
    let ledger = BidLedger::new(50);
    assert_eq!(ledger.len(), 0);
    assert_eq!(ledger.starting_bid(), 50);
    assert_eq!(ledger.highest(), Bid { buyer_id: 0, amount: 0 });
    assert_eq!(ledger.highest(), Bid::default());
    assert_eq!(ledger.get(0), None);
    assert_eq!(ledger.to_vec(), Vec::<Bid>::new());
}

#[test]
fn first_bid_must_reach_the_starting_bid() {
    let mut ledger = BidLedger::new(50);
    assert_eq!(ledger.insert(bid(1, 49)), Err(Error::BidTooLow));
    assert_eq!(ledger.len(), 0);
    assert_eq!(ledger.insert(bid(1, 50)), Ok(()));
    assert_eq!(ledger.highest(), bid(1, 50));
}

#[test]
fn zero_bid_is_never_accepted() {
    let mut ledger = BidLedger::new(0);
    assert_eq!(ledger.insert(bid(1, 0)), Err(Error::BidTooLow));
    assert_eq!(ledger.len(), 0);
    assert_eq!(ledger.insert(bid(1, 1)), Ok(()));
}

#[test]
fn tie_with_the_highest_is_rejected() {
    let mut ledger = BidLedger::new(50);
    assert_eq!(ledger.insert(bid(1, 60)), Ok(()));
    assert_eq!(ledger.insert(bid(2, 60)), Err(Error::BidTooLow));
    assert_eq!(ledger.insert(bid(1, 60)), Err(Error::BidTooLow));
    assert_eq!(ledger.to_vec(), vec![bid(1, 60)]);
}

#[test]
fn lower_bid_is_rejected_and_changes_nothing() {
    let mut ledger = BidLedger::new(50);
    assert_eq!(ledger.insert(bid(1, 60)), Ok(()));
    let before = ledger.clone();
    assert_eq!(ledger.insert(bid(2, 55)), Err(Error::BidTooLow));
    assert_eq!(ledger, before);
}

#[test]
fn accepted_bid_goes_to_the_front() {
    let mut ledger = BidLedger::new(50);
    assert_eq!(ledger.insert(bid(1, 60)), Ok(()));
    assert_eq!(ledger.insert(bid(2, 61)), Ok(()));
    assert_eq!(ledger.insert(bid(3, 1_000)), Ok(()));
    assert_eq!(ledger.len(), 3);
    assert_eq!(ledger.highest(), bid(3, 1_000));
    assert_eq!(ledger.get(0), Some(bid(3, 1_000)));
    assert_eq!(ledger.get(1), Some(bid(2, 61)));
    assert_eq!(ledger.get(2), Some(bid(1, 60)));
    assert_eq!(ledger.get(3), None);
    assert_eq!(ledger.to_vec(), vec![bid(3, 1_000), bid(2, 61), bid(1, 60)]);
}

#[test]
fn accepted_amounts_strictly_increase() {
    let mut ledger = BidLedger::new(10);
    let attempts: [u128; 10] = [5, 10, 10, 30, 20, 31, 31, 7, 100, 99];
    let mut accepted: Vec<u128> = Vec::new();
    for (buyer, amount) in attempts.iter().enumerate() {
        if ledger.insert(bid(buyer as u64, *amount)).is_ok() {
            accepted.push(*amount);
        }
    }
    assert_eq!(accepted, vec![10, 30, 31, 100]);
    for pair in accepted.windows(2) {
        assert!(pair[0] < pair[1]);
    }
    let amounts: Vec<u128> = ledger.to_vec().iter().map(|entry| entry.amount).collect();
    assert_eq!(amounts, vec![100, 31, 30, 10]);
}

#[test]
fn largest_amount_can_be_bid_once() {
    let mut ledger = BidLedger::new(0);
    assert_eq!(ledger.insert(bid(1, u128::MAX)), Ok(()));
    assert_eq!(ledger.insert(bid(2, u128::MAX)), Err(Error::BidTooLow));
}

#[test]
fn ledger_is_rebuilt_from_valid_bids() {
    let bids = vec![bid(3, 90), bid(2, 70), bid(1, 50)];
    let ledger = BidLedger::from_bids(50, &bids).unwrap();
    assert_eq!(ledger.to_vec(), bids);
    assert_eq!(ledger.starting_bid(), 50);
    assert_eq!(ledger.highest(), bid(3, 90));

    let mut grown = BidLedger::new(50);
    grown.insert(bid(1, 50)).unwrap();
    grown.insert(bid(2, 70)).unwrap();
    grown.insert(bid(3, 90)).unwrap();
    assert_eq!(ledger, grown);

    let empty = BidLedger::from_bids(50, &Vec::new()).unwrap();
    assert_eq!(empty, BidLedger::new(50));
}

#[test]
fn ledger_is_not_rebuilt_from_invalid_bids() {
    // not descending
    assert_eq!(BidLedger::from_bids(50, &vec![bid(1, 60), bid(2, 70)]), None);
    // a tie
    assert_eq!(BidLedger::from_bids(50, &vec![bid(1, 70), bid(2, 70)]), None);
    // below the starting bid
    assert_eq!(BidLedger::from_bids(50, &vec![bid(1, 70), bid(2, 49)]), None);
    // a zero bid
    assert_eq!(BidLedger::from_bids(0, &vec![bid(1, 70), bid(2, 0)]), None);
    assert_eq!(BidLedger::from_bids(0, &vec![bid(2, 0)]), None);
}
