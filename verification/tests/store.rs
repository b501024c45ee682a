use energy_auction::{AuctionData, AuctionStore, Bid, Error};

fn listing(seller_id: u64) -> AuctionData {
    AuctionData::new(seller_id, 100, 50, 10, 0)
}

#[test]
fn new_store_is_empty() {
    let store = AuctionStore::new();
    assert_eq!(store.len(), 0);
    assert!(!store.contains(&[0u8; 32]));
    assert!(store.get(&[0u8; 32]).is_none());
    assert_eq!(store.position(&[0u8; 32]), None);
}

#[test]
fn insert_then_get() {
    let mut store = AuctionStore::new();
    assert_eq!(store.insert([1u8; 32], listing(1)), Ok(()));
    assert_eq!(store.insert([2u8; 32], listing(2)), Ok(()));
    assert_eq!(store.len(), 2);
    assert!(store.contains(&[1u8; 32]));
    assert_eq!(store.get(&[1u8; 32]), Some(&listing(1)));
    assert_eq!(store.get(&[2u8; 32]), Some(&listing(2)));
    assert!(store.get(&[3u8; 32]).is_none());
}

#[test]
fn insert_at_a_taken_identifier_is_refused() {
    let mut store = AuctionStore::new();
    assert_eq!(store.insert([1u8; 32], listing(1)), Ok(()));
    let before = store.clone();
    assert_eq!(store.insert([1u8; 32], listing(2)), Err(Error::DuplicateAuction));
    assert_eq!(store, before);
    assert_eq!(store.get(&[1u8; 32]).unwrap().seller_id(), 1);
}

#[test]
fn identifiers_differ_in_any_byte() {
    let mut store = AuctionStore::new();
    let mut first = [0u8; 32];
    let mut last = [0u8; 32];
    first[0] = 1;
    last[31] = 1;
    assert_eq!(store.insert([0u8; 32], listing(1)), Ok(()));
    assert_eq!(store.insert(first, listing(2)), Ok(()));
    assert_eq!(store.insert(last, listing(3)), Ok(()));
    assert_eq!(store.get(&[0u8; 32]).unwrap().seller_id(), 1);
    assert_eq!(store.get(&first).unwrap().seller_id(), 2);
    assert_eq!(store.get(&last).unwrap().seller_id(), 3);
}

#[test]
fn records_keep_the_order_of_insertion() {
    let mut store = AuctionStore::new();
    store.insert([3u8; 32], listing(3)).unwrap();
    store.insert([1u8; 32], listing(1)).unwrap();
    store.insert([2u8; 32], listing(2)).unwrap();
    assert_eq!(store.id_at(0), [3u8; 32]);
    assert_eq!(store.id_at(1), [1u8; 32]);
    assert_eq!(store.id_at(2), [2u8; 32]);
    assert_eq!(store.at(1).seller_id(), 1);
    assert_eq!(store.position(&[2u8; 32]), Some(2));

    assert_eq!(store.remove(&[1u8; 32]), Some(listing(1)));
    assert_eq!(store.len(), 2);
    assert_eq!(store.id_at(0), [3u8; 32]);
    assert_eq!(store.id_at(1), [2u8; 32]);
    assert_eq!(store.position(&[2u8; 32]), Some(1));
    assert!(!store.contains(&[1u8; 32]));
}

#[test]
fn remove_of_an_unknown_identifier_changes_nothing() {
    let mut store = AuctionStore::new();
    store.insert([1u8; 32], listing(1)).unwrap();
    let before = store.clone();
    assert_eq!(store.remove(&[9u8; 32]), None);
    assert_eq!(store, before);
}

#[test]
fn removed_identifier_can_be_used_again() {
    let mut store = AuctionStore::new();
    store.insert([1u8; 32], listing(1)).unwrap();
    store.remove(&[1u8; 32]).unwrap();
    assert_eq!(store.insert([1u8; 32], listing(2)), Ok(()));
    assert_eq!(store.get(&[1u8; 32]).unwrap().seller_id(), 2);
}

#[test]
fn record_is_updated_in_place() {
    let mut store = AuctionStore::new();
    store.insert([1u8; 32], listing(1)).unwrap();
    store.insert([2u8; 32], listing(2)).unwrap();
    store.get_mut(&[2u8; 32]).unwrap().place_bid(7, 60, 60).unwrap();
    assert_eq!(store.get(&[2u8; 32]).unwrap().highest_bid(), Bid::new(7, 60));
    assert_eq!(store.get(&[1u8; 32]), Some(&listing(1)));
    store.at_mut(0).place_bid(8, 70, 70).unwrap();
    assert_eq!(store.get(&[1u8; 32]).unwrap().highest_bid(), Bid::new(8, 70));
    assert!(store.get_mut(&[3u8; 32]).is_none());
    assert_eq!(store.len(), 2);
}
