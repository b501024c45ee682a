//! Auction identifiers.
//!
//! An auction is addressed by a digest: the BLAKE2b-256 hash of the fields
//! that define the listing, followed by a salt that the seller picks.
//! Listings that differ in a defining field or in the salt are hashed from
//! different bytes.

use crate::auction::{AuctionData, AuctionView};
use crate::primitives::AuctionId;
use frame_support::StorageHasher;
use vstd::bytes::{
    spec_u128_to_le_bytes, spec_u32_to_le_bytes, spec_u64_to_le_bytes, u128_to_le_bytes,
    u32_to_le_bytes, u64_to_le_bytes,
};
use vstd::prelude::*;

verus! {

/// The bytes that `frame_support::Blake2_256::hash` returns for `input`.
/// Nothing is stated of which bytes they are.
pub uninterp spec fn blake2_256(input: Seq<u8>) -> Seq<u8>;

/// Calls `frame_support::Blake2_256::hash`, the BLAKE2b hash with an output of
/// 256 bits. Its contract is not proved. It claims one thing: that the digest
/// is a function of the input bytes, so that the same bytes always give the
/// same digest.
#[verifier::external_body]
fn hash_blake2_256(input: &[u8]) -> (digest: [u8; 32])
    ensures
        digest@ == blake2_256(input@),
{
    frame_support::Blake2_256::hash(input)
}

/// The bytes that identify a listing: seller, quantity, starting bid, auction
/// period, start height and tier level, each as a little-endian integer of its
/// own width, then the salt in the same way. They are 68 bytes.
pub open spec fn identity_bytes(auction: AuctionView, salt: u64) -> Seq<u8> {
    spec_u64_to_le_bytes(auction.seller_id) + spec_u128_to_le_bytes(auction.quantity)
        + spec_u128_to_le_bytes(auction.starting_bid) + spec_u64_to_le_bytes(
        auction.auction_period,
    ) + spec_u64_to_le_bytes(auction.start_height) + spec_u32_to_le_bytes(auction.category.level)
        + spec_u64_to_le_bytes(salt)
}

/// The identifier whose bytes are the digest of `bytes`.
pub open spec fn digest_id(bytes: Seq<u8>) -> AuctionId {
    choose|id: AuctionId| id@ == blake2_256(bytes)
}

/// The identifier of a listing under a salt.
pub open spec fn auction_id_of(auction: AuctionView, salt: u64) -> AuctionId {
    digest_id(identity_bytes(auction, salt))
}

/// The bytes that identify `auction` under `salt`.
pub fn identity(auction: &AuctionData, salt: u64) -> (bytes: Vec<u8>)
    ensures
        bytes@ == identity_bytes(auction@, salt),
        bytes@.len() == 68,
{
    let mut bytes = u64_to_le_bytes(auction.seller_id());
    let mut quantity = u128_to_le_bytes(auction.quantity());
    bytes.append(&mut quantity);
    let mut starting_bid = u128_to_le_bytes(auction.starting_bid());
    bytes.append(&mut starting_bid);
    let mut auction_period = u64_to_le_bytes(auction.auction_period());
    bytes.append(&mut auction_period);
    let mut start_height = u64_to_le_bytes(auction.start_height());
    bytes.append(&mut start_height);
    let mut level = u32_to_le_bytes(auction.category().level);
    bytes.append(&mut level);
    let mut salt_bytes = u64_to_le_bytes(salt);
    bytes.append(&mut salt_bytes);
    bytes
}

/// The identifier of the digest of `bytes`.
pub fn digest(bytes: &Vec<u8>) -> (id: AuctionId)
    ensures
        id@ == blake2_256(bytes@),
        id == digest_id(bytes@),
{
    broadcast use vstd::array::group_array_axioms;

    let id = hash_blake2_256(bytes.as_slice());
    assert(digest_id(bytes@) =~= id);
    id
}

/// The identifier of `auction` under `salt`.
pub fn auction_id(auction: &AuctionData, salt: u64) -> (id: AuctionId)
    ensures
        id == auction_id_of(auction@, salt),
        id@ == blake2_256(identity_bytes(auction@, salt)),
{
    let bytes = identity(auction, salt);
    digest(&bytes)
}

} // verus!
