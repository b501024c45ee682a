//! The plain values that the auction engine works on.

use vstd::prelude::*;

verus! {

/// Identifies an account: a seller or a buyer.
pub type AccountId = u64;

/// A ledger height. Heights stand in for time.
pub type BlockNumber = u64;

/// Identifies an auction: a 256-bit digest of what defines it.
pub type AuctionId = [u8; 32];

/// Whether two identifiers are the same.
pub fn same_id(a: &AuctionId, b: &AuctionId) -> (same: bool)
    ensures
        same == (*a == *b),
{
    broadcast use vstd::array::group_array_axioms;

    let mut i: usize = 0;
    while i < 32
        invariant
            i <= 32,
            forall|k: int| 0 <= k < i ==> a[k] == b[k],
        decreases 32 - i,
    {
        if a[i] != b[i] {
            return false;
        }
        i = i + 1;
    }
    assert(*a =~= *b);
    true
}

} // verus!
