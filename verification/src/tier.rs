//! Tier classifier: maps a listed quantity to the category that scopes matching.

use vstd::prelude::*;

verus! {

/// Category of a listing. Larger quantities never fall into a lower tier.
#[derive(Clone, Copy, Debug, PartialEq, Eq, Structural)]
pub struct Tier {
    pub level: u32,
}

/// The highest level any 128-bit quantity can reach.
pub const MAX_LEVEL: u32 = 39;

/// The level of a quantity: the number of its decimal digits, so that each
/// tenfold increase of the quantity raises the level by one.
pub open spec fn tier_level(quantity: nat) -> nat
    decreases quantity,
{
    if quantity < 10 {
        1
    } else {
        1 + tier_level(quantity / 10)
    }
}

/// Ten to the power `k`.
pub open spec fn pow10(k: nat) -> nat
    decreases k,
{
    if k == 0 {
        1
    } else {
        10 * pow10((k - 1) as nat)
    }
}

/// The classifier is monotonic: a larger quantity never gets a lower level.
pub proof fn lemma_tier_level_monotonic(q1: nat, q2: nat)
    requires
        q1 <= q2,
    ensures
        tier_level(q1) <= tier_level(q2),
    decreases q2,
{
    if q1 >= 10 {
        lemma_tier_level_monotonic(q1 / 10, q2 / 10);
    }
}

/// A quantity below `10^k` has at most `k` digits.
pub proof fn lemma_tier_level_at_most(quantity: nat, k: nat)
    requires
        k >= 1,
        quantity < pow10(k),
    ensures
        tier_level(quantity) <= k,
    decreases k,
{
    reveal_with_fuel(pow10, 2);
    if quantity >= 10 {
        lemma_tier_level_at_most(quantity / 10, (k - 1) as nat);
    }
}

/// Every 128-bit quantity is below `10^39`.
proof fn lemma_u128_below_pow10()
    ensures
        u128::MAX < pow10(39),
{
    reveal_with_fuel(pow10, 40);
}

/// The level of a 128-bit quantity is between 1 and `MAX_LEVEL`.
pub proof fn lemma_tier_level_u128(quantity: u128)
    ensures
        1 <= tier_level(quantity as nat) <= MAX_LEVEL,
{
    lemma_u128_below_pow10();
    lemma_tier_level_at_most(quantity as nat, 39);
}

/// The tier that the classifier gives to `quantity`, as a value of the model.
pub open spec fn tier_of(quantity: u128) -> Tier {
    Tier { level: tier_level(quantity as nat) as u32 }
}

impl Default for Tier {
    /// The lowest tier.
    fn default() -> (tier: Tier)
        ensures
            tier.level == 1,
    {
        Tier { level: 1 }
    }
}

/// The tier of a listing of `quantity` units.
pub fn classify(quantity: u128) -> (tier: Tier)
    ensures
        tier == tier_of(quantity),
        tier.level == tier_level(quantity as nat),
        1 <= tier.level <= MAX_LEVEL,
{
    let mut level: u32 = 1;
    let mut rest: u128 = quantity;
    proof {
        lemma_tier_level_u128(quantity);
    }
    while rest >= 10
        invariant
            level + tier_level(rest as nat) == tier_level(quantity as nat) + 1,
            tier_level(quantity as nat) <= 39,
        decreases rest,
    {
        rest = rest / 10;
        level = level + 1;
    }
    Tier { level }
}

} // verus!
