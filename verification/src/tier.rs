//! The four spell tiers and their fixed tables: rune cost, success rate,
//! buff boost, and the resource-equivalent price basis used for purchases.

use vstd::prelude::*;

verus! {

/// Number of hundredths added to the multiplier base: the multiplier is
/// stored in hundredths, so `100` stands for `1.00`.
pub const MULTIPLIER_BASE_CENTI: u64 = 100;

/// One of the four fixed spell strengths. Each tier has its own rune cost,
/// success rate, buff boost, and purchase price basis.
#[derive(Clone, Copy, Debug, PartialEq, Eq, Structural)]
pub enum SpellTier {
    Novice,
    Adept,
    Master,
    Legendary,
}

/// Runes consumed by one cast attempt of the tier, in the token's smallest
/// unit (one whole token is 1_000_000 of them).
pub open spec fn spec_rune_cost(tier: SpellTier) -> u64 {
    match tier {
        SpellTier::Novice => 10_000_000_000,
        SpellTier::Adept => 20_000_000_000,
        SpellTier::Master => 50_000_000_000,
        SpellTier::Legendary => 100_000_000_000,
    }
}

/// Percent chance that a cast of the tier succeeds.
pub open spec fn spec_success_rate(tier: SpellTier) -> u32 {
    match tier {
        SpellTier::Novice => 70,
        SpellTier::Adept => 50,
        SpellTier::Master => 35,
        SpellTier::Legendary => 20,
    }
}

/// Buff boost granted by the tier, in hundredths (10 stands for +0.10).
pub open spec fn spec_boost_centi(tier: SpellTier) -> u64 {
    match tier {
        SpellTier::Novice => 10,
        SpellTier::Adept => 25,
        SpellTier::Master => 50,
        SpellTier::Legendary => 100,
    }
}

/// Purchase price basis of one spellbook of the tier, in whole tokens:
/// 75% of the tier's cast rune cost.
pub open spec fn spec_resource_equivalent(tier: SpellTier) -> u64 {
    match tier {
        SpellTier::Novice => 7_500,
        SpellTier::Adept => 15_000,
        SpellTier::Master => 37_500,
        SpellTier::Legendary => 75_000,
    }
}

/// Discriminant of the tier: Novice 0, Adept 1, Master 2, Legendary 3.
pub open spec fn spec_tier_index(tier: SpellTier) -> u8 {
    match tier {
        SpellTier::Novice => 0,
        SpellTier::Adept => 1,
        SpellTier::Master => 2,
        SpellTier::Legendary => 3,
    }
}

impl SpellTier {
    /// Runes consumed by one cast attempt of this tier.
    pub fn rune_cost(&self) -> (r: u64)
        ensures
            r == spec_rune_cost(*self),
    {
        match *self {
            SpellTier::Novice => 10_000_000_000,
            SpellTier::Adept => 20_000_000_000,
            SpellTier::Master => 50_000_000_000,
            SpellTier::Legendary => 100_000_000_000,
        }
    }

    /// Percent chance that a cast of this tier succeeds.
    pub fn success_rate(&self) -> (r: u32)
        ensures
            r == spec_success_rate(*self),
    {
        match *self {
            SpellTier::Novice => 70,
            SpellTier::Adept => 50,
            SpellTier::Master => 35,
            SpellTier::Legendary => 20,
        }
    }

    /// Buff boost granted by this tier, in hundredths.
    pub fn boost_centi(&self) -> (r: u64)
        ensures
            r == spec_boost_centi(*self),
    {
        match *self {
            SpellTier::Novice => 10,
            SpellTier::Adept => 25,
            SpellTier::Master => 50,
            SpellTier::Legendary => 100,
        }
    }

    /// Purchase price basis of one spellbook of this tier, in whole tokens.
    pub fn resource_equivalent(&self) -> (r: u64)
        ensures
            r == spec_resource_equivalent(*self),
    {
        match *self {
            SpellTier::Novice => 7_500,
            SpellTier::Adept => 15_000,
            SpellTier::Master => 37_500,
            SpellTier::Legendary => 75_000,
        }
    }

    /// Discriminant of this tier.
    pub fn index(&self) -> (r: u8)
        ensures
            r == spec_tier_index(*self),
    {
        match *self {
            SpellTier::Novice => 0,
            SpellTier::Adept => 1,
            SpellTier::Master => 2,
            SpellTier::Legendary => 3,
        }
    }

    /// The one-byte encoding of this tier used in the outcome seed.
    pub fn to_bytes(&self) -> (r: [u8; 1])
        ensures
            r@ == seq![spec_tier_index(*self)],
    {
        let b: [u8; 1] = [self.index()];
        proof {
            assert(b@ =~= seq![spec_tier_index(*self)]);
        }
        b
    }
}

/// The purchase price basis of every tier is exactly three quarters of its
/// cast rune cost, once both are taken in the token's smallest unit.
pub proof fn lemma_resource_equivalent_is_three_quarters(tier: SpellTier)
    ensures
        4 * spec_resource_equivalent(tier) * 1_000_000 == 3 * spec_rune_cost(tier),
{
}

} // verus!
