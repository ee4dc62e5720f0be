//! The notification records a successful operation reports back to its
//! caller, mirroring what the engine would publish to an observability sink.

use vstd::prelude::*;

verus! {

/// Published prices were overwritten.
#[derive(Clone, Copy, Debug)]
pub struct PriceUpdated {
    /// The new token price, in millionths of a USD.
    pub alch_price_micro: u64,
    /// The new native-currency price, in millionths of a USD.
    pub sol_price_micro: u64,
    /// When the prices were published.
    pub timestamp: i64,
}

/// Tokens were burned and the same number of runes credited.
#[derive(Clone, Copy, Debug)]
pub struct RunesCrafted {
    /// Whose balance was credited.
    pub user: [u8; 32],
    /// Tokens burned, in the token's smallest unit.
    pub alch_burned: u64,
    /// Runes received, always equal to the burned amount.
    pub runes_received: u64,
    /// The rune balance after the credit.
    pub total_runes: u64,
}

/// Spellbooks were credited against a payment.
#[derive(Clone, Copy, Debug)]
pub struct SpellbooksPurchased {
    /// Whose inventory was credited.
    pub user: [u8; 32],
    /// The tier discriminant of the books bought.
    pub tier: u8,
    /// How many books were bought.
    pub quantity: u8,
    /// The payment made, in the native minor unit.
    pub sol_paid: u64,
    /// The token price the cost was derived from.
    pub alch_price_micro: u64,
    /// The native-currency price the cost was derived from.
    pub sol_price_micro: u64,
}

/// A cast succeeded and a buff was granted.
#[derive(Clone, Copy, Debug)]
pub struct SpellCastSuccess {
    /// Who cast the spell.
    pub user: [u8; 32],
    /// The tier discriminant of the cast.
    pub tier: u8,
    /// The recomputed aggregate multiplier, in hundredths.
    pub multiplier_centi: u64,
    /// When the granted buff expires.
    pub expiry: i64,
    /// The roll the outcome was decided by, below 100.
    pub random_value: u32,
}

/// A cast failed and part of the rune cost was refunded.
#[derive(Clone, Copy, Debug)]
pub struct SpellCastFailure {
    /// Who cast the spell.
    pub user: [u8; 32],
    /// The tier discriminant of the cast.
    pub tier: u8,
    /// The runes returned: a tenth of the cost, rounded down.
    pub rune_refund: u64,
    /// The roll the outcome was decided by, below 100.
    pub random_value: u32,
}

/// What a cast attempt came to: either a granted buff or a partial refund.
/// The consumed spellbook is gone either way.
#[derive(Clone, Copy, Debug)]
pub enum CastOutcome {
    /// The roll fell below the tier's success rate.
    Success(SpellCastSuccess),
    /// The roll did not fall below the tier's success rate.
    Failure(SpellCastFailure),
}

} // verus!
