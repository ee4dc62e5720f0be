//! The price oracle store and the purchase pricing calculation, with the
//! monotonicity laws of the cost formula.

use vstd::prelude::*;
use vstd::arithmetic::div_mod::{lemma_div_is_ordered, lemma_div_is_ordered_by_denominator,
    lemma_div_multiples_vanish};
use vstd::arithmetic::mul::{lemma_mul_inequality, lemma_mul_strict_inequality};
use crate::bytes::ids_equal;
use crate::errors::SpellError;
use crate::events::PriceUpdated;
use crate::state::{GlobalState, PricingState, MAX_CCY_PRICE_MICRO, MAX_TOKEN_PRICE_MICRO,
    MIN_CCY_PRICE_MICRO, MIN_TOKEN_PRICE_MICRO};
use crate::tier::{spec_resource_equivalent, SpellTier};

verus! {

/// How many of the native minor unit make one whole unit of the currency.
pub const NATIVE_UNIT_SCALE: u64 = 1_000_000_000;

/// How old published prices may grow before purchase pricing refuses them.
pub const STALE_WINDOW: i64 = 300;

/// No payment per book exceeds this under the price bounds: the largest
/// basis at the highest token price and the lowest currency price.
pub const MAX_PAYMENT_PER_BOOK: u64 = 1_500_000_000_000;

/// Overwrite the published prices. Only the configured authority may do so,
/// and both prices must lie within their bounds; the store's timestamp is
/// set to `now`. On any refusal the store is left untouched.
pub fn update_prices(
    pricing: &mut PricingState,
    global: &GlobalState,
    caller: &[u8; 32],
    alch_price_micro: u64,
    sol_price_micro: u64,
    now: i64,
) -> (r: Result<PriceUpdated, SpellError>)
    ensures
        caller@ != global.authority@ ==> r == Err::<PriceUpdated, SpellError>(
            SpellError::Unauthorized,
        ) && *final(pricing) == *old(pricing),
        caller@ == global.authority@ && !(MIN_TOKEN_PRICE_MICRO <= alch_price_micro
            <= MAX_TOKEN_PRICE_MICRO && MIN_CCY_PRICE_MICRO <= sol_price_micro
            <= MAX_CCY_PRICE_MICRO) ==> r == Err::<PriceUpdated, SpellError>(
            SpellError::InvalidPrice,
        ) && *final(pricing) == *old(pricing),
        caller@ == global.authority@ && MIN_TOKEN_PRICE_MICRO <= alch_price_micro
            <= MAX_TOKEN_PRICE_MICRO && MIN_CCY_PRICE_MICRO <= sol_price_micro
            <= MAX_CCY_PRICE_MICRO ==> {
            &&& (r == Ok::<PriceUpdated, SpellError>(
                PriceUpdated { alch_price_micro, sol_price_micro, timestamp: now },
            ))
            &&& final(pricing).alch_price_micro == alch_price_micro
            &&& final(pricing).sol_price_micro == sol_price_micro
            &&& final(pricing).last_update == now
            &&& final(pricing).wf()
        },
{
    if !ids_equal(caller, &global.authority) {
        return Err(SpellError::Unauthorized);
    }
    if !(alch_price_micro >= MIN_TOKEN_PRICE_MICRO && alch_price_micro <= MAX_TOKEN_PRICE_MICRO) {
        return Err(SpellError::InvalidPrice);
    }
    if !(sol_price_micro >= MIN_CCY_PRICE_MICRO && sol_price_micro <= MAX_CCY_PRICE_MICRO) {
        return Err(SpellError::InvalidPrice);
    }
    pricing.alch_price_micro = alch_price_micro;
    pricing.sol_price_micro = sol_price_micro;
    pricing.last_update = now;
    Ok(PriceUpdated { alch_price_micro, sol_price_micro, timestamp: now })
}

/// Whether prices published at `last_update` are too old to price a
/// purchase at `now`.
pub open spec fn spec_is_stale(last_update: i64, now: i64) -> bool {
    now - last_update >= STALE_WINDOW
}

/// Read the price pair for purchase pricing, refusing it once it is
/// `STALE_WINDOW` old or older.
pub fn read_for_purchase(pricing: &PricingState, now: i64) -> (r: Result<(u64, u64), SpellError>)
    requires
        i64::MIN <= now - pricing.last_update <= i64::MAX,
    ensures
        spec_is_stale(pricing.last_update, now) ==> r == Err::<(u64, u64), SpellError>(
            SpellError::StalePrices,
        ),
        !spec_is_stale(pricing.last_update, now) ==> r == Ok::<(u64, u64), SpellError>(
            (pricing.alch_price_micro, pricing.sol_price_micro),
        ),
{
    if now - pricing.last_update >= STALE_WINDOW {
        return Err(SpellError::StalePrices);
    }
    Ok((pricing.alch_price_micro, pricing.sol_price_micro))
}

/// Whether a price pair is one the store can hold: never published (both
/// zero), or both within bounds.
pub open spec fn spec_prices_wf(alch_price_micro: u64, sol_price_micro: u64) -> bool {
    (alch_price_micro == 0 && sol_price_micro == 0) || (MIN_TOKEN_PRICE_MICRO <= alch_price_micro
        <= MAX_TOKEN_PRICE_MICRO && MIN_CCY_PRICE_MICRO <= sol_price_micro <= MAX_CCY_PRICE_MICRO)
}

/// The payment for one spellbook of a tier, in the native minor unit: the
/// tier's basis in whole tokens times the token price gives its USD value;
/// divided by the currency price and scaled to the minor unit, rounded
/// down. Unpublished prices (both zero) price every book at zero.
pub open spec fn spec_payment_per_book(
    tier: SpellTier,
    alch_price_micro: u64,
    sol_price_micro: u64,
) -> int {
    if sol_price_micro == 0 {
        0
    } else {
        (spec_resource_equivalent(tier) * alch_price_micro * NATIVE_UNIT_SCALE) as int
            / sol_price_micro as int
    }
}

/// The payment for a whole purchase: the per-book payment times the count.
pub open spec fn spec_purchase_total(
    tier: SpellTier,
    quantity: u8,
    alch_price_micro: u64,
    sol_price_micro: u64,
) -> int {
    spec_payment_per_book(tier, alch_price_micro, sol_price_micro) * quantity
}

/// Compute the payment for one spellbook of `tier` at the given prices.
pub fn payment_per_book(tier: SpellTier, alch_price_micro: u64, sol_price_micro: u64) -> (r: u64)
    requires
        spec_prices_wf(alch_price_micro, sol_price_micro),
    ensures
        r == spec_payment_per_book(tier, alch_price_micro, sol_price_micro),
        r <= MAX_PAYMENT_PER_BOOK,
{
    if sol_price_micro == 0 {
        return 0;
    }
    let equiv: u64 = tier.resource_equivalent();
    proof {
        assert(equiv <= 75_000);
        assert(equiv as int * alch_price_micro as int <= 75_000 * 1_000_000)
            by (nonlinear_arith)
            requires
                equiv <= 75_000,
                alch_price_micro <= 1_000_000,
        ;
    }
    let num: u128 = (equiv as u128) * (alch_price_micro as u128) * (NATIVE_UNIT_SCALE as u128);
    let q: u128 = num / (sol_price_micro as u128);
    proof {
        lemma_div_is_ordered_by_denominator(
            num as int,
            MIN_CCY_PRICE_MICRO as int,
            sol_price_micro as int,
        );
        lemma_div_is_ordered(
            num as int,
            75_000_000_000_000_000_000int,
            MIN_CCY_PRICE_MICRO as int,
        );
        assert(75_000_000_000_000_000_000int / MIN_CCY_PRICE_MICRO as int == 1_500_000_000_000int);
    }
    q as u64
}

/// Buying more books never costs less, and with prices inside their bounds
/// it costs strictly more: under those bounds one book is never free.
pub proof fn lemma_purchase_total_strictly_monotone_in_quantity(
    tier: SpellTier,
    q1: u8,
    q2: u8,
    alch_price_micro: u64,
    sol_price_micro: u64,
)
    requires
        MIN_TOKEN_PRICE_MICRO <= alch_price_micro <= MAX_TOKEN_PRICE_MICRO,
        MIN_CCY_PRICE_MICRO <= sol_price_micro <= MAX_CCY_PRICE_MICRO,
        q1 < q2,
    ensures
        spec_purchase_total(tier, q1, alch_price_micro, sol_price_micro) < spec_purchase_total(
            tier,
            q2,
            alch_price_micro,
            sol_price_micro,
        ),
{
    let num = (spec_resource_equivalent(tier) * alch_price_micro * NATIVE_UNIT_SCALE) as int;
    let ppb = spec_payment_per_book(tier, alch_price_micro, sol_price_micro);
    assert(num >= 7_500 * 100 * 1_000_000_000) by (nonlinear_arith)
        requires
            spec_resource_equivalent(tier) >= 7_500,
            alch_price_micro >= 100,
            NATIVE_UNIT_SCALE == 1_000_000_000,
            num == (spec_resource_equivalent(tier) * alch_price_micro * NATIVE_UNIT_SCALE) as int,
    ;
    lemma_div_multiples_vanish(1, sol_price_micro as int);
    lemma_div_is_ordered(sol_price_micro as int, num, sol_price_micro as int);
    assert(ppb >= 1);
    lemma_mul_strict_inequality(q1 as int, q2 as int, ppb);
}

/// Raising the token price never lowers the purchase cost.
pub proof fn lemma_purchase_total_monotone_in_token_price(
    tier: SpellTier,
    quantity: u8,
    alch1: u64,
    alch2: u64,
    sol_price_micro: u64,
)
    requires
        alch1 <= alch2,
    ensures
        spec_purchase_total(tier, quantity, alch1, sol_price_micro) <= spec_purchase_total(
            tier,
            quantity,
            alch2,
            sol_price_micro,
        ),
{
    if sol_price_micro != 0 {
        let equiv = spec_resource_equivalent(tier) as int;
        let num1 = (spec_resource_equivalent(tier) * alch1 * NATIVE_UNIT_SCALE) as int;
        let num2 = (spec_resource_equivalent(tier) * alch2 * NATIVE_UNIT_SCALE) as int;
        assert(num1 <= num2) by (nonlinear_arith)
            requires
                alch1 <= alch2,
                num1 == equiv * alch1 * (NATIVE_UNIT_SCALE as int),
                num2 == equiv * alch2 * (NATIVE_UNIT_SCALE as int),
                equiv >= 0,
        ;
        lemma_div_is_ordered(num1, num2, sol_price_micro as int);
        lemma_mul_inequality(
            spec_payment_per_book(tier, alch1, sol_price_micro),
            spec_payment_per_book(tier, alch2, sol_price_micro),
            quantity as int,
        );
    }
}

/// Raising the currency price never raises the purchase cost.
pub proof fn lemma_purchase_total_antitone_in_ccy_price(
    tier: SpellTier,
    quantity: u8,
    alch_price_micro: u64,
    sol1: u64,
    sol2: u64,
)
    requires
        1 <= sol1 <= sol2,
    ensures
        spec_purchase_total(tier, quantity, alch_price_micro, sol2) <= spec_purchase_total(
            tier,
            quantity,
            alch_price_micro,
            sol1,
        ),
{
    let num = (spec_resource_equivalent(tier) * alch_price_micro * NATIVE_UNIT_SCALE) as int;
    lemma_div_is_ordered_by_denominator(num, sol1 as int, sol2 as int);
    lemma_mul_inequality(
        spec_payment_per_book(tier, alch_price_micro, sol2),
        spec_payment_per_book(tier, alch_price_micro, sol1),
        quantity as int,
    );
}

} // verus!
