//! The resource ledger: crafting runes out of burned tokens, and crediting
//! purchased spellbooks against an oracle-priced payment.

use vstd::prelude::*;
use crate::errors::SpellError;
use crate::events::{RunesCrafted, SpellbooksPurchased};
use crate::pricing::{payment_per_book, read_for_purchase, spec_is_stale, spec_purchase_total,
    MAX_PAYMENT_PER_BOOK};
use crate::state::{spec_books, spec_set_books, GlobalState, PricingState, UserState};
use crate::tier::{spec_tier_index, SpellTier};

verus! {

/// Credit `amount` runes, one for one against the tokens the caller has
/// just burned, and count the burn in the global total. Rejects a zero
/// amount and any credit that would wrap a counter; a refusal leaves both
/// records untouched.
///
/// The environment performs the token burn before this credit. If the
/// credit is refused with `Overflow`, that burn is not undone: the caller
/// loses the burned tokens. That ordering is kept deliberately; reordering
/// would change what is observable under partial failure.
pub fn craft_runes(user: &mut UserState, global: &mut GlobalState, amount: u64) -> (r: Result<
    RunesCrafted,
    SpellError,
>)
    ensures
        amount == 0 ==> r == Err::<RunesCrafted, SpellError>(SpellError::InvalidAmount)
            && *final(user) == *old(user) && *final(global) == *old(global),
        amount > 0 && (old(user).runes + amount > u64::MAX || old(global).total_alch_burned
            + amount > u64::MAX) ==> r == Err::<RunesCrafted, SpellError>(SpellError::Overflow)
            && *final(user) == *old(user) && *final(global) == *old(global),
        amount > 0 && old(user).runes + amount <= u64::MAX && old(global).total_alch_burned
            + amount <= u64::MAX ==> {
            &&& (r == Ok::<RunesCrafted, SpellError>(
                RunesCrafted {
                    user: old(user).owner,
                    alch_burned: amount,
                    runes_received: amount,
                    total_runes: (old(user).runes + amount) as u64,
                },
            ))
            &&& (*final(user) == UserState {
                runes: (old(user).runes + amount) as u64,
                ..*old(user)
            })
            &&& (*final(global) == GlobalState {
                total_alch_burned: (old(global).total_alch_burned + amount) as u64,
                ..*old(global)
            })
        },
{
    if amount == 0 {
        return Err(SpellError::InvalidAmount);
    }
    if amount > u64::MAX - user.runes {
        return Err(SpellError::Overflow);
    }
    if amount > u64::MAX - global.total_alch_burned {
        return Err(SpellError::Overflow);
    }
    user.runes = user.runes + amount;
    global.total_alch_burned = global.total_alch_burned + amount;
    Ok(
        RunesCrafted {
            user: user.owner,
            alch_burned: amount,
            runes_received: amount,
            total_runes: user.runes,
        },
    )
}

/// Credit `quantity` spellbooks of `tier` against the payment the oracle
/// prices them at, and count the payment in the global total. Rejects a
/// quantity outside 1 to 100, prices `STALE_WINDOW` old or older, and any
/// credit that would wrap a counter; a refusal leaves both records
/// untouched. Returns the purchase record, whose `sol_paid` the
/// environment transfers to the treasury; if that transfer fails, the
/// environment discards the whole operation.
pub fn buy_spellbooks(
    user: &mut UserState,
    global: &mut GlobalState,
    pricing: &PricingState,
    tier: SpellTier,
    quantity: u8,
    now: i64,
) -> (r: Result<SpellbooksPurchased, SpellError>)
    requires
        pricing.wf(),
        i64::MIN <= now - pricing.last_update <= i64::MAX,
    ensures
        quantity == 0 || quantity > 100 ==> r == Err::<SpellbooksPurchased, SpellError>(
            SpellError::InvalidAmount,
        ) && *final(user) == *old(user) && *final(global) == *old(global),
        1 <= quantity <= 100 && spec_is_stale(pricing.last_update, now) ==> r == Err::<
            SpellbooksPurchased,
            SpellError,
        >(SpellError::StalePrices) && *final(user) == *old(user) && *final(global) == *old(global),
        1 <= quantity <= 100 && !spec_is_stale(pricing.last_update, now) && (spec_books(
            *old(user),
            tier,
        ) + quantity > u64::MAX || old(global).total_sol_collected + spec_purchase_total(
            tier,
            quantity,
            pricing.alch_price_micro,
            pricing.sol_price_micro,
        ) > u64::MAX) ==> r == Err::<SpellbooksPurchased, SpellError>(SpellError::Overflow)
            && *final(user) == *old(user) && *final(global) == *old(global),
        1 <= quantity <= 100 && !spec_is_stale(pricing.last_update, now) && spec_books(
            *old(user),
            tier,
        ) + quantity <= u64::MAX && old(global).total_sol_collected + spec_purchase_total(
            tier,
            quantity,
            pricing.alch_price_micro,
            pricing.sol_price_micro,
        ) <= u64::MAX ==> {
            &&& (r == Ok::<SpellbooksPurchased, SpellError>(
                SpellbooksPurchased {
                    user: old(user).owner,
                    tier: spec_tier_index(tier),
                    quantity,
                    sol_paid: spec_purchase_total(
                        tier,
                        quantity,
                        pricing.alch_price_micro,
                        pricing.sol_price_micro,
                    ) as u64,
                    alch_price_micro: pricing.alch_price_micro,
                    sol_price_micro: pricing.sol_price_micro,
                },
            ))
            &&& *final(user) == spec_set_books(
                *old(user),
                tier,
                (spec_books(*old(user), tier) + quantity) as u64,
            )
            &&& (*final(global) == GlobalState {
                total_sol_collected: (old(global).total_sol_collected + spec_purchase_total(
                    tier,
                    quantity,
                    pricing.alch_price_micro,
                    pricing.sol_price_micro,
                )) as u64,
                ..*old(global)
            })
        },
{
    if quantity == 0 || quantity > 100 {
        return Err(SpellError::InvalidAmount);
    }
    let (alch_price, sol_price) = match read_for_purchase(pricing, now) {
        Ok(p) => p,
        Err(e) => {
            return Err(e);
        },
    };
    let per_book: u64 = payment_per_book(tier, alch_price, sol_price);
    proof {
        assert(per_book as int * quantity as int <= MAX_PAYMENT_PER_BOOK as int * 100)
            by (nonlinear_arith)
            requires
                per_book <= MAX_PAYMENT_PER_BOOK,
                quantity <= 100,
        ;
    }
    let total: u64 = per_book * (quantity as u64);
    let books: u64 = user.books_of(tier);
    if quantity as u64 > u64::MAX - books {
        return Err(SpellError::Overflow);
    }
    if total > u64::MAX - global.total_sol_collected {
        return Err(SpellError::Overflow);
    }
    let new_books: u64 = books + quantity as u64;
    match tier {
        SpellTier::Novice => user.novice_books = new_books,
        SpellTier::Adept => user.adept_books = new_books,
        SpellTier::Master => user.master_books = new_books,
        SpellTier::Legendary => user.legendary_books = new_books,
    }
    global.total_sol_collected = global.total_sol_collected + total;
    Ok(
        SpellbooksPurchased {
            user: user.owner,
            tier: tier.index(),
            quantity,
            sol_paid: total,
            alch_price_micro: alch_price,
            sol_price_micro: sol_price,
        },
    )
}

} // verus!
