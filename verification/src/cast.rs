//! The spell-cast orchestrator: per (user, tier) the buff window gates a
//! repeatable cycle of debit, randomized resolution, and payoff or partial
//! refund, with the global counters updated on the way.

use vstd::prelude::*;
use crate::errors::SpellError;
use crate::events::{CastOutcome, SpellCastFailure, SpellCastSuccess};
use crate::outcome::{resolve, spec_cast_success, spec_roll, spec_seed};
use crate::state::{spec_books, spec_buff_expiry, spec_set_books, spec_set_buff_expiry,
    spec_total_boost_centi, GlobalState, UserState};
use crate::tier::{spec_rune_cost, spec_tier_index, SpellTier, MULTIPLIER_BASE_CENTI};

verus! {

/// How long a granted buff runs: ten days of time-units.
pub const BUFF_DURATION: i64 = 864_000;

/// What a failed cast returns of the rune cost: a tenth, rounded down.
pub const REFUND_DIVISOR: u64 = 10;

/// Whether the tier's buff still runs at `now`: it was activated and its
/// expiry lies in the future. A tier in this state cannot be re-cast;
/// other tiers stay independently castable.
pub open spec fn spec_tier_locked(u: UserState, tier: SpellTier, now: i64) -> bool {
    spec_buff_expiry(u, tier) > 0 && now < spec_buff_expiry(u, tier)
}

/// The user record after a successful cast at `now`: the rune cost and one
/// spellbook gone, the tier's expiry ten days out, and the legacy mirror
/// fields recomputed — the multiplier from every tier still running.
pub open spec fn spec_user_after_success(u: UserState, tier: SpellTier, now: i64) -> UserState {
    let debited = UserState {
        runes: (u.runes - spec_rune_cost(tier)) as u64,
        ..spec_set_books(u, tier, (spec_books(u, tier) - 1) as u64)
    };
    let relocked = spec_set_buff_expiry(debited, tier, (now + BUFF_DURATION) as i64);
    UserState {
        multiplier_centi: (MULTIPLIER_BASE_CENTI + spec_total_boost_centi(relocked, now)) as u64,
        buff_expiry: (now + BUFF_DURATION) as i64,
        active_tier: spec_tier_index(tier),
        ..relocked
    }
}

/// The user record after a failed cast: the rune cost gone but a tenth of
/// it returned, and one spellbook gone for good. Expiries and the legacy
/// mirror stay as they were.
pub open spec fn spec_user_after_failure(u: UserState, tier: SpellTier) -> UserState {
    UserState {
        runes: (u.runes - spec_rune_cost(tier) + spec_rune_cost(tier) / REFUND_DIVISOR) as u64,
        ..spec_set_books(u, tier, (spec_books(u, tier) - 1) as u64)
    }
}

/// Attempt to cast a spell of `tier` at `now`, with the caller's 32 bytes
/// of environment entropy deciding the roll. The tier must be out of its
/// buff window, and the user must hold the tier's rune cost and one of its
/// spellbooks; a refusal leaves both records untouched. On success the
/// tier's buff is granted and the aggregate multiplier recomputed; on
/// failure a tenth of the rune cost comes back and the spellbook does not.
pub fn cast_spell(
    user: &mut UserState,
    global: &mut GlobalState,
    now: i64,
    entropy: &[u8; 32],
    tier: SpellTier,
) -> (r: Result<CastOutcome, SpellError>)
    requires
        now + BUFF_DURATION <= i64::MAX,
    ensures
        spec_tier_locked(*old(user), tier, now) ==> r == Err::<CastOutcome, SpellError>(
            SpellError::BuffActive,
        ) && *final(user) == *old(user) && *final(global) == *old(global),
        !spec_tier_locked(*old(user), tier, now) && old(user).runes < spec_rune_cost(tier) ==> r
            == Err::<CastOutcome, SpellError>(SpellError::InsufficientRunes) && *final(user)
            == *old(user) && *final(global) == *old(global),
        !spec_tier_locked(*old(user), tier, now) && old(user).runes >= spec_rune_cost(tier)
            && spec_books(*old(user), tier) < 1 ==> r == Err::<CastOutcome, SpellError>(
            SpellError::InsufficientBooks,
        ) && *final(user) == *old(user) && *final(global) == *old(global),
        !spec_tier_locked(*old(user), tier, now) && old(user).runes >= spec_rune_cost(tier)
            && spec_books(*old(user), tier) >= 1 && old(global).total_spells_cast == u64::MAX
            ==> r == Err::<CastOutcome, SpellError>(SpellError::Overflow) && *final(user) == *old(
            user,
        ) && *final(global) == *old(global),
        !spec_tier_locked(*old(user), tier, now) && old(user).runes >= spec_rune_cost(tier)
            && spec_books(*old(user), tier) >= 1 && old(global).total_spells_cast < u64::MAX
            && spec_cast_success(now, old(user).owner@, entropy@, tier) && old(
            global,
        ).total_successes == u64::MAX ==> r == Err::<CastOutcome, SpellError>(SpellError::Overflow)
            && *final(user) == *old(user) && *final(global) == *old(global),
        !spec_tier_locked(*old(user), tier, now) && old(user).runes >= spec_rune_cost(tier)
            && spec_books(*old(user), tier) >= 1 && old(global).total_spells_cast < u64::MAX
            && spec_cast_success(now, old(user).owner@, entropy@, tier) && old(
            global,
        ).total_successes < u64::MAX ==> {
            &&& (r == Ok::<CastOutcome, SpellError>(
                CastOutcome::Success(
                    SpellCastSuccess {
                        user: old(user).owner,
                        tier: spec_tier_index(tier),
                        multiplier_centi: spec_user_after_success(
                            *old(user),
                            tier,
                            now,
                        ).multiplier_centi,
                        expiry: (now + BUFF_DURATION) as i64,
                        random_value: spec_roll(
                            spec_seed(now, old(user).owner@, entropy@, tier),
                        ) as u32,
                    },
                ),
            ))
            &&& *final(user) == spec_user_after_success(*old(user), tier, now)
            &&& final(user).multiplier_centi == MULTIPLIER_BASE_CENTI + spec_total_boost_centi(
                *final(user),
                now,
            )
            &&& spec_buff_expiry(*final(user), tier) == now + BUFF_DURATION
            &&& (*final(global) == GlobalState {
                total_spells_cast: (old(global).total_spells_cast + 1) as u64,
                total_successes: (old(global).total_successes + 1) as u64,
                ..*old(global)
            })
        },
        !spec_tier_locked(*old(user), tier, now) && old(user).runes >= spec_rune_cost(tier)
            && spec_books(*old(user), tier) >= 1 && old(global).total_spells_cast < u64::MAX
            && !spec_cast_success(now, old(user).owner@, entropy@, tier) ==> {
            &&& (r == Ok::<CastOutcome, SpellError>(
                CastOutcome::Failure(
                    SpellCastFailure {
                        user: old(user).owner,
                        tier: spec_tier_index(tier),
                        rune_refund: spec_rune_cost(tier) / REFUND_DIVISOR,
                        random_value: spec_roll(
                            spec_seed(now, old(user).owner@, entropy@, tier),
                        ) as u32,
                    },
                ),
            ))
            &&& *final(user) == spec_user_after_failure(*old(user), tier)
            &&& final(user).runes == old(user).runes - spec_rune_cost(tier) + spec_rune_cost(tier)
                / REFUND_DIVISOR
            &&& (*final(global) == GlobalState {
                total_spells_cast: (old(global).total_spells_cast + 1) as u64,
                ..*old(global)
            })
        },
{
    let tier_expiry: i64 = user.buff_expiry_of(tier);
    if tier_expiry > 0 && now < tier_expiry {
        return Err(SpellError::BuffActive);
    }
    let rune_cost: u64 = tier.rune_cost();
    if user.runes < rune_cost {
        return Err(SpellError::InsufficientRunes);
    }
    let books: u64 = user.books_of(tier);
    if books < 1 {
        return Err(SpellError::InsufficientBooks);
    }
    let (success, roll) = resolve(now, &user.owner, entropy, tier);
    if global.total_spells_cast == u64::MAX {
        return Err(SpellError::Overflow);
    }
    if success && global.total_successes == u64::MAX {
        return Err(SpellError::Overflow);
    }
    user.runes = user.runes - rune_cost;
    let fewer_books: u64 = books - 1;
    match tier {
        SpellTier::Novice => user.novice_books = fewer_books,
        SpellTier::Adept => user.adept_books = fewer_books,
        SpellTier::Master => user.master_books = fewer_books,
        SpellTier::Legendary => user.legendary_books = fewer_books,
    }
    global.total_spells_cast = global.total_spells_cast + 1;
    if success {
        let new_expiry: i64 = now + BUFF_DURATION;
        match tier {
            SpellTier::Novice => user.novice_buff_expiry = new_expiry,
            SpellTier::Adept => user.adept_buff_expiry = new_expiry,
            SpellTier::Master => user.master_buff_expiry = new_expiry,
            SpellTier::Legendary => user.legendary_buff_expiry = new_expiry,
        }
        let mut boost: u64 = 0;
        if user.novice_buff_expiry > now {
            boost = boost + 10;
        }
        if user.adept_buff_expiry > now {
            boost = boost + 25;
        }
        if user.master_buff_expiry > now {
            boost = boost + 50;
        }
        if user.legendary_buff_expiry > now {
            boost = boost + 100;
        }
        let new_multiplier: u64 = MULTIPLIER_BASE_CENTI + boost;
        user.multiplier_centi = new_multiplier;
        user.buff_expiry = new_expiry;
        user.active_tier = tier.index();
        global.total_successes = global.total_successes + 1;
        Ok(
            CastOutcome::Success(
                SpellCastSuccess {
                    user: user.owner,
                    tier: tier.index(),
                    multiplier_centi: new_multiplier,
                    expiry: new_expiry,
                    random_value: roll,
                },
            ),
        )
    } else {
        let rune_refund: u64 = rune_cost / REFUND_DIVISOR;
        user.runes = user.runes + rune_refund;
        Ok(
            CastOutcome::Failure(
                SpellCastFailure {
                    user: user.owner,
                    tier: tier.index(),
                    rune_refund,
                    random_value: roll,
                },
            ),
        )
    }
}

/// Once a tier's buff was ever granted and its window has passed, a new
/// successful cast of that tier moves its expiry strictly forward: no cast
/// can shorten an expiry that was once set.
pub proof fn lemma_buff_expiry_advances(u: UserState, tier: SpellTier, now: i64)
    requires
        now >= 0,
        spec_buff_expiry(u, tier) >= 0,
        !spec_tier_locked(u, tier, now),
        now + BUFF_DURATION <= i64::MAX,
    ensures
        spec_buff_expiry(spec_user_after_success(u, tier, now), tier) > spec_buff_expiry(u, tier),
{
}

} // verus!
