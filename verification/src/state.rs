//! The stored records: the global counters, the price oracle store, and the
//! per-user account, with their constructors and the record migration.

use vstd::prelude::*;
use crate::tier::{SpellTier, spec_boost_centi, MULTIPLIER_BASE_CENTI};

verus! {

/// Lower bound on the token price, in millionths of a USD (0.0001 USD).
pub const MIN_TOKEN_PRICE_MICRO: u64 = 100;

/// Upper bound on the token price, in millionths of a USD (1.0 USD).
pub const MAX_TOKEN_PRICE_MICRO: u64 = 1_000_000;

/// Lower bound on the native-currency price, in millionths of a USD (50 USD).
pub const MIN_CCY_PRICE_MICRO: u64 = 50_000_000;

/// Upper bound on the native-currency price, in millionths of a USD (500 USD).
pub const MAX_CCY_PRICE_MICRO: u64 = 500_000_000;

/// The singleton counters and identities, created once and never destroyed.
/// All cumulative counters only grow, and every operation rejects rather
/// than wrap them.
#[derive(Clone, Copy)]
pub struct GlobalState {
    /// The only identity allowed to publish prices.
    pub authority: [u8; 32],
    /// Where purchase payments are sent.
    pub treasury: [u8; 32],
    /// The accepted token: crafting burns it one for one into runes.
    pub alch_mint: [u8; 32],
    /// Cumulative tokens burned by crafting, in the token's smallest unit.
    pub total_alch_burned: u64,
    /// Cumulative payment collected by purchases, in the native minor unit.
    pub total_sol_collected: u64,
    /// Cumulative cast attempts, successful or not.
    pub total_spells_cast: u64,
    /// Cumulative successful casts.
    pub total_successes: u64,
}

/// The singleton price oracle store: the last published price pair and its
/// timestamp. Prices are held in millionths of a USD.
#[derive(Clone, Copy)]
pub struct PricingState {
    /// Price of the accepted token, in millionths of a USD.
    pub alch_price_micro: u64,
    /// Price of the native currency, in millionths of a USD.
    pub sol_price_micro: u64,
    /// When the prices were last published.
    pub last_update: i64,
}

impl PricingState {
    /// Either the prices were never published (both zero), or both lie
    /// within their bounds. Established at creation, preserved by updates.
    pub open spec fn wf(self) -> bool {
        (self.alch_price_micro == 0 && self.sol_price_micro == 0)
            || (MIN_TOKEN_PRICE_MICRO <= self.alch_price_micro <= MAX_TOKEN_PRICE_MICRO
                && MIN_CCY_PRICE_MICRO <= self.sol_price_micro <= MAX_CCY_PRICE_MICRO)
    }
}

/// One user's account: rune balance, spellbook inventory, and the per-tier
/// buff expiries, plus the legacy single multiplier/expiry/tier mirror kept
/// for older readers. The mirror is recomputed on every successful cast and
/// is never the source of truth for buff validity.
#[derive(Clone, Copy)]
pub struct UserState {
    /// The identity this account belongs to.
    pub owner: [u8; 32],
    /// Rune balance, in the token's smallest unit.
    pub runes: u64,
    /// Spellbooks held for the Novice tier.
    pub novice_books: u64,
    /// Spellbooks held for the Adept tier.
    pub adept_books: u64,
    /// Spellbooks held for the Master tier.
    pub master_books: u64,
    /// Spellbooks held for the Legendary tier.
    pub legendary_books: u64,
    /// Legacy mirror: the aggregate multiplier in hundredths (100 = 1.00),
    /// as recomputed at the last successful cast.
    pub multiplier_centi: u64,
    /// Legacy mirror: the expiry written by the last successful cast.
    pub buff_expiry: i64,
    /// Legacy mirror: the tier discriminant of the last successful cast.
    pub active_tier: u8,
    /// When the Novice buff expires; 0 while never activated.
    pub novice_buff_expiry: i64,
    /// When the Adept buff expires; 0 while never activated.
    pub adept_buff_expiry: i64,
    /// When the Master buff expires; 0 while never activated.
    pub master_buff_expiry: i64,
    /// When the Legendary buff expires; 0 while never activated.
    pub legendary_buff_expiry: i64,
}

/// The spellbook count a user holds for a tier.
pub open spec fn spec_books(u: UserState, tier: SpellTier) -> u64 {
    match tier {
        SpellTier::Novice => u.novice_books,
        SpellTier::Adept => u.adept_books,
        SpellTier::Master => u.master_books,
        SpellTier::Legendary => u.legendary_books,
    }
}

/// The buff expiry a user holds for a tier; 0 while never activated.
pub open spec fn spec_buff_expiry(u: UserState, tier: SpellTier) -> i64 {
    match tier {
        SpellTier::Novice => u.novice_buff_expiry,
        SpellTier::Adept => u.adept_buff_expiry,
        SpellTier::Master => u.master_buff_expiry,
        SpellTier::Legendary => u.legendary_buff_expiry,
    }
}

/// The user record with the spellbook count of one tier replaced.
pub open spec fn spec_set_books(u: UserState, tier: SpellTier, n: u64) -> UserState {
    match tier {
        SpellTier::Novice => UserState { novice_books: n, ..u },
        SpellTier::Adept => UserState { adept_books: n, ..u },
        SpellTier::Master => UserState { master_books: n, ..u },
        SpellTier::Legendary => UserState { legendary_books: n, ..u },
    }
}

/// The user record with the buff expiry of one tier replaced.
pub open spec fn spec_set_buff_expiry(u: UserState, tier: SpellTier, e: i64) -> UserState {
    match tier {
        SpellTier::Novice => UserState { novice_buff_expiry: e, ..u },
        SpellTier::Adept => UserState { adept_buff_expiry: e, ..u },
        SpellTier::Master => UserState { master_buff_expiry: e, ..u },
        SpellTier::Legendary => UserState { legendary_buff_expiry: e, ..u },
    }
}

/// The sum of the boosts of every tier whose buff expiry lies strictly
/// after `now`, in hundredths.
pub open spec fn spec_total_boost_centi(u: UserState, now: i64) -> int {
    (if u.novice_buff_expiry > now { spec_boost_centi(SpellTier::Novice) as int } else { 0 })
        + (if u.adept_buff_expiry > now { spec_boost_centi(SpellTier::Adept) as int } else { 0 })
        + (if u.master_buff_expiry > now { spec_boost_centi(SpellTier::Master) as int } else { 0 })
        + (if u.legendary_buff_expiry > now { spec_boost_centi(SpellTier::Legendary) as int } else { 0 })
}

impl UserState {
    /// The spellbook count this user holds for `tier`.
    pub fn books_of(&self, tier: SpellTier) -> (r: u64)
        ensures
            r == spec_books(*self, tier),
    {
        match tier {
            SpellTier::Novice => self.novice_books,
            SpellTier::Adept => self.adept_books,
            SpellTier::Master => self.master_books,
            SpellTier::Legendary => self.legendary_books,
        }
    }

    /// The buff expiry this user holds for `tier`.
    pub fn buff_expiry_of(&self, tier: SpellTier) -> (r: i64)
        ensures
            r == spec_buff_expiry(*self, tier),
    {
        match tier {
            SpellTier::Novice => self.novice_buff_expiry,
            SpellTier::Adept => self.adept_buff_expiry,
            SpellTier::Master => self.master_buff_expiry,
            SpellTier::Legendary => self.legendary_buff_expiry,
        }
    }
}

/// A user record as stored before the per-tier buff expiries existed: the
/// same fields, minus the four expiries.
#[derive(Clone, Copy)]
pub struct LegacyUserState {
    /// The identity the record belongs to.
    pub owner: [u8; 32],
    /// Rune balance, in the token's smallest unit.
    pub runes: u64,
    /// Spellbooks held for the Novice tier.
    pub novice_books: u64,
    /// Spellbooks held for the Adept tier.
    pub adept_books: u64,
    /// Spellbooks held for the Master tier.
    pub master_books: u64,
    /// Spellbooks held for the Legendary tier.
    pub legendary_books: u64,
    /// The aggregate multiplier in hundredths.
    pub multiplier_centi: u64,
    /// The single expiry the old layout held.
    pub buff_expiry: i64,
    /// The tier discriminant the old layout held.
    pub active_tier: u8,
}

/// Create the global counters and an empty price store at deployment.
/// The counters start at zero; prices start unpublished.
pub fn initialize(authority: [u8; 32], treasury: [u8; 32], alch_mint: [u8; 32]) -> (r: (
    GlobalState,
    PricingState,
))
    ensures
        r.0.authority == authority,
        r.0.treasury == treasury,
        r.0.alch_mint == alch_mint,
        r.0.total_alch_burned == 0,
        r.0.total_sol_collected == 0,
        r.0.total_spells_cast == 0,
        r.0.total_successes == 0,
        r.1.alch_price_micro == 0,
        r.1.sol_price_micro == 0,
        r.1.last_update == 0,
        r.1.wf(),
{
    let global = GlobalState {
        authority,
        treasury,
        alch_mint,
        total_alch_burned: 0,
        total_sol_collected: 0,
        total_spells_cast: 0,
        total_successes: 0,
    };
    let pricing = PricingState { alch_price_micro: 0, sol_price_micro: 0, last_update: 0 };
    (global, pricing)
}

/// Create a fresh user record: everything zero, the multiplier at its base.
pub fn initialize_user(owner: [u8; 32]) -> (r: UserState)
    ensures
        r.owner == owner,
        r.runes == 0,
        r.novice_books == 0,
        r.adept_books == 0,
        r.master_books == 0,
        r.legendary_books == 0,
        r.multiplier_centi == MULTIPLIER_BASE_CENTI,
        r.buff_expiry == 0,
        r.active_tier == 0,
        r.novice_buff_expiry == 0,
        r.adept_buff_expiry == 0,
        r.master_buff_expiry == 0,
        r.legendary_buff_expiry == 0,
{
    UserState {
        owner,
        runes: 0,
        novice_books: 0,
        adept_books: 0,
        master_books: 0,
        legendary_books: 0,
        multiplier_centi: MULTIPLIER_BASE_CENTI,
        buff_expiry: 0,
        active_tier: 0,
        novice_buff_expiry: 0,
        adept_buff_expiry: 0,
        master_buff_expiry: 0,
        legendary_buff_expiry: 0,
    }
}

/// Zero-extend an old-layout user record into the current one: every field
/// it already had is kept, and the four per-tier expiries start at zero.
/// The surrounding environment decides whether a stored record still has
/// the old size and pays for the extra storage before calling this.
pub fn migrate_user_account(legacy: &LegacyUserState) -> (r: UserState)
    ensures
        r.owner == legacy.owner,
        r.runes == legacy.runes,
        r.novice_books == legacy.novice_books,
        r.adept_books == legacy.adept_books,
        r.master_books == legacy.master_books,
        r.legendary_books == legacy.legendary_books,
        r.multiplier_centi == legacy.multiplier_centi,
        r.buff_expiry == legacy.buff_expiry,
        r.active_tier == legacy.active_tier,
        r.novice_buff_expiry == 0,
        r.adept_buff_expiry == 0,
        r.master_buff_expiry == 0,
        r.legendary_buff_expiry == 0,
{
    UserState {
        owner: legacy.owner,
        runes: legacy.runes,
        novice_books: legacy.novice_books,
        adept_books: legacy.adept_books,
        master_books: legacy.master_books,
        legendary_books: legacy.legendary_books,
        multiplier_centi: legacy.multiplier_centi,
        buff_expiry: legacy.buff_expiry,
        active_tier: legacy.active_tier,
        novice_buff_expiry: 0,
        adept_buff_expiry: 0,
        master_buff_expiry: 0,
        legendary_buff_expiry: 0,
    }
}

/// How much must be added to reach a storage balance floor: the shortfall,
/// or nothing when the balance already suffices.
pub fn additional_rent_needed(new_minimum: u64, current: u64) -> (r: u64)
    ensures
        r == (if new_minimum > current {
            new_minimum - current
        } else {
            0
        }),
{
    if new_minimum > current {
        new_minimum - current
    } else {
        0
    }
}

} // verus!
