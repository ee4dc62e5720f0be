//! A tiered spell-casting economy engine.
//!
//! Users convert a fungible token into runes, buy tiered spellbooks at a
//! price derived from an oracle, and spend runes plus a spellbook to attempt
//! a randomized spell cast. A successful cast grants a time-boxed buff for
//! that tier; the buffs of all currently active tiers stack additively into
//! one aggregate multiplier.

pub mod bytes;
pub mod cast;
pub mod errors;
pub mod events;
pub mod ledger;
pub mod outcome;
pub mod pricing;
pub mod state;
pub mod tier;

pub use cast::cast_spell;
pub use errors::SpellError;
pub use events::{CastOutcome, PriceUpdated, RunesCrafted, SpellCastFailure, SpellCastSuccess,
    SpellbooksPurchased};
pub use ledger::{buy_spellbooks, craft_runes};
pub use outcome::resolve;
pub use pricing::{read_for_purchase, update_prices};
pub use state::{initialize, initialize_user, migrate_user_account, GlobalState, LegacyUserState,
    PricingState, UserState};
pub use tier::SpellTier;
