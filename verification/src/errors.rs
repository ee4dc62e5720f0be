//! The failure kinds that an operation of the engine can report.

use vstd::prelude::*;

verus! {

/// Why an operation was refused. Every failing operation leaves all state
/// unchanged and reports exactly one of these.
#[derive(Clone, Copy, Debug, PartialEq, Eq, Structural)]
pub enum SpellError {
    /// The caller is not the configured authority.
    Unauthorized,
    /// An amount or quantity is outside its allowed range.
    InvalidAmount,
    /// A published price is outside its allowed bounds.
    InvalidPrice,
    /// The published prices are too old to price a purchase.
    StalePrices,
    /// The rune balance does not cover the tier's cast cost.
    InsufficientRunes,
    /// No spellbook of the tier is available to consume.
    InsufficientBooks,
    /// The tier's buff has not expired yet, so it cannot be re-cast.
    BuffActive,
    /// A checked addition or multiplication would exceed the unsigned range.
    Overflow,
    /// A checked subtraction would go below zero.
    Underflow,
}

} // verus!
