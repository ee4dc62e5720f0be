//! The randomized-outcome resolver: a deterministic roll derived by
//! digesting the timestamp, the caster's identity, caller-supplied entropy,
//! and the tier, measured against the tier's success rate.
//!
//! The entropy is consumed, never generated: a party who can choose or
//! observe it before the operation settles can predict the roll. That is an
//! accepted trust boundary of the design, not something to strengthen here.

use vstd::prelude::*;
use crate::bytes::{i64_le_bytes, spec_i64_le_bytes, spec_u32_from_le, u32_from_le};
use crate::tier::{spec_success_rate, spec_tier_index, SpellTier};

verus! {

/// The 32-byte SHA-256 digest of a byte sequence.
pub uninterp spec fn sha256_of(data: Seq<u8>) -> Seq<u8>;

/// Relies on sha2::Sha256, called through digest::Digest::digest: the
/// SHA-256 digest of the input bytes, 32 bytes long, and a function of the
/// input alone.
#[verifier::external_body]
fn sha256(data: &Vec<u8>) -> (r: Vec<u8>)
    ensures
        r@ == sha256_of(data@),
        r@.len() == 32,
{
    <sha2::Sha256 as sha2::Digest>::digest(data.as_slice()).to_vec()
}

/// The seed a cast is decided by: the eight timestamp bytes little-endian,
/// the 32 bytes of the caster's identity, the 32 caller-supplied entropy
/// bytes, and the tier byte, in that order.
pub open spec fn spec_seed(now: i64, user_id: Seq<u8>, entropy: Seq<u8>, tier: SpellTier) -> Seq<
    u8,
> {
    spec_i64_le_bytes(now) + user_id + entropy + seq![spec_tier_index(tier)]
}

/// The roll a seed yields: the first four bytes of its digest, read
/// little-endian, reduced modulo 100.
pub open spec fn spec_roll(seed: Seq<u8>) -> int {
    spec_u32_from_le(sha256_of(seed)) % 100
}

/// Whether a cast with these inputs succeeds: its roll falls strictly
/// below the tier's success rate.
pub open spec fn spec_cast_success(
    now: i64,
    user_id: Seq<u8>,
    entropy: Seq<u8>,
    tier: SpellTier,
) -> bool {
    spec_roll(spec_seed(now, user_id, entropy, tier)) < spec_success_rate(tier)
}

/// Concatenate the seed bytes for a cast.
pub fn build_seed(now: i64, user_id: &[u8; 32], entropy: &[u8; 32], tier: SpellTier) -> (r: Vec<
    u8,
>)
    ensures
        r@ == spec_seed(now, user_id@, entropy@, tier),
{
    let mut seed: Vec<u8> = i64_le_bytes(now);
    let mut i: usize = 0;
    while i < 32
        invariant
            i <= 32,
            seed@ == spec_i64_le_bytes(now) + user_id@.take(i as int),
        decreases 32 - i,
    {
        seed.push(user_id[i]);
        proof {
            assert(seed@ =~= spec_i64_le_bytes(now) + user_id@.take(i as int + 1));
        }
        i = i + 1;
    }
    proof {
        assert(user_id@.take(32) =~= user_id@);
    }
    let mut j: usize = 0;
    while j < 32
        invariant
            j <= 32,
            seed@ == spec_i64_le_bytes(now) + user_id@ + entropy@.take(j as int),
        decreases 32 - j,
    {
        seed.push(entropy[j]);
        proof {
            assert(seed@ =~= spec_i64_le_bytes(now) + user_id@ + entropy@.take(j as int + 1));
        }
        j = j + 1;
    }
    proof {
        assert(entropy@.take(32) =~= entropy@);
    }
    seed.push(tier.index());
    proof {
        assert(seed@ =~= spec_seed(now, user_id@, entropy@, tier));
    }
    seed
}

/// The roll a digest yields: its first four bytes read little-endian,
/// reduced modulo 100.
pub fn roll_from_digest(digest: &Vec<u8>) -> (r: u32)
    requires
        digest@.len() >= 4,
    ensures
        r == spec_u32_from_le(digest@) % 100,
        r < 100,
{
    let v: u32 = u32_from_le(digest);
    v % 100
}

/// Decide a cast attempt from its entropy sources: the roll, and whether
/// it falls below the tier's success rate. Deterministic: the result is a
/// function of the four inputs and nothing else.
pub fn resolve(now: i64, user_id: &[u8; 32], entropy: &[u8; 32], tier: SpellTier) -> (r: (
    bool,
    u32,
))
    ensures
        r.1 == spec_roll(spec_seed(now, user_id@, entropy@, tier)),
        r.0 == spec_cast_success(now, user_id@, entropy@, tier),
        r.1 < 100,
{
    let seed = build_seed(now, user_id, entropy, tier);
    let digest = sha256(&seed);
    let roll = roll_from_digest(&digest);
    (roll < tier.success_rate(), roll)
}

/// Resolution is pure: two casts with the same timestamp, caster identity,
/// entropy, and tier are decided by the same roll and the same outcome.
pub proof fn lemma_resolve_deterministic(
    now1: i64,
    now2: i64,
    user1: Seq<u8>,
    user2: Seq<u8>,
    entropy1: Seq<u8>,
    entropy2: Seq<u8>,
    tier1: SpellTier,
    tier2: SpellTier,
)
    requires
        now1 == now2,
        user1 == user2,
        entropy1 == entropy2,
        tier1 == tier2,
    ensures
        spec_roll(spec_seed(now1, user1, entropy1, tier1)) == spec_roll(
            spec_seed(now2, user2, entropy2, tier2),
        ),
        spec_cast_success(now1, user1, entropy1, tier1) == spec_cast_success(
            now2,
            user2,
            entropy2,
            tier2,
        ),
{
}

} // verus!
