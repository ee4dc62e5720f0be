use alchemy_spells::{
    buy_spellbooks, cast_spell, craft_runes, initialize, initialize_user, migrate_user_account,
    read_for_purchase, resolve, update_prices, CastOutcome, GlobalState, LegacyUserState,
    PricingState, SpellError, SpellTier, UserState,
};
use alchemy_spells::state::additional_rent_needed;

const AUTHORITY: [u8; 32] = [7u8; 32];
const TREASURY: [u8; 32] = [8u8; 32];
const MINT: [u8; 32] = [9u8; 32];
const OWNER: [u8; 32] = [1u8; 32];

fn fresh_system() -> (GlobalState, PricingState) {
    initialize(AUTHORITY, TREASURY, MINT)
}

fn fresh_user() -> UserState {
    initialize_user(OWNER)
}

/// Publish in-bound prices at `now` so purchases can be priced.
fn publish(pricing: &mut PricingState, global: &GlobalState, alch: u64, sol: u64, now: i64) {
    let r = update_prices(pricing, global, &AUTHORITY, alch, sol, now);
    assert!(r.is_ok());
}

/// Search the entropy space for a value whose roll equals `target` for the
/// given cast inputs. The digest is deterministic, so the result is too.
fn entropy_with_roll(now: i64, owner: &[u8; 32], tier: SpellTier, target: u32) -> [u8; 32] {
    for a in 0..=255u8 {
        for b in 0..=255u8 {
            let mut e = [0u8; 32];
            e[0] = a;
            e[1] = b;
            let (_, roll) = resolve(now, owner, &e, tier);
            if roll == target {
                return e;
            }
        }
    }
    panic!("no entropy with the wanted roll in the searched range");
}

#[test]
fn tier_tables_hold_the_fixed_values() {
    assert_eq!(SpellTier::Novice.rune_cost(), 10_000_000_000);
    assert_eq!(SpellTier::Adept.rune_cost(), 20_000_000_000);
    assert_eq!(SpellTier::Master.rune_cost(), 50_000_000_000);
    assert_eq!(SpellTier::Legendary.rune_cost(), 100_000_000_000);
    assert_eq!(SpellTier::Novice.success_rate(), 70);
    assert_eq!(SpellTier::Adept.success_rate(), 50);
    assert_eq!(SpellTier::Master.success_rate(), 35);
    assert_eq!(SpellTier::Legendary.success_rate(), 20);
    assert_eq!(SpellTier::Novice.boost_centi(), 10);
    assert_eq!(SpellTier::Adept.boost_centi(), 25);
    assert_eq!(SpellTier::Master.boost_centi(), 50);
    assert_eq!(SpellTier::Legendary.boost_centi(), 100);
    assert_eq!(SpellTier::Novice.resource_equivalent(), 7_500);
    assert_eq!(SpellTier::Adept.resource_equivalent(), 15_000);
    assert_eq!(SpellTier::Master.resource_equivalent(), 37_500);
    assert_eq!(SpellTier::Legendary.resource_equivalent(), 75_000);
    assert_eq!(SpellTier::Novice.to_bytes(), [0u8]);
    assert_eq!(SpellTier::Adept.to_bytes(), [1u8]);
    assert_eq!(SpellTier::Master.to_bytes(), [2u8]);
    assert_eq!(SpellTier::Legendary.to_bytes(), [3u8]);
}

#[test]
fn craft_zero_amount_is_refused() {
    let (mut global, _pricing) = fresh_system();
    let mut user = fresh_user();
    let r = craft_runes(&mut user, &mut global, 0);
    assert_eq!(r.unwrap_err(), SpellError::InvalidAmount);
    assert_eq!(user.runes, 0);
    assert_eq!(global.total_alch_burned, 0);
}

#[test]
fn craft_credits_balance_and_burn_counter_by_the_amount() {
    let (mut global, _pricing) = fresh_system();
    let mut user = fresh_user();
    let ev = craft_runes(&mut user, &mut global, 1_234).unwrap();
    assert_eq!(user.runes, 1_234);
    assert_eq!(global.total_alch_burned, 1_234);
    assert_eq!(ev.alch_burned, 1_234);
    assert_eq!(ev.runes_received, 1_234);
    assert_eq!(ev.total_runes, 1_234);
    assert_eq!(ev.user, OWNER);
    let ev2 = craft_runes(&mut user, &mut global, 766).unwrap();
    assert_eq!(user.runes, 2_000);
    assert_eq!(global.total_alch_burned, 2_000);
    assert_eq!(ev2.total_runes, 2_000);
}

#[test]
fn craft_that_would_wrap_a_counter_is_refused_without_mutation() {
    let (mut global, _pricing) = fresh_system();
    let mut user = fresh_user();
    user.runes = u64::MAX - 1;
    let r = craft_runes(&mut user, &mut global, 2);
    assert_eq!(r.unwrap_err(), SpellError::Overflow);
    assert_eq!(user.runes, u64::MAX - 1);
    assert_eq!(global.total_alch_burned, 0);
}

#[test]
fn update_prices_rejects_a_caller_that_is_not_the_authority() {
    let (global, mut pricing) = fresh_system();
    let stranger: [u8; 32] = [2u8; 32];
    let r = update_prices(&mut pricing, &global, &stranger, 10_000, 100_000_000, 50);
    assert_eq!(r.unwrap_err(), SpellError::Unauthorized);
    assert_eq!(pricing.last_update, 0);
}

#[test]
fn update_prices_rejects_prices_outside_their_bounds() {
    let (global, mut pricing) = fresh_system();
    let low_token = update_prices(&mut pricing, &global, &AUTHORITY, 99, 100_000_000, 50);
    assert_eq!(low_token.unwrap_err(), SpellError::InvalidPrice);
    let high_token = update_prices(&mut pricing, &global, &AUTHORITY, 1_000_001, 100_000_000, 50);
    assert_eq!(high_token.unwrap_err(), SpellError::InvalidPrice);
    let low_ccy = update_prices(&mut pricing, &global, &AUTHORITY, 10_000, 49_999_999, 50);
    assert_eq!(low_ccy.unwrap_err(), SpellError::InvalidPrice);
    let high_ccy = update_prices(&mut pricing, &global, &AUTHORITY, 10_000, 500_000_001, 50);
    assert_eq!(high_ccy.unwrap_err(), SpellError::InvalidPrice);
    assert_eq!(pricing.alch_price_micro, 0);
    assert_eq!(pricing.sol_price_micro, 0);
}

#[test]
fn update_prices_stores_the_pair_and_the_timestamp() {
    let (global, mut pricing) = fresh_system();
    let ev = update_prices(&mut pricing, &global, &AUTHORITY, 10_000, 100_000_000, 77).unwrap();
    assert_eq!(pricing.alch_price_micro, 10_000);
    assert_eq!(pricing.sol_price_micro, 100_000_000);
    assert_eq!(pricing.last_update, 77);
    assert_eq!(ev.alch_price_micro, 10_000);
    assert_eq!(ev.sol_price_micro, 100_000_000);
    assert_eq!(ev.timestamp, 77);
}

#[test]
fn prices_go_stale_at_the_window_and_not_before() {
    let (global, mut pricing) = fresh_system();
    publish(&mut pricing, &global, 10_000, 100_000_000, 1_000);
    let fresh = read_for_purchase(&pricing, 1_299);
    assert_eq!(fresh.unwrap(), (10_000, 100_000_000));
    let stale = read_for_purchase(&pricing, 1_300);
    assert_eq!(stale.unwrap_err(), SpellError::StalePrices);
    let much_later = read_for_purchase(&pricing, 9_999);
    assert_eq!(much_later.unwrap_err(), SpellError::StalePrices);
}

#[test]
fn buying_two_adept_books_at_the_worked_prices_costs_three_sol() {
    let (mut global, mut pricing) = fresh_system();
    let mut user = fresh_user();
    // token at 0.01 USD, currency at 100 USD, both in millionths.
    publish(&mut pricing, &global, 10_000, 100_000_000, 1_000);
    let ev = buy_spellbooks(&mut user, &mut global, &pricing, SpellTier::Adept, 2, 1_100).unwrap();
    assert_eq!(ev.sol_paid, 3_000_000_000);
    assert_eq!(ev.tier, 1);
    assert_eq!(ev.quantity, 2);
    assert_eq!(user.adept_books, 2);
    assert_eq!(user.novice_books, 0);
    assert_eq!(global.total_sol_collected, 3_000_000_000);
}

#[test]
fn purchase_quantity_outside_one_to_hundred_is_refused() {
    let (mut global, mut pricing) = fresh_system();
    let mut user = fresh_user();
    publish(&mut pricing, &global, 10_000, 100_000_000, 1_000);
    let zero = buy_spellbooks(&mut user, &mut global, &pricing, SpellTier::Novice, 0, 1_100);
    assert_eq!(zero.unwrap_err(), SpellError::InvalidAmount);
    let too_many = buy_spellbooks(&mut user, &mut global, &pricing, SpellTier::Novice, 101, 1_100);
    assert_eq!(too_many.unwrap_err(), SpellError::InvalidAmount);
    assert_eq!(user.novice_books, 0);
    assert_eq!(global.total_sol_collected, 0);
}

#[test]
fn purchase_with_stale_prices_is_refused() {
    let (mut global, mut pricing) = fresh_system();
    let mut user = fresh_user();
    publish(&mut pricing, &global, 10_000, 100_000_000, 1_000);
    let r = buy_spellbooks(&mut user, &mut global, &pricing, SpellTier::Novice, 1, 1_300);
    assert_eq!(r.unwrap_err(), SpellError::StalePrices);
    assert_eq!(user.novice_books, 0);
}

#[test]
fn purchase_cost_moves_with_quantity_and_prices_as_the_law_says() {
    let (mut global, mut pricing) = fresh_system();
    publish(&mut pricing, &global, 10_000, 100_000_000, 1_000);
    let mut u1 = fresh_user();
    let two = buy_spellbooks(&mut u1, &mut global, &pricing, SpellTier::Novice, 2, 1_100)
        .unwrap()
        .sol_paid;
    let mut u2 = fresh_user();
    let three = buy_spellbooks(&mut u2, &mut global, &pricing, SpellTier::Novice, 3, 1_100)
        .unwrap()
        .sol_paid;
    assert!(two < three);

    let mut dearer_token = PricingState { alch_price_micro: 0, sol_price_micro: 0, last_update: 0 };
    publish(&mut dearer_token, &global, 20_000, 100_000_000, 1_000);
    let mut u3 = fresh_user();
    let dearer = buy_spellbooks(&mut u3, &mut global, &dearer_token, SpellTier::Novice, 2, 1_100)
        .unwrap()
        .sol_paid;
    assert!(two < dearer);

    let mut dearer_ccy = PricingState { alch_price_micro: 0, sol_price_micro: 0, last_update: 0 };
    publish(&mut dearer_ccy, &global, 10_000, 200_000_000, 1_000);
    let mut u4 = fresh_user();
    let cheaper = buy_spellbooks(&mut u4, &mut global, &dearer_ccy, SpellTier::Novice, 2, 1_100)
        .unwrap()
        .sol_paid;
    assert!(cheaper < two);
}

#[test]
fn resolution_is_deterministic_in_its_inputs() {
    let entropy: [u8; 32] = [42u8; 32];
    let first = resolve(123_456, &OWNER, &entropy, SpellTier::Master);
    let second = resolve(123_456, &OWNER, &entropy, SpellTier::Master);
    assert_eq!(first, second);
    assert!(first.1 < 100);
}

#[test]
fn the_roll_comes_out_of_the_digest_not_out_of_the_seed() {
    // Were the digest the seed handed back unchanged, the roll would be the
    // timestamp's low four bytes modulo 100. At least one of a run of
    // timestamps must disagree with that prediction.
    let entropy: [u8; 32] = [0u8; 32];
    let mut some_disagree = false;
    for t in 0..20i64 {
        let (_, roll) = resolve(t, &OWNER, &entropy, SpellTier::Novice);
        let identity_prediction = (t as u32) % 100;
        if roll != identity_prediction {
            some_disagree = true;
        }
    }
    assert!(some_disagree);
}

#[test]
fn a_tier_inside_its_buff_window_cannot_be_cast() {
    let (mut global, _pricing) = fresh_system();
    let mut user = fresh_user();
    user.runes = 100_000_000_000;
    user.novice_books = 1;
    user.novice_buff_expiry = 2_000;
    let entropy: [u8; 32] = [5u8; 32];
    let r = cast_spell(&mut user, &mut global, 1_999, &entropy, SpellTier::Novice);
    assert_eq!(r.unwrap_err(), SpellError::BuffActive);
    assert_eq!(user.runes, 100_000_000_000);
    assert_eq!(user.novice_books, 1);
    assert_eq!(global.total_spells_cast, 0);
}

#[test]
fn a_tier_whose_window_has_passed_can_be_cast_again() {
    let (mut global, _pricing) = fresh_system();
    let mut user = fresh_user();
    user.runes = 100_000_000_000;
    user.novice_books = 1;
    user.novice_buff_expiry = 2_000;
    let entropy = entropy_with_roll(2_000, &OWNER, SpellTier::Novice, 42);
    let r = cast_spell(&mut user, &mut global, 2_000, &entropy, SpellTier::Novice);
    assert!(matches!(r.unwrap(), CastOutcome::Success(_)));
}

#[test]
fn insufficient_runes_and_books_are_told_apart() {
    let (mut global, _pricing) = fresh_system();
    let mut user = fresh_user();
    let entropy: [u8; 32] = [5u8; 32];
    user.runes = 9_999_999_999;
    user.novice_books = 1;
    let poor = cast_spell(&mut user, &mut global, 1_000, &entropy, SpellTier::Novice);
    assert_eq!(poor.unwrap_err(), SpellError::InsufficientRunes);
    user.runes = 10_000_000_000;
    user.novice_books = 0;
    let bookless = cast_spell(&mut user, &mut global, 1_000, &entropy, SpellTier::Novice);
    assert_eq!(bookless.unwrap_err(), SpellError::InsufficientBooks);
    assert_eq!(user.runes, 10_000_000_000);
    assert_eq!(global.total_spells_cast, 0);
}

#[test]
fn a_successful_novice_cast_grants_the_buff_and_the_multiplier() {
    let (mut global, _pricing) = fresh_system();
    let mut user = fresh_user();
    user.runes = 10_000_000_000_000;
    user.novice_books = 1;
    let now: i64 = 50_000;
    let entropy = entropy_with_roll(now, &OWNER, SpellTier::Novice, 42);
    let outcome = cast_spell(&mut user, &mut global, now, &entropy, SpellTier::Novice).unwrap();
    match outcome {
        CastOutcome::Success(ev) => {
            assert_eq!(ev.random_value, 42);
            assert_eq!(ev.expiry, now + 864_000);
            assert_eq!(ev.multiplier_centi, 110);
            assert_eq!(ev.tier, 0);
            assert_eq!(ev.user, OWNER);
        }
        CastOutcome::Failure(_) => panic!("a roll of 42 must succeed at rate 70"),
    }
    assert_eq!(user.novice_buff_expiry, now + 864_000);
    assert_eq!(user.multiplier_centi, 110);
    assert_eq!(user.buff_expiry, now + 864_000);
    assert_eq!(user.active_tier, 0);
    assert_eq!(user.novice_books, 0);
    assert_eq!(user.runes, 10_000_000_000_000 - 10_000_000_000);
    assert_eq!(global.total_spells_cast, 1);
    assert_eq!(global.total_successes, 1);
}

#[test]
fn a_failed_novice_cast_refunds_a_tenth_and_keeps_the_book_spent() {
    let (mut global, _pricing) = fresh_system();
    let mut user = fresh_user();
    user.runes = 10_000_000_000_000;
    user.novice_books = 1;
    let now: i64 = 50_000;
    let entropy = entropy_with_roll(now, &OWNER, SpellTier::Novice, 85);
    let outcome = cast_spell(&mut user, &mut global, now, &entropy, SpellTier::Novice).unwrap();
    match outcome {
        CastOutcome::Failure(ev) => {
            assert_eq!(ev.random_value, 85);
            assert_eq!(ev.rune_refund, 1_000_000_000);
            assert_eq!(ev.tier, 0);
        }
        CastOutcome::Success(_) => panic!("a roll of 85 must fail at rate 70"),
    }
    assert_eq!(user.runes, 10_000_000_000_000 - 10_000_000_000 + 1_000_000_000);
    assert_eq!(user.novice_books, 0);
    assert_eq!(user.novice_buff_expiry, 0);
    assert_eq!(user.multiplier_centi, 100);
    assert_eq!(global.total_spells_cast, 1);
    assert_eq!(global.total_successes, 0);
}

#[test]
fn buffs_of_all_four_tiers_stack_and_expire_independently() {
    let (mut global, _pricing) = fresh_system();
    let mut user = fresh_user();
    user.runes = 1_000_000_000_000;
    user.novice_books = 2;
    user.adept_books = 1;
    user.master_books = 1;
    user.legendary_books = 1;
    let now: i64 = 10_000;
    let tiers = [SpellTier::Novice, SpellTier::Adept, SpellTier::Master, SpellTier::Legendary];
    let expected = [110u64, 135, 185, 285];
    for (tier, want) in tiers.iter().zip(expected.iter()) {
        let entropy = entropy_with_roll(now, &OWNER, *tier, 0);
        let outcome = cast_spell(&mut user, &mut global, now, &entropy, *tier).unwrap();
        match outcome {
            CastOutcome::Success(ev) => assert_eq!(ev.multiplier_centi, *want),
            CastOutcome::Failure(_) => panic!("a roll of 0 always succeeds"),
        }
        assert_eq!(user.multiplier_centi, *want);
    }
    assert_eq!(global.total_spells_cast, 4);
    assert_eq!(global.total_successes, 4);
    // At the shared expiry instant all four buffs are gone, and a new
    // Novice success counts only its own boost.
    let later: i64 = now + 864_000;
    let entropy = entropy_with_roll(later, &OWNER, SpellTier::Novice, 1);
    let outcome = cast_spell(&mut user, &mut global, later, &entropy, SpellTier::Novice).unwrap();
    match outcome {
        CastOutcome::Success(ev) => assert_eq!(ev.multiplier_centi, 110),
        CastOutcome::Failure(_) => panic!("a roll of 1 always succeeds"),
    }
    assert_eq!(user.novice_buff_expiry, later + 864_000);
    assert_eq!(user.adept_buff_expiry, now + 864_000);
}

#[test]
fn cast_counter_at_the_ceiling_refuses_the_cast_untouched() {
    let (mut global, _pricing) = fresh_system();
    let mut user = fresh_user();
    user.runes = 10_000_000_000;
    user.novice_books = 1;
    global.total_spells_cast = u64::MAX;
    let entropy: [u8; 32] = [5u8; 32];
    let r = cast_spell(&mut user, &mut global, 1_000, &entropy, SpellTier::Novice);
    assert_eq!(r.unwrap_err(), SpellError::Overflow);
    assert_eq!(user.runes, 10_000_000_000);
    assert_eq!(user.novice_books, 1);
}

#[test]
fn migration_keeps_every_old_field_and_zeroes_the_new_expiries() {
    let legacy = LegacyUserState {
        owner: OWNER,
        runes: 123,
        novice_books: 1,
        adept_books: 2,
        master_books: 3,
        legendary_books: 4,
        multiplier_centi: 150,
        buff_expiry: 999,
        active_tier: 2,
    };
    let migrated = migrate_user_account(&legacy);
    assert_eq!(migrated.owner, OWNER);
    assert_eq!(migrated.runes, 123);
    assert_eq!(migrated.novice_books, 1);
    assert_eq!(migrated.adept_books, 2);
    assert_eq!(migrated.master_books, 3);
    assert_eq!(migrated.legendary_books, 4);
    assert_eq!(migrated.multiplier_centi, 150);
    assert_eq!(migrated.buff_expiry, 999);
    assert_eq!(migrated.active_tier, 2);
    assert_eq!(migrated.novice_buff_expiry, 0);
    assert_eq!(migrated.adept_buff_expiry, 0);
    assert_eq!(migrated.master_buff_expiry, 0);
    assert_eq!(migrated.legendary_buff_expiry, 0);
}

#[test]
fn rent_top_up_is_the_shortfall_or_nothing() {
    assert_eq!(additional_rent_needed(1_000, 400), 600);
    assert_eq!(additional_rent_needed(1_000, 1_000), 0);
    assert_eq!(additional_rent_needed(400, 1_000), 0);
}

#[test]
fn a_fresh_system_and_user_start_zeroed() {
    let (global, pricing) = fresh_system();
    assert_eq!(global.authority, AUTHORITY);
    assert_eq!(global.treasury, TREASURY);
    assert_eq!(global.alch_mint, MINT);
    assert_eq!(global.total_alch_burned, 0);
    assert_eq!(global.total_sol_collected, 0);
    assert_eq!(global.total_spells_cast, 0);
    assert_eq!(global.total_successes, 0);
    assert_eq!(pricing.alch_price_micro, 0);
    assert_eq!(pricing.sol_price_micro, 0);
    assert_eq!(pricing.last_update, 0);
    let user = fresh_user();
    assert_eq!(user.owner, OWNER);
    assert_eq!(user.runes, 0);
    assert_eq!(user.multiplier_centi, 100);
    assert_eq!(user.buff_expiry, 0);
    assert_eq!(user.novice_buff_expiry, 0);
}

#[test]
fn a_quantity_of_exactly_one_hundred_is_accepted() {
    let (mut global, mut pricing) = fresh_system();
    let mut user = fresh_user();
    publish(&mut pricing, &global, 10_000, 100_000_000, 1_000);
    let ev = buy_spellbooks(&mut user, &mut global, &pricing, SpellTier::Novice, 100, 1_100)
        .unwrap();
    assert_eq!(user.novice_books, 100);
    assert_eq!(ev.sol_paid, 100 * 750_000_000);
}

#[test]
fn craft_that_would_wrap_the_burn_counter_is_refused_without_mutation() {
    let (mut global, _pricing) = fresh_system();
    let mut user = fresh_user();
    global.total_alch_burned = u64::MAX;
    let r = craft_runes(&mut user, &mut global, 1);
    assert_eq!(r.unwrap_err(), SpellError::Overflow);
    assert_eq!(user.runes, 0);
    assert_eq!(global.total_alch_burned, u64::MAX);
}

#[test]
fn resolution_handles_a_timestamp_before_the_epoch() {
    let entropy: [u8; 32] = [3u8; 32];
    let first = resolve(-5, &OWNER, &entropy, SpellTier::Adept);
    let second = resolve(-5, &OWNER, &entropy, SpellTier::Adept);
    assert_eq!(first, second);
    assert!(first.1 < 100);
    let other = resolve(5, &OWNER, &entropy, SpellTier::Adept);
    let _ = other;
}
