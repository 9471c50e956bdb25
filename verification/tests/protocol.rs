use incinerator::catalog::{tier_max_raw, tier_max_whole, tier_name, tier_symbol};
use incinerator::errors::IncineratorError;
use incinerator::instructions::{
    burn_tokens, create_tier, initialize, mint_tier, toggle_burns, transfer_authority, update_fee,
    update_treasury, TokenOp,
};
use incinerator::key::Key;
use incinerator::state::{ProtocolConfig, TierInfo};

fn key(n: u64) -> Key {
    Key::from_words(n, 0, 0, 0)
}

/// A freshly initialized protocol plus the created tier 0 record.
fn setup_tier0() -> (ProtocolConfig, TierInfo) {
    let mut config = initialize(key(1), key(2), 100, 500);
    let tier = create_tier(&mut config, key(1), 0, key(10), String::from("ipfs://tier0"))
        .expect("tier 0 creation");
    (config, tier)
}

#[test]
fn initialize_sets_all_fields() {
    let config = initialize(key(1), key(2), 100, 500);
    assert_eq!(config.authority, key(1));
    assert_eq!(config.treasury, key(2));
    assert_eq!(config.transfer_fee_bps, 100);
    assert_eq!(config.max_fee_bps, 500);
    assert!(config.burns_enabled);
    assert_eq!(config.tiers_initialized, 0);
    assert_eq!(config.tier_mints.len(), 10);
    for slot in &config.tier_mints {
        assert_eq!(*slot, Key::empty());
    }
}

#[test]
fn catalog_whole_and_raw_supplies() {
    let wholes = [33u64, 55, 88, 111, 222, 333, 444, 555, 888, 4444];
    for (i, w) in wholes.iter().enumerate() {
        assert_eq!(tier_max_whole(i as u8), *w);
        assert_eq!(tier_max_raw(i as u8), w * 1000);
    }
    assert_eq!(tier_max_raw(0), 33_000);
    assert_eq!(tier_max_raw(9), 4_444_000);
}

#[test]
fn catalog_names_and_symbols() {
    assert_eq!(tier_name(0), "INCINERATOR");
    assert_eq!(tier_symbol(0), "INCNR");
    assert_eq!(tier_name(3), "DISINTEGRATE");
    assert_eq!(tier_symbol(3), "DSNTG");
    assert_eq!(tier_name(9), "SPARK");
    assert_eq!(tier_symbol(9), "SPARK");
}

#[test]
fn create_tier_in_order_registers_the_asset() {
    let (config, tier) = setup_tier0();
    assert_eq!(config.tiers_initialized, 1);
    assert_eq!(config.tier_mints[0], key(10));
    assert_eq!(config.tier_mints[1], Key::empty());
    assert_eq!(tier.tier_index, 0);
    assert_eq!(tier.mint, key(10));
    assert_eq!(tier.max_supply, 33_000);
    assert_eq!(tier.current_supply, 0);
    assert_eq!(tier.total_burned, 0);
    assert_eq!(tier.uri, "ipfs://tier0");
}

#[test]
fn create_tier_all_ten_in_order() {
    let mut config = initialize(key(1), key(2), 0, 0);
    for i in 0..10u8 {
        let tier = create_tier(&mut config, key(1), i, key(10 + i as u64), String::new())
            .expect("in-order creation");
        assert_eq!(tier.max_supply, tier_max_raw(i));
    }
    assert_eq!(config.tiers_initialized, 10);
}

#[test]
fn registered_slot_count_tracks_tiers_initialized() {
    let mut config = initialize(key(1), key(2), 0, 0);
    for i in 0..3u8 {
        create_tier(&mut config, key(1), i, key(10 + i as u64), String::new())
            .expect("in-order creation");
        let registered = config
            .tier_mints
            .iter()
            .filter(|k| **k != Key::empty())
            .count();
        assert_eq!(registered, config.tiers_initialized as usize);
    }
}

#[test]
fn create_tier_out_of_order_fails_and_changes_nothing() {
    let mut config = initialize(key(1), key(2), 100, 500);
    let r = create_tier(&mut config, key(1), 2, key(10), String::new());
    assert_eq!(r.err(), Some(IncineratorError::TierOutOfOrder));
    assert_eq!(config.tiers_initialized, 0);
    for slot in &config.tier_mints {
        assert_eq!(*slot, Key::empty());
    }
}

#[test]
fn create_tier_invalid_index_fails() {
    let mut config = initialize(key(1), key(2), 100, 500);
    let r = create_tier(&mut config, key(1), 10, key(10), String::new());
    assert_eq!(r.err(), Some(IncineratorError::InvalidTier));
    assert_eq!(config.tiers_initialized, 0);
}

#[test]
fn create_tier_by_non_authority_fails_unauthorized() {
    let mut config = initialize(key(1), key(2), 100, 500);
    let r = create_tier(&mut config, key(9), 0, key(10), String::new());
    assert_eq!(r.err(), Some(IncineratorError::Unauthorized));
    assert_eq!(config.tiers_initialized, 0);
}

#[test]
fn mint_tier_success_returns_the_delegated_call() {
    let (config, mut tier) = setup_tier0();
    let op = mint_tier(&config, &mut tier, key(1), 0, key(10), key(7), 1000).expect("mint");
    assert_eq!(
        op,
        TokenOp::MintTo { asset: key(10), recipient: key(7), amount: 1000 }
    );
    assert_eq!(tier.current_supply, 1000);
}

#[test]
fn mint_tier_at_the_cap_succeeds_and_above_it_fails() {
    let (config, mut tier) = setup_tier0();
    mint_tier(&config, &mut tier, key(1), 0, key(10), key(7), 32_900).expect("below cap");
    assert_eq!(tier.current_supply, 32_900);

    let r = mint_tier(&config, &mut tier, key(1), 0, key(10), key(7), 200);
    assert_eq!(r.err(), Some(IncineratorError::ExceedsMaxSupply));
    assert_eq!(tier.current_supply, 32_900);

    mint_tier(&config, &mut tier, key(1), 0, key(10), key(7), 100).expect("reaches cap");
    assert_eq!(tier.current_supply, 33_000);
}

#[test]
fn mint_tier_by_non_authority_fails_unauthorized() {
    let (config, mut tier) = setup_tier0();
    let r = mint_tier(&config, &mut tier, key(9), 0, key(10), key(7), 1);
    assert_eq!(r.err(), Some(IncineratorError::Unauthorized));
    assert_eq!(tier.current_supply, 0);
}

#[test]
fn mint_tier_invalid_index_fails() {
    let (config, mut tier) = setup_tier0();
    let r = mint_tier(&config, &mut tier, key(1), 12, key(10), key(7), 1);
    assert_eq!(r.err(), Some(IncineratorError::InvalidTier));
}

#[test]
fn mint_tier_wrong_asset_fails_mint_mismatch() {
    let (config, mut tier) = setup_tier0();
    let r = mint_tier(&config, &mut tier, key(1), 0, key(99), key(7), 1);
    assert_eq!(r.err(), Some(IncineratorError::MintMismatch));
    assert_eq!(tier.current_supply, 0);
}

#[test]
fn burn_tokens_success_returns_the_delegated_call() {
    let (config, mut tier) = setup_tier0();
    mint_tier(&config, &mut tier, key(1), 0, key(10), key(7), 1000).expect("mint");
    let op = burn_tokens(&config, &mut tier, key(7), 0, key(10), key(20), key(7), 400)
        .expect("burn");
    assert_eq!(
        op,
        TokenOp::Burn { asset: key(10), source: key(20), owner: key(7), amount: 400 }
    );
    assert_eq!(tier.current_supply, 600);
    assert_eq!(tier.total_burned, 400);
}

#[test]
fn full_sequence_initialize_create_mint_burn() {
    let mut config = initialize(key(1), key(2), 100, 500);
    let mut tier = create_tier(&mut config, key(1), 0, key(10), String::from("uri"))
        .expect("create");
    mint_tier(&config, &mut tier, key(1), 0, key(10), key(7), 1000).expect("mint");
    burn_tokens(&config, &mut tier, key(7), 0, key(10), key(20), key(7), 400).expect("burn");
    assert_eq!(tier.current_supply, 600);
    assert_eq!(tier.total_burned, 400);
}

#[test]
fn burn_tokens_disabled_fails_regardless_of_owner_and_amount() {
    let (mut config, mut tier) = setup_tier0();
    toggle_burns(&mut config, key(1), false).expect("toggle");
    // non-owner, zero amount: the burn gate still answers first
    let r = burn_tokens(&config, &mut tier, key(7), 0, key(10), key(20), key(8), 0);
    assert_eq!(r.err(), Some(IncineratorError::BurnsDisabled));
    let r = burn_tokens(&config, &mut tier, key(7), 0, key(10), key(20), key(7), 500);
    assert_eq!(r.err(), Some(IncineratorError::BurnsDisabled));
    assert_eq!(tier.total_burned, 0);
}

#[test]
fn burn_tokens_zero_amount_fails() {
    let (config, mut tier) = setup_tier0();
    let r = burn_tokens(&config, &mut tier, key(7), 0, key(10), key(20), key(7), 0);
    assert_eq!(r.err(), Some(IncineratorError::ZeroAmount));
}

#[test]
fn burn_tokens_by_non_owner_fails() {
    let (config, mut tier) = setup_tier0();
    let r = burn_tokens(&config, &mut tier, key(7), 0, key(10), key(20), key(8), 5);
    assert_eq!(r.err(), Some(IncineratorError::NotTokenOwner));
    assert_eq!(tier.total_burned, 0);
}

#[test]
fn burn_tokens_wrong_asset_fails_mint_mismatch() {
    let (config, mut tier) = setup_tier0();
    let r = burn_tokens(&config, &mut tier, key(7), 0, key(99), key(20), key(7), 5);
    assert_eq!(r.err(), Some(IncineratorError::MintMismatch));
}

#[test]
fn burn_tokens_invalid_index_fails() {
    let (config, mut tier) = setup_tier0();
    let r = burn_tokens(&config, &mut tier, key(7), 11, key(10), key(20), key(7), 5);
    assert_eq!(r.err(), Some(IncineratorError::InvalidTier));
}

#[test]
fn burn_saturates_supply_but_counts_all_burned_units() {
    let (config, mut tier) = setup_tier0();
    mint_tier(&config, &mut tier, key(1), 0, key(10), key(7), 300).expect("mint");
    // More units burned than this record has seen minted: the supply
    // saturates at zero, the burn counter still takes the full amount.
    tier.current_supply = 100;
    burn_tokens(&config, &mut tier, key(7), 0, key(10), key(20), key(7), 250).expect("burn");
    assert_eq!(tier.current_supply, 0);
    assert_eq!(tier.total_burned, 250);
}

#[test]
fn update_fee_authority_only() {
    let mut config = initialize(key(1), key(2), 100, 500);
    let r = update_fee(&mut config, key(9), 250, 600);
    assert_eq!(r.err(), Some(IncineratorError::Unauthorized));
    assert_eq!(config.transfer_fee_bps, 100);
    assert_eq!(config.max_fee_bps, 500);

    update_fee(&mut config, key(1), 250, 600).expect("authority updates the fee");
    assert_eq!(config.transfer_fee_bps, 250);
    assert_eq!(config.max_fee_bps, 600);
}

#[test]
fn toggle_burns_authority_only() {
    let mut config = initialize(key(1), key(2), 100, 500);
    let r = toggle_burns(&mut config, key(9), false);
    assert_eq!(r.err(), Some(IncineratorError::Unauthorized));
    assert!(config.burns_enabled);

    toggle_burns(&mut config, key(1), false).expect("authority toggles");
    assert!(!config.burns_enabled);
    toggle_burns(&mut config, key(1), true).expect("authority toggles back");
    assert!(config.burns_enabled);
}

#[test]
fn update_treasury_authority_only() {
    let mut config = initialize(key(1), key(2), 100, 500);
    let r = update_treasury(&mut config, key(9), key(3));
    assert_eq!(r.err(), Some(IncineratorError::Unauthorized));
    assert_eq!(config.treasury, key(2));

    update_treasury(&mut config, key(1), key(3)).expect("authority rotates the treasury");
    assert_eq!(config.treasury, key(3));
}

#[test]
fn transfer_authority_moves_the_admin_gate() {
    let mut config = initialize(key(1), key(2), 100, 500);
    transfer_authority(&mut config, key(1), key(5)).expect("authority hands over");
    assert_eq!(config.authority, key(5));

    // the old authority is locked out of every admin operation
    assert_eq!(
        update_fee(&mut config, key(1), 1, 1).err(),
        Some(IncineratorError::Unauthorized)
    );
    assert_eq!(
        toggle_burns(&mut config, key(1), false).err(),
        Some(IncineratorError::Unauthorized)
    );
    assert_eq!(
        update_treasury(&mut config, key(1), key(4)).err(),
        Some(IncineratorError::Unauthorized)
    );
    assert_eq!(
        transfer_authority(&mut config, key(1), key(1)).err(),
        Some(IncineratorError::Unauthorized)
    );
    assert_eq!(
        create_tier(&mut config, key(1), 0, key(10), String::new()).err(),
        Some(IncineratorError::Unauthorized)
    );

    // the new authority can act
    update_fee(&mut config, key(5), 1, 2).expect("new authority updates the fee");
    create_tier(&mut config, key(5), 0, key(10), String::new())
        .expect("new authority creates a tier");
}

#[test]
fn supply_invariant_holds_across_a_mint_burn_cycle() {
    let (config, mut tier) = setup_tier0();
    let users = [key(7), key(8)];
    for round in 0..5u64 {
        let user = users[(round % 2) as usize];
        mint_tier(&config, &mut tier, key(1), 0, key(10), user, 6000).expect("mint");
        assert!(tier.current_supply <= tier.max_supply);
        let before = tier.total_burned;
        burn_tokens(&config, &mut tier, user, 0, key(10), key(20), user, 5500).expect("burn");
        assert!(tier.total_burned >= before);
        assert!(tier.current_supply <= tier.max_supply);
    }
    assert_eq!(tier.current_supply, 2500);
    assert_eq!(tier.total_burned, 27_500);
}
