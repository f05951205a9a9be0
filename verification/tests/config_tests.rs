//! The royalty configuration matrix: the ratchet policy field by field,
//! the one-way lock, and the restrictions enforced when a royalty is
//! settled.

use open_trade::ids::CreatorAuthority;
use open_trade::ids::Payment;
use open_trade::ids::TradeError;
use open_trade::policy::RoyalNFTs;

const XRD: u64 = 1;
const COLLECTION: u64 = 300;
const ROYALTY_COMPONENT: u64 = 301;
const CREATOR_BADGE: u64 = 302;
const DEPOSITER_BADGE: u64 = 103;
const MARKETPLACE_KEY: u64 = 400;

fn defaults_engine() -> (RoyalNFTs, CreatorAuthority) {
    // the default configuration: 10% royalty under a 50% ceiling, no
    // restrictions, unlocked
    RoyalNFTs::start_minting_nft(
        COLLECTION,
        ROYALTY_COMPONENT,
        CREATOR_BADGE,
        DEPOSITER_BADGE,
        100_000,
        500_000,
        false,
        false,
        false,
        false,
        false,
        false,
        Vec::new(),
        Vec::new(),
        Vec::new(),
        Vec::new(),
    )
    .unwrap()
}

#[test]
fn royalty_config_changes() {
    let (mut engine, creator) = defaults_engine();

    // the creator tunes the fee down to 4% and ratchets the ceiling down to it
    engine.change_royalty_percentage_fee(&creator, 40_000).unwrap();
    assert_eq!(engine.royalty_config.royalty_percent.ppm, 40_000);
    engine.lower_maximum_royalty_percentage(&creator, 40_000).unwrap();
    assert_eq!(engine.royalty_config.maximum_royalty_percent.ppm, 40_000);

    // restrict trading to XRD with a minimum royalty of 4 per sale
    engine.restrict_currencies_true(&creator).unwrap();
    engine.enable_minimum_royalties(&creator).unwrap();
    engine.add_permitted_currency(&creator, XRD).unwrap();
    engine.set_minimum_royalty_amount(&creator, XRD, 4).unwrap();

    // restrict buyers to the one permissioned marketplace
    engine.deny_all_buyers(&creator).unwrap();
    engine.add_permissioned_buyer(&creator, MARKETPLACE_KEY).unwrap();

    // a 100 XRD sale through the permissioned marketplace pays royalty 4,
    // exactly the configured minimum
    let remainder = engine
        .pay_royalty(COLLECTION, Payment { currency: XRD, amount: 100 }, MARKETPLACE_KEY)
        .unwrap();
    assert_eq!(remainder.amount, 96);
    assert_eq!(engine.royalty_vaults.get(XRD), Some(4));
}

#[test]
fn lock_is_idempotent() {
    let (mut engine, creator) = defaults_engine();
    engine.add_permissioned_buyer(&creator, 7).unwrap();

    engine.lock_royalty_configuration(&creator).unwrap();
    assert!(engine.royalty_config.royalty_configuration_locked);
    let percent_after_first = engine.royalty_config.royalty_percent;
    let buyers_after_first: Vec<u64> = engine.royalty_config.permissioned_buyers.ids.clone();

    // locking again changes nothing at all
    engine.lock_royalty_configuration(&creator).unwrap();
    assert!(engine.royalty_config.royalty_configuration_locked);
    assert_eq!(engine.royalty_config.royalty_percent, percent_after_first);
    assert_eq!(engine.royalty_config.permissioned_buyers.ids, buyers_after_first);
}

#[test]
fn locked_blocks_fee_change_but_not_ceiling_cut() {
    let (mut engine, creator) = defaults_engine();
    engine.lock_royalty_configuration(&creator).unwrap();

    // changing the royalty percentage always fails once locked
    for new_fee in [0u64, 40_000, 100_000] {
        assert!(matches!(
            engine.change_royalty_percentage_fee(&creator, new_fee),
            Err(TradeError::ConfigLockedError)
        ));
    }
    assert_eq!(engine.royalty_config.royalty_percent.ppm, 100_000);

    // lowering the ceiling always succeeds for valid inputs, even locked
    engine.lower_maximum_royalty_percentage(&creator, 300_000).unwrap();
    engine.lower_maximum_royalty_percentage(&creator, 100_000).unwrap();
    assert_eq!(engine.royalty_config.maximum_royalty_percent.ppm, 100_000);

    // but never below the current royalty, and never upward
    assert!(matches!(
        engine.lower_maximum_royalty_percentage(&creator, 99_999),
        Err(TradeError::ValidationError)
    ));
    assert!(matches!(
        engine.lower_maximum_royalty_percentage(&creator, 200_000),
        Err(TradeError::ValidationError)
    ));
}

#[test]
fn buyers_widen_always_narrow_blocked_when_locked() {
    let (mut engine, creator) = defaults_engine();
    let buyer: u64 = 42;

    // before the lock, both directions work
    engine.add_permissioned_buyer(&creator, buyer).unwrap();
    engine.remove_permissioned_buyer(&creator, buyer).unwrap();

    engine.lock_royalty_configuration(&creator).unwrap();

    // adding a buyer succeeds regardless of the lock
    engine.add_permissioned_buyer(&creator, buyer).unwrap();
    assert!(engine.royalty_config.permissioned_buyers.contains(buyer));

    // removing one fails once locked
    assert!(matches!(
        engine.remove_permissioned_buyer(&creator, buyer),
        Err(TradeError::ConfigLockedError)
    ));
    assert!(engine.royalty_config.permissioned_buyers.contains(buyer));
}

#[test]
fn ratchet_policy_field_by_field() {
    let (mut engine, creator) = defaults_engine();
    engine.restrict_currencies_true(&creator).unwrap();
    engine.add_permitted_currency(&creator, XRD).unwrap();
    engine.set_minimum_royalty_amount(&creator, XRD, 2).unwrap();
    engine.limit_dapps_true(&creator).unwrap();
    engine.add_permissioned_dapp(&creator, 500, 501).unwrap();
    engine.lock_royalty_configuration(&creator).unwrap();

    // narrowing operations are all blocked once locked
    assert!(matches!(engine.restrict_currencies_true(&creator), Err(TradeError::ConfigLockedError)));
    assert!(matches!(engine.remove_permitted_currency(&creator, XRD), Err(TradeError::ConfigLockedError)));
    assert!(matches!(engine.enable_minimum_royalties(&creator), Err(TradeError::ConfigLockedError)));
    assert!(matches!(
        engine.set_minimum_royalty_amount(&creator, XRD, 9),
        Err(TradeError::ConfigLockedError)
    ));
    assert!(matches!(engine.limit_dapps_true(&creator), Err(TradeError::ConfigLockedError)));
    assert!(matches!(engine.remove_permissioned_dapp(&creator, 500), Err(TradeError::ConfigLockedError)));
    assert!(matches!(engine.deny_all_buyers(&creator), Err(TradeError::ConfigLockedError)));

    // widening operations all still succeed
    engine.add_permitted_currency(&creator, XRD + 1).unwrap();
    engine.remove_minimum_royalty_amount(&creator, XRD).unwrap();
    engine.add_permissioned_dapp(&creator, 502, 503).unwrap();
    engine.allow_all_buyers(&creator).unwrap();
    engine.disable_minimum_royalties(&creator).unwrap();
    engine.limit_dapps_false(&creator).unwrap();
    engine.restrict_currencies_false(&creator).unwrap();
}

#[test]
fn pay_royalty_enforces_restrictions() {
    let (mut engine, creator) = defaults_engine();

    // the wrong collection resource is rejected outright
    assert!(matches!(
        engine.pay_royalty(COLLECTION + 1, Payment { currency: XRD, amount: 100 }, 9),
        Err(TradeError::ValidationError)
    ));

    // an unpermissioned buyer under the buyer restriction
    engine.deny_all_buyers(&creator).unwrap();
    assert!(matches!(
        engine.pay_royalty(COLLECTION, Payment { currency: XRD, amount: 100 }, 9),
        Err(TradeError::PermissionDenied)
    ));
    engine.allow_all_buyers(&creator).unwrap();

    // an unpermitted currency under the currency restriction
    engine.restrict_currencies_true(&creator).unwrap();
    assert!(matches!(
        engine.pay_royalty(COLLECTION, Payment { currency: XRD, amount: 100 }, 9),
        Err(TradeError::ValidationError)
    ));
    engine.add_permitted_currency(&creator, XRD).unwrap();

    // minimums on, but no minimum recorded for the currency
    engine.enable_minimum_royalties(&creator).unwrap();
    assert!(matches!(
        engine.pay_royalty(COLLECTION, Payment { currency: XRD, amount: 100 }, 9),
        Err(TradeError::NotFoundError)
    ));

    // a royalty below the configured minimum: 10% of 100 is 10 < 11
    engine.set_minimum_royalty_amount(&creator, XRD, 11).unwrap();
    assert!(matches!(
        engine.pay_royalty(COLLECTION, Payment { currency: XRD, amount: 100 }, 9),
        Err(TradeError::ValidationError)
    ));

    // at the minimum the sale settles
    engine.set_minimum_royalty_amount(&creator, XRD, 10).unwrap();
    let remainder = engine
        .pay_royalty(COLLECTION, Payment { currency: XRD, amount: 100 }, 9)
        .unwrap();
    assert_eq!(remainder.amount, 90);
    assert_eq!(engine.royalty_vaults.get(XRD), Some(10));
}

#[test]
fn constructor_rejects_bad_rates() {
    // a royalty above 100%
    assert!(RoyalNFTs::start_minting_nft(
        COLLECTION, ROYALTY_COMPONENT, CREATOR_BADGE, DEPOSITER_BADGE,
        1_000_001, 1_000_001,
        false, false, false, false, false, false,
        Vec::new(), Vec::new(), Vec::new(), Vec::new(),
    )
    .is_err());
    // a royalty above its own ceiling
    assert!(RoyalNFTs::start_minting_nft(
        COLLECTION, ROYALTY_COMPONENT, CREATOR_BADGE, DEPOSITER_BADGE,
        200_000, 100_000,
        false, false, false, false, false, false,
        Vec::new(), Vec::new(), Vec::new(), Vec::new(),
    )
    .is_err());
}

#[test]
fn forged_creator_key_is_denied() {
    let (mut engine, _creator) = defaults_engine();
    let forged = CreatorAuthority { resource: CREATOR_BADGE + 1 };
    assert!(matches!(
        engine.lock_royalty_configuration(&forged),
        Err(TradeError::PermissionDenied)
    ));
    assert!(matches!(
        engine.add_permissioned_buyer(&forged, 1),
        Err(TradeError::PermissionDenied)
    ));
    assert!(!engine.royalty_config.royalty_configuration_locked);
}

#[test]
fn populated_constructor_respects_limit_flags() {
    // stores are populated only when their restriction is switched on
    let (engine, _creator) = RoyalNFTs::start_minting_nft(
        COLLECTION,
        ROYALTY_COMPONENT,
        CREATOR_BADGE,
        DEPOSITER_BADGE,
        50_000,
        100_000,
        true,
        false,
        false,
        false,
        false,
        false,
        vec![(500, 501)],
        vec![MARKETPLACE_KEY],
        vec![XRD],
        vec![(XRD, 3)],
    )
    .unwrap();
    assert!(engine.royalty_config.permissioned_buyers.contains(MARKETPLACE_KEY));
    // currency and dapp inputs are dropped while their limits are off
    assert!(!engine.royalty_config.permitted_currencies.contains(XRD));
    assert_eq!(engine.royalty_config.permissioned_dapps.get(500), None);
    assert_eq!(engine.royalty_config.minimum_royalty_amounts.get(XRD), None);
}
