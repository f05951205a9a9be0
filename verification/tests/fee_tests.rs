//! The fee arithmetic, the deposit gate, the routed deposits and the
//! marketplace's mint-fee skim.

use open_trade::fees::fee_amount;
use open_trade::fees::Rate;
use open_trade::fees::RATE_SCALE;
use open_trade::ids::AssetBucket;
use open_trade::ids::AssetId;
use open_trade::ids::DepositBypass;
use open_trade::ids::DepositGate;
use open_trade::ids::Payment;
use open_trade::ids::TransferTicket;
use open_trade::ids::TradeError;
use open_trade::marketplace::GenericMarketplace;
use open_trade::policy::RoyalNFTs;

const XRD: u64 = 1;
const COLLECTION: u64 = 300;

fn engine_with_rate(royalty_ppm: u64) -> RoyalNFTs {
    let (engine, _creator) = RoyalNFTs::start_minting_nft(
        COLLECTION,
        301,
        302,
        103,
        royalty_ppm,
        RATE_SCALE,
        false,
        false,
        false,
        false,
        false,
        false,
        Vec::new(),
        Vec::new(),
        Vec::new(),
        Vec::new(),
    )
    .unwrap();
    engine
}

#[test]
fn fee_amount_rounds_toward_zero() {
    // 5% of 100 is exactly 5
    assert_eq!(fee_amount(100, Rate { ppm: 50_000 }), 5);
    // 25% of 99 is 24.75, rounded toward zero
    assert_eq!(fee_amount(99, Rate { ppm: 250_000 }), 24);
    // 2% of 50 is exactly 1
    assert_eq!(fee_amount(50, Rate { ppm: 20_000 }), 1);
    // 2% of 49 is 0.98, rounded toward zero
    assert_eq!(fee_amount(49, Rate { ppm: 20_000 }), 0);
    // the whole rate takes the whole amount
    assert_eq!(fee_amount(12_345, Rate { ppm: RATE_SCALE }), 12_345);
    // the zero rate takes nothing
    assert_eq!(fee_amount(u64::MAX, Rate { ppm: 0 }), 0);
    // one part per million of one is nothing
    assert_eq!(fee_amount(1, Rate { ppm: 1 }), 0);
}

#[test]
fn rate_constructor_bounds() {
    assert_eq!(Rate::new(0), Some(Rate { ppm: 0 }));
    assert_eq!(Rate::new(RATE_SCALE), Some(Rate { ppm: RATE_SCALE }));
    assert_eq!(Rate::new(RATE_SCALE + 1), None);
    assert_eq!(Rate::zero(), Rate { ppm: 0 });
}

#[test]
fn royalty_plus_remainder_equals_payment() {
    // for any payment and rate, the royalty and the remainder partition
    // the payment exactly, with no rounding drift
    for (amount, ppm) in [
        (100u64, 50_000u64),
        (99, 333_333),
        (1, 999_999),
        (7, 142_857),
        (1_000_000_007, 1),
        (0, 500_000),
    ] {
        let mut engine = engine_with_rate(ppm);
        let remainder = engine
            .pay_royalty(COLLECTION, Payment { currency: XRD, amount }, 9)
            .unwrap();
        let royalty = engine.royalty_vaults.get(XRD).unwrap_or(0);
        assert_eq!(royalty + remainder.amount, amount);
        let expected: u64 = ((amount as u128) * (ppm as u128) / (RATE_SCALE as u128)) as u64;
        assert_eq!(royalty, expected);
    }
}

#[test]
fn royalty_vault_accumulates_across_sales() {
    let mut engine = engine_with_rate(100_000);
    engine.pay_royalty(COLLECTION, Payment { currency: XRD, amount: 100 }, 9).unwrap();
    engine.pay_royalty(COLLECTION, Payment { currency: XRD, amount: 250 }, 9).unwrap();
    // 10 from the first sale plus 25 from the second
    assert_eq!(engine.royalty_vaults.get(XRD), Some(35));
    // a second currency gets its own lazily created vault
    engine.pay_royalty(COLLECTION, Payment { currency: XRD + 1, amount: 40 }, 9).unwrap();
    assert_eq!(engine.royalty_vaults.get(XRD + 1), Some(4));
    assert_eq!(engine.royalty_vaults.get(XRD), Some(35));
}

#[test]
fn deposit_rule_on_inbound_transfers() {
    // the rule an engine configures on its collection names its own bypass
    // badge and component
    let engine = engine_with_rate(50_000);
    assert_eq!(
        engine.deposit_rule(),
        DepositGate { bypass_resource: 103, policy_component: 301 }
    );
    let rule = DepositGate { bypass_resource: 103, policy_component: 301 };
    // the bypass badge gets through from anywhere
    assert!(rule.permits(Some(DepositBypass { resource: 103 }), 999));
    // the policy engine itself gets through without a badge
    assert!(rule.permits(None, 301));
    // anyone else is stopped
    assert!(!rule.permits(None, 999));
    assert!(!rule.permits(Some(DepositBypass { resource: 104 }), 999));
    // a transfer ticket is good for its own asset only
    let nft = AssetId { resource: COLLECTION, local_id: 3 };
    let ticket = TransferTicket { asset: nft };
    assert!(rule.redeem_ticket(ticket, nft));
    let other = AssetId { resource: COLLECTION, local_id: 4 };
    assert!(!rule.redeem_ticket(ticket, other));
}

#[test]
fn deposit_via_router_checks_private_trade_limit() {
    let dapp: u64 = 500;
    let dapp_badge: u64 = 501;
    let (mut engine, creator) = RoyalNFTs::start_minting_nft(
        COLLECTION,
        301,
        302,
        103,
        50_000,
        100_000,
        false,
        false,
        false,
        true,
        false,
        false,
        Vec::new(),
        Vec::new(),
        Vec::new(),
        Vec::new(),
    )
    .unwrap();
    engine.add_permissioned_dapp(&creator, dapp, dapp_badge).unwrap();
    let nft = AssetBucket { asset: AssetId { resource: COLLECTION, local_id: 0 }, amount: 1 };

    // the registered dapp badge may route a deposit to an account
    let (delivery, receipt) = engine.deposit_via_router(nft, dapp_badge, dapp, 200).unwrap();
    assert_eq!(delivery.to, 200);
    assert!(!delivery.via_bypass);
    assert_eq!(receipt.asset, nft.asset);

    // the wrong badge, or an unregistered dapp, is refused
    assert!(matches!(
        engine.deposit_via_router(nft, dapp_badge + 1, dapp, 200),
        Err(TradeError::PermissionDenied)
    ));
    assert!(matches!(
        engine.deposit_via_router(nft, dapp_badge, dapp + 1, 200),
        Err(TradeError::PermissionDenied)
    ));
}

#[test]
fn transfer_to_dapp_unrestricted_when_limit_off() {
    let engine = engine_with_rate(50_000);
    let nft = AssetBucket { asset: AssetId { resource: COLLECTION, local_id: 0 }, amount: 1 };
    let (call, ticket) = engine
        .transfer_royalty_nft_to_dapp(nft, 777, String::from("stake_nft"))
        .unwrap();
    assert_eq!(call.target, 777);
    assert_eq!(call.method, "stake_nft");
    assert_eq!(ticket.asset, nft.asset);
}

#[test]
fn purchase_preview_mint_takes_protocol_fee() {
    let (mut marketplace, _admin) =
        GenericMarketplace::start_marketplace(20_000, 20_000, 400, 401).unwrap();
    let mint_component: u64 = 700;
    let call = marketplace
        .purchase_preview_mint(Payment { currency: XRD, amount: 100 }, 200, mint_component)
        .unwrap();
    // 2% of 100 stays with the marketplace, 98 goes on to the mint
    assert_eq!(call.target, mint_component);
    assert_eq!(call.account, 200);
    assert_eq!(call.payment, Payment { currency: XRD, amount: 98 });
    assert_eq!(marketplace.fee_vaults.get(XRD), Some(2));
}

#[test]
fn start_marketplace_rejects_rates_over_one() {
    assert!(GenericMarketplace::start_marketplace(RATE_SCALE + 1, 0, 400, 401).is_err());
    assert!(GenericMarketplace::start_marketplace(0, RATE_SCALE + 1, 400, 401).is_err());
    assert!(GenericMarketplace::start_marketplace(RATE_SCALE, RATE_SCALE, 400, 401).is_ok());
}

#[test]
fn marketplace_key_address_is_readable() {
    let (marketplace, admin) =
        GenericMarketplace::start_marketplace(20_000, 0, 400, 401).unwrap();
    assert_eq!(marketplace.get_marketplace_key_address(), 400);
    assert_eq!(admin.resource, 401);
    let permission = marketplace.marketplace_permission();
    assert_eq!(permission.resource, 400);
    assert_eq!(permission.fee_rate, Some(Rate { ppm: 20_000 }));
}
