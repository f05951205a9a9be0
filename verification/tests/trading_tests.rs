//! End-to-end trading flows: hub and trader creation, listing,
//! royalty-enforced purchase through a marketplace, replay protection,
//! cancellation and listing mutations.

use open_trade::hub::OpenHub;
use open_trade::ids::AccountOwnerProof;
use open_trade::ids::AssetBucket;
use open_trade::ids::AssetId;
use open_trade::ids::ComponentRef;
use open_trade::ids::MarketplacePermission;
use open_trade::ids::Payment;
use open_trade::ids::SellerAuthority;
use open_trade::ids::TradeError;
use open_trade::marketplace::GenericMarketplace;
use open_trade::policy::RoyalNFTs;
use open_trade::trader::OpenTrader;

const XRD: u64 = 1;
const HUB_ADDRESS: u64 = 100;
const EMITTER_BADGE: u64 = 101;
const TRADER_KEY_BADGE: u64 = 102;
const DEPOSITER_BADGE: u64 = 103;
const SELLER_ACCOUNT: u64 = 200;
const BUYER_ACCOUNT: u64 = 201;
const COLLECTION: u64 = 300;
const ROYALTY_COMPONENT: u64 = 301;
const CREATOR_BADGE: u64 = 302;
const MARKETPLACE_KEY: u64 = 400;
const MARKETPLACE_ADMIN: u64 = 401;

fn new_hub() -> OpenHub {
    OpenHub::start_open_hub(HUB_ADDRESS, EMITTER_BADGE, TRADER_KEY_BADGE, DEPOSITER_BADGE)
}

fn new_trader(hub: &mut OpenHub) -> (SellerAuthority, OpenTrader) {
    hub.create_open_trader(SELLER_ACCOUNT).unwrap()
}

fn new_engine(royalty_ppm: u64, max_ppm: u64) -> (RoyalNFTs, open_trade::ids::CreatorAuthority) {
    RoyalNFTs::start_minting_nft(
        COLLECTION,
        ROYALTY_COMPONENT,
        CREATOR_BADGE,
        DEPOSITER_BADGE,
        royalty_ppm,
        max_ppm,
        false,
        false,
        false,
        false,
        false,
        false,
        Vec::new(),
        Vec::new(),
        Vec::new(),
        Vec::new(),
    )
    .unwrap()
}

fn new_marketplace(fee_ppm: u64, mint_fee_ppm: u64) -> GenericMarketplace {
    let (m, _admin) =
        GenericMarketplace::start_marketplace(fee_ppm, mint_fee_ppm, MARKETPLACE_KEY, MARKETPLACE_ADMIN)
            .unwrap();
    m
}

fn asset(local_id: u64) -> AssetId {
    AssetId { resource: COLLECTION, local_id }
}

fn vault_is_empty(trader: &OpenTrader, a: AssetId) -> bool {
    trader.nft_vaults.iter().any(|v| v.asset == a && !v.held)
}

fn has_listing(trader: &OpenTrader, a: AssetId) -> bool {
    trader.listings.iter().any(|l| l.nfgid == a)
}

#[test]
fn basic_full_test_list_and_purchase_royalty_nft() {
    let mut hub = new_hub();
    let virt_badge = hub.fetch_virt_badge();
    assert_eq!(virt_badge, EMITTER_BADGE);
    let depositer_badge = hub.fetch_royal_nft_depositer_badge();
    assert_eq!(depositer_badge, DEPOSITER_BADGE);
    let (key, trader) = new_trader(&mut hub);
    assert_eq!(trader.fetch_auth_key(), (key.resource, key.local_id));
    assert!(trader.check_creator(&key));
    // a second trader account for the same user account is refused
    assert!(matches!(
        hub.create_open_trader(SELLER_ACCOUNT),
        Err(TradeError::ValidationError)
    ));
}

#[test]
fn integrated_test_purchase_royalty_nft() {
    let mut hub = new_hub();
    let (key, mut trader) = new_trader(&mut hub);
    // marketplace fee 2%, royalty 5% with a 10% ceiling, as minted
    let mut marketplace = new_marketplace(20_000, 20_000);
    let (mut engine, _creator) = new_engine(50_000, 100_000);
    let rascal = asset(0);

    trader
        .royal_list(
            &key,
            AssetBucket { asset: rascal, amount: 1 },
            100,
            XRD,
            vec![MARKETPLACE_KEY],
            7,
        )
        .unwrap();
    assert!(has_listing(&trader, rascal));

    // purchased in a later transaction than the listing
    let (receipt, delivery) = marketplace
        .purchase_royal_listing(
            &mut trader,
            &mut engine,
            rascal,
            Payment { currency: XRD, amount: 100 },
            BUYER_ACCOUNT,
            8,
        )
        .unwrap();
    assert_eq!(receipt.asset, rascal);
    assert_eq!(delivery.asset, rascal);
    assert_eq!(delivery.to, BUYER_ACCOUNT);
    assert!(delivery.via_bypass);

    // 100 split exactly: 5 royalty, 2 marketplace fee, 93 to the seller
    assert_eq!(engine.royalty_vaults.get(XRD), Some(5));
    assert_eq!(marketplace.fee_vaults.get(XRD), Some(2));
    assert_eq!(trader.sales_revenue.get(XRD), Some(93));
    assert!(!has_listing(&trader, rascal));
    assert!(vault_is_empty(&trader, rascal));
}

#[test]
fn transfer_to_dapp_list_and_purchase_royalty_nft() {
    let scorpion_dapp: u64 = 500;
    let dapp_badge: u64 = 501;
    let (mut engine, creator) = new_engine(50_000, 100_000);
    engine.limit_dapps_true(&creator).unwrap();
    engine.add_permissioned_dapp(&creator, scorpion_dapp, dapp_badge).unwrap();

    let mut hub = new_hub();
    let (key, mut trader) = new_trader(&mut hub);
    let mut marketplace = new_marketplace(20_000, 20_000);
    let scorpion = asset(0);

    trader
        .royal_list(
            &key,
            AssetBucket { asset: scorpion, amount: 1 },
            100,
            XRD,
            vec![MARKETPLACE_KEY],
            1,
        )
        .unwrap();
    marketplace
        .purchase_royal_listing(
            &mut trader,
            &mut engine,
            scorpion,
            Payment { currency: XRD, amount: 100 },
            BUYER_ACCOUNT,
            2,
        )
        .unwrap();

    // the buyer hands the asset to a permissioned dapp through the trader account
    let (call, ticket) = trader
        .transfer_royal_nft_to_component(
            &engine,
            AssetBucket { asset: scorpion, amount: 1 },
            ComponentRef { address: scorpion_dapp, is_account: false },
            String::from("deposit_royalty_nft"),
        )
        .unwrap();
    assert_eq!(call.target, scorpion_dapp);
    assert_eq!(call.method, "deposit_royalty_nft");
    assert_eq!(call.asset, scorpion);
    assert_eq!(ticket.asset, scorpion);

    // a transfer to an unpermissioned dapp is refused
    assert!(matches!(
        trader.transfer_royal_nft_to_component(
            &engine,
            AssetBucket { asset: scorpion, amount: 1 },
            ComponentRef { address: 999, is_account: false },
            String::from("deposit_royalty_nft"),
        ),
        Err(TradeError::PermissionDenied)
    ));

    // a transfer to a user account is a disguised gift and always refused
    assert!(matches!(
        trader.transfer_royal_nft_to_component(
            &engine,
            AssetBucket { asset: scorpion, amount: 1 },
            ComponentRef { address: BUYER_ACCOUNT, is_account: true },
            String::from("deposit_royalty_nft"),
        ),
        Err(TradeError::PermissionDenied)
    ));
}

#[test]
fn listing_exists_iff_vault_nonempty() {
    let mut hub = new_hub();
    let (key, mut trader) = new_trader(&mut hub);
    let a = asset(4);

    assert!(!has_listing(&trader, a));
    assert!(trader.nft_vaults.is_empty());

    trader.royal_list(&key, AssetBucket { asset: a, amount: 1 }, 10, XRD, vec![MARKETPLACE_KEY], 1).unwrap();
    assert!(has_listing(&trader, a));
    assert!(trader.nft_vaults.iter().any(|v| v.asset == a && v.held));

    let delivery = trader.cancel_royal_listing(&key, a).unwrap();
    assert_eq!(delivery.to, SELLER_ACCOUNT);
    assert!(!has_listing(&trader, a));
    assert!(vault_is_empty(&trader, a));

    // the empty vault is reused by a later listing of the same asset
    trader.royal_list(&key, AssetBucket { asset: a, amount: 1 }, 20, XRD, vec![MARKETPLACE_KEY], 2).unwrap();
    assert!(has_listing(&trader, a));
    assert!(trader.nft_vaults.iter().any(|v| v.asset == a && v.held));
    assert_eq!(trader.nft_vaults.iter().filter(|v| v.asset == a).count(), 1);
}

#[test]
fn purchase_wrong_amount_always_validation_error() {
    let mut hub = new_hub();
    let (key, mut trader) = new_trader(&mut hub);
    let (mut engine, _creator) = new_engine(50_000, 100_000);
    let a = asset(0);
    trader.royal_list(&key, AssetBucket { asset: a, amount: 1 }, 100, XRD, vec![MARKETPLACE_KEY], 1).unwrap();

    let permission = MarketplacePermission { resource: MARKETPLACE_KEY, fee_rate: None };
    for wrong in [0u64, 99, 101, 1000] {
        let r = trader.purchase_royal_listing(
            &mut engine,
            a,
            Payment { currency: XRD, amount: wrong },
            &permission,
            BUYER_ACCOUNT,
            2,
        );
        assert!(matches!(r, Err(TradeError::ValidationError)));
        // all vaults and registries are left unchanged
        assert!(has_listing(&trader, a));
        assert!(trader.nft_vaults.iter().any(|v| v.asset == a && v.held));
        assert_eq!(trader.sales_revenue.get(XRD), None);
        assert_eq!(engine.royalty_vaults.get(XRD), None);
    }
}

#[test]
fn purchase_same_transaction_is_replay() {
    let mut hub = new_hub();
    let (key, mut trader) = new_trader(&mut hub);
    let (mut engine, _creator) = new_engine(50_000, 100_000);
    let a = asset(0);
    let listing_tx: u64 = 41;
    trader.royal_list(&key, AssetBucket { asset: a, amount: 1 }, 100, XRD, vec![MARKETPLACE_KEY], listing_tx).unwrap();

    let permission = MarketplacePermission { resource: MARKETPLACE_KEY, fee_rate: None };
    let same_tx = trader.purchase_royal_listing(
        &mut engine,
        a,
        Payment { currency: XRD, amount: 100 },
        &permission,
        BUYER_ACCOUNT,
        listing_tx,
    );
    assert!(matches!(same_tx, Err(TradeError::ReplayError)));
    assert!(has_listing(&trader, a));

    let next_tx = trader.purchase_royal_listing(
        &mut engine,
        a,
        Payment { currency: XRD, amount: 100 },
        &permission,
        BUYER_ACCOUNT,
        listing_tx + 1,
    );
    assert!(next_tx.is_ok());
    assert!(!has_listing(&trader, a));
}

#[test]
fn end_to_end_restricted_buyer_split() {
    // list asset A for 100 units of currency X, restricted to buyer badge M;
    // royalty 5%, marketplace fee 2%; the purchase splits 100 into 5 + 2 + 93
    let currency_x: u64 = 77;
    let badge_m: u64 = MARKETPLACE_KEY;
    let (mut engine, creator) = new_engine(50_000, 100_000);
    engine.deny_all_buyers(&creator).unwrap();
    engine.add_permissioned_buyer(&creator, badge_m).unwrap();

    let mut hub = new_hub();
    let (key, mut trader) = new_trader(&mut hub);
    let mut marketplace = new_marketplace(20_000, 20_000);
    let a = asset(0);

    trader.royal_list(&key, AssetBucket { asset: a, amount: 1 }, 100, currency_x, vec![badge_m], 5).unwrap();
    let (_receipt, delivery) = marketplace
        .purchase_royal_listing(
            &mut trader,
            &mut engine,
            a,
            Payment { currency: currency_x, amount: 100 },
            BUYER_ACCOUNT,
            6,
        )
        .unwrap();

    assert_eq!(engine.royalty_vaults.get(currency_x), Some(5));
    assert_eq!(marketplace.fee_vaults.get(currency_x), Some(2));
    assert_eq!(trader.sales_revenue.get(currency_x), Some(93));
    assert_eq!(delivery.asset, a);
    assert_eq!(delivery.to, BUYER_ACCOUNT);
    assert!(!has_listing(&trader, a));
    assert!(vault_is_empty(&trader, a));

    // the emptied vault is reusable: the buyer's account relists later
    trader.royal_list(&key, AssetBucket { asset: a, amount: 1 }, 500, currency_x, vec![badge_m], 9).unwrap();
    assert!(has_listing(&trader, a));
}

#[test]
fn purchase_unlisted_asset_not_found() {
    let mut hub = new_hub();
    let (_key, mut trader) = new_trader(&mut hub);
    let (mut engine, _creator) = new_engine(50_000, 100_000);
    let permission = MarketplacePermission { resource: MARKETPLACE_KEY, fee_rate: None };
    let r = trader.purchase_royal_listing(
        &mut engine,
        asset(12),
        Payment { currency: XRD, amount: 100 },
        &permission,
        BUYER_ACCOUNT,
        2,
    );
    assert!(matches!(r, Err(TradeError::NotFoundError)));
}

#[test]
fn purchase_without_permission_denied() {
    let mut hub = new_hub();
    let (key, mut trader) = new_trader(&mut hub);
    let (mut engine, _creator) = new_engine(50_000, 100_000);
    let a = asset(0);
    trader.royal_list(&key, AssetBucket { asset: a, amount: 1 }, 100, XRD, vec![MARKETPLACE_KEY], 1).unwrap();
    let unlisted_badge = MarketplacePermission { resource: 987, fee_rate: None };
    let r = trader.purchase_royal_listing(
        &mut engine,
        a,
        Payment { currency: XRD, amount: 100 },
        &unlisted_badge,
        BUYER_ACCOUNT,
        2,
    );
    assert!(matches!(r, Err(TradeError::PermissionDenied)));
}

#[test]
fn purchase_wrong_currency_validation_error() {
    let mut hub = new_hub();
    let (key, mut trader) = new_trader(&mut hub);
    let (mut engine, _creator) = new_engine(50_000, 100_000);
    let a = asset(0);
    trader.royal_list(&key, AssetBucket { asset: a, amount: 1 }, 100, XRD, vec![MARKETPLACE_KEY], 1).unwrap();
    let permission = MarketplacePermission { resource: MARKETPLACE_KEY, fee_rate: None };
    let r = trader.purchase_royal_listing(
        &mut engine,
        a,
        Payment { currency: XRD + 1, amount: 100 },
        &permission,
        BUYER_ACCOUNT,
        2,
    );
    assert!(matches!(r, Err(TradeError::ValidationError)));
}

#[test]
fn list_rejects_bad_inputs() {
    let mut hub = new_hub();
    let (key, mut trader) = new_trader(&mut hub);
    let a = asset(3);
    // zero price
    assert!(matches!(
        trader.royal_list(&key, AssetBucket { asset: a, amount: 1 }, 0, XRD, vec![], 1),
        Err(TradeError::ValidationError)
    ));
    // more than one unit
    assert!(matches!(
        trader.royal_list(&key, AssetBucket { asset: a, amount: 2 }, 10, XRD, vec![], 1),
        Err(TradeError::ValidationError)
    ));
    // a forged seller key
    let forged = SellerAuthority { resource: key.resource, local_id: key.local_id + 1 };
    assert!(matches!(
        trader.royal_list(&forged, AssetBucket { asset: a, amount: 1 }, 10, XRD, vec![], 1),
        Err(TradeError::PermissionDenied)
    ));
    // the same asset cannot be listed twice
    trader.royal_list(&key, AssetBucket { asset: a, amount: 1 }, 10, XRD, vec![], 1).unwrap();
    assert!(matches!(
        trader.royal_list(&key, AssetBucket { asset: a, amount: 1 }, 10, XRD, vec![], 2),
        Err(TradeError::ValidationError)
    ));
}

#[test]
fn change_price_and_permissions() {
    let mut hub = new_hub();
    let (key, mut trader) = new_trader(&mut hub);
    let a = asset(0);
    trader.royal_list(&key, AssetBucket { asset: a, amount: 1 }, 100, XRD, vec![MARKETPLACE_KEY], 1).unwrap();

    trader.change_price(&key, a, 250).unwrap();
    let listed = trader.listings.iter().find(|l| l.nfgid == a).unwrap();
    assert_eq!(listed.price, 250);
    // a listed price must stay positive
    assert!(matches!(trader.change_price(&key, a, 0), Err(TradeError::ValidationError)));

    let private_buyer: u64 = 888;
    trader.add_buyer_permission(&key, a, private_buyer).unwrap();
    let listed = trader.listings.iter().find(|l| l.nfgid == a).unwrap();
    assert!(listed.secondary_seller_permissions.contains(private_buyer));

    trader.revoke_market_permission(&key, a, MARKETPLACE_KEY).unwrap();
    let listed = trader.listings.iter().find(|l| l.nfgid == a).unwrap();
    assert!(!listed.secondary_seller_permissions.contains(MARKETPLACE_KEY));
    assert!(listed.secondary_seller_permissions.contains(private_buyer));

    // mutations on a missing listing
    assert!(matches!(trader.change_price(&key, asset(9), 5), Err(TradeError::NotFoundError)));
    assert!(matches!(
        trader.add_buyer_permission(&key, asset(9), 1),
        Err(TradeError::NotFoundError)
    ));
}

#[test]
fn non_royalty_listing_and_purchase() {
    let mut hub = new_hub();
    let (key, mut trader) = new_trader(&mut hub);
    let mut marketplace = new_marketplace(20_000, 20_000);
    let a = AssetId { resource: 600, local_id: 0 };

    trader.list(&key, AssetBucket { asset: a, amount: 1 }, XRD, 50, vec![MARKETPLACE_KEY], 1).unwrap();
    let nft = marketplace
        .purchase_listing(&mut trader, a, Payment { currency: XRD, amount: 50 })
        .unwrap();
    assert_eq!(nft.asset, a);
    assert_eq!(nft.amount, 1);
    // 2% of 50 is exactly 1; the seller keeps 49
    assert_eq!(marketplace.fee_vaults.get(XRD), Some(1));
    assert_eq!(trader.sales_revenue.get(XRD), Some(49));
    assert!(!has_listing(&trader, a));

    // cancel flow for an ordinary listing
    trader.list(&key, AssetBucket { asset: a, amount: 1 }, XRD, 50, vec![MARKETPLACE_KEY], 3).unwrap();
    let bucket = trader.cancel_listing(&key, a).unwrap();
    assert_eq!(bucket.asset, a);
    assert_eq!(bucket.amount, 1);
    assert!(vault_is_empty(&trader, a));
}

#[test]
fn same_owner_transfer_needs_owner_proof() {
    let mut hub = new_hub();
    let (_key, trader) = new_trader(&mut hub);
    let a = asset(2);
    let ok = trader.same_owner_royal_transfer(
        AssetBucket { asset: a, amount: 1 },
        BUYER_ACCOUNT,
        &AccountOwnerProof { account: BUYER_ACCOUNT },
    );
    let delivery = ok.unwrap();
    assert_eq!(delivery.to, BUYER_ACCOUNT);
    assert!(delivery.via_bypass);

    let denied = trader.same_owner_royal_transfer(
        AssetBucket { asset: a, amount: 1 },
        BUYER_ACCOUNT,
        &AccountOwnerProof { account: SELLER_ACCOUNT },
    );
    assert!(matches!(denied, Err(TradeError::PermissionDenied)));
}
