//! The per-seller trader account: an escrow that holds listed assets in
//! custody vaults, a listing registry, and the purchase state machine.
//!
//! The account's central invariant: a listing exists exactly when its
//! custody vault is non-empty. Vaults can never be deleted, only emptied
//! and reused, so the registry and the vaults are kept in lockstep by
//! every mutation.

use crate::fees::fee_amount;
use crate::fees::fee_int;
use crate::fees::lemma_fee_bounds;
use crate::ids::AccountOwnerProof;
use crate::ids::AssetBucket;
use crate::ids::AssetDelivery;
use crate::ids::AssetId;
use crate::ids::ComponentRef;
use crate::ids::DappCall;
use crate::ids::DepositBypass;
use crate::ids::MarketplacePermission;
use crate::ids::Payment;
use crate::ids::Receipt;
use crate::ids::SellerAuthority;
use crate::ids::TradeError;
use crate::ids::TransferTicket;
use crate::policy::RoyalNFTs;
use crate::store::find_first;
use crate::store::lemma_find_first_at;
use crate::store::lemma_find_first_concat;
use crate::store::lemma_find_first_none;
use crate::store::lemma_find_first_none_converse;
use crate::store::lemma_find_first_push;
use crate::store::IdMap;
use crate::store::IdSet;
use vstd::pervasive::unreached;
use vstd::prelude::*;

verus! {

/// One listing: an asset offered at a price in one currency, restricted
/// to holders of the authorized buyer badges, and stamped with the
/// transaction that created it.
pub struct Listing {
    /// The badges a buyer or marketplace must hold to purchase.
    pub secondary_seller_permissions: IdSet,
    /// The currency the asset is offered in.
    pub currency: u64,
    /// The asking price; always positive.
    pub price: u64,
    /// The asset offered.
    pub nfgid: AssetId,
    /// The trader account the listing lives on.
    pub open_trader_account: u64,
    /// The transaction that created the listing: the replay guard compares
    /// a purchase's transaction against it.
    pub created_tx: u64,
}

/// The lookup predicate for a listing registry: the listing offers the
/// given asset.
pub open spec fn listing_for(nfgid: AssetId) -> spec_fn(Listing) -> bool {
    |l: Listing| l.nfgid == nfgid
}

/// The custody vault of one asset: created on the asset's first listing,
/// it persists empty after a sale or cancellation and is reused by a later
/// listing of the same asset.
#[derive(Clone, Copy, PartialEq, Eq, Structural, Debug)]
pub struct AssetVault {
    /// The one asset this vault can hold.
    pub asset: AssetId,
    /// Whether the vault currently holds its asset.
    pub held: bool,
}

/// The lookup predicate for the vault rack: the vault belongs to the
/// given asset.
pub open spec fn vault_for(asset: AssetId) -> spec_fn(AssetVault) -> bool {
    |v: AssetVault| v.asset == asset
}

/// What a royalty-enforced purchase hands back to the caller: the
/// marketplace's fee parcel when its badge carries a fee rate, the buyer's
/// display receipt, and the asset on its way to the recipient.
#[derive(Clone, Copy, PartialEq, Eq, Debug)]
pub struct PurchaseProceeds {
    /// The marketplace's cut, present exactly when the presented badge
    /// carries a fee rate.
    pub marketplace_fee: Option<Payment>,
    /// The display receipt minted for the buyer.
    pub receipt: Receipt,
    /// The asset, deposited to the recipient over the deposit bypass.
    pub delivery: AssetDelivery,
}

/// What an ordinary (royalty-free) purchase hands back: the asset and the
/// marketplace's fee parcel when one was due.
#[derive(Clone, Copy, PartialEq, Eq, Debug)]
pub struct NonRoyalProceeds {
    /// The purchased asset.
    pub nft: AssetBucket,
    /// The marketplace's cut, present exactly when it is positive.
    pub marketplace_fee: Option<Payment>,
}

/// The marketplace fee owed on a payment: the presented badge's rate
/// applied to the amount, or nothing when the badge carries no rate.
pub open spec fn marketplace_fee_due(permission: MarketplacePermission, amount: u64) -> int {
    match permission.fee_rate {
        Some(rate) => fee_int(amount as int, rate.ppm as int),
        None => 0,
    }
}

/// A per-seller trader account: listing registry, custody vaults, sales
/// revenue, and the capabilities it answers to.
pub struct OpenTrader {
    /// The badge resource of the seller's authority key.
    pub auth_key_resource: u64,
    /// The unique id of the seller's authority key.
    pub auth_key_local: u64,
    /// The seller's own account, where cancelled assets and sale proceeds
    /// are delivered.
    pub my_account: u64,
    /// This trader account's component address, recorded on each listing.
    pub trader_account_component_address: u64,
    /// The deposit-bypass capability the account holds to move
    /// royalty-restricted assets across their deposit gates.
    pub royal_admin: DepositBypass,
    /// The listing registry, keyed by asset.
    pub listings: Vec<Listing>,
    /// The custody vaults, keyed by asset; never deleted, only emptied.
    pub nft_vaults: Vec<AssetVault>,
    /// Sale proceeds delivered to the seller, accumulated per currency.
    pub sales_revenue: IdMap,
}

impl OpenTrader {
    /// The listing for an asset, if one exists.
    pub open spec fn listing_spec(self, nfgid: AssetId) -> Option<Listing> {
        find_first(self.listings@, listing_for(nfgid))
    }

    /// Whether a listing for the asset exists.
    pub open spec fn has_listing(self, nfgid: AssetId) -> bool {
        self.listing_spec(nfgid) is Some
    }

    /// The asset's custody vault, if it was ever created.
    pub open spec fn vault_spec(self, asset: AssetId) -> Option<AssetVault> {
        find_first(self.nft_vaults@, vault_for(asset))
    }

    /// Whether the asset's custody vault exists and is non-empty.
    pub open spec fn vault_holds(self, asset: AssetId) -> bool {
        match self.vault_spec(asset) {
            Some(v) => v.held,
            None => false,
        }
    }

    /// The sale proceeds accumulated for the seller in one currency.
    pub open spec fn revenue_total(self, currency: u64) -> int {
        match self.sales_revenue.get_spec(currency) {
            Some(v) => v as int,
            None => 0,
        }
    }

    /// Whether a presented key is this account's seller authority.
    pub open spec fn authorized(self, creator_key: SellerAuthority) -> bool {
        creator_key.resource == self.auth_key_resource && creator_key.local_id
            == self.auth_key_local
    }

    /// No two listings offer the same asset.
    pub open spec fn listings_unique(self) -> bool {
        forall|i: int, j: int|
            0 <= i < j < self.listings@.len() ==> (#[trigger] self.listings@[i]).nfgid != (
            #[trigger] self.listings@[j]).nfgid
    }

    /// No two vaults belong to the same asset.
    pub open spec fn vaults_unique(self) -> bool {
        forall|i: int, j: int|
            0 <= i < j < self.nft_vaults@.len() ==> (#[trigger] self.nft_vaults@[i]).asset != (
            #[trigger] self.nft_vaults@[j]).asset
    }

    /// The account's invariant: registries are keyed uniquely, every
    /// listed price is positive, and a listing exists exactly when its
    /// custody vault is non-empty.
    pub open spec fn wf(self) -> bool {
        &&& self.listings_unique()
        &&& self.vaults_unique()
        &&& self.sales_revenue.wf()
        &&& forall|a: AssetId|
            #[trigger] self.listing_spec(a) matches Some(l) ==> l.price > 0 && l.nfgid == a
        &&& forall|a: AssetId| #[trigger] self.has_listing(a) == self.vault_holds(a)
    }

    /// The account's identity: everything except its mutable registries.
    pub open spec fn same_identity(self, other: OpenTrader) -> bool {
        &&& self.auth_key_resource == other.auth_key_resource
        &&& self.auth_key_local == other.auth_key_local
        &&& self.my_account == other.my_account
        &&& self.trader_account_component_address == other.trader_account_component_address
        &&& self.royal_admin == other.royal_admin
    }

    /// Creates a fresh trader account around the badges its factory
    /// minted for it: no listings, no vaults, no revenue.
    pub fn create_trader(
        auth_key_resource: u64,
        auth_key_local: u64,
        my_account: u64,
        trader_account_component_address: u64,
        royal_admin: DepositBypass,
    ) -> (t: OpenTrader)
        ensures
            t.wf(),
            t.auth_key_resource == auth_key_resource,
            t.auth_key_local == auth_key_local,
            t.my_account == my_account,
            t.trader_account_component_address == trader_account_component_address,
            t.royal_admin == royal_admin,
            forall|a: AssetId| !(#[trigger] t.has_listing(a)),
            forall|a: AssetId| #[trigger] t.vault_spec(a) is None,
            forall|c: u64| #[trigger] t.revenue_total(c) == 0,
    {
        let t = OpenTrader {
            auth_key_resource,
            auth_key_local,
            my_account,
            trader_account_component_address,
            royal_admin,
            listings: Vec::new(),
            nft_vaults: Vec::new(),
            sales_revenue: IdMap::new(),
        };
        proof {
            assert forall|a: AssetId| #[trigger] t.listing_spec(a) is None by {
                lemma_find_first_none(t.listings@, listing_for(a));
            }
            assert forall|a: AssetId| #[trigger] t.vault_spec(a) is None by {
                lemma_find_first_none(t.nft_vaults@, vault_for(a));
            }
        }
        t
    }

    /// Checks a presented key against this account's seller authority.
    pub fn check_creator(&self, creator_key: &SellerAuthority) -> (r: bool)
        ensures
            r == self.authorized(*creator_key),
    {
        creator_key.resource == self.auth_key_resource && creator_key.local_id
            == self.auth_key_local
    }

    /// The resource and unique id of this account's seller authority key.
    pub fn fetch_auth_key(&self) -> (r: (u64, u64))
        ensures
            r == (self.auth_key_resource, self.auth_key_local),
    {
        (self.auth_key_resource, self.auth_key_local)
    }

    /// The position of the asset's listing in the registry, if any.
    fn find_listing(&self, nfgid: AssetId) -> (r: Option<usize>)
        ensures
            match r {
                Some(i) => i < self.listings@.len() && self.listing_spec(nfgid) == Some(
                    self.listings@[i as int],
                ) && self.listings@[i as int].nfgid == nfgid,
                None => self.listing_spec(nfgid) is None,
            },
    {
        let n: usize = self.listings.len();
        let mut i: usize = 0;
        while i < n
            invariant
                n == self.listings@.len(),
                i <= n,
                forall|j: int| 0 <= j < i ==> (#[trigger] self.listings@[j]).nfgid != nfgid,
            decreases n - i,
        {
            if self.listings[i].nfgid.resource == nfgid.resource && self.listings[i].nfgid.local_id
                == nfgid.local_id {
                proof {
                    lemma_find_first_at(self.listings@, listing_for(nfgid), i as int);
                }
                return Some(i);
            }
            i += 1;
        }
        proof {
            lemma_find_first_none(self.listings@, listing_for(nfgid));
        }
        None
    }

    /// The position of the asset's vault in the rack, if any.
    fn find_vault(&self, asset: AssetId) -> (r: Option<usize>)
        ensures
            match r {
                Some(i) => i < self.nft_vaults@.len() && self.vault_spec(asset) == Some(
                    self.nft_vaults@[i as int],
                ) && self.nft_vaults@[i as int].asset == asset,
                None => self.vault_spec(asset) is None,
            },
    {
        let n: usize = self.nft_vaults.len();
        let mut i: usize = 0;
        while i < n
            invariant
                n == self.nft_vaults@.len(),
                i <= n,
                forall|j: int| 0 <= j < i ==> (#[trigger] self.nft_vaults@[j]).asset != asset,
            decreases n - i,
        {
            if self.nft_vaults[i].asset.resource == asset.resource
                && self.nft_vaults[i].asset.local_id == asset.local_id {
                proof {
                    lemma_find_first_at(self.nft_vaults@, vault_for(asset), i as int);
                }
                return Some(i);
            }
            i += 1;
        }
        proof {
            lemma_find_first_none(self.nft_vaults@, vault_for(asset));
        }
        None
    }

    /// Removes and returns the asset's listing, if any; every other
    /// listing is untouched.
    fn take_listing(&mut self, nfgid: AssetId) -> (r: Option<Listing>)
        requires
            old(self).listings_unique(),
        ensures
            final(self).listings_unique(),
            r == old(self).listing_spec(nfgid),
            final(self).listing_spec(nfgid) is None,
            forall|a: AssetId|
                a != nfgid ==> #[trigger] final(self).listing_spec(a) == old(self).listing_spec(a),
            forall|a: AssetId| #[trigger] final(self).vault_spec(a) == old(self).vault_spec(a),
            final(self).sales_revenue == old(self).sales_revenue,
            old(self).listing_spec(nfgid) is None ==> *final(self) == *old(self),
            *final(self) == (OpenTrader { listings: final(self).listings, ..*old(self) }),
    {
        let ghost s = self.listings@;
        match self.find_listing(nfgid) {
            None => None,
            Some(i) => {
                let l = self.listings.remove(i);
                proof {
                    let pre = s.subrange(0, i as int);
                    let rest = s.subrange(i as int, s.len() as int);
                    let suf = s.subrange(i + 1, s.len() as int);
                    assert(self.listings@ =~= pre + suf);
                    assert(s =~= pre + rest);
                    assert(rest.drop_first() =~= suf);
                    assert forall|a: AssetId| #![auto] true implies {
                        &&& (a != nfgid ==> final(self).listing_spec(a) == old(self).listing_spec(
                            a,
                        ))
                        &&& (a == nfgid ==> final(self).listing_spec(a) is None)
                    } by {
                        let p = listing_for(a);
                        lemma_find_first_concat(pre, suf, p);
                        lemma_find_first_concat(pre, rest, p);
                        if a == nfgid {
                            assert(forall|j: int| 0 <= j < pre.len() ==> !p(#[trigger] pre[j]));
                            lemma_find_first_none(pre, p);
                            assert(forall|j: int| 0 <= j < suf.len() ==> !p(#[trigger] suf[j]));
                            lemma_find_first_none(suf, p);
                        }
                    }
                }
                Some(l)
            },
        }
    }

    /// Adds a listing for an asset that has none; every other listing is
    /// untouched.
    fn put_listing(&mut self, l: Listing)
        requires
            old(self).listings_unique(),
            old(self).listing_spec(l.nfgid) is None,
        ensures
            final(self).listings_unique(),
            final(self).listing_spec(l.nfgid) == Some(l),
            forall|a: AssetId|
                a != l.nfgid ==> #[trigger] final(self).listing_spec(a) == old(self).listing_spec(
                    a,
                ),
            forall|a: AssetId| #[trigger] final(self).vault_spec(a) == old(self).vault_spec(a),
            final(self).sales_revenue == old(self).sales_revenue,
            *final(self) == (OpenTrader { listings: final(self).listings, ..*old(self) }),
    {
        let ghost s = self.listings@;
        proof {
            lemma_find_first_none_converse(s, listing_for(l.nfgid));
        }
        self.listings.push(l);
        proof {
            assert forall|a: AssetId| #![auto] true implies {
                &&& (a == l.nfgid ==> final(self).listing_spec(a) == Some(l))
                &&& (a != l.nfgid ==> final(self).listing_spec(a) == old(self).listing_spec(a))
            } by {
                lemma_find_first_push(s, l, listing_for(a));
            }
        }
    }

    /// Creates the asset's vault if it has none, and sets whether it holds
    /// its asset; every other vault is untouched.
    fn set_vault(&mut self, asset: AssetId, held: bool)
        requires
            old(self).vaults_unique(),
        ensures
            final(self).vaults_unique(),
            final(self).vault_spec(asset) == Some(AssetVault { asset, held }),
            forall|a: AssetId|
                a != asset ==> #[trigger] final(self).vault_spec(a) == old(self).vault_spec(a),
            forall|a: AssetId| #[trigger] final(self).listing_spec(a) == old(self).listing_spec(a),
            final(self).sales_revenue == old(self).sales_revenue,
            *final(self) == (OpenTrader { nft_vaults: final(self).nft_vaults, ..*old(self) }),
    {
        let ghost s = self.nft_vaults@;
        match self.find_vault(asset) {
            None => {},
            Some(i) => {
                self.nft_vaults.remove(i);
                proof {
                    let pre = s.subrange(0, i as int);
                    let rest = s.subrange(i as int, s.len() as int);
                    let suf = s.subrange(i + 1, s.len() as int);
                    assert(self.nft_vaults@ =~= pre + suf);
                    assert(s =~= pre + rest);
                    assert(rest.drop_first() =~= suf);
                    assert forall|a: AssetId| #![auto] true implies {
                        &&& (a != asset ==> self.vault_spec(a) == old(self).vault_spec(a))
                        &&& (a == asset ==> self.vault_spec(a) is None)
                    } by {
                        let p = vault_for(a);
                        lemma_find_first_concat(pre, suf, p);
                        lemma_find_first_concat(pre, rest, p);
                        if a == asset {
                            assert(forall|j: int| 0 <= j < pre.len() ==> !p(#[trigger] pre[j]));
                            lemma_find_first_none(pre, p);
                            assert(forall|j: int| 0 <= j < suf.len() ==> !p(#[trigger] suf[j]));
                            lemma_find_first_none(suf, p);
                        }
                    }
                }
            },
        }
        let ghost mid = self.nft_vaults@;
        proof {
            lemma_find_first_none_converse(mid, vault_for(asset));
        }
        self.nft_vaults.push(AssetVault { asset, held });
        proof {
            assert forall|a: AssetId| #![auto] true implies {
                &&& (a == asset ==> final(self).vault_spec(a) == Some(AssetVault { asset, held }))
                &&& (a != asset ==> final(self).vault_spec(a) == old(self).vault_spec(a))
            } by {
                lemma_find_first_push(mid, AssetVault { asset, held }, vault_for(a));
            }
        }
    }

    /// What listing an asset returns: the first failing check, or nothing.
    /// Listing demands the seller's authority, a positive price, exactly
    /// one unit, and an asset not already listed.
    pub open spec fn list_result(
        self,
        trader_badge: SellerAuthority,
        nft_to_list: AssetBucket,
        price: u64,
    ) -> Result<(), TradeError> {
        if !self.authorized(trader_badge) {
            Err(TradeError::PermissionDenied)
        } else if price == 0 {
            Err(TradeError::ValidationError)
        } else if nft_to_list.amount != 1 {
            Err(TradeError::ValidationError)
        } else if self.has_listing(nft_to_list.asset) {
            Err(TradeError::ValidationError)
        } else {
            Ok(())
        }
    }

    /// Re-establishes the account invariant after a mutation that touched
    /// the entries of one asset and left every other asset's listing,
    /// vault and price relation intact.
    proof fn lemma_wf_after_asset_mutation(self, before: OpenTrader, nfgid: AssetId)
        requires
            before.wf(),
            self.listings_unique(),
            self.vaults_unique(),
            self.sales_revenue.wf(),
            forall|a: AssetId|
                a != nfgid ==> #[trigger] self.listing_spec(a) == before.listing_spec(a),
            forall|a: AssetId| a != nfgid ==> #[trigger] self.vault_spec(a) == before.vault_spec(a),
            self.listing_spec(nfgid) matches Some(l) ==> l.price > 0 && l.nfgid == nfgid,
            self.has_listing(nfgid) == self.vault_holds(nfgid),
        ensures
            self.wf(),
    {
        assert forall|a: AssetId| #[trigger] self.listing_spec(a) is Some implies (
        self.listing_spec(a).unwrap().price > 0 && self.listing_spec(a).unwrap().nfgid == a) by {
            if a != nfgid {
                assert(before.listing_spec(a) == self.listing_spec(a));
            }
        }
        assert forall|a: AssetId| #[trigger] self.has_listing(a) == self.vault_holds(a) by {
            if a != nfgid {
                assert(before.has_listing(a) == before.vault_holds(a));
            }
        }
    }

    /// Lists a royalty-enforced asset for sale: records the listing with
    /// the enclosing transaction as its creation marker and moves the
    /// asset into its custody vault over the deposit bypass. The vault is
    /// created on first use and reused afterwards.
    pub fn royal_list(
        &mut self,
        trader_badge: &SellerAuthority,
        nft_to_list: AssetBucket,
        price: u64,
        currency: u64,
        permissions: Vec<u64>,
        tx: u64,
    ) -> (r: Result<(), TradeError>)
        requires
            old(self).wf(),
        ensures
            final(self).wf(),
            r == old(self).list_result(*trader_badge, nft_to_list, price),
            r is Ok ==> ({
                &&& final(self).listing_spec(nft_to_list.asset) matches Some(l) && l.currency
                    == currency && l.price == price && l.nfgid == nft_to_list.asset
                    && l.open_trader_account == old(self).trader_account_component_address
                    && l.created_tx == tx && (forall|p: u64|
                    l.secondary_seller_permissions.contains_spec(p) <==> permissions@.contains(p))
                &&& forall|a: AssetId|
                    a != nft_to_list.asset ==> #[trigger] final(self).listing_spec(a) == old(
                        self,
                    ).listing_spec(a)
                &&& final(self).vault_spec(nft_to_list.asset) == Some(
                    AssetVault { asset: nft_to_list.asset, held: true },
                )
                &&& forall|a: AssetId|
                    a != nft_to_list.asset ==> #[trigger] final(self).vault_spec(a) == old(
                        self,
                    ).vault_spec(a)
                &&& final(self).sales_revenue == old(self).sales_revenue
                &&& final(self).same_identity(*old(self))
            }),
            r is Err ==> *final(self) == *old(self),
    {
        if !self.check_creator(trader_badge) {
            return Err(TradeError::PermissionDenied);
        }
        if price == 0 {
            return Err(TradeError::ValidationError);
        }
        if nft_to_list.amount != 1 {
            return Err(TradeError::ValidationError);
        }
        match self.find_listing(nft_to_list.asset) {
            Some(_) => {
                return Err(TradeError::ValidationError);
            },
            None => {},
        }
        let ghost before = *self;
        let listing = Listing {
            secondary_seller_permissions: IdSet::from_ids(permissions),
            currency,
            price,
            nfgid: nft_to_list.asset,
            open_trader_account: self.trader_account_component_address,
            created_tx: tx,
        };
        self.put_listing(listing);
        self.set_vault(nft_to_list.asset, true);
        proof {
            self.lemma_wf_after_asset_mutation(before, nft_to_list.asset);
        }
        Ok(())
    }

    /// Lists an ordinary (royalty-free) asset for sale; the same checks
    /// and registry updates as a royalty listing, without the deposit
    /// bypass.
    pub fn list(
        &mut self,
        trader_badge: &SellerAuthority,
        nft_bucket: AssetBucket,
        currency: u64,
        price: u64,
        permissions: Vec<u64>,
        tx: u64,
    ) -> (r: Result<(), TradeError>)
        requires
            old(self).wf(),
        ensures
            final(self).wf(),
            r == old(self).list_result(*trader_badge, nft_bucket, price),
            r is Ok ==> ({
                &&& final(self).listing_spec(nft_bucket.asset) matches Some(l) && l.currency
                    == currency && l.price == price && l.nfgid == nft_bucket.asset
                    && l.open_trader_account == old(self).trader_account_component_address
                    && l.created_tx == tx && (forall|p: u64|
                    l.secondary_seller_permissions.contains_spec(p) <==> permissions@.contains(p))
                &&& forall|a: AssetId|
                    a != nft_bucket.asset ==> #[trigger] final(self).listing_spec(a) == old(
                        self,
                    ).listing_spec(a)
                &&& final(self).vault_spec(nft_bucket.asset) == Some(
                    AssetVault { asset: nft_bucket.asset, held: true },
                )
                &&& forall|a: AssetId|
                    a != nft_bucket.asset ==> #[trigger] final(self).vault_spec(a) == old(
                        self,
                    ).vault_spec(a)
                &&& final(self).sales_revenue == old(self).sales_revenue
                &&& final(self).same_identity(*old(self))
            }),
            r is Err ==> *final(self) == *old(self),
    {
        if !self.check_creator(trader_badge) {
            return Err(TradeError::PermissionDenied);
        }
        if price == 0 {
            return Err(TradeError::ValidationError);
        }
        if nft_bucket.amount != 1 {
            return Err(TradeError::ValidationError);
        }
        match self.find_listing(nft_bucket.asset) {
            Some(_) => {
                return Err(TradeError::ValidationError);
            },
            None => {},
        }
        let ghost before = *self;
        let listing = Listing {
            secondary_seller_permissions: IdSet::from_ids(permissions),
            currency,
            price,
            nfgid: nft_bucket.asset,
            open_trader_account: self.trader_account_component_address,
            created_tx: tx,
        };
        self.put_listing(listing);
        self.set_vault(nft_bucket.asset, true);
        proof {
            self.lemma_wf_after_asset_mutation(before, nft_bucket.asset);
        }
        Ok(())
    }

    /// Cancels a royalty-enforced listing: the vault's contents go back to
    /// the seller's own account over the deposit bypass, and the listing is
    /// deleted. The vault itself persists, empty, for reuse.
    pub fn cancel_royal_listing(&mut self, trader_badge: &SellerAuthority, nfgid: AssetId) -> (r:
        Result<AssetDelivery, TradeError>)
        requires
            old(self).wf(),
        ensures
            final(self).wf(),
            r == (if !old(self).authorized(*trader_badge) {
                Err::<AssetDelivery, TradeError>(TradeError::PermissionDenied)
            } else if !old(self).has_listing(nfgid) {
                Err(TradeError::NotFoundError)
            } else {
                Ok(AssetDelivery { asset: nfgid, to: old(self).my_account, via_bypass: true })
            }),
            r is Ok ==> ({
                &&& final(self).listing_spec(nfgid) is None
                &&& forall|a: AssetId|
                    a != nfgid ==> #[trigger] final(self).listing_spec(a) == old(
                        self,
                    ).listing_spec(a)
                &&& final(self).vault_spec(nfgid) == Some(AssetVault { asset: nfgid, held: false })
                &&& forall|a: AssetId|
                    a != nfgid ==> #[trigger] final(self).vault_spec(a) == old(self).vault_spec(a)
                &&& final(self).sales_revenue == old(self).sales_revenue
                &&& final(self).same_identity(*old(self))
            }),
            r is Err ==> *final(self) == *old(self),
    {
        if !self.check_creator(trader_badge) {
            return Err(TradeError::PermissionDenied);
        }
        let ghost before = *self;
        match self.take_listing(nfgid) {
            None => Err(TradeError::NotFoundError),
            Some(_) => {
                self.set_vault(nfgid, false);
                proof {
                    self.lemma_wf_after_asset_mutation(before, nfgid);
                }
                Ok(AssetDelivery { asset: nfgid, to: self.my_account, via_bypass: true })
            },
        }
    }

    /// Cancels an ordinary listing: the vault's contents come back to the
    /// caller as a parcel, and the listing is deleted.
    pub fn cancel_listing(&mut self, trader_badge: &SellerAuthority, nft_id: AssetId) -> (r: Result<
        AssetBucket,
        TradeError,
    >)
        requires
            old(self).wf(),
        ensures
            final(self).wf(),
            r == (if !old(self).authorized(*trader_badge) {
                Err::<AssetBucket, TradeError>(TradeError::PermissionDenied)
            } else if !old(self).has_listing(nft_id) {
                Err(TradeError::NotFoundError)
            } else {
                Ok(AssetBucket { asset: nft_id, amount: 1 })
            }),
            r is Ok ==> ({
                &&& final(self).listing_spec(nft_id) is None
                &&& forall|a: AssetId|
                    a != nft_id ==> #[trigger] final(self).listing_spec(a) == old(
                        self,
                    ).listing_spec(a)
                &&& final(self).vault_spec(nft_id) == Some(AssetVault { asset: nft_id, held: false })
                &&& forall|a: AssetId|
                    a != nft_id ==> #[trigger] final(self).vault_spec(a) == old(self).vault_spec(a)
                &&& final(self).sales_revenue == old(self).sales_revenue
                &&& final(self).same_identity(*old(self))
            }),
            r is Err ==> *final(self) == *old(self),
    {
        if !self.check_creator(trader_badge) {
            return Err(TradeError::PermissionDenied);
        }
        let ghost before = *self;
        match self.take_listing(nft_id) {
            None => Err(TradeError::NotFoundError),
            Some(_) => {
                self.set_vault(nft_id, false);
                proof {
                    self.lemma_wf_after_asset_mutation(before, nft_id);
                }
                Ok(AssetBucket { asset: nft_id, amount: 1 })
            },
        }
    }

    /// Changes a listing's price in place; the asset stays vaulted. The
    /// new price must be positive, like every listed price.
    pub fn change_price(
        &mut self,
        trader_badge: &SellerAuthority,
        nft_id: AssetId,
        new_price: u64,
    ) -> (r: Result<(), TradeError>)
        requires
            old(self).wf(),
        ensures
            final(self).wf(),
            r == (if !old(self).authorized(*trader_badge) {
                Err::<(), TradeError>(TradeError::PermissionDenied)
            } else if !old(self).has_listing(nft_id) {
                Err(TradeError::NotFoundError)
            } else if new_price == 0 {
                Err(TradeError::ValidationError)
            } else {
                Ok(())
            }),
            r is Ok ==> ({
                &&& final(self).listing_spec(nft_id) == Some(
                    Listing { price: new_price, ..old(self).listing_spec(nft_id).unwrap() },
                )
                &&& forall|a: AssetId|
                    a != nft_id ==> #[trigger] final(self).listing_spec(a) == old(
                        self,
                    ).listing_spec(a)
                &&& forall|a: AssetId| #[trigger] final(self).vault_spec(a) == old(self).vault_spec(a)
                &&& final(self).sales_revenue == old(self).sales_revenue
                &&& final(self).same_identity(*old(self))
            }),
            r is Err ==> *final(self) == *old(self),
    {
        if !self.check_creator(trader_badge) {
            return Err(TradeError::PermissionDenied);
        }
        match self.find_listing(nft_id) {
            None => {
                return Err(TradeError::NotFoundError);
            },
            Some(_) => {},
        }
        if new_price == 0 {
            return Err(TradeError::ValidationError);
        }
        let ghost before = *self;
        match self.take_listing(nft_id) {
            None => unreached(),
            Some(listing) => {
                let updated = Listing { price: new_price, ..listing };
                self.put_listing(updated);
                proof {
                    assert(before.has_listing(nft_id) == before.vault_holds(nft_id));
                    self.lemma_wf_after_asset_mutation(before, nft_id);
                }
                Ok(())
            },
        }
    }

    /// Adds an authorized buyer badge to a listing; the asset stays
    /// vaulted.
    pub fn add_buyer_permission(
        &mut self,
        trader_badge: &SellerAuthority,
        nft_id: AssetId,
        permission_id: u64,
    ) -> (r: Result<(), TradeError>)
        requires
            old(self).wf(),
        ensures
            final(self).wf(),
            r == (if !old(self).authorized(*trader_badge) {
                Err::<(), TradeError>(TradeError::PermissionDenied)
            } else if !old(self).has_listing(nft_id) {
                Err(TradeError::NotFoundError)
            } else {
                Ok(())
            }),
            r is Ok ==> ({
                &&& final(self).listing_spec(nft_id) matches Some(l2) && (
                l2.secondary_seller_permissions.contains_spec(permission_id)) && (forall|q: u64|
                    q != permission_id ==> l2.secondary_seller_permissions.contains_spec(q) == old(
                        self,
                    ).listing_spec(nft_id).unwrap().secondary_seller_permissions.contains_spec(q))
                    && l2 == (Listing {
                    secondary_seller_permissions: l2.secondary_seller_permissions,
                    ..old(self).listing_spec(nft_id).unwrap()
                })
                &&& forall|a: AssetId|
                    a != nft_id ==> #[trigger] final(self).listing_spec(a) == old(
                        self,
                    ).listing_spec(a)
                &&& forall|a: AssetId| #[trigger] final(self).vault_spec(a) == old(self).vault_spec(a)
                &&& final(self).sales_revenue == old(self).sales_revenue
                &&& final(self).same_identity(*old(self))
            }),
            r is Err ==> *final(self) == *old(self),
    {
        if !self.check_creator(trader_badge) {
            return Err(TradeError::PermissionDenied);
        }
        let ghost before = *self;
        match self.take_listing(nft_id) {
            None => Err(TradeError::NotFoundError),
            Some(listing) => {
                let mut updated = listing;
                updated.secondary_seller_permissions.insert(permission_id);
                self.put_listing(updated);
                proof {
                    assert(before.has_listing(nft_id) == before.vault_holds(nft_id));
                    self.lemma_wf_after_asset_mutation(before, nft_id);
                }
                Ok(())
            },
        }
    }

    /// Revokes an authorized buyer badge from a listing; the asset stays
    /// vaulted.
    pub fn revoke_market_permission(
        &mut self,
        trader_badge: &SellerAuthority,
        nft_id: AssetId,
        permission_id: u64,
    ) -> (r: Result<(), TradeError>)
        requires
            old(self).wf(),
        ensures
            final(self).wf(),
            r == (if !old(self).authorized(*trader_badge) {
                Err::<(), TradeError>(TradeError::PermissionDenied)
            } else if !old(self).has_listing(nft_id) {
                Err(TradeError::NotFoundError)
            } else {
                Ok(())
            }),
            r is Ok ==> ({
                &&& final(self).listing_spec(nft_id) matches Some(l2) && (
                !l2.secondary_seller_permissions.contains_spec(permission_id)) && (forall|q: u64|
                    q != permission_id ==> l2.secondary_seller_permissions.contains_spec(q) == old(
                        self,
                    ).listing_spec(nft_id).unwrap().secondary_seller_permissions.contains_spec(q))
                    && l2 == (Listing {
                    secondary_seller_permissions: l2.secondary_seller_permissions,
                    ..old(self).listing_spec(nft_id).unwrap()
                })
                &&& forall|a: AssetId|
                    a != nft_id ==> #[trigger] final(self).listing_spec(a) == old(
                        self,
                    ).listing_spec(a)
                &&& forall|a: AssetId| #[trigger] final(self).vault_spec(a) == old(self).vault_spec(a)
                &&& final(self).sales_revenue == old(self).sales_revenue
                &&& final(self).same_identity(*old(self))
            }),
            r is Err ==> *final(self) == *old(self),
    {
        if !self.check_creator(trader_badge) {
            return Err(TradeError::PermissionDenied);
        }
        let ghost before = *self;
        match self.take_listing(nft_id) {
            None => Err(TradeError::NotFoundError),
            Some(listing) => {
                let mut updated = listing;
                updated.secondary_seller_permissions.remove(permission_id);
                self.put_listing(updated);
                proof {
                    assert(before.has_listing(nft_id) == before.vault_holds(nft_id));
                    self.lemma_wf_after_asset_mutation(before, nft_id);
                }
                Ok(())
            },
        }
    }

    /// What a royalty-enforced purchase returns: the proceeds, or the
    /// first failing check in evaluation order. A purchase demands a
    /// listed asset, an authorized buyer badge, a payment matching the
    /// price and currency exactly, a transaction other than the one that
    /// created the listing, room in the accumulators, and the royalty
    /// engine's own acceptance.
    pub open spec fn purchase_royal_listing_spec(
        self,
        engine: RoyalNFTs,
        nfgid: AssetId,
        payment: Payment,
        permission: MarketplacePermission,
        account_recipient: u64,
        tx: u64,
    ) -> Result<PurchaseProceeds, TradeError> {
        let royalty = engine.royalty_due(payment.amount);
        let fee = marketplace_fee_due(permission, payment.amount);
        match self.listing_spec(nfgid) {
            None => Err(TradeError::NotFoundError),
            Some(l) => {
                if !l.secondary_seller_permissions.contains_spec(permission.resource) {
                    Err(TradeError::PermissionDenied)
                } else if payment.amount != l.price {
                    Err(TradeError::ValidationError)
                } else if payment.currency != l.currency {
                    Err(TradeError::ValidationError)
                } else if tx == l.created_tx {
                    Err(TradeError::ReplayError)
                } else if royalty + fee > payment.amount {
                    Err(TradeError::ValidationError)
                } else if self.revenue_total(payment.currency) + (payment.amount - royalty - fee)
                    > u64::MAX {
                    Err(TradeError::ValidationError)
                } else {
                    match engine.pay_royalty_spec(nfgid.resource, payment, permission.resource) {
                        Err(e) => Err(e),
                        Ok(_) => Ok(
                            PurchaseProceeds {
                                marketplace_fee: match permission.fee_rate {
                                    Some(_) => Some(
                                        Payment {
                                            currency: payment.currency,
                                            amount: fee as u64,
                                        },
                                    ),
                                    None => None,
                                },
                                receipt: Receipt { asset: nfgid },
                                delivery: AssetDelivery {
                                    asset: nfgid,
                                    to: account_recipient,
                                    via_bypass: true,
                                },
                            },
                        ),
                    }
                }
            },
        }
    }

    /// Purchases a royalty-enforced listing. The full payment is settled
    /// with the collection's royalty engine first; the marketplace fee,
    /// computed on the original amount, is then carved out of the
    /// remainder; what is left goes to the seller. The asset leaves its
    /// vault for the recipient over the deposit bypass, the listing is
    /// deleted, and the vault persists empty for reuse. A purchase in the
    /// very transaction that created the listing is refused, so no single
    /// atomic transaction can manufacture and clear a listing unobserved.
    /// On any failure, the account and the engine are both unchanged.
    pub fn purchase_royal_listing(
        &mut self,
        engine: &mut RoyalNFTs,
        nfgid: AssetId,
        payment: Payment,
        permission: &MarketplacePermission,
        account_recipient: u64,
        tx: u64,
    ) -> (r: Result<PurchaseProceeds, TradeError>)
        requires
            old(self).wf(),
            old(engine).wf(),
            permission.wf(),
        ensures
            final(self).wf(),
            final(engine).wf(),
            r == old(self).purchase_royal_listing_spec(
                *old(engine),
                nfgid,
                payment,
                *permission,
                account_recipient,
                tx,
            ),
            final(self).same_identity(*old(self)),
            final(engine).same_identity(*old(engine)),
            final(engine).royalty_config == old(engine).royalty_config,
            r is Ok ==> ({
                let royalty = old(engine).royalty_due(payment.amount);
                let fee = marketplace_fee_due(*permission, payment.amount);
                &&& final(self).listing_spec(nfgid) is None
                &&& forall|a: AssetId|
                    a != nfgid ==> #[trigger] final(self).listing_spec(a) == old(
                        self,
                    ).listing_spec(a)
                &&& final(self).vault_spec(nfgid) == Some(AssetVault { asset: nfgid, held: false })
                &&& forall|a: AssetId|
                    a != nfgid ==> #[trigger] final(self).vault_spec(a) == old(self).vault_spec(a)
                &&& final(self).revenue_total(payment.currency) == old(self).revenue_total(
                    payment.currency,
                ) + payment.amount - royalty - fee
                &&& forall|c: u64|
                    c != payment.currency ==> #[trigger] final(self).sales_revenue.get_spec(c)
                        == old(self).sales_revenue.get_spec(c)
                &&& final(engine).vault_total(payment.currency) == old(engine).vault_total(
                    payment.currency,
                ) + royalty
                &&& forall|c: u64|
                    c != payment.currency ==> #[trigger] final(engine).royalty_vaults.get_spec(c)
                        == old(engine).royalty_vaults.get_spec(c)
            }),
            r is Err ==> *final(self) == *old(self) && *final(engine) == *old(engine),
    {
        let i: usize = match self.find_listing(nfgid) {
            None => {
                return Err(TradeError::NotFoundError);
            },
            Some(i) => i,
        };
        if !self.listings[i].secondary_seller_permissions.contains(permission.resource) {
            return Err(TradeError::PermissionDenied);
        }
        if payment.amount != self.listings[i].price {
            return Err(TradeError::ValidationError);
        }
        if payment.currency != self.listings[i].currency {
            return Err(TradeError::ValidationError);
        }
        if tx == self.listings[i].created_tx {
            return Err(TradeError::ReplayError);
        }
        let royalty: u64 = fee_amount(payment.amount, engine.royalty_config.royalty_percent);
        let fee: u64 = match permission.fee_rate {
            Some(rate) => fee_amount(payment.amount, rate),
            None => 0,
        };
        if fee > payment.amount - royalty {
            return Err(TradeError::ValidationError);
        }
        let held: u64 = match self.sales_revenue.get(payment.currency) {
            Some(v) => v,
            None => 0,
        };
        let seller_amount: u64 = payment.amount - royalty - fee;
        if seller_amount > u64::MAX - held {
            return Err(TradeError::ValidationError);
        }
        match engine.pay_royalty(nfgid.resource, payment, permission.resource) {
            Err(e) => {
                return Err(e);
            },
            Ok(_) => {},
        }
        let ghost before = *self;
        self.set_vault(nfgid, false);
        let ghost s1 = *self;
        self.sales_revenue.insert(payment.currency, held + seller_amount);
        let ghost s2 = *self;
        let _ = self.take_listing(nfgid);
        let marketplace_fee: Option<Payment> = match permission.fee_rate {
            Some(_) => Some(Payment { currency: payment.currency, amount: fee }),
            None => None,
        };
        proof {
            assert forall|a: AssetId| a != nfgid implies #[trigger] self.vault_spec(a)
                == before.vault_spec(a) by {
                assert(self.vault_spec(a) == s2.vault_spec(a));
                assert(s2.vault_spec(a) == s1.vault_spec(a));
                assert(s1.vault_spec(a) == before.vault_spec(a));
            }
            assert forall|a: AssetId| a != nfgid implies #[trigger] self.listing_spec(a)
                == before.listing_spec(a) by {
                assert(s1.listing_spec(a) == before.listing_spec(a));
                assert(s2.listing_spec(a) == s1.listing_spec(a));
                assert(self.listing_spec(a) == s2.listing_spec(a));
            }
            assert(self.vault_spec(nfgid) == s2.vault_spec(nfgid));
            assert(s2.vault_spec(nfgid) == s1.vault_spec(nfgid));
            assert(self.sales_revenue == s2.sales_revenue);
            assert(s1.sales_revenue == before.sales_revenue);
            assert(before.has_listing(nfgid) == before.vault_holds(nfgid));
            self.lemma_wf_after_asset_mutation(before, nfgid);
        }
        Ok(
            PurchaseProceeds {
                marketplace_fee,
                receipt: Receipt { asset: nfgid },
                delivery: AssetDelivery { asset: nfgid, to: account_recipient, via_bypass: true },
            },
        )
    }

    /// What an ordinary purchase returns: the asset and the marketplace's
    /// cut, or the first failing check in evaluation order.
    pub open spec fn purchase_listing_spec(
        self,
        nfgid: AssetId,
        payment: Payment,
        permission: MarketplacePermission,
    ) -> Result<NonRoyalProceeds, TradeError> {
        let fee = marketplace_fee_due(permission, payment.amount);
        match self.listing_spec(nfgid) {
            None => Err(TradeError::NotFoundError),
            Some(l) => {
                if !l.secondary_seller_permissions.contains_spec(permission.resource) {
                    Err(TradeError::PermissionDenied)
                } else if payment.amount != l.price {
                    Err(TradeError::ValidationError)
                } else if payment.currency != l.currency {
                    Err(TradeError::ValidationError)
                } else if self.revenue_total(payment.currency) + (payment.amount - fee) > u64::MAX {
                    Err(TradeError::ValidationError)
                } else {
                    Ok(
                        NonRoyalProceeds {
                            nft: AssetBucket { asset: nfgid, amount: 1 },
                            marketplace_fee: if fee > 0 {
                                Some(Payment { currency: payment.currency, amount: fee as u64 })
                            } else {
                                None
                            },
                        },
                    )
                }
            },
        }
    }

    /// Purchases an ordinary (royalty-free) listing: the marketplace's
    /// cut comes out of the payment, the rest goes to the seller, and the
    /// asset leaves its vault for the caller. On any failure nothing
    /// changes.
    pub fn purchase_listing(
        &mut self,
        nfgid: AssetId,
        payment: Payment,
        permission: &MarketplacePermission,
    ) -> (r: Result<NonRoyalProceeds, TradeError>)
        requires
            old(self).wf(),
            permission.wf(),
        ensures
            final(self).wf(),
            r == old(self).purchase_listing_spec(nfgid, payment, *permission),
            final(self).same_identity(*old(self)),
            r is Ok ==> ({
                let fee = marketplace_fee_due(*permission, payment.amount);
                &&& final(self).listing_spec(nfgid) is None
                &&& forall|a: AssetId|
                    a != nfgid ==> #[trigger] final(self).listing_spec(a) == old(
                        self,
                    ).listing_spec(a)
                &&& final(self).vault_spec(nfgid) == Some(AssetVault { asset: nfgid, held: false })
                &&& forall|a: AssetId|
                    a != nfgid ==> #[trigger] final(self).vault_spec(a) == old(self).vault_spec(a)
                &&& final(self).revenue_total(payment.currency) == old(self).revenue_total(
                    payment.currency,
                ) + payment.amount - fee
                &&& forall|c: u64|
                    c != payment.currency ==> #[trigger] final(self).sales_revenue.get_spec(c)
                        == old(self).sales_revenue.get_spec(c)
            }),
            r is Err ==> *final(self) == *old(self),
    {
        let i: usize = match self.find_listing(nfgid) {
            None => {
                return Err(TradeError::NotFoundError);
            },
            Some(i) => i,
        };
        if !self.listings[i].secondary_seller_permissions.contains(permission.resource) {
            return Err(TradeError::PermissionDenied);
        }
        if payment.amount != self.listings[i].price {
            return Err(TradeError::ValidationError);
        }
        if payment.currency != self.listings[i].currency {
            return Err(TradeError::ValidationError);
        }
        let fee: u64 = match permission.fee_rate {
            Some(rate) => fee_amount(payment.amount, rate),
            None => 0,
        };
        let held: u64 = match self.sales_revenue.get(payment.currency) {
            Some(v) => v,
            None => 0,
        };
        let seller_amount: u64 = payment.amount - fee;
        if seller_amount > u64::MAX - held {
            return Err(TradeError::ValidationError);
        }
        let ghost before = *self;
        self.set_vault(nfgid, false);
        let ghost s1 = *self;
        self.sales_revenue.insert(payment.currency, held + seller_amount);
        let ghost s2 = *self;
        let _ = self.take_listing(nfgid);
        let marketplace_fee: Option<Payment> = if fee > 0 {
            Some(Payment { currency: payment.currency, amount: fee })
        } else {
            None
        };
        proof {
            assert forall|a: AssetId| a != nfgid implies #[trigger] self.vault_spec(a)
                == before.vault_spec(a) by {
                assert(self.vault_spec(a) == s2.vault_spec(a));
                assert(s2.vault_spec(a) == s1.vault_spec(a));
                assert(s1.vault_spec(a) == before.vault_spec(a));
            }
            assert forall|a: AssetId| a != nfgid implies #[trigger] self.listing_spec(a)
                == before.listing_spec(a) by {
                assert(s1.listing_spec(a) == before.listing_spec(a));
                assert(s2.listing_spec(a) == s1.listing_spec(a));
                assert(self.listing_spec(a) == s2.listing_spec(a));
            }
            assert(self.vault_spec(nfgid) == s2.vault_spec(nfgid));
            assert(s2.vault_spec(nfgid) == s1.vault_spec(nfgid));
            assert(self.sales_revenue == s2.sales_revenue);
            assert(s1.sales_revenue == before.sales_revenue);
            assert(before.has_listing(nfgid) == before.vault_holds(nfgid));
            self.lemma_wf_after_asset_mutation(before, nfgid);
        }
        Ok(NonRoyalProceeds { nft: AssetBucket { asset: nfgid, amount: 1 }, marketplace_fee })
    }

    /// Transfers a royalty-restricted asset between two accounts of the
    /// same owner, free of royalties: the presenter must prove ownership
    /// of the receiving account.
    pub fn same_owner_royal_transfer(
        &self,
        royalty_nft: AssetBucket,
        recipient: u64,
        owner_proof: &AccountOwnerProof,
    ) -> (r: Result<AssetDelivery, TradeError>)
        ensures
            r == (if owner_proof.account != recipient {
                Err::<AssetDelivery, TradeError>(TradeError::PermissionDenied)
            } else {
                Ok(AssetDelivery { asset: royalty_nft.asset, to: recipient, via_bypass: true })
            }),
    {
        if owner_proof.account != recipient {
            return Err(TradeError::PermissionDenied);
        }
        Ok(AssetDelivery { asset: royalty_nft.asset, to: recipient, via_bypass: true })
    }

    /// Hands a royalty-restricted asset to an external component through
    /// its collection's royalty engine. The target must not be a generic
    /// end-user account — a component transfer must never be a disguised
    /// peer-to-peer gift that skips royalties — and must pass the engine's
    /// dapp restriction. The engine issues a scoped single-use return
    /// ticket instead of relaxing the deposit gate globally.
    pub fn transfer_royal_nft_to_component(
        &self,
        engine: &RoyalNFTs,
        royalty_nft: AssetBucket,
        component: ComponentRef,
        custom_method: String,
    ) -> (r: Result<(DappCall, TransferTicket), TradeError>)
        ensures
            r is Ok <==> (!component.is_account && royalty_nft.asset.resource == engine.nft_manager
                && (engine.royalty_config.limit_dapps
                ==> engine.royalty_config.permissioned_dapps.has_key(component.address))),
            component.is_account ==> r == Err::<(DappCall, TransferTicket), TradeError>(
                TradeError::PermissionDenied,
            ),
            !component.is_account && royalty_nft.asset.resource != engine.nft_manager ==> r == Err::<
                (DappCall, TransferTicket),
                TradeError,
            >(TradeError::ValidationError),
            r is Err ==> (r == Err::<(DappCall, TransferTicket), TradeError>(
                TradeError::PermissionDenied,
            ) || r == Err::<(DappCall, TransferTicket), TradeError>(TradeError::ValidationError)),
            r matches Ok((call, ticket)) ==> {
                &&& call.target == component.address
                &&& call.method@ == custom_method@
                &&& call.asset == royalty_nft.asset
                &&& ticket.asset == royalty_nft.asset
            },
    {
        if component.is_account {
            return Err(TradeError::PermissionDenied);
        }
        if royalty_nft.asset.resource != engine.nft_manager {
            return Err(TradeError::ValidationError);
        }
        engine.transfer_royalty_nft_to_dapp(royalty_nft, component.address, custom_method)
    }
}

/// A listing exists exactly when its custody vault is non-empty: the
/// registry and the vault rack of a well-formed trader account can never
/// disagree, whatever mutations produced it.
pub proof fn lemma_listing_iff_vault_nonempty(trader: OpenTrader, nfgid: AssetId)
    requires
        trader.wf(),
    ensures
        trader.has_listing(nfgid) <==> trader.vault_holds(nfgid),
{
}

/// A purchase whose payment amount differs from the listed price is
/// always rejected as a validation failure, for any listed asset and any
/// authorized permission; the purchase contract then leaves every vault
/// and registry unchanged.
pub proof fn lemma_purchase_wrong_amount_rejected(
    trader: OpenTrader,
    engine: RoyalNFTs,
    nfgid: AssetId,
    payment: Payment,
    permission: MarketplacePermission,
    account_recipient: u64,
    tx: u64,
)
    requires
        trader.listing_spec(nfgid) matches Some(l) && (
        l.secondary_seller_permissions.contains_spec(permission.resource)) && payment.amount
            != l.price,
    ensures
        trader.purchase_royal_listing_spec(engine, nfgid, payment, permission, account_recipient, tx)
            == Err::<PurchaseProceeds, TradeError>(TradeError::ValidationError),
{
}

/// Purchasing a listing inside the very transaction that created it is
/// always rejected as a replay, for any otherwise valid purchase: a
/// single atomic transaction can never manufacture and clear a listing
/// unobserved.
pub proof fn lemma_purchase_same_tx_rejected(
    trader: OpenTrader,
    engine: RoyalNFTs,
    nfgid: AssetId,
    payment: Payment,
    permission: MarketplacePermission,
    account_recipient: u64,
)
    requires
        trader.listing_spec(nfgid) matches Some(l) && (
        l.secondary_seller_permissions.contains_spec(permission.resource)) && payment.amount
            == l.price && payment.currency == l.currency,
    ensures
        trader.purchase_royal_listing_spec(
            engine,
            nfgid,
            payment,
            permission,
            account_recipient,
            trader.listing_spec(nfgid).unwrap().created_tx,
        ) == Err::<PurchaseProceeds, TradeError>(TradeError::ReplayError),
{
}

/// Exact accounting of a successful purchase: the royalty and the
/// marketplace fee are never negative, together they never exceed the
/// original payment, and with the seller's proceeds they partition the
/// payment exactly, with no rounding drift.
pub proof fn lemma_purchase_conserves_payment(
    trader: OpenTrader,
    engine: RoyalNFTs,
    nfgid: AssetId,
    payment: Payment,
    permission: MarketplacePermission,
    account_recipient: u64,
    tx: u64,
)
    requires
        engine.wf(),
        permission.wf(),
        trader.purchase_royal_listing_spec(engine, nfgid, payment, permission, account_recipient, tx)
            is Ok,
    ensures
        ({
            let royalty = engine.royalty_due(payment.amount);
            let fee = marketplace_fee_due(permission, payment.amount);
            &&& 0 <= royalty
            &&& 0 <= fee
            &&& royalty + fee <= payment.amount
            &&& royalty + fee + (payment.amount - royalty - fee) == payment.amount
        }),
{
    lemma_fee_bounds(payment.amount as int, engine.royalty_config.royalty_percent.ppm as int);
    match permission.fee_rate {
        Some(rate) => {
            lemma_fee_bounds(payment.amount as int, rate.ppm as int);
        },
        None => {},
    }
}

/// A purchase in any transaction other than the creating one succeeds,
/// provided the other constraints hold: the permission is authorized, the
/// payment matches price and currency, the accumulators have room, and
/// the royalty engine accepts the sale.
pub proof fn lemma_purchase_later_tx_succeeds(
    trader: OpenTrader,
    engine: RoyalNFTs,
    nfgid: AssetId,
    payment: Payment,
    permission: MarketplacePermission,
    account_recipient: u64,
    tx: u64,
)
    requires
        trader.listing_spec(nfgid) matches Some(l) && (
        l.secondary_seller_permissions.contains_spec(permission.resource)) && payment.amount
            == l.price && payment.currency == l.currency && tx != l.created_tx,
        engine.royalty_due(payment.amount) + marketplace_fee_due(permission, payment.amount)
            <= payment.amount,
        trader.revenue_total(payment.currency) + (payment.amount - engine.royalty_due(
            payment.amount,
        ) - marketplace_fee_due(permission, payment.amount)) <= u64::MAX,
        engine.pay_royalty_spec(nfgid.resource, payment, permission.resource) is Ok,
    ensures
        trader.purchase_royal_listing_spec(engine, nfgid, payment, permission, account_recipient, tx)
            is Ok,
{
}

} // verus!
