//! The fee-taking marketplace: an intermediary that forwards buyer calls
//! into a trader account under its own Marketplace Permission badge,
//! skims its configured cut into per-currency holdings, and relays the
//! rest to the caller.

use crate::fees::fee_amount;
use crate::fees::fee_int;
use crate::fees::lemma_fee_bounds;
use crate::fees::Rate;
use crate::fees::RATE_SCALE;
use crate::ids::AssetBucket;
use crate::ids::AssetDelivery;
use crate::ids::AssetId;
use crate::ids::MarketplacePermission;
use crate::ids::MintCall;
use crate::ids::Payment;
use crate::ids::Receipt;
use crate::ids::TradeError;
use crate::policy::RoyalNFTs;
use crate::store::IdMap;
use crate::trader::marketplace_fee_due;
use crate::trader::OpenTrader;
use vstd::prelude::*;

verus! {

/// The marketplace operator's admin capability, issued at instantiation.
#[derive(Clone, Copy, PartialEq, Eq, Structural, Debug)]
pub struct MarketplaceAdmin {
    /// The admin badge resource.
    pub resource: u64,
}

/// A marketplace: its permission badge with the inspectable fee rate, its
/// protocol-level mint fee, and its per-currency fee holdings.
pub struct GenericMarketplace {
    /// The resource of the Marketplace Permission badge the marketplace
    /// presents when purchasing; its fee rate is readable by any trader
    /// account without a second call.
    pub marketplace_key: u64,
    /// The admin badge resource issued to the operator.
    pub marketplace_admin: u64,
    /// The cut taken from every purchase forwarded through here.
    pub marketplace_fee: Rate,
    /// The cut taken from payments forwarded to a minting component.
    pub mint_fee: Rate,
    /// Collected fees, accumulated per currency.
    pub fee_vaults: IdMap,
}

impl GenericMarketplace {
    /// Rates are fractions of one and the holdings are well formed.
    pub open spec fn wf(self) -> bool {
        &&& self.marketplace_fee.wf()
        &&& self.mint_fee.wf()
        &&& self.fee_vaults.wf()
    }

    /// What the marketplace holds in one currency.
    pub open spec fn fee_total(self, currency: u64) -> int {
        match self.fee_vaults.get_spec(currency) {
            Some(v) => v as int,
            None => 0,
        }
    }

    /// The permission this marketplace presents to a trader account: its
    /// badge, carrying its fee rate as a readable attribute.
    pub open spec fn permission_spec(self) -> MarketplacePermission {
        MarketplacePermission {
            resource: self.marketplace_key,
            fee_rate: Some(self.marketplace_fee),
        }
    }

    /// Instantiates a marketplace and issues its operator's admin
    /// capability. Both rates must be fractions of one.
    pub fn start_marketplace(
        marketplace_fee_ppm: u64,
        mint_fee_ppm: u64,
        marketplace_key: u64,
        marketplace_admin: u64,
    ) -> (r: Result<(GenericMarketplace, MarketplaceAdmin), TradeError>)
        ensures
            r is Ok <==> (marketplace_fee_ppm <= RATE_SCALE && mint_fee_ppm <= RATE_SCALE),
            r is Err ==> r == Err::<(GenericMarketplace, MarketplaceAdmin), TradeError>(
                TradeError::ValidationError,
            ),
            r matches Ok((m, admin)) ==> {
                &&& m.wf()
                &&& m.marketplace_key == marketplace_key
                &&& m.marketplace_admin == marketplace_admin
                &&& m.marketplace_fee == (Rate { ppm: marketplace_fee_ppm })
                &&& m.mint_fee == (Rate { ppm: mint_fee_ppm })
                &&& forall|c: u64| #[trigger] m.fee_total(c) == 0
                &&& admin == (MarketplaceAdmin { resource: marketplace_admin })
            },
    {
        if marketplace_fee_ppm > RATE_SCALE || mint_fee_ppm > RATE_SCALE {
            return Err(TradeError::ValidationError);
        }
        let m = GenericMarketplace {
            marketplace_key,
            marketplace_admin,
            marketplace_fee: Rate { ppm: marketplace_fee_ppm },
            mint_fee: Rate { ppm: mint_fee_ppm },
            fee_vaults: IdMap::new(),
        };
        Ok((m, MarketplaceAdmin { resource: marketplace_admin }))
    }

    /// The resource of this marketplace's permission badge.
    pub fn get_marketplace_key_address(&self) -> (r: u64)
        ensures
            r == self.marketplace_key,
    {
        self.marketplace_key
    }

    /// A short-lived proof of this marketplace's permission badge, its fee
    /// rate readable as an attribute.
    pub fn marketplace_permission(&self) -> (p: MarketplacePermission)
        ensures
            p == self.permission_spec(),
    {
        MarketplacePermission {
            resource: self.marketplace_key,
            fee_rate: Some(self.marketplace_fee),
        }
    }

    /// Purchases a royalty-enforced listing on behalf of a buyer: forwards
    /// the call into the trader account under this marketplace's own
    /// permission, intercepts the returned fee parcel into the
    /// marketplace's per-currency holding, and relays the receipt and the
    /// asset delivery to the caller. On any failure the marketplace, the
    /// trader account and the royalty engine are all unchanged.
    pub fn purchase_royal_listing(
        &mut self,
        trader: &mut OpenTrader,
        engine: &mut RoyalNFTs,
        nfgid: AssetId,
        payment: Payment,
        account_recipient: u64,
        tx: u64,
    ) -> (r: Result<(Receipt, AssetDelivery), TradeError>)
        requires
            old(self).wf(),
            old(trader).wf(),
            old(engine).wf(),
        ensures
            final(self).wf(),
            final(trader).wf(),
            final(engine).wf(),
            r == ({
                let fee = marketplace_fee_due(old(self).permission_spec(), payment.amount);
                if old(self).fee_total(payment.currency) + fee > u64::MAX {
                    Err(TradeError::ValidationError)
                } else {
                    match old(trader).purchase_royal_listing_spec(
                        *old(engine),
                        nfgid,
                        payment,
                        old(self).permission_spec(),
                        account_recipient,
                        tx,
                    ) {
                        Err(e) => Err(e),
                        Ok(p) => Ok((p.receipt, p.delivery)),
                    }
                }
            }),
            r is Ok ==> ({
                let royalty = old(engine).royalty_due(payment.amount);
                let fee = marketplace_fee_due(old(self).permission_spec(), payment.amount);
                &&& final(self).fee_total(payment.currency) == old(self).fee_total(
                    payment.currency,
                ) + fee
                &&& forall|c: u64|
                    c != payment.currency ==> #[trigger] final(self).fee_vaults.get_spec(c) == old(self).fee_vaults.get_spec(c)
                &&& final(self).marketplace_key == old(self).marketplace_key
                &&& final(self).marketplace_fee == old(self).marketplace_fee
                &&& final(self).mint_fee == old(self).mint_fee
                &&& final(trader).listing_spec(nfgid) is None
                &&& final(trader).vault_spec(nfgid) matches Some(v) && !v.held
                &&& final(trader).revenue_total(payment.currency) == old(trader).revenue_total(
                    payment.currency,
                ) + payment.amount - royalty - fee
                &&& final(engine).vault_total(payment.currency) == old(engine).vault_total(
                    payment.currency,
                ) + royalty
            }),
            r is Err ==> *final(self) == *old(self) && *final(trader) == *old(trader) && *final(engine) == *old(engine),
    {
        let proof_creation = self.marketplace_permission();
        let fee: u64 = fee_amount(payment.amount, self.marketplace_fee);
        let held: u64 = match self.fee_vaults.get(payment.currency) {
            Some(v) => v,
            None => 0,
        };
        if fee > u64::MAX - held {
            return Err(TradeError::ValidationError);
        }
        match trader.purchase_royal_listing(
            engine,
            nfgid,
            payment,
            &proof_creation,
            account_recipient,
            tx,
        ) {
            Err(e) => Err(e),
            Ok(proceeds) => {
                self.fee_vaults.insert(payment.currency, held + fee);
                Ok((proceeds.receipt, proceeds.delivery))
            },
        }
    }

    /// Purchases an ordinary listing on behalf of a buyer: forwards the
    /// call under this marketplace's permission, keeps its fee parcel when
    /// one was due, and relays the asset. On any failure both components
    /// are unchanged.
    pub fn purchase_listing(
        &mut self,
        trader: &mut OpenTrader,
        nfgid: AssetId,
        payment: Payment,
    ) -> (r: Result<AssetBucket, TradeError>)
        requires
            old(self).wf(),
            old(trader).wf(),
        ensures
            final(self).wf(),
            final(trader).wf(),
            r == ({
                let fee = marketplace_fee_due(old(self).permission_spec(), payment.amount);
                if old(self).fee_total(payment.currency) + fee > u64::MAX {
                    Err(TradeError::ValidationError)
                } else {
                    match old(trader).purchase_listing_spec(
                        nfgid,
                        payment,
                        old(self).permission_spec(),
                    ) {
                        Err(e) => Err(e),
                        Ok(p) => Ok(p.nft),
                    }
                }
            }),
            r is Ok ==> ({
                let fee = marketplace_fee_due(old(self).permission_spec(), payment.amount);
                &&& final(self).fee_total(payment.currency) == old(self).fee_total(
                    payment.currency,
                ) + fee
                &&& forall|c: u64|
                    c != payment.currency ==> #[trigger] final(self).fee_vaults.get_spec(c) == old(self).fee_vaults.get_spec(c)
                &&& final(self).marketplace_key == old(self).marketplace_key
                &&& final(self).marketplace_fee == old(self).marketplace_fee
                &&& final(self).mint_fee == old(self).mint_fee
                &&& final(trader).listing_spec(nfgid) is None
                &&& final(trader).revenue_total(payment.currency) == old(trader).revenue_total(
                    payment.currency,
                ) + payment.amount - fee
            }),
            r is Err ==> *final(self) == *old(self) && *final(trader) == *old(trader),
    {
        let proof_creation = self.marketplace_permission();
        let fee: u64 = fee_amount(payment.amount, self.marketplace_fee);
        let held: u64 = match self.fee_vaults.get(payment.currency) {
            Some(v) => v,
            None => 0,
        };
        if fee > u64::MAX - held {
            return Err(TradeError::ValidationError);
        }
        match trader.purchase_listing(nfgid, payment, &proof_creation) {
            Err(e) => Err(e),
            Ok(proceeds) => {
                self.fee_vaults.insert(payment.currency, held + fee);
                Ok(proceeds.nft)
            },
        }
    }

    /// Takes the protocol-level mint fee out of a payment and forwards the
    /// remainder to an external minting component; the mint itself is the
    /// minting pipeline's affair. On failure the marketplace is unchanged.
    pub fn purchase_preview_mint(&mut self, payment: Payment, account: u64, mint_component: u64)
        -> (r: Result<MintCall, TradeError>)
        requires
            old(self).wf(),
        ensures
            final(self).wf(),
            r == ({
                let fee = fee_int(payment.amount as int, old(self).mint_fee.ppm as int);
                if old(self).fee_total(payment.currency) + fee > u64::MAX {
                    Err(TradeError::ValidationError)
                } else {
                    Ok(
                        MintCall {
                            target: mint_component,
                            payment: Payment {
                                currency: payment.currency,
                                amount: (payment.amount - fee) as u64,
                            },
                            account,
                        },
                    )
                }
            }),
            r is Ok ==> ({
                let fee = fee_int(payment.amount as int, old(self).mint_fee.ppm as int);
                &&& final(self).fee_total(payment.currency) == old(self).fee_total(
                    payment.currency,
                ) + fee
                &&& forall|c: u64|
                    c != payment.currency ==> #[trigger] final(self).fee_vaults.get_spec(c) == old(self).fee_vaults.get_spec(c)
                &&& final(self).marketplace_key == old(self).marketplace_key
                &&& final(self).marketplace_fee == old(self).marketplace_fee
                &&& final(self).mint_fee == old(self).mint_fee
            }),
            r is Err ==> *final(self) == *old(self),
    {
        proof {
            lemma_fee_bounds(payment.amount as int, self.mint_fee.ppm as int);
        }
        let fee: u64 = fee_amount(payment.amount, self.mint_fee);
        let held: u64 = match self.fee_vaults.get(payment.currency) {
            Some(v) => v,
            None => 0,
        };
        if fee > u64::MAX - held {
            return Err(TradeError::ValidationError);
        }
        self.fee_vaults.insert(payment.currency, held + fee);
        Ok(
            MintCall {
                target: mint_component,
                payment: Payment { currency: payment.currency, amount: payment.amount - fee },
                account,
            },
        )
    }
}

} // verus!
