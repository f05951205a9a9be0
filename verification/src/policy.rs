//! The per-collection royalty policy engine.
//!
//! One engine instance holds a collection's royalty configuration, computes
//! and collects the royalty on every sale, and exposes the creator's
//! configuration matrix. Every mutation follows an explicit ratchet policy:
//! operations that widen permissions are always allowed, operations that
//! narrow them are blocked once the configuration is locked, so a creator
//! can always relax terms traders committed to but never silently tighten
//! them.

use crate::fees::fee_int;
use crate::fees::fee_amount;
use crate::fees::lemma_fee_bounds;
use crate::fees::Rate;
use crate::fees::RATE_SCALE;
use crate::ids::AssetBucket;
use crate::ids::AssetDelivery;
use crate::ids::CreatorAuthority;
use crate::ids::DappCall;
use crate::ids::DepositGate;
use crate::ids::Payment;
use crate::ids::Receipt;
use crate::ids::TradeError;
use crate::ids::TransferTicket;
use crate::store::IdMap;
use crate::store::IdSet;
use vstd::prelude::*;

verus! {

/// Which way a configuration mutation moves the set of permitted behavior.
#[derive(Clone, Copy, PartialEq, Eq, Structural, Debug)]
pub enum RatchetKind {
    /// The mutation widens permissions: it adds a buyer, dapp or currency,
    /// lifts a restriction, or lowers a bound.
    Widen,
    /// The mutation narrows permissions: it removes or restricts.
    Narrow,
}

/// The ratchet policy's single rule: widening mutations always pass,
/// narrowing ones are blocked once the configuration is locked.
pub open spec fn ratchet_allows_spec(locked: bool, kind: RatchetKind) -> bool {
    kind is Widen || !locked
}

/// Evaluates the ratchet policy for one mutation.
pub fn ratchet_allows(locked: bool, kind: RatchetKind) -> (r: bool)
    ensures
        r == ratchet_allows_spec(locked, kind),
{
    match kind {
        RatchetKind::Widen => true,
        RatchetKind::Narrow => !locked,
    }
}

/// Everything a creator can configure about royalties on one collection.
pub struct RoyaltyConfig {
    /// The royalty taken from every sale, as a fraction of the payment.
    pub royalty_percent: Rate,
    /// The ceiling the royalty can never be raised above; it can only
    /// ratchet downward.
    pub maximum_royalty_percent: Rate,
    /// Whether trading is restricted to the permitted currencies.
    pub limit_currencies: bool,
    /// The currencies sales may be settled in, when restricted.
    pub permitted_currencies: IdSet,
    /// Whether each permitted currency demands a minimum royalty amount.
    pub minimum_royalties: bool,
    /// The minimum royalty per currency, when minimums are on.
    pub minimum_royalty_amounts: IdMap,
    /// Whether asset transfers to dapps are restricted to permissioned ones.
    pub limit_dapps: bool,
    /// Dapps the asset may be handed to, each with the badge it must show
    /// to deposit the asset back.
    pub permissioned_dapps: IdMap,
    /// Whether purchases are restricted to permissioned buyers.
    pub limit_buyers: bool,
    /// Buyer and marketplace badges allowed to purchase, when restricted.
    pub permissioned_buyers: IdSet,
    /// Whether routed deposits to accounts demand a permissioned dapp.
    pub limit_private_trade: bool,
    /// The one-way lock: once set, narrowing mutations are refused forever.
    pub royalty_configuration_locked: bool,
}

impl RoyaltyConfig {
    /// Rates are fractions of one, the royalty never exceeds its ceiling,
    /// and the keyed stores are well formed.
    pub open spec fn wf(self) -> bool {
        &&& self.royalty_percent.wf()
        &&& self.maximum_royalty_percent.wf()
        &&& self.royalty_percent.ppm <= self.maximum_royalty_percent.ppm
        &&& self.minimum_royalty_amounts.wf()
        &&& self.permissioned_dapps.wf()
    }
}

/// A configuration with its one-way lock set; locking changes nothing else.
pub open spec fn locked_config(c: RoyaltyConfig) -> RoyaltyConfig {
    RoyaltyConfig { royalty_configuration_locked: true, ..c }
}

/// Locking is idempotent: locking an already-locked configuration is the
/// same as locking it once.
pub proof fn lemma_lock_idempotent(c: RoyaltyConfig)
    ensures
        locked_config(locked_config(c)) == locked_config(c),
{
}

/// The royalty policy engine of one collection: its configuration, its
/// per-currency royalty vaults, and the identities of the capabilities
/// it answers to.
pub struct RoyalNFTs {
    /// The resource address of the collection this engine rules.
    pub nft_manager: u64,
    /// This engine's own component address, published in the collection's
    /// metadata so any holder or marketplace can find it.
    pub royalty_component: u64,
    /// The creator-badge resource whose holder may mutate the policy.
    pub nft_creator_admin: u64,
    /// The deposit-bypass badge resource the collection's deposit rule accepts.
    pub depositer_admin: u64,
    /// Collected royalties, one accumulator per currency, created lazily
    /// on first collection in that currency.
    pub royalty_vaults: IdMap,
    /// The creator's royalty settings.
    pub royalty_config: RoyaltyConfig,
}

impl RoyalNFTs {
    /// The engine's configuration and vaults are well formed.
    pub open spec fn wf(self) -> bool {
        &&& self.royalty_config.wf()
        &&& self.royalty_vaults.wf()
    }

    /// Whether a presented creator key is this collection's authority.
    pub open spec fn authorized(self, creator_key: CreatorAuthority) -> bool {
        creator_key.resource == self.nft_creator_admin
    }

    /// Whether the one-way configuration lock has been set.
    pub open spec fn locked(self) -> bool {
        self.royalty_config.royalty_configuration_locked
    }

    /// Whether a buyer badge passes the buyer restriction, if it is on.
    pub open spec fn accepts_buyer(self, buyer: u64) -> bool {
        self.royalty_config.limit_buyers ==> self.royalty_config.permissioned_buyers.contains_spec(
            buyer,
        )
    }

    /// Whether a currency passes the currency restriction, if it is on.
    pub open spec fn accepts_currency(self, currency: u64) -> bool {
        self.royalty_config.limit_currencies
            ==> self.royalty_config.permitted_currencies.contains_spec(currency)
    }

    /// The royalty owed on a payment of `amount`: the configured fraction,
    /// rounded toward zero.
    pub open spec fn royalty_due(self, amount: u64) -> int {
        fee_int(amount as int, self.royalty_config.royalty_percent.ppm as int)
    }

    /// Whether per-currency minimum royalties are in force.
    pub open spec fn minimum_applies(self) -> bool {
        self.royalty_config.limit_currencies && self.royalty_config.minimum_royalties
    }

    /// What a currency's royalty vault holds; a vault not yet created
    /// holds nothing.
    pub open spec fn vault_total(self, currency: u64) -> int {
        match self.royalty_vaults.get_spec(currency) {
            Some(v) => v as int,
            None => 0,
        }
    }

    /// The engine's identity: everything except its mutable vaults and
    /// configuration.
    pub open spec fn same_identity(self, other: RoyalNFTs) -> bool {
        &&& self.nft_manager == other.nft_manager
        &&& self.royalty_component == other.royalty_component
        &&& self.nft_creator_admin == other.nft_creator_admin
        &&& self.depositer_admin == other.depositer_admin
    }

    /// What `pay_royalty` returns: the remainder of the payment after the
    /// royalty, or the first failing check in evaluation order.
    pub open spec fn pay_royalty_spec(self, nft: u64, payment: Payment, buyer: u64) -> Result<
        Payment,
        TradeError,
    > {
        let fee = self.royalty_due(payment.amount);
        if nft != self.nft_manager {
            Err(TradeError::ValidationError)
        } else if !self.accepts_buyer(buyer) {
            Err(TradeError::PermissionDenied)
        } else if !self.accepts_currency(payment.currency) {
            Err(TradeError::ValidationError)
        } else if self.minimum_applies() && !self.royalty_config.minimum_royalty_amounts.has_key(
            payment.currency,
        ) {
            Err(TradeError::NotFoundError)
        } else if self.minimum_applies() && fee < self.royalty_config.minimum_royalty_amounts.get_spec(
            payment.currency,
        ).unwrap() {
            Err(TradeError::ValidationError)
        } else if self.vault_total(payment.currency) + fee > u64::MAX {
            Err(TradeError::ValidationError)
        } else {
            Ok(Payment { currency: payment.currency, amount: (payment.amount - fee) as u64 })
        }
    }

    /// Instantiates a collection's royalty engine and issues its creator
    /// authority. The royalty rate and its ceiling must be fractions of
    /// one, with the rate at or below the ceiling. Each permission store
    /// is populated only when its restriction is switched on.
    pub fn start_minting_nft(
        nft_manager: u64,
        royalty_component: u64,
        nft_creator_admin: u64,
        depositer_admin: u64,
        royalty_percent_ppm: u64,
        maximum_royalty_percent_ppm: u64,
        limit_buyers: bool,
        limit_currencies: bool,
        limit_dapps: bool,
        limit_private_trade: bool,
        minimum_royalties: bool,
        royalty_config_locked: bool,
        permissioned_dapps_input: Vec<(u64, u64)>,
        permissioned_buyers_input: Vec<u64>,
        restricted_currencies_input: Vec<u64>,
        minimum_royalty_amounts_input: Vec<(u64, u64)>,
    ) -> (r: Result<(RoyalNFTs, CreatorAuthority), TradeError>)
        requires
            forall|i: int, j: int|
                0 <= i < j < permissioned_dapps_input@.len() ==> (
                #[trigger] permissioned_dapps_input@[i]).0 != (
                #[trigger] permissioned_dapps_input@[j]).0,
            forall|i: int, j: int|
                0 <= i < j < minimum_royalty_amounts_input@.len() ==> (
                #[trigger] minimum_royalty_amounts_input@[i]).0 != (
                #[trigger] minimum_royalty_amounts_input@[j]).0,
        ensures
            r is Ok <==> (royalty_percent_ppm <= RATE_SCALE && maximum_royalty_percent_ppm
                <= RATE_SCALE && royalty_percent_ppm <= maximum_royalty_percent_ppm),
            r is Err ==> r == Err::<(RoyalNFTs, CreatorAuthority), TradeError>(
                TradeError::ValidationError,
            ),
            r matches Ok((engine, creator_key)) ==> {
                &&& engine.wf()
                &&& engine.nft_manager == nft_manager
                &&& engine.royalty_component == royalty_component
                &&& engine.nft_creator_admin == nft_creator_admin
                &&& engine.depositer_admin == depositer_admin
                &&& creator_key == (CreatorAuthority { resource: nft_creator_admin })
                &&& engine.royalty_config.royalty_percent == (Rate { ppm: royalty_percent_ppm })
                &&& engine.royalty_config.maximum_royalty_percent == (Rate {
                    ppm: maximum_royalty_percent_ppm,
                })
                &&& engine.royalty_config.limit_buyers == limit_buyers
                &&& engine.royalty_config.limit_currencies == limit_currencies
                &&& engine.royalty_config.limit_dapps == limit_dapps
                &&& engine.royalty_config.limit_private_trade == limit_private_trade
                &&& engine.royalty_config.minimum_royalties == minimum_royalties
                &&& engine.locked() == royalty_config_locked
                &&& forall|c: u64|
                    engine.royalty_config.permitted_currencies.contains_spec(c) <==> (
                    limit_currencies && restricted_currencies_input@.contains(c))
                &&& forall|b: u64|
                    engine.royalty_config.permissioned_buyers.contains_spec(b) <==> (limit_buyers
                        && permissioned_buyers_input@.contains(b))
                &&& (limit_dapps ==> forall|i: int|
                    0 <= i < permissioned_dapps_input@.len()
                        ==> engine.royalty_config.permissioned_dapps.get_spec(
                        (#[trigger] permissioned_dapps_input@[i]).0,
                    ) == Some(permissioned_dapps_input@[i].1))
                &&& (!limit_dapps ==> forall|d: u64|
                    !(#[trigger] engine.royalty_config.permissioned_dapps.has_key(d)))
                &&& (limit_currencies ==> forall|i: int|
                    0 <= i < minimum_royalty_amounts_input@.len()
                        ==> engine.royalty_config.minimum_royalty_amounts.get_spec(
                        (#[trigger] minimum_royalty_amounts_input@[i]).0,
                    ) == Some(minimum_royalty_amounts_input@[i].1))
                &&& (!limit_currencies ==> forall|c: u64|
                    !(#[trigger] engine.royalty_config.minimum_royalty_amounts.has_key(c)))
                &&& forall|c: u64| #[trigger] engine.vault_total(c) == 0
            },
    {
        if royalty_percent_ppm > RATE_SCALE {
            return Err(TradeError::ValidationError);
        }
        if maximum_royalty_percent_ppm > RATE_SCALE {
            return Err(TradeError::ValidationError);
        }
        if royalty_percent_ppm > maximum_royalty_percent_ppm {
            return Err(TradeError::ValidationError);
        }

        let permissioned_dapps: IdMap = if limit_dapps {
            IdMap::from_entries(&permissioned_dapps_input)
        } else {
            IdMap::new()
        };
        let permissioned_buyers: IdSet = if limit_buyers {
            IdSet::from_ids(permissioned_buyers_input)
        } else {
            IdSet::new()
        };
        let permitted_currencies: IdSet = if limit_currencies {
            IdSet::from_ids(restricted_currencies_input)
        } else {
            IdSet::new()
        };
        let minimum_royalty_amounts: IdMap = if limit_currencies {
            IdMap::from_entries(&minimum_royalty_amounts_input)
        } else {
            IdMap::new()
        };

        let royalty_config = RoyaltyConfig {
            royalty_percent: Rate { ppm: royalty_percent_ppm },
            maximum_royalty_percent: Rate { ppm: maximum_royalty_percent_ppm },
            limit_buyers,
            limit_currencies,
            limit_dapps,
            limit_private_trade,
            minimum_royalties,
            permitted_currencies,
            minimum_royalty_amounts,
            permissioned_dapps,
            permissioned_buyers,
            royalty_configuration_locked: royalty_config_locked,
        };

        let engine = RoyalNFTs {
            nft_manager,
            royalty_component,
            nft_creator_admin,
            depositer_admin,
            royalty_vaults: IdMap::new(),
            royalty_config,
        };
        Ok((engine, CreatorAuthority { resource: nft_creator_admin }))
    }

    /// The collection resource this engine rules.
    pub fn resource_address(&self) -> (r: u64)
        ensures
            r == self.nft_manager,
    {
        self.nft_manager
    }

    /// The creator-badge resource whose holder may mutate this policy.
    pub fn creator_admin(&self) -> (r: u64)
        ensures
            r == self.nft_creator_admin,
    {
        self.nft_creator_admin
    }

    /// The deposit rule this engine configures on its collection: inbound
    /// transfers demand the deposit-bypass badge, or must come from the
    /// engine itself.
    pub fn deposit_rule(&self) -> (r: DepositGate)
        ensures
            r == (DepositGate {
                bypass_resource: self.depositer_admin,
                policy_component: self.royalty_component,
            }),
    {
        DepositGate {
            bypass_resource: self.depositer_admin,
            policy_component: self.royalty_component,
        }
    }

    /// Settles the royalty on one sale: validates the buyer and currency
    /// against the restrictions in force, takes the configured fraction of
    /// the payment into the collection's per-currency vault (creating it
    /// lazily), and returns the remainder. On any failure nothing changes.
    pub fn pay_royalty(&mut self, nft: u64, payment: Payment, buyer: u64) -> (r: Result<
        Payment,
        TradeError,
    >)
        requires
            old(self).wf(),
        ensures
            final(self).wf(),
            r == old(self).pay_royalty_spec(nft, payment, buyer),
            final(self).same_identity(*old(self)),
            final(self).royalty_config == old(self).royalty_config,
            r is Ok ==> {
                &&& final(self).royalty_vaults.get_spec(payment.currency) == Some(
                    (old(self).vault_total(payment.currency) + old(self).royalty_due(
                        payment.amount,
                    )) as u64,
                )
                &&& forall|c: u64|
                    c != payment.currency ==> final(self).royalty_vaults.get_spec(c) == old(self).royalty_vaults.get_spec(c)
            },
            r is Err ==> *final(self) == *old(self),
    {
        proof {
            lemma_fee_bounds(payment.amount as int, self.royalty_config.royalty_percent.ppm as int);
        }
        if nft != self.nft_manager {
            return Err(TradeError::ValidationError);
        }
        if self.royalty_config.limit_buyers && !self.royalty_config.permissioned_buyers.contains(
            buyer,
        ) {
            return Err(TradeError::PermissionDenied);
        }
        if self.royalty_config.limit_currencies
            && !self.royalty_config.permitted_currencies.contains(payment.currency) {
            return Err(TradeError::ValidationError);
        }
        let royalty: u64 = fee_amount(payment.amount, self.royalty_config.royalty_percent);
        if self.royalty_config.limit_currencies && self.royalty_config.minimum_royalties {
            match self.royalty_config.minimum_royalty_amounts.get(payment.currency) {
                None => {
                    return Err(TradeError::NotFoundError);
                },
                Some(minimum_royalty) => {
                    if royalty < minimum_royalty {
                        return Err(TradeError::ValidationError);
                    }
                },
            }
        }
        let held: u64 = match self.royalty_vaults.get(payment.currency) {
            Some(v) => v,
            None => 0,
        };
        if royalty > u64::MAX - held {
            return Err(TradeError::ValidationError);
        }
        self.royalty_vaults.insert(payment.currency, held + royalty);
        Ok(Payment { currency: payment.currency, amount: payment.amount - royalty })
    }

    /// Changes the royalty percentage. Refused once the configuration is
    /// locked, and refused above the ceiling.
    pub fn change_royalty_percentage_fee(
        &mut self,
        creator_key: &CreatorAuthority,
        new_royalty_percent_ppm: u64,
    ) -> (r: Result<(), TradeError>)
        requires
            old(self).wf(),
        ensures
            final(self).wf(),
            r == (if !old(self).authorized(*creator_key) {
                Err::<(), TradeError>(TradeError::PermissionDenied)
            } else if old(self).locked() {
                Err(TradeError::ConfigLockedError)
            } else if new_royalty_percent_ppm
                > old(self).royalty_config.maximum_royalty_percent.ppm {
                Err(TradeError::ValidationError)
            } else {
                Ok(())
            }),
            r is Ok ==> final(self).royalty_config == (RoyaltyConfig {
                royalty_percent: Rate { ppm: new_royalty_percent_ppm },
                ..old(self).royalty_config
            }) && final(self).same_identity(*old(self)) && final(self).royalty_vaults == old(self).royalty_vaults,
            r is Err ==> *final(self) == *old(self),
    {
        if creator_key.resource != self.nft_creator_admin {
            return Err(TradeError::PermissionDenied);
        }
        if !ratchet_allows(self.royalty_config.royalty_configuration_locked, RatchetKind::Narrow) {
            return Err(TradeError::ConfigLockedError);
        }
        if new_royalty_percent_ppm > self.royalty_config.maximum_royalty_percent.ppm {
            return Err(TradeError::ValidationError);
        }
        self.royalty_config.royalty_percent = Rate { ppm: new_royalty_percent_ppm };
        Ok(())
    }

    /// Lowers the royalty ceiling. Permitted even when locked: the ceiling
    /// only ever ratchets downward, and never below the current royalty.
    pub fn lower_maximum_royalty_percentage(
        &mut self,
        creator_key: &CreatorAuthority,
        new_max_royalty_percent_ppm: u64,
    ) -> (r: Result<(), TradeError>)
        requires
            old(self).wf(),
        ensures
            final(self).wf(),
            r == (if !old(self).authorized(*creator_key) {
                Err::<(), TradeError>(TradeError::PermissionDenied)
            } else if new_max_royalty_percent_ppm < old(self).royalty_config.royalty_percent.ppm {
                Err(TradeError::ValidationError)
            } else if new_max_royalty_percent_ppm
                > old(self).royalty_config.maximum_royalty_percent.ppm {
                Err(TradeError::ValidationError)
            } else {
                Ok(())
            }),
            r is Ok ==> final(self).royalty_config == (RoyaltyConfig {
                maximum_royalty_percent: Rate { ppm: new_max_royalty_percent_ppm },
                ..old(self).royalty_config
            }) && final(self).same_identity(*old(self)) && final(self).royalty_vaults == old(self).royalty_vaults,
            r is Err ==> *final(self) == *old(self),
    {
        if creator_key.resource != self.nft_creator_admin {
            return Err(TradeError::PermissionDenied);
        }
        if new_max_royalty_percent_ppm < self.royalty_config.royalty_percent.ppm {
            return Err(TradeError::ValidationError);
        }
        if new_max_royalty_percent_ppm > self.royalty_config.maximum_royalty_percent.ppm {
            return Err(TradeError::ValidationError);
        }
        self.royalty_config.maximum_royalty_percent = Rate { ppm: new_max_royalty_percent_ppm };
        Ok(())
    }

    /// Switches the currency restriction on: a narrowing mutation, refused
    /// once locked.
    pub fn restrict_currencies_true(&mut self, creator_key: &CreatorAuthority) -> (r: Result<
        (),
        TradeError,
    >)
        requires
            old(self).wf(),
        ensures
            final(self).wf(),
            r == (if !old(self).authorized(*creator_key) {
                Err::<(), TradeError>(TradeError::PermissionDenied)
            } else if old(self).locked() {
                Err(TradeError::ConfigLockedError)
            } else {
                Ok(())
            }),
            r is Ok ==> final(self).royalty_config == (RoyaltyConfig {
                limit_currencies: true,
                ..old(self).royalty_config
            }) && final(self).same_identity(*old(self)) && final(self).royalty_vaults == old(self).royalty_vaults,
            r is Err ==> *final(self) == *old(self),
    {
        if creator_key.resource != self.nft_creator_admin {
            return Err(TradeError::PermissionDenied);
        }
        if !ratchet_allows(self.royalty_config.royalty_configuration_locked, RatchetKind::Narrow) {
            return Err(TradeError::ConfigLockedError);
        }
        self.royalty_config.limit_currencies = true;
        Ok(())
    }

    /// Switches the currency restriction off: widening, always permitted.
    pub fn restrict_currencies_false(&mut self, creator_key: &CreatorAuthority) -> (r: Result<
        (),
        TradeError,
    >)
        requires
            old(self).wf(),
        ensures
            final(self).wf(),
            r == (if !old(self).authorized(*creator_key) {
                Err::<(), TradeError>(TradeError::PermissionDenied)
            } else {
                Ok(())
            }),
            r is Ok ==> final(self).royalty_config == (RoyaltyConfig {
                limit_currencies: false,
                ..old(self).royalty_config
            }) && final(self).same_identity(*old(self)) && final(self).royalty_vaults == old(self).royalty_vaults,
            r is Err ==> *final(self) == *old(self),
    {
        if creator_key.resource != self.nft_creator_admin {
            return Err(TradeError::PermissionDenied);
        }
        self.royalty_config.limit_currencies = false;
        Ok(())
    }

    /// Adds a permitted currency. Widening, so permitted even when locked,
    /// but only meaningful while the currency restriction is on.
    pub fn add_permitted_currency(&mut self, creator_key: &CreatorAuthority, currency: u64) -> (r:
        Result<(), TradeError>)
        requires
            old(self).wf(),
        ensures
            final(self).wf(),
            r == (if !old(self).authorized(*creator_key) {
                Err::<(), TradeError>(TradeError::PermissionDenied)
            } else if !old(self).royalty_config.limit_currencies {
                Err(TradeError::ValidationError)
            } else {
                Ok(())
            }),
            r is Ok ==> {
                &&& final(self).royalty_config.permitted_currencies.contains_spec(currency)
                &&& forall|c: u64|
                    c != currency ==> final(self).royalty_config.permitted_currencies.contains_spec(c) == old(self).royalty_config.permitted_currencies.contains_spec(c)
                &&& final(self).royalty_config == (RoyaltyConfig {
                    permitted_currencies: final(self).royalty_config.permitted_currencies,
                    ..old(self).royalty_config
                })
                &&& final(self).same_identity(*old(self))
                &&& final(self).royalty_vaults == old(self).royalty_vaults
            },
            r is Err ==> *final(self) == *old(self),
    {
        if creator_key.resource != self.nft_creator_admin {
            return Err(TradeError::PermissionDenied);
        }
        if !self.royalty_config.limit_currencies {
            return Err(TradeError::ValidationError);
        }
        self.royalty_config.permitted_currencies.insert(currency);
        Ok(())
    }

    /// Removes a permitted currency. Narrowing, so refused once locked.
    pub fn remove_permitted_currency(
        &mut self,
        creator_key: &CreatorAuthority,
        currency: u64,
    ) -> (r: Result<(), TradeError>)
        requires
            old(self).wf(),
        ensures
            final(self).wf(),
            r == (if !old(self).authorized(*creator_key) {
                Err::<(), TradeError>(TradeError::PermissionDenied)
            } else if !old(self).royalty_config.limit_currencies {
                Err(TradeError::ValidationError)
            } else if old(self).locked() {
                Err(TradeError::ConfigLockedError)
            } else {
                Ok(())
            }),
            r is Ok ==> {
                &&& !final(self).royalty_config.permitted_currencies.contains_spec(currency)
                &&& forall|c: u64|
                    c != currency ==> final(self).royalty_config.permitted_currencies.contains_spec(c) == old(self).royalty_config.permitted_currencies.contains_spec(c)
                &&& final(self).royalty_config == (RoyaltyConfig {
                    permitted_currencies: final(self).royalty_config.permitted_currencies,
                    ..old(self).royalty_config
                })
                &&& final(self).same_identity(*old(self))
                &&& final(self).royalty_vaults == old(self).royalty_vaults
            },
            r is Err ==> *final(self) == *old(self),
    {
        if creator_key.resource != self.nft_creator_admin {
            return Err(TradeError::PermissionDenied);
        }
        if !self.royalty_config.limit_currencies {
            return Err(TradeError::ValidationError);
        }
        if !ratchet_allows(self.royalty_config.royalty_configuration_locked, RatchetKind::Narrow) {
            return Err(TradeError::ConfigLockedError);
        }
        self.royalty_config.permitted_currencies.remove(currency);
        Ok(())
    }

    /// Switches per-currency minimum royalties on. Narrowing, so refused
    /// once locked; only meaningful while the currency restriction is on.
    pub fn enable_minimum_royalties(&mut self, creator_key: &CreatorAuthority) -> (r: Result<
        (),
        TradeError,
    >)
        requires
            old(self).wf(),
        ensures
            final(self).wf(),
            r == (if !old(self).authorized(*creator_key) {
                Err::<(), TradeError>(TradeError::PermissionDenied)
            } else if !old(self).royalty_config.limit_currencies {
                Err(TradeError::ValidationError)
            } else if old(self).locked() {
                Err(TradeError::ConfigLockedError)
            } else {
                Ok(())
            }),
            r is Ok ==> final(self).royalty_config == (RoyaltyConfig {
                minimum_royalties: true,
                ..old(self).royalty_config
            }) && final(self).same_identity(*old(self)) && final(self).royalty_vaults == old(self).royalty_vaults,
            r is Err ==> *final(self) == *old(self),
    {
        if creator_key.resource != self.nft_creator_admin {
            return Err(TradeError::PermissionDenied);
        }
        if !self.royalty_config.limit_currencies {
            return Err(TradeError::ValidationError);
        }
        if !ratchet_allows(self.royalty_config.royalty_configuration_locked, RatchetKind::Narrow) {
            return Err(TradeError::ConfigLockedError);
        }
        self.royalty_config.minimum_royalties = true;
        Ok(())
    }

    /// Switches per-currency minimum royalties off: widening, always
    /// permitted.
    pub fn disable_minimum_royalties(&mut self, creator_key: &CreatorAuthority) -> (r: Result<
        (),
        TradeError,
    >)
        requires
            old(self).wf(),
        ensures
            final(self).wf(),
            r == (if !old(self).authorized(*creator_key) {
                Err::<(), TradeError>(TradeError::PermissionDenied)
            } else {
                Ok(())
            }),
            r is Ok ==> final(self).royalty_config == (RoyaltyConfig {
                minimum_royalties: false,
                ..old(self).royalty_config
            }) && final(self).same_identity(*old(self)) && final(self).royalty_vaults == old(self).royalty_vaults,
            r is Err ==> *final(self) == *old(self),
    {
        if creator_key.resource != self.nft_creator_admin {
            return Err(TradeError::PermissionDenied);
        }
        self.royalty_config.minimum_royalties = false;
        Ok(())
    }

    /// Sets the minimum royalty amount for one currency. Narrowing, so
    /// refused once locked; only meaningful while the currency restriction
    /// is on.
    pub fn set_minimum_royalty_amount(
        &mut self,
        creator_key: &CreatorAuthority,
        currency: u64,
        minimum_royalty_amount: u64,
    ) -> (r: Result<(), TradeError>)
        requires
            old(self).wf(),
        ensures
            final(self).wf(),
            r == (if !old(self).authorized(*creator_key) {
                Err::<(), TradeError>(TradeError::PermissionDenied)
            } else if !old(self).royalty_config.limit_currencies {
                Err(TradeError::ValidationError)
            } else if old(self).locked() {
                Err(TradeError::ConfigLockedError)
            } else {
                Ok(())
            }),
            r is Ok ==> {
                &&& final(self).royalty_config.minimum_royalty_amounts.get_spec(currency) == Some(
                    minimum_royalty_amount,
                )
                &&& forall|c: u64|
                    c != currency ==> final(self).royalty_config.minimum_royalty_amounts.get_spec(
                        c,
                    ) == old(self).royalty_config.minimum_royalty_amounts.get_spec(c)
                &&& final(self).royalty_config == (RoyaltyConfig {
                    minimum_royalty_amounts: final(self).royalty_config.minimum_royalty_amounts,
                    ..old(self).royalty_config
                })
                &&& final(self).same_identity(*old(self))
                &&& final(self).royalty_vaults == old(self).royalty_vaults
            },
            r is Err ==> *final(self) == *old(self),
    {
        if creator_key.resource != self.nft_creator_admin {
            return Err(TradeError::PermissionDenied);
        }
        if !self.royalty_config.limit_currencies {
            return Err(TradeError::ValidationError);
        }
        if !ratchet_allows(self.royalty_config.royalty_configuration_locked, RatchetKind::Narrow) {
            return Err(TradeError::ConfigLockedError);
        }
        self.royalty_config.minimum_royalty_amounts.insert(currency, minimum_royalty_amount);
        Ok(())
    }

    /// Removes the minimum royalty amount for one currency. Widening, so
    /// permitted even when locked; only meaningful while the currency
    /// restriction is on.
    pub fn remove_minimum_royalty_amount(
        &mut self,
        creator_key: &CreatorAuthority,
        currency: u64,
    ) -> (r: Result<(), TradeError>)
        requires
            old(self).wf(),
        ensures
            final(self).wf(),
            r == (if !old(self).authorized(*creator_key) {
                Err::<(), TradeError>(TradeError::PermissionDenied)
            } else if !old(self).royalty_config.limit_currencies {
                Err(TradeError::ValidationError)
            } else {
                Ok(())
            }),
            r is Ok ==> {
                &&& final(self).royalty_config.minimum_royalty_amounts.get_spec(currency) is None
                &&& forall|c: u64|
                    c != currency ==> final(self).royalty_config.minimum_royalty_amounts.get_spec(
                        c,
                    ) == old(self).royalty_config.minimum_royalty_amounts.get_spec(c)
                &&& final(self).royalty_config == (RoyaltyConfig {
                    minimum_royalty_amounts: final(self).royalty_config.minimum_royalty_amounts,
                    ..old(self).royalty_config
                })
                &&& final(self).same_identity(*old(self))
                &&& final(self).royalty_vaults == old(self).royalty_vaults
            },
            r is Err ==> *final(self) == *old(self),
    {
        if creator_key.resource != self.nft_creator_admin {
            return Err(TradeError::PermissionDenied);
        }
        if !self.royalty_config.limit_currencies {
            return Err(TradeError::ValidationError);
        }
        self.royalty_config.minimum_royalty_amounts.remove(currency);
        Ok(())
    }

    /// Switches the dapp restriction on: narrowing, refused once locked.
    pub fn limit_dapps_true(&mut self, creator_key: &CreatorAuthority) -> (r: Result<
        (),
        TradeError,
    >)
        requires
            old(self).wf(),
        ensures
            final(self).wf(),
            r == (if !old(self).authorized(*creator_key) {
                Err::<(), TradeError>(TradeError::PermissionDenied)
            } else if old(self).locked() {
                Err(TradeError::ConfigLockedError)
            } else {
                Ok(())
            }),
            r is Ok ==> final(self).royalty_config == (RoyaltyConfig {
                limit_dapps: true,
                ..old(self).royalty_config
            }) && final(self).same_identity(*old(self)) && final(self).royalty_vaults == old(self).royalty_vaults,
            r is Err ==> *final(self) == *old(self),
    {
        if creator_key.resource != self.nft_creator_admin {
            return Err(TradeError::PermissionDenied);
        }
        if !ratchet_allows(self.royalty_config.royalty_configuration_locked, RatchetKind::Narrow) {
            return Err(TradeError::ConfigLockedError);
        }
        self.royalty_config.limit_dapps = true;
        Ok(())
    }

    /// Switches the dapp restriction off: widening, always permitted.
    pub fn limit_dapps_false(&mut self, creator_key: &CreatorAuthority) -> (r: Result<
        (),
        TradeError,
    >)
        requires
            old(self).wf(),
        ensures
            final(self).wf(),
            r == (if !old(self).authorized(*creator_key) {
                Err::<(), TradeError>(TradeError::PermissionDenied)
            } else {
                Ok(())
            }),
            r is Ok ==> final(self).royalty_config == (RoyaltyConfig {
                limit_dapps: false,
                ..old(self).royalty_config
            }) && final(self).same_identity(*old(self)) && final(self).royalty_vaults == old(self).royalty_vaults,
            r is Err ==> *final(self) == *old(self),
    {
        if creator_key.resource != self.nft_creator_admin {
            return Err(TradeError::PermissionDenied);
        }
        self.royalty_config.limit_dapps = false;
        Ok(())
    }

    /// Adds a permissioned dapp and the badge it must show to hand the
    /// asset back. Widening, so permitted even when locked.
    pub fn add_permissioned_dapp(
        &mut self,
        creator_key: &CreatorAuthority,
        dapp: u64,
        badge: u64,
    ) -> (r: Result<(), TradeError>)
        requires
            old(self).wf(),
        ensures
            final(self).wf(),
            r == (if !old(self).authorized(*creator_key) {
                Err::<(), TradeError>(TradeError::PermissionDenied)
            } else {
                Ok(())
            }),
            r is Ok ==> {
                &&& final(self).royalty_config.permissioned_dapps.get_spec(dapp) == Some(badge)
                &&& forall|d: u64|
                    d != dapp ==> final(self).royalty_config.permissioned_dapps.get_spec(d) == old(self).royalty_config.permissioned_dapps.get_spec(d)
                &&& final(self).royalty_config == (RoyaltyConfig {
                    permissioned_dapps: final(self).royalty_config.permissioned_dapps,
                    ..old(self).royalty_config
                })
                &&& final(self).same_identity(*old(self))
                &&& final(self).royalty_vaults == old(self).royalty_vaults
            },
            r is Err ==> *final(self) == *old(self),
    {
        if creator_key.resource != self.nft_creator_admin {
            return Err(TradeError::PermissionDenied);
        }
        self.royalty_config.permissioned_dapps.insert(dapp, badge);
        Ok(())
    }

    /// Removes a permissioned dapp. Narrowing, so refused once locked.
    pub fn remove_permissioned_dapp(&mut self, creator_key: &CreatorAuthority, dapp: u64) -> (r:
        Result<(), TradeError>)
        requires
            old(self).wf(),
        ensures
            final(self).wf(),
            r == (if !old(self).authorized(*creator_key) {
                Err::<(), TradeError>(TradeError::PermissionDenied)
            } else if old(self).locked() {
                Err(TradeError::ConfigLockedError)
            } else {
                Ok(())
            }),
            r is Ok ==> {
                &&& final(self).royalty_config.permissioned_dapps.get_spec(dapp) is None
                &&& forall|d: u64|
                    d != dapp ==> final(self).royalty_config.permissioned_dapps.get_spec(d) == old(self).royalty_config.permissioned_dapps.get_spec(d)
                &&& final(self).royalty_config == (RoyaltyConfig {
                    permissioned_dapps: final(self).royalty_config.permissioned_dapps,
                    ..old(self).royalty_config
                })
                &&& final(self).same_identity(*old(self))
                &&& final(self).royalty_vaults == old(self).royalty_vaults
            },
            r is Err ==> *final(self) == *old(self),
    {
        if creator_key.resource != self.nft_creator_admin {
            return Err(TradeError::PermissionDenied);
        }
        if !ratchet_allows(self.royalty_config.royalty_configuration_locked, RatchetKind::Narrow) {
            return Err(TradeError::ConfigLockedError);
        }
        self.royalty_config.permissioned_dapps.remove(dapp);
        Ok(())
    }

    /// Adds a permissioned buyer badge. Widening, so it succeeds whatever
    /// the lock state.
    pub fn add_permissioned_buyer(&mut self, creator_key: &CreatorAuthority, buyer: u64) -> (r:
        Result<(), TradeError>)
        requires
            old(self).wf(),
        ensures
            final(self).wf(),
            r == (if !old(self).authorized(*creator_key) {
                Err::<(), TradeError>(TradeError::PermissionDenied)
            } else {
                Ok(())
            }),
            r is Ok ==> {
                &&& final(self).royalty_config.permissioned_buyers.contains_spec(buyer)
                &&& forall|b: u64|
                    b != buyer ==> final(self).royalty_config.permissioned_buyers.contains_spec(b)
                        == old(self).royalty_config.permissioned_buyers.contains_spec(b)
                &&& final(self).royalty_config == (RoyaltyConfig {
                    permissioned_buyers: final(self).royalty_config.permissioned_buyers,
                    ..old(self).royalty_config
                })
                &&& final(self).same_identity(*old(self))
                &&& final(self).royalty_vaults == old(self).royalty_vaults
            },
            r is Err ==> *final(self) == *old(self),
    {
        if creator_key.resource != self.nft_creator_admin {
            return Err(TradeError::PermissionDenied);
        }
        self.royalty_config.permissioned_buyers.insert(buyer);
        Ok(())
    }

    /// Removes a permissioned buyer badge. Narrowing, so refused once
    /// locked.
    pub fn remove_permissioned_buyer(&mut self, creator_key: &CreatorAuthority, buyer: u64) -> (r:
        Result<(), TradeError>)
        requires
            old(self).wf(),
        ensures
            final(self).wf(),
            r == (if !old(self).authorized(*creator_key) {
                Err::<(), TradeError>(TradeError::PermissionDenied)
            } else if old(self).locked() {
                Err(TradeError::ConfigLockedError)
            } else {
                Ok(())
            }),
            r is Ok ==> {
                &&& !final(self).royalty_config.permissioned_buyers.contains_spec(buyer)
                &&& forall|b: u64|
                    b != buyer ==> final(self).royalty_config.permissioned_buyers.contains_spec(b)
                        == old(self).royalty_config.permissioned_buyers.contains_spec(b)
                &&& final(self).royalty_config == (RoyaltyConfig {
                    permissioned_buyers: final(self).royalty_config.permissioned_buyers,
                    ..old(self).royalty_config
                })
                &&& final(self).same_identity(*old(self))
                &&& final(self).royalty_vaults == old(self).royalty_vaults
            },
            r is Err ==> *final(self) == *old(self),
    {
        if creator_key.resource != self.nft_creator_admin {
            return Err(TradeError::PermissionDenied);
        }
        if !ratchet_allows(self.royalty_config.royalty_configuration_locked, RatchetKind::Narrow) {
            return Err(TradeError::ConfigLockedError);
        }
        self.royalty_config.permissioned_buyers.remove(buyer);
        Ok(())
    }

    /// Restricts purchases to permissioned buyers: narrowing, refused once
    /// locked.
    pub fn deny_all_buyers(&mut self, creator_key: &CreatorAuthority) -> (r: Result<
        (),
        TradeError,
    >)
        requires
            old(self).wf(),
        ensures
            final(self).wf(),
            r == (if !old(self).authorized(*creator_key) {
                Err::<(), TradeError>(TradeError::PermissionDenied)
            } else if old(self).locked() {
                Err(TradeError::ConfigLockedError)
            } else {
                Ok(())
            }),
            r is Ok ==> final(self).royalty_config == (RoyaltyConfig {
                limit_buyers: true,
                ..old(self).royalty_config
            }) && final(self).same_identity(*old(self)) && final(self).royalty_vaults == old(self).royalty_vaults,
            r is Err ==> *final(self) == *old(self),
    {
        if creator_key.resource != self.nft_creator_admin {
            return Err(TradeError::PermissionDenied);
        }
        if !ratchet_allows(self.royalty_config.royalty_configuration_locked, RatchetKind::Narrow) {
            return Err(TradeError::ConfigLockedError);
        }
        self.royalty_config.limit_buyers = true;
        Ok(())
    }

    /// Opens purchases to every buyer: widening, always permitted.
    pub fn allow_all_buyers(&mut self, creator_key: &CreatorAuthority) -> (r: Result<
        (),
        TradeError,
    >)
        requires
            old(self).wf(),
        ensures
            final(self).wf(),
            r == (if !old(self).authorized(*creator_key) {
                Err::<(), TradeError>(TradeError::PermissionDenied)
            } else {
                Ok(())
            }),
            r is Ok ==> final(self).royalty_config == (RoyaltyConfig {
                limit_buyers: false,
                ..old(self).royalty_config
            }) && final(self).same_identity(*old(self)) && final(self).royalty_vaults == old(self).royalty_vaults,
            r is Err ==> *final(self) == *old(self),
    {
        if creator_key.resource != self.nft_creator_admin {
            return Err(TradeError::PermissionDenied);
        }
        self.royalty_config.limit_buyers = false;
        Ok(())
    }

    /// Sets the one-way configuration lock. Idempotent: locking an
    /// already-locked configuration changes nothing, and nothing but the
    /// lock flag ever changes.
    pub fn lock_royalty_configuration(&mut self, creator_key: &CreatorAuthority) -> (r: Result<
        (),
        TradeError,
    >)
        requires
            old(self).wf(),
        ensures
            final(self).wf(),
            r == (if !old(self).authorized(*creator_key) {
                Err::<(), TradeError>(TradeError::PermissionDenied)
            } else {
                Ok(())
            }),
            r is Ok ==> final(self).royalty_config == locked_config(old(self).royalty_config)
                && final(self).same_identity(*old(self)) && final(self).royalty_vaults == old(self).royalty_vaults,
            r is Err ==> *final(self) == *old(self),
    {
        if creator_key.resource != self.nft_creator_admin {
            return Err(TradeError::PermissionDenied);
        }
        self.royalty_config.royalty_configuration_locked = true;
        Ok(())
    }

    /// Whether a routed deposit passes the private-trade restriction: when
    /// it is on, the dapp must be permissioned and the presented badge must
    /// be the one registered for it.
    pub open spec fn router_accepts(self, permission: u64, dapp: u64) -> bool {
        self.royalty_config.limit_private_trade ==> match self.royalty_config.permissioned_dapps.get_spec(
            dapp,
        ) {
            Some(badge) => permission == badge,
            None => false,
        }
    }

    /// Hands a royalty-restricted asset to a dapp. When the dapp
    /// restriction is on, the dapp must be permissioned. Instead of
    /// relaxing the collection's deposit rule globally, the engine issues
    /// a scoped single-use ticket for the asset's return, so a failed or
    /// re-entrant call can never leave the collection unprotected.
    pub fn transfer_royalty_nft_to_dapp(&self, nft: AssetBucket, dapp: u64, custom_method: String)
        -> (r: Result<(DappCall, TransferTicket), TradeError>)
        ensures
            r is Ok <==> (self.royalty_config.limit_dapps
                ==> self.royalty_config.permissioned_dapps.has_key(dapp)),
            r is Err ==> r == Err::<(DappCall, TransferTicket), TradeError>(
                TradeError::PermissionDenied,
            ),
            r matches Ok((call, ticket)) ==> {
                &&& call.target == dapp
                &&& call.method@ == custom_method@
                &&& call.asset == nft.asset
                &&& ticket.asset == nft.asset
            },
    {
        if self.royalty_config.limit_dapps {
            if self.royalty_config.permissioned_dapps.get(dapp).is_none() {
                return Err(TradeError::PermissionDenied);
            }
        }
        let ticket = TransferTicket { asset: nft.asset };
        Ok((DappCall { target: dapp, method: custom_method, asset: nft.asset }, ticket))
    }

    /// Deposits a routed asset into a user account, minting the buyer's
    /// display receipt. When the private-trade restriction is on, the
    /// presenter must show the badge registered for a permissioned dapp.
    /// The deposit rides on the engine's own deposit standing, not on the
    /// bypass capability.
    pub fn deposit_via_router(&self, nft: AssetBucket, permission: u64, dapp: u64, account: u64)
        -> (r: Result<(AssetDelivery, Receipt), TradeError>)
        ensures
            r is Ok <==> self.router_accepts(permission, dapp),
            r is Err ==> r == Err::<(AssetDelivery, Receipt), TradeError>(
                TradeError::PermissionDenied,
            ),
            r matches Ok((delivery, receipt)) ==> {
                &&& delivery == (AssetDelivery { asset: nft.asset, to: account, via_bypass: false })
                &&& receipt == (Receipt { asset: nft.asset })
            },
    {
        if self.royalty_config.limit_private_trade {
            match self.royalty_config.permissioned_dapps.get(dapp) {
                None => {
                    return Err(TradeError::PermissionDenied);
                },
                Some(badge) => {
                    if permission != badge {
                        return Err(TradeError::PermissionDenied);
                    }
                },
            }
        }
        let delivery = AssetDelivery { asset: nft.asset, to: account, via_bypass: false };
        Ok((delivery, Receipt { asset: nft.asset }))
    }
}

/// Settling a royalty conserves the payment exactly: for any payment and
/// any configured rate, the royalty taken is the floored fraction of the
/// amount, the remainder is the amount less that royalty, and the two add
/// back to the amount with no rounding drift.
pub proof fn lemma_pay_royalty_conserves_payment(
    engine: RoyalNFTs,
    nft: u64,
    payment: Payment,
    buyer: u64,
)
    requires
        engine.wf(),
        engine.pay_royalty_spec(nft, payment, buyer) is Ok,
    ensures
        engine.pay_royalty_spec(nft, payment, buyer).unwrap().amount == payment.amount
            - engine.royalty_due(payment.amount),
        engine.royalty_due(payment.amount) + engine.pay_royalty_spec(nft, payment, buyer).unwrap().amount
            == payment.amount,
        0 <= engine.royalty_due(payment.amount) <= payment.amount,
{
    lemma_fee_bounds(payment.amount as int, engine.royalty_config.royalty_percent.ppm as int);
}

} // verus!
