//! The hub that creates all trader accounts. It owns the badge resources
//! of the system — the seller authority keys, the event-emitter badges,
//! and the deposit-bypass badge that lets trader accounts hold and trade
//! royalty-restricted assets — and registers one trader account per user
//! account.

use crate::ids::AssetId;
use crate::ids::DepositBypass;
use crate::ids::SellerAuthority;
use crate::ids::TradeError;
use crate::store::IdMap;
use crate::trader::OpenTrader;
use vstd::prelude::*;

verus! {

/// The hub: the system's badge resources and the registry of created
/// trader accounts.
pub struct OpenHub {
    /// The badge resource locked into each trader account to authenticate
    /// its event emissions.
    pub emitter_trader_badge: u64,
    /// The badge resource the seller authority keys are minted from.
    pub open_trader_account_badge: u64,
    /// The deposit-bypass badge resource handed to each trader account.
    pub royal_nft_depositer_badge: u64,
    /// The hub's own component address.
    pub component_address: u64,
    /// One trader account per user account: user account to trader
    /// component address.
    pub registered_accounts: IdMap,
    /// The next fresh id for a minted seller key and its trader account.
    pub next_key_id: u64,
}

impl OpenHub {
    /// The registry is well formed.
    pub open spec fn wf(self) -> bool {
        self.registered_accounts.wf()
    }

    /// The trader account registered for a user account, if any.
    pub open spec fn registered_spec(self, account: u64) -> Option<u64> {
        self.registered_accounts.get_spec(account)
    }

    /// The hub's identity: its badge resources and address.
    pub open spec fn same_identity(self, other: OpenHub) -> bool {
        &&& self.emitter_trader_badge == other.emitter_trader_badge
        &&& self.open_trader_account_badge == other.open_trader_account_badge
        &&& self.royal_nft_depositer_badge == other.royal_nft_depositer_badge
        &&& self.component_address == other.component_address
    }

    /// Instantiates the hub around the badge resources the environment
    /// allocated for it; no trader account exists yet.
    pub fn start_open_hub(
        component_address: u64,
        emitter_trader_badge: u64,
        open_trader_account_badge: u64,
        royal_nft_depositer_badge: u64,
    ) -> (h: OpenHub)
        ensures
            h.wf(),
            h.component_address == component_address,
            h.emitter_trader_badge == emitter_trader_badge,
            h.open_trader_account_badge == open_trader_account_badge,
            h.royal_nft_depositer_badge == royal_nft_depositer_badge,
            forall|account: u64| #[trigger] h.registered_spec(account) is None,
            h.next_key_id == 0,
    {
        OpenHub {
            emitter_trader_badge,
            open_trader_account_badge,
            royal_nft_depositer_badge,
            component_address,
            registered_accounts: IdMap::new(),
            next_key_id: 0,
        }
    }

    /// Creates a new trader account for a user account: mints its seller
    /// authority key, hands it the deposit-bypass capability, and records
    /// it in the registry. A user account can create at most one trader
    /// account.
    pub fn create_open_trader(&mut self, my_account: u64) -> (r: Result<
        (SellerAuthority, OpenTrader),
        TradeError,
    >)
        requires
            old(self).wf(),
        ensures
            final(self).wf(),
            final(self).same_identity(*old(self)),
            r is Ok <==> (old(self).registered_spec(my_account) is None && old(self).next_key_id
                < u64::MAX),
            r is Err ==> r == Err::<(SellerAuthority, OpenTrader), TradeError>(
                TradeError::ValidationError,
            ) && *final(self) == *old(self),
            r matches Ok((key, trader)) ==> {
                &&& key == (SellerAuthority {
                    resource: old(self).open_trader_account_badge,
                    local_id: old(self).next_key_id,
                })
                &&& trader.wf()
                &&& trader.authorized(key)
                &&& trader.my_account == my_account
                &&& trader.trader_account_component_address == old(self).next_key_id
                &&& trader.royal_admin == (DepositBypass {
                    resource: old(self).royal_nft_depositer_badge,
                })
                &&& forall|a: AssetId| !(#[trigger] trader.has_listing(a))
                &&& forall|a: AssetId| #[trigger] trader.vault_spec(a) is None
                &&& forall|c: u64| #[trigger] trader.revenue_total(c) == 0
                &&& final(self).registered_spec(my_account) == Some(
                    trader.trader_account_component_address,
                )
                &&& forall|account: u64|
                    account != my_account ==> #[trigger] final(self).registered_spec(account)
                        == old(self).registered_spec(account)
                &&& final(self).next_key_id == old(self).next_key_id + 1
            },
    {
        match self.registered_accounts.get(my_account) {
            Some(_) => {
                return Err(TradeError::ValidationError);
            },
            None => {},
        }
        if self.next_key_id == u64::MAX {
            return Err(TradeError::ValidationError);
        }
        let fresh_id: u64 = self.next_key_id;
        self.next_key_id = fresh_id + 1;
        let key = SellerAuthority { resource: self.open_trader_account_badge, local_id: fresh_id };
        let trader = OpenTrader::create_trader(
            self.open_trader_account_badge,
            fresh_id,
            my_account,
            fresh_id,
            DepositBypass { resource: self.royal_nft_depositer_badge },
        );
        self.registered_accounts.insert(my_account, fresh_id);
        Ok((key, trader))
    }

    /// The badge resource that authenticates event emissions.
    pub fn fetch_virt_badge(&self) -> (r: u64)
        ensures
            r == self.emitter_trader_badge,
    {
        self.emitter_trader_badge
    }

    /// The deposit-bypass badge resource handed to trader accounts.
    pub fn fetch_royal_nft_depositer_badge(&self) -> (r: u64)
        ensures
            r == self.royal_nft_depositer_badge,
    {
        self.royal_nft_depositer_badge
    }
}

} // verus!
