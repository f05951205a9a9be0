//! The protocol's value and capability types.
//!
//! Every authorization in the protocol is capability-based: a holder
//! presents an unforgeable token, and the receiving component checks it
//! against the issuer it knows, never relying on ambient trust. Assets,
//! payments and tokens are plain values here; the hosting environment is
//! responsible only for keeping tokens unforgeable.

use crate::fees::Rate;
use vstd::prelude::*;

verus! {

/// Why a protocol operation was rejected. Any failure aborts the whole
/// enclosing transaction; no partial state ever persists.
#[derive(Clone, Copy, PartialEq, Eq, Structural, Debug)]
pub enum TradeError {
    /// A bad price, quantity, currency or amount, or a royalty below the
    /// configured minimum.
    ValidationError,
    /// A listing or vault entry that does not exist.
    NotFoundError,
    /// A capability or authorization check failed.
    PermissionDenied,
    /// A narrowing mutation was attempted after the configuration lock.
    ConfigLockedError,
    /// A listing was created and purchased inside one atomic transaction.
    ReplayError,
    /// A failure propagated from an invoked external component.
    ExternalCallError,
}

/// The (collection, unique id) pair naming one tradable unit.
#[derive(Clone, Copy, PartialEq, Eq, Structural, Debug)]
pub struct AssetId {
    /// The resource address of the collection the unit belongs to.
    pub resource: u64,
    /// The unit's unique id within its collection.
    pub local_id: u64,
}

/// A parcel of fungible tokens of a single currency, such as a buyer's
/// payment for a listing.
#[derive(Clone, Copy, PartialEq, Eq, Structural, Debug)]
pub struct Payment {
    /// The resource address of the currency.
    pub currency: u64,
    /// How many tokens the parcel holds.
    pub amount: u64,
}

/// A parcel holding units of one unique asset; listing demands exactly
/// one unit.
#[derive(Clone, Copy, PartialEq, Eq, Structural, Debug)]
pub struct AssetBucket {
    /// Which unique asset the parcel holds units of.
    pub asset: AssetId,
    /// How many units it holds.
    pub amount: u64,
}

/// Seller Authority: the per-account capability demanded by every
/// listing mutation on a trader account.
#[derive(Clone, Copy, PartialEq, Eq, Structural, Debug)]
pub struct SellerAuthority {
    /// The badge resource the issuing hub minted the key from.
    pub resource: u64,
    /// The key's unique id within that resource.
    pub local_id: u64,
}

/// Creator Authority: the per-collection capability demanded by every
/// royalty-policy mutation.
#[derive(Clone, Copy, PartialEq, Eq, Structural, Debug)]
pub struct CreatorAuthority {
    /// The creator-badge resource of the collection.
    pub resource: u64,
}

/// Marketplace Permission: the badge a marketplace or private buyer
/// presents to purchase a listing. Its fee rate is an inspectable
/// attribute; absence of the attribute means the purchase owes no
/// marketplace fee.
#[derive(Clone, Copy, PartialEq, Eq, Debug)]
pub struct MarketplacePermission {
    /// The badge resource presented to the listing's permission check.
    pub resource: u64,
    /// The marketplace's fee rate, if the badge carries one.
    pub fee_rate: Option<Rate>,
}

impl MarketplacePermission {
    /// A carried fee rate is a fraction of one.
    pub open spec fn wf(self) -> bool {
        match self.fee_rate {
            Some(r) => r.wf(),
            None => true,
        }
    }
}

/// Proof that the presenter owns a given account; demanded before a free
/// same-owner transfer of a royalty-restricted asset.
#[derive(Clone, Copy, PartialEq, Eq, Structural, Debug)]
pub struct AccountOwnerProof {
    /// The account the presenter owns.
    pub account: u64,
}

/// The deposit-bypass capability: lets its holder move a royalty-restricted
/// asset across the collection's deposit rule.
#[derive(Clone, Copy, PartialEq, Eq, Structural, Debug)]
pub struct DepositBypass {
    /// The bypass badge resource the deposit rule was configured with.
    pub resource: u64,
}

/// The rule attached to a royalty-restricted collection, evaluated on every
/// inbound transfer: the caller must either present the deposit-bypass
/// capability or be the collection's own royalty policy engine.
#[derive(Clone, Copy, PartialEq, Eq, Structural, Debug)]
pub struct DepositGate {
    /// The bypass badge resource the deposit rule accepts.
    pub bypass_resource: u64,
    /// The royalty policy engine that may always deposit.
    pub policy_component: u64,
}

impl DepositGate {
    /// Whether an inbound transfer is let through: the caller presents
    /// the bypass badge, or is the policy engine itself.
    pub open spec fn permits_spec(self, presented: Option<DepositBypass>, caller: u64) -> bool {
        presented == Some(DepositBypass { resource: self.bypass_resource }) || caller
            == self.policy_component
    }

    /// Evaluates the deposit rule for one inbound transfer.
    pub fn permits(&self, presented: Option<DepositBypass>, caller: u64) -> (r: bool)
        ensures
            r == self.permits_spec(presented, caller),
    {
        match presented {
            Some(b) => b.resource == self.bypass_resource || caller == self.policy_component,
            None => caller == self.policy_component,
        }
    }

    /// Redeems a transfer ticket for one inbound deposit: the ticket is
    /// consumed, and it only lets its own asset through.
    pub fn redeem_ticket(&self, ticket: TransferTicket, asset: AssetId) -> (r: bool)
        ensures
            r == (ticket.asset == asset),
    {
        ticket.asset.resource == asset.resource && ticket.asset.local_id == asset.local_id
    }
}

/// A scoped, single-use permit for one inbound deposit of one asset
/// despite its deposit rule; issued per outbound dapp transfer instead of
/// toggling a global flag, so a failed or re-entrant restore can never
/// leave the collection unprotected.
#[derive(Clone, Copy, PartialEq, Eq, Structural, Debug)]
pub struct TransferTicket {
    /// The one asset the ticket lets back through the deposit rule.
    pub asset: AssetId,
}

/// The burnable, display-only receipt minted for the buyer of a listing;
/// it names the asset transferred and has no functional role.
#[derive(Clone, Copy, PartialEq, Eq, Structural, Debug)]
pub struct Receipt {
    /// The asset the purchase transferred.
    pub asset: AssetId,
}

/// An asset handed to the hosting environment for deposit into an account.
#[derive(Clone, Copy, PartialEq, Eq, Structural, Debug)]
pub struct AssetDelivery {
    /// The asset to deposit.
    pub asset: AssetId,
    /// The account to deposit it into.
    pub to: u64,
    /// Whether the deposit rides on the deposit-bypass capability.
    pub via_bypass: bool,
}

/// A reference to a component an asset may be handed to; the hosting
/// environment knows whether an address is a generic end-user account.
#[derive(Clone, Copy, PartialEq, Eq, Structural, Debug)]
pub struct ComponentRef {
    /// The component's address.
    pub address: u64,
    /// Whether the address resolves to a generic end-user account type.
    pub is_account: bool,
}

/// An outbound invocation of an external dapp, carrying one asset; the
/// decision to make it is the protocol's, performing it is the
/// environment's.
#[derive(PartialEq, Eq, Debug)]
pub struct DappCall {
    /// The component to invoke.
    pub target: u64,
    /// The method to invoke on it.
    pub method: String,
    /// The asset handed over with the call.
    pub asset: AssetId,
}

/// An outbound forward of a payment to an external minting component.
#[derive(Clone, Copy, PartialEq, Eq, Structural, Debug)]
pub struct MintCall {
    /// The minting component to invoke.
    pub target: u64,
    /// The payment forwarded after the protocol fee was taken.
    pub payment: Payment,
    /// The account the minted asset should reach.
    pub account: u64,
}

} // verus!
