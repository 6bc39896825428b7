//! The escrow record, the vault that backs it, and the invariants that
//! tie the two together.

use vstd::prelude::*;
use crate::identity::Identity;
use crate::status::{permits, role_allowed, EscrowStatus, Operation, Role};

verus! {

/// The persistent state of one order's custody arrangement.
#[derive(Debug, PartialEq, Eq)]
pub struct Escrow {
    pub buyer: Identity,
    pub seller: Identity,
    pub platform: Identity,
    pub order_id: String,
    pub amount: u64,
    pub status: EscrowStatus,
    pub created_at: i64,
    pub funded_at: Option<i64>,
    pub released_at: Option<i64>,
    pub refunded_at: Option<i64>,
    pub disputed_at: Option<i64>,
    pub resolved_at: Option<i64>,
    pub resolution_buyer_amount: Option<u64>,
    pub resolution_seller_amount: Option<u64>,
}

/// The custodial balance that backs one record.
#[derive(Clone, Copy, Debug, PartialEq, Eq, Structural)]
pub struct Vault {
    pub balance: u64,
}

impl Clone for Escrow {
    /// A copy of the record, equal to it in every field.
    fn clone(&self) -> (copy: Escrow)
        ensures
            copy == *self,
    {
        Escrow {
            buyer: self.buyer,
            seller: self.seller,
            platform: self.platform,
            order_id: self.order_id.clone(),
            amount: self.amount,
            status: self.status,
            created_at: self.created_at,
            funded_at: self.funded_at,
            released_at: self.released_at,
            refunded_at: self.refunded_at,
            disputed_at: self.disputed_at,
            resolved_at: self.resolved_at,
            resolution_buyer_amount: self.resolution_buyer_amount,
            resolution_seller_amount: self.resolution_seller_amount,
        }
    }
}

impl Escrow {
    /// Whether `who` is the party that plays `role` on this record.
    pub open spec fn plays(&self, who: Identity, role: Role) -> bool {
        match role {
            Role::Buyer => who@ == self.buyer@,
            Role::Seller => who@ == self.seller@,
            Role::Platform => who@ == self.platform@,
        }
    }

    /// Whether `who` plays some role that the authorization table allows
    /// to invoke `op`.
    pub open spec fn authorizes(&self, op: Operation, who: Identity) -> bool {
        ||| permits(op, Role::Buyer) && self.plays(who, Role::Buyer)
        ||| permits(op, Role::Seller) && self.plays(who, Role::Seller)
        ||| permits(op, Role::Platform) && self.plays(who, Role::Platform)
    }

    /// The terms fixed at creation agree between `self` and `other`.
    pub open spec fn same_terms(&self, other: &Escrow) -> bool {
        &&& self.buyer == other.buyer
        &&& self.seller == other.seller
        &&& self.platform == other.platform
        &&& self.order_id == other.order_id
        &&& self.amount == other.amount
        &&& self.created_at == other.created_at
    }

    /// The bookkeeping fields agree with the status: a timestamp is set
    /// exactly when its transition has fired, and the audit amounts are
    /// recorded exactly on resolved records and never exceed the amount.
    pub open spec fn well_formed(&self) -> bool {
        let s = self.status;
        &&& (self.funded_at is Some) == (s != EscrowStatus::Initialized)
        &&& (self.released_at is Some) == (s == EscrowStatus::Released)
        &&& (self.refunded_at is Some) == (s == EscrowStatus::Refunded)
        &&& (self.resolved_at is Some) == (s == EscrowStatus::Resolved)
        &&& (s == EscrowStatus::Disputed || s == EscrowStatus::Resolved) ==> self.disputed_at is Some
        &&& (self.disputed_at is Some) ==> (s == EscrowStatus::Disputed || s
            == EscrowStatus::Refunded || s == EscrowStatus::Resolved)
        &&& (self.resolution_buyer_amount is Some) == (s == EscrowStatus::Resolved)
        &&& (self.resolution_seller_amount is Some) == (s == EscrowStatus::Resolved)
        &&& s == EscrowStatus::Resolved ==> self.resolution_buyer_amount.unwrap()
            + self.resolution_seller_amount.unwrap() <= self.amount
    }

    /// Whether `who` plays `role` on this record.
    pub fn has_role(&self, who: &Identity, role: Role) -> (r: bool)
        ensures
            r == self.plays(*who, role),
    {
        match role {
            Role::Buyer => who.same(&self.buyer),
            Role::Seller => who.same(&self.seller),
            Role::Platform => who.same(&self.platform),
        }
    }

    /// Whether `who` may invoke `op` on this record.
    pub fn is_authorized(&self, op: Operation, who: &Identity) -> (r: bool)
        ensures
            r == self.authorizes(op, *who),
    {
        (role_allowed(op, Role::Buyer) && self.has_role(who, Role::Buyer)) || (role_allowed(
            op,
            Role::Seller,
        ) && self.has_role(who, Role::Seller)) || (role_allowed(op, Role::Platform)
            && self.has_role(who, Role::Platform))
    }
}

/// What the vault of a record in its status should hold: the agreed
/// amount while the record is funded or disputed, and nothing before
/// funding or after settlement.
pub open spec fn custody_of(escrow: &Escrow) -> nat {
    if escrow.status.holds_funds() {
        escrow.amount as nat
    } else {
        0
    }
}

/// The vault holds exactly what the record has in custody.
pub open spec fn in_custody(escrow: &Escrow, vault: &Vault) -> bool {
    vault.balance == custody_of(escrow)
}

/// Tests the custody invariant on a record and its vault.
pub fn check_custody(escrow: &Escrow, vault: &Vault) -> (r: bool)
    ensures
        r == in_custody(escrow, vault),
{
    if escrow.status.holds_funds() {
        vault.balance == escrow.amount
    } else {
        vault.balance == 0
    }
}

} // verus!
