//! What each operation is invoked with: the authenticated caller and the
//! party accounts supplied alongside the record.

use vstd::prelude::*;
use crate::identity::Identity;

verus! {

/// Creation of a record. The buyer is the invoking identity.
#[derive(Clone, Copy, Debug)]
pub struct InitializeEscrow {
    pub buyer: Identity,
    pub seller: Identity,
    pub platform: Identity,
    /// Whether the storage allocator already holds a record for the order.
    pub record_exists: bool,
}

/// Funding of a record by `buyer`, the invoking identity.
#[derive(Clone, Copy, Debug)]
pub struct FundEscrow {
    pub buyer: Identity,
}

/// Release to the seller, invoked by `authority`; `seller` and
/// `platform` are the accounts to be paid.
#[derive(Clone, Copy, Debug)]
pub struct ReleaseEscrow {
    pub authority: Identity,
    pub seller: Identity,
    pub platform: Identity,
}

/// Refund to the buyer, invoked by `authority`; `buyer` is the account
/// to be paid.
#[derive(Clone, Copy, Debug)]
pub struct RefundEscrow {
    pub authority: Identity,
    pub buyer: Identity,
}

/// Opening of a dispute, invoked by `authority`.
#[derive(Clone, Copy, Debug)]
pub struct OpenDispute {
    pub authority: Identity,
}

/// Arbitration, invoked by `platform`; `buyer` and `seller` are the
/// accounts to be paid.
#[derive(Clone, Copy, Debug)]
pub struct ResolveDispute {
    pub platform: Identity,
    pub buyer: Identity,
    pub seller: Identity,
}

} // verus!
