//! The operations of the escrow state machine. Each one validates the
//! status, then the caller and the supplied party accounts, then its own
//! arguments; on success it settles, moves the vault's balance and
//! records the new status, and on failure it changes nothing.

use vstd::prelude::*;
use crate::accounts::{
    FundEscrow,
    InitializeEscrow,
    OpenDispute,
    RefundEscrow,
    ReleaseEscrow,
    ResolveDispute,
};
use crate::error::EscrowError;
use crate::record::{in_custody, Escrow, Vault};
use crate::settlement::{
    dispute_outcome,
    refund_outcome,
    release_outcome,
    settle_dispute,
    settle_refund,
    settle_release,
    Settlement,
    PLATFORM_FEE_BPS,
};
use crate::status::{next_status, transition, EscrowStatus, Operation};

verus! {

/// Whether funding is accepted, and the failure where it is not.
pub open spec fn fund_verdict(escrow: Escrow, accounts: FundEscrow, amount: u64) -> Result<
    (),
    EscrowError,
> {
    if next_status(escrow.status, Operation::Fund) is None {
        Err(EscrowError::InvalidStatus)
    } else if !escrow.authorizes(Operation::Fund, accounts.buyer) {
        Err(EscrowError::Unauthorized)
    } else if amount != escrow.amount {
        Err(EscrowError::InvalidAmount)
    } else {
        Ok(())
    }
}

/// The payouts of a release, or the failure where it is rejected.
pub open spec fn release_verdict(escrow: Escrow, accounts: ReleaseEscrow) -> Result<
    Settlement,
    EscrowError,
> {
    if next_status(escrow.status, Operation::Release) is None {
        Err(EscrowError::InvalidStatus)
    } else if !(escrow.authorizes(Operation::Release, accounts.authority) && accounts.seller@
        == escrow.seller@ && accounts.platform@ == escrow.platform@) {
        Err(EscrowError::Unauthorized)
    } else {
        release_outcome(escrow.amount, PLATFORM_FEE_BPS)
    }
}

/// The payouts of a refund, or the failure where it is rejected.
pub open spec fn refund_verdict(escrow: Escrow, accounts: RefundEscrow) -> Result<
    Settlement,
    EscrowError,
> {
    if next_status(escrow.status, Operation::Refund) is None {
        Err(EscrowError::InvalidStatus)
    } else if !(escrow.authorizes(Operation::Refund, accounts.authority) && accounts.buyer@
        == escrow.buyer@) {
        Err(EscrowError::Unauthorized)
    } else {
        Ok(refund_outcome(escrow.amount))
    }
}

/// Whether a dispute may be opened, and the failure where it may not.
pub open spec fn dispute_verdict(escrow: Escrow, accounts: OpenDispute) -> Result<
    (),
    EscrowError,
> {
    if next_status(escrow.status, Operation::OpenDispute) is None {
        Err(EscrowError::InvalidStatus)
    } else if !escrow.authorizes(Operation::OpenDispute, accounts.authority) {
        Err(EscrowError::Unauthorized)
    } else {
        Ok(())
    }
}

/// The payouts of an arbitrated split, or the failure where it is
/// rejected.
pub open spec fn resolve_verdict(
    escrow: Escrow,
    accounts: ResolveDispute,
    buyer_percentage: u8,
) -> Result<Settlement, EscrowError> {
    if next_status(escrow.status, Operation::ResolveDispute) is None {
        Err(EscrowError::InvalidStatus)
    } else if !(escrow.authorizes(Operation::ResolveDispute, accounts.platform) && accounts.buyer@
        == escrow.buyer@ && accounts.seller@ == escrow.seller@) {
        Err(EscrowError::Unauthorized)
    } else {
        dispute_outcome(escrow.amount, buyer_percentage, PLATFORM_FEE_BPS)
    }
}

/// The record after funding at time `now`.
pub open spec fn funded(escrow: Escrow, now: i64) -> Escrow {
    Escrow { status: EscrowStatus::Funded, funded_at: Some(now), ..escrow }
}

/// The record after release at time `now`.
pub open spec fn released(escrow: Escrow, now: i64) -> Escrow {
    Escrow { status: EscrowStatus::Released, released_at: Some(now), ..escrow }
}

/// The record after a refund at time `now`.
pub open spec fn refunded(escrow: Escrow, now: i64) -> Escrow {
    Escrow { status: EscrowStatus::Refunded, refunded_at: Some(now), ..escrow }
}

/// The record after a dispute was opened at time `now`.
pub open spec fn disputed(escrow: Escrow, now: i64) -> Escrow {
    Escrow { status: EscrowStatus::Disputed, disputed_at: Some(now), ..escrow }
}

/// The record after arbitration at time `now` paid out `settlement`.
pub open spec fn resolved(escrow: Escrow, settlement: Settlement, now: i64) -> Escrow {
    Escrow {
        status: EscrowStatus::Resolved,
        resolved_at: Some(now),
        resolution_buyer_amount: Some(settlement.buyer_amount),
        resolution_seller_amount: Some(settlement.seller_amount),
        ..escrow
    }
}

/// Creates the record for an order, in `Initialized`, together with its
/// empty vault. Fails with `InvalidInput` exactly when a record for the
/// order already exists.
pub fn initialize_escrow(
    accounts: &InitializeEscrow,
    order_id: String,
    amount: u64,
    now: i64,
) -> (r: Result<(Escrow, Vault), EscrowError>)
    ensures
        accounts.record_exists ==> r == Err::<(Escrow, Vault), EscrowError>(
            EscrowError::InvalidInput,
        ),
        !accounts.record_exists ==> r == Ok::<(Escrow, Vault), EscrowError>(
            (
                (Escrow {
                    buyer: accounts.buyer,
                    seller: accounts.seller,
                    platform: accounts.platform,
                    order_id: order_id,
                    amount: amount,
                    status: EscrowStatus::Initialized,
                    created_at: now,
                    funded_at: None,
                    released_at: None,
                    refunded_at: None,
                    disputed_at: None,
                    resolved_at: None,
                    resolution_buyer_amount: None,
                    resolution_seller_amount: None,
                }),
                (Vault { balance: 0 }),
            ),
        ),
        r matches Ok((escrow, vault)) ==> escrow.well_formed() && in_custody(&escrow, &vault),
{
    if accounts.record_exists {
        return Err(EscrowError::InvalidInput);
    }
    let escrow = Escrow {
        buyer: accounts.buyer,
        seller: accounts.seller,
        platform: accounts.platform,
        order_id: order_id,
        amount: amount,
        status: EscrowStatus::Initialized,
        created_at: now,
        funded_at: None,
        released_at: None,
        refunded_at: None,
        disputed_at: None,
        resolved_at: None,
        resolution_buyer_amount: None,
        resolution_seller_amount: None,
    };
    Ok((escrow, Vault { balance: 0 }))
}

/// The buyer deposits the agreed amount: the vault receives it and the
/// record becomes `Funded`.
pub fn fund_escrow(
    escrow: &mut Escrow,
    vault: &mut Vault,
    accounts: &FundEscrow,
    amount: u64,
    now: i64,
) -> (r: Result<(), EscrowError>)
    requires
        in_custody(old(escrow), old(vault)),
    ensures
        r == fund_verdict(*old(escrow), *accounts, amount),
        r is Err ==> *final(escrow) == *old(escrow) && *final(vault) == *old(vault),
        r is Ok ==> *final(escrow) == funded(*old(escrow), now),
        r is Ok ==> final(vault).balance == old(vault).balance + amount,
        in_custody(final(escrow), final(vault)),
        old(escrow).well_formed() ==> final(escrow).well_formed(),
{
    let next = match transition(escrow.status, Operation::Fund) {
        Some(next) => next,
        None => { return Err(EscrowError::InvalidStatus); },
    };
    if !escrow.is_authorized(Operation::Fund, &accounts.buyer) {
        return Err(EscrowError::Unauthorized);
    }
    if amount != escrow.amount {
        return Err(EscrowError::InvalidAmount);
    }
    vault.balance = vault.balance + amount;
    escrow.status = next;
    escrow.funded_at = Some(now);
    Ok(())
}

/// Pays the seller the amount less the platform fee, and the platform
/// its fee: the vault is emptied and the record becomes `Released`.
pub fn release_escrow(
    escrow: &mut Escrow,
    vault: &mut Vault,
    accounts: &ReleaseEscrow,
    now: i64,
) -> (r: Result<Settlement, EscrowError>)
    requires
        in_custody(old(escrow), old(vault)),
    ensures
        r == release_verdict(*old(escrow), *accounts),
        r is Err ==> *final(escrow) == *old(escrow) && *final(vault) == *old(vault),
        r matches Ok(s) ==> *final(escrow) == released(*old(escrow), now),
        r matches Ok(s) ==> s.total() == old(escrow).amount,
        r matches Ok(s) ==> final(vault).balance + s.total() == old(vault).balance,
        in_custody(final(escrow), final(vault)),
        old(escrow).well_formed() ==> final(escrow).well_formed(),
{
    let next = match transition(escrow.status, Operation::Release) {
        Some(next) => next,
        None => { return Err(EscrowError::InvalidStatus); },
    };
    if !(escrow.is_authorized(Operation::Release, &accounts.authority) && accounts.seller.same(
        &escrow.seller,
    ) && accounts.platform.same(&escrow.platform)) {
        return Err(EscrowError::Unauthorized);
    }
    let settlement = match settle_release(escrow.amount, PLATFORM_FEE_BPS) {
        Ok(settlement) => settlement,
        Err(e) => { return Err(e); },
    };
    vault.balance = vault.balance - settlement.seller_amount;
    vault.balance = vault.balance - settlement.fee;
    escrow.status = next;
    escrow.released_at = Some(now);
    Ok(settlement)
}

/// Returns the whole amount to the buyer, with no fee: the vault is
/// emptied and the record becomes `Refunded`.
pub fn refund_escrow(
    escrow: &mut Escrow,
    vault: &mut Vault,
    accounts: &RefundEscrow,
    now: i64,
) -> (r: Result<Settlement, EscrowError>)
    requires
        in_custody(old(escrow), old(vault)),
    ensures
        r == refund_verdict(*old(escrow), *accounts),
        r is Err ==> *final(escrow) == *old(escrow) && *final(vault) == *old(vault),
        r matches Ok(s) ==> *final(escrow) == refunded(*old(escrow), now),
        r matches Ok(s) ==> s.total() == old(escrow).amount,
        r matches Ok(s) ==> final(vault).balance + s.total() == old(vault).balance,
        in_custody(final(escrow), final(vault)),
        old(escrow).well_formed() ==> final(escrow).well_formed(),
{
    let next = match transition(escrow.status, Operation::Refund) {
        Some(next) => next,
        None => { return Err(EscrowError::InvalidStatus); },
    };
    if !(escrow.is_authorized(Operation::Refund, &accounts.authority) && accounts.buyer.same(
        &escrow.buyer,
    )) {
        return Err(EscrowError::Unauthorized);
    }
    let settlement = settle_refund(escrow.amount);
    vault.balance = vault.balance - settlement.buyer_amount;
    escrow.status = next;
    escrow.refunded_at = Some(now);
    Ok(settlement)
}

/// Marks a funded record as `Disputed`. No value moves.
pub fn open_dispute(escrow: &mut Escrow, accounts: &OpenDispute, now: i64) -> (r: Result<
    (),
    EscrowError,
>)
    ensures
        r == dispute_verdict(*old(escrow), *accounts),
        r is Err ==> *final(escrow) == *old(escrow),
        r is Ok ==> *final(escrow) == disputed(*old(escrow), now),
        final(escrow).status.holds_funds() == old(escrow).status.holds_funds(),
        old(escrow).well_formed() ==> final(escrow).well_formed(),
{
    let next = match transition(escrow.status, Operation::OpenDispute) {
        Some(next) => next,
        None => { return Err(EscrowError::InvalidStatus); },
    };
    if !escrow.is_authorized(Operation::OpenDispute, &accounts.authority) {
        return Err(EscrowError::Unauthorized);
    }
    escrow.status = next;
    escrow.disputed_at = Some(now);
    Ok(())
}

/// The platform splits a disputed amount: the buyer receives
/// `buyer_percentage` percent, the seller the remainder less the fee on
/// it. The vault is emptied, the record becomes `Resolved` and keeps the
/// two parties' amounts for audit.
pub fn resolve_dispute(
    escrow: &mut Escrow,
    vault: &mut Vault,
    accounts: &ResolveDispute,
    buyer_percentage: u8,
    now: i64,
) -> (r: Result<Settlement, EscrowError>)
    requires
        in_custody(old(escrow), old(vault)),
    ensures
        r == resolve_verdict(*old(escrow), *accounts, buyer_percentage),
        r is Err ==> *final(escrow) == *old(escrow) && *final(vault) == *old(vault),
        r matches Ok(s) ==> *final(escrow) == resolved(*old(escrow), s, now),
        r matches Ok(s) ==> s.total() == old(escrow).amount,
        r matches Ok(s) ==> final(vault).balance + s.total() == old(vault).balance,
        in_custody(final(escrow), final(vault)),
        old(escrow).well_formed() ==> final(escrow).well_formed(),
{
    let next = match transition(escrow.status, Operation::ResolveDispute) {
        Some(next) => next,
        None => { return Err(EscrowError::InvalidStatus); },
    };
    if !(escrow.is_authorized(Operation::ResolveDispute, &accounts.platform) && accounts.buyer.same(
        &escrow.buyer,
    ) && accounts.seller.same(&escrow.seller)) {
        return Err(EscrowError::Unauthorized);
    }
    let settlement = match settle_dispute(escrow.amount, buyer_percentage, PLATFORM_FEE_BPS) {
        Ok(settlement) => settlement,
        Err(e) => { return Err(e); },
    };
    vault.balance = vault.balance - settlement.buyer_amount;
    vault.balance = vault.balance - settlement.seller_amount;
    vault.balance = vault.balance - settlement.fee;
    escrow.status = next;
    escrow.resolved_at = Some(now);
    escrow.resolution_buyer_amount = Some(settlement.buyer_amount);
    escrow.resolution_seller_amount = Some(settlement.seller_amount);
    Ok(settlement)
}

} // verus!
