//! The state machine as one step function: a call is applied to a record
//! and its vault, and yields the payouts to carry out or the reason for
//! the rejection.

use vstd::prelude::*;
use crate::accounts::{FundEscrow, OpenDispute, RefundEscrow, ReleaseEscrow, ResolveDispute};
use crate::error::EscrowError;
use crate::identity::Identity;
use crate::operations::{
    dispute_verdict,
    disputed,
    fund_escrow,
    fund_verdict,
    funded,
    open_dispute,
    refund_escrow,
    refund_verdict,
    refunded,
    release_escrow,
    release_verdict,
    released,
    resolve_dispute,
    resolve_verdict,
    resolved,
};
use crate::record::{in_custody, Escrow, Vault};
use crate::settlement::Settlement;
use crate::status::Operation;

verus! {

/// One invocation of an operation on an existing record.
#[derive(Clone, Copy, Debug)]
#[allow(inconsistent_fields)]
pub enum Call {
    Fund { accounts: FundEscrow, amount: u64 },
    Release { accounts: ReleaseEscrow },
    Refund { accounts: RefundEscrow },
    OpenDispute { accounts: OpenDispute },
    ResolveDispute { accounts: ResolveDispute, buyer_percentage: u8 },
}

/// One call together with the time at which it is made.
pub type TimedCall = (Call, i64);

impl Call {
    /// The operation that the call invokes.
    pub open spec fn operation(&self) -> Operation {
        match *self {
            Call::Fund { .. } => Operation::Fund,
            Call::Release { .. } => Operation::Release,
            Call::Refund { .. } => Operation::Refund,
            Call::OpenDispute { .. } => Operation::OpenDispute,
            Call::ResolveDispute { .. } => Operation::ResolveDispute,
        }
    }

    /// The authenticated identity that makes the call.
    pub open spec fn caller(&self) -> Identity {
        match *self {
            Call::Fund { accounts, .. } => accounts.buyer,
            Call::Release { accounts } => accounts.authority,
            Call::Refund { accounts } => accounts.authority,
            Call::OpenDispute { accounts } => accounts.authority,
            Call::ResolveDispute { accounts, .. } => accounts.platform,
        }
    }
}

/// A settlement that pays nobody.
pub open spec fn no_payout() -> Settlement {
    Settlement { buyer_amount: 0, seller_amount: 0, fee: 0 }
}

/// What `call` yields on `escrow`: the payouts out of the vault where it
/// is accepted (none for funding and for opening a dispute), the failure
/// where it is rejected.
pub open spec fn verdict(escrow: Escrow, call: Call) -> Result<Settlement, EscrowError> {
    match call {
        Call::Fund { accounts, amount } => match fund_verdict(escrow, accounts, amount) {
            Ok(_) => Ok(no_payout()),
            Err(e) => Err(e),
        },
        Call::Release { accounts } => release_verdict(escrow, accounts),
        Call::Refund { accounts } => refund_verdict(escrow, accounts),
        Call::OpenDispute { accounts } => match dispute_verdict(escrow, accounts) {
            Ok(_) => Ok(no_payout()),
            Err(e) => Err(e),
        },
        Call::ResolveDispute { accounts, buyer_percentage } => resolve_verdict(
            escrow,
            accounts,
            buyer_percentage,
        ),
    }
}

/// The record after `call` was made at time `now`: unchanged where the
/// call is rejected.
pub open spec fn successor(escrow: Escrow, call: Call, now: i64) -> Escrow {
    match verdict(escrow, call) {
        Err(_) => escrow,
        Ok(settlement) => match call {
            Call::Fund { .. } => funded(escrow, now),
            Call::Release { .. } => released(escrow, now),
            Call::Refund { .. } => refunded(escrow, now),
            Call::OpenDispute { .. } => disputed(escrow, now),
            Call::ResolveDispute { .. } => resolved(escrow, settlement, now),
        },
    }
}

/// The value that `call` moves out of the vault: nothing where the call
/// is rejected.
pub open spec fn disbursed(escrow: Escrow, call: Call) -> nat {
    match verdict(escrow, call) {
        Err(_) => 0,
        Ok(settlement) => settlement.total(),
    }
}

/// The record after a sequence of calls, in order, and the value moved
/// out of the vault by all of them together.
pub open spec fn replay(escrow: Escrow, calls: Seq<TimedCall>) -> (Escrow, nat)
    decreases calls.len(),
{
    if calls.len() == 0 {
        (escrow, 0)
    } else {
        let (before, paid) = replay(escrow, calls.drop_last());
        let (call, now) = calls.last();
        (successor(before, call, now), paid + disbursed(before, call))
    }
}

/// Applies `call` to the record and its vault at time `now`.
pub fn invoke(escrow: &mut Escrow, vault: &mut Vault, call: &Call, now: i64) -> (r: Result<
    Settlement,
    EscrowError,
>)
    requires
        in_custody(old(escrow), old(vault)),
    ensures
        r == verdict(*old(escrow), *call),
        *final(escrow) == successor(*old(escrow), *call, now),
        r is Err ==> *final(vault) == *old(vault),
        in_custody(final(escrow), final(vault)),
        old(escrow).well_formed() ==> final(escrow).well_formed(),
{
    match call {
        Call::Fund { accounts, amount } => match fund_escrow(escrow, vault, accounts, *amount, now) {
            Ok(_) => Ok(Settlement { buyer_amount: 0, seller_amount: 0, fee: 0 }),
            Err(e) => Err(e),
        },
        Call::Release { accounts } => release_escrow(escrow, vault, accounts, now),
        Call::Refund { accounts } => refund_escrow(escrow, vault, accounts, now),
        Call::OpenDispute { accounts } => match open_dispute(escrow, accounts, now) {
            Ok(_) => Ok(Settlement { buyer_amount: 0, seller_amount: 0, fee: 0 }),
            Err(e) => Err(e),
        },
        Call::ResolveDispute { accounts, buyer_percentage } => resolve_dispute(
            escrow,
            vault,
            accounts,
            *buyer_percentage,
            now,
        ),
    }
}

} // verus!
