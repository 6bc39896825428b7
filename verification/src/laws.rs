//! Properties of the state machine as a whole, proved from the contracts
//! of its operations.

use vstd::prelude::*;
use crate::error::EscrowError;
use crate::identity::Identity;
use crate::machine::{disbursed, replay, successor, verdict, Call, TimedCall};
use crate::record::{custody_of, Escrow};
use crate::settlement::{
    dispute_outcome,
    fee_of,
    lemma_fraction_bounded,
    release_outcome,
    Settlement,
    PLATFORM_FEE_BPS,
};
use crate::status::{next_status, EscrowStatus, Operation};

verus! {

/// An accepted call moves the record along the transition table and
/// pays out either nothing or exactly the agreed amount; a rejected call
/// changes nothing and pays nothing. The terms fixed at creation never
/// change.
pub proof fn lemma_step(escrow: Escrow, call: Call, now: i64)
    ensures
        successor(escrow, call, now).same_terms(&escrow),
        verdict(escrow, call) is Err ==> successor(escrow, call, now) == escrow && disbursed(
            escrow,
            call,
        ) == 0,
        verdict(escrow, call) is Ok ==> next_status(escrow.status, call.operation()) == Some(
            successor(escrow, call, now).status,
        ),
        verdict(escrow, call) is Ok ==> disbursed(escrow, call) == (if successor(
            escrow,
            call,
            now,
        ).status.is_terminal() {
            escrow.amount as nat
        } else {
            0
        }),
        escrow.well_formed() ==> successor(escrow, call, now).well_formed(),
{
    lemma_settlements_conserve(escrow.amount, 0);
    match call {
        Call::ResolveDispute { accounts, buyer_percentage } => {
            lemma_settlements_conserve(escrow.amount, buyer_percentage);
        },
        _ => {},
    }
}

/// Whatever a release or an arbitrated split pays out adds up to the
/// amount in custody.
pub proof fn lemma_settlements_conserve(amount: u64, buyer_percentage: u8)
    ensures
        release_outcome(amount, PLATFORM_FEE_BPS) matches Ok(s) ==> s.total() == amount,
        dispute_outcome(amount, buyer_percentage, PLATFORM_FEE_BPS) matches Ok(s) ==> s.total()
            == amount,
{
    if buyer_percentage <= 100 && amount * buyer_percentage <= u64::MAX {
        lemma_fraction_bounded(amount as nat, buyer_percentage as nat, 100);
    }
}

/// Fund conservation: over any sequence of calls on a record that has
/// not been settled yet, the value moved out of the vault is nothing
/// while the record is not in a terminal status, and exactly the agreed
/// amount once it is. The terms fixed at creation are those of the
/// outset.
pub proof fn lemma_fund_conservation(escrow: Escrow, calls: Seq<TimedCall>)
    requires
        !escrow.status.is_terminal(),
    ensures
        replay(escrow, calls).0.same_terms(&escrow),
        replay(escrow, calls).1 == (if replay(escrow, calls).0.status.is_terminal() {
            escrow.amount as nat
        } else {
            0
        }),
    decreases calls.len(),
{
    if calls.len() > 0 {
        lemma_fund_conservation(escrow, calls.drop_last());
        let (before, paid) = replay(escrow, calls.drop_last());
        let (call, now) = calls.last();
        lemma_step(before, call, now);
    }
}

/// Nothing leaks and nothing is overpaid: whatever calls are made on a
/// new record, what its vault holds and what was paid out of it add up
/// to what was deposited, which is nothing before funding and the agreed
/// amount from then on.
pub proof fn lemma_ledger_balances(escrow: Escrow, calls: Seq<TimedCall>)
    requires
        escrow.status == EscrowStatus::Initialized,
    ensures
        custody_of(&replay(escrow, calls).0) + replay(escrow, calls).1 == (if replay(
            escrow,
            calls,
        ).0.status == EscrowStatus::Initialized {
            0
        } else {
            escrow.amount as nat
        }),
    decreases calls.len(),
{
    lemma_fund_conservation(escrow, calls);
    if calls.len() > 0 {
        lemma_ledger_balances(escrow, calls.drop_last());
        lemma_fund_conservation(escrow, calls.drop_last());
        let (before, paid) = replay(escrow, calls.drop_last());
        let (call, now) = calls.last();
        lemma_step(before, call, now);
    }
}

/// A well-formed record stays well-formed over any sequence of calls.
pub proof fn lemma_replay_well_formed(escrow: Escrow, calls: Seq<TimedCall>)
    requires
        escrow.well_formed(),
    ensures
        replay(escrow, calls).0.well_formed(),
    decreases calls.len(),
{
    if calls.len() > 0 {
        lemma_replay_well_formed(escrow, calls.drop_last());
        let (before, paid) = replay(escrow, calls.drop_last());
        let (call, now) = calls.last();
        lemma_step(before, call, now);
    }
}

/// Whether some operation leads from `from` to `to`.
pub open spec fn linked(from: EscrowStatus, to: EscrowStatus) -> bool {
    ||| next_status(from, Operation::Fund) == Some(to)
    ||| next_status(from, Operation::Release) == Some(to)
    ||| next_status(from, Operation::Refund) == Some(to)
    ||| next_status(from, Operation::OpenDispute) == Some(to)
    ||| next_status(from, Operation::ResolveDispute) == Some(to)
}

/// Whether `path` is a lifecycle: it starts at `Initialized`, and each
/// status follows from the one before by some operation.
pub open spec fn is_lifecycle(path: Seq<EscrowStatus>) -> bool {
    &&& path.len() > 0
    &&& path[0] == EscrowStatus::Initialized
    &&& forall|i: int| 0 <= i < path.len() - 1 ==> linked(#[trigger] path[i], path[i + 1])
}

/// State reachability: a lifecycle that ends in `Resolved` is
/// `Initialized`, `Funded`, `Disputed`, `Resolved`; one that ends in
/// `Released` is `Initialized`, `Funded`, `Released`; and no lifecycle
/// goes on after a terminal status.
pub proof fn lemma_reachability(path: Seq<EscrowStatus>)
    requires
        is_lifecycle(path),
    ensures
        path.last() == EscrowStatus::Resolved ==> path == seq![
            EscrowStatus::Initialized,
            EscrowStatus::Funded,
            EscrowStatus::Disputed,
            EscrowStatus::Resolved,
        ],
        path.last() == EscrowStatus::Released ==> path == seq![
            EscrowStatus::Initialized,
            EscrowStatus::Funded,
            EscrowStatus::Released,
        ],
        forall|i: int| 0 <= i < path.len() - 1 ==> !(#[trigger] path[i]).is_terminal(),
        path.len() <= 4,
{
    if path.len() > 1 {
        assert(linked(path[0], path[1]));
    }
    if path.len() > 2 {
        assert(linked(path[1], path[2]));
    }
    if path.len() > 3 {
        assert(linked(path[2], path[3]));
    }
    if path.len() > 4 {
        assert(linked(path[3], path[4]));
    }
    if path.last() == EscrowStatus::Resolved {
        assert(path =~= seq![
            EscrowStatus::Initialized,
            EscrowStatus::Funded,
            EscrowStatus::Disputed,
            EscrowStatus::Resolved,
        ]);
    }
    if path.last() == EscrowStatus::Released {
        assert(path =~= seq![
            EscrowStatus::Initialized,
            EscrowStatus::Funded,
            EscrowStatus::Released,
        ]);
    }
}

/// The statuses that a record passes through over a sequence of calls:
/// its status at the outset, then the status after each accepted call.
pub open spec fn trail(escrow: Escrow, calls: Seq<TimedCall>) -> Seq<EscrowStatus>
    decreases calls.len(),
{
    if calls.len() == 0 {
        seq![escrow.status]
    } else {
        let before = replay(escrow, calls.drop_last()).0;
        let (call, now) = calls.last();
        if verdict(before, call) is Ok {
            trail(escrow, calls.drop_last()).push(successor(before, call, now).status)
        } else {
            trail(escrow, calls.drop_last())
        }
    }
}

/// The statuses that a new record passes through, whatever calls are
/// made on it, form a lifecycle that ends in its current status.
pub proof fn lemma_trail_is_lifecycle(escrow: Escrow, calls: Seq<TimedCall>)
    requires
        escrow.status == EscrowStatus::Initialized,
    ensures
        is_lifecycle(trail(escrow, calls)),
        trail(escrow, calls).last() == replay(escrow, calls).0.status,
    decreases calls.len(),
{
    if calls.len() > 0 {
        lemma_trail_is_lifecycle(escrow, calls.drop_last());
        let before = replay(escrow, calls.drop_last()).0;
        let (call, now) = calls.last();
        lemma_step(before, call, now);
        let earlier = trail(escrow, calls.drop_last());
        let path = trail(escrow, calls);
        if verdict(before, call) is Ok {
            assert forall|i: int| 0 <= i < path.len() - 1 implies linked(
                #[trigger] path[i],
                path[i + 1],
            ) by {
                if i < earlier.len() - 1 {
                    assert(linked(earlier[i], earlier[i + 1]));
                }
            }
        }
    }
}

/// A release is rejected with `InvalidStatus` on every record that is
/// not `Funded`, whoever asks.
pub proof fn lemma_release_needs_funded(escrow: Escrow, call: Call)
    requires
        call.operation() == Operation::Release,
        escrow.status != EscrowStatus::Funded,
    ensures
        verdict(escrow, call) == Err::<Settlement, EscrowError>(EscrowError::InvalidStatus),
{
}

/// The callers that each operation admits, by the parties stored on the
/// record.
pub proof fn lemma_allowed_callers(escrow: Escrow, who: Identity)
    ensures
        escrow.authorizes(Operation::Fund, who) <==> who@ == escrow.buyer@,
        escrow.authorizes(Operation::Release, who) <==> (who@ == escrow.buyer@ || who@
            == escrow.platform@),
        escrow.authorizes(Operation::Refund, who) <==> (who@ == escrow.seller@ || who@
            == escrow.platform@),
        escrow.authorizes(Operation::OpenDispute, who) <==> (who@ == escrow.buyer@ || who@
            == escrow.seller@),
        escrow.authorizes(Operation::ResolveDispute, who) <==> who@ == escrow.platform@,
{
}

/// Authorization enforcement: a call by an identity that the operation
/// does not admit is rejected, changes nothing and pays nothing. The
/// failure is `Unauthorized` wherever the record's status permits the
/// operation, and `InvalidStatus` where it does not.
pub proof fn lemma_unauthorized_is_rejected(escrow: Escrow, call: Call, now: i64)
    requires
        !escrow.authorizes(call.operation(), call.caller()),
    ensures
        verdict(escrow, call) == Err::<Settlement, EscrowError>(
            if next_status(escrow.status, call.operation()) is Some {
                EscrowError::Unauthorized
            } else {
                EscrowError::InvalidStatus
            },
        ),
        successor(escrow, call, now) == escrow,
        disbursed(escrow, call) == 0,
{
}

/// Terminal statuses are final: every call on a record that is
/// `Released`, `Refunded` or `Resolved` is rejected with
/// `InvalidStatus`, changes nothing and pays nothing.
pub proof fn lemma_terminal_is_final(escrow: Escrow, call: Call, now: i64)
    requires
        escrow.status.is_terminal(),
    ensures
        verdict(escrow, call) == Err::<Settlement, EscrowError>(EscrowError::InvalidStatus),
        successor(escrow, call, now) == escrow,
        disbursed(escrow, call) == 0,
{
}

/// At the platform's rate the fee never exceeds its base, so a release
/// fails only where the product of amount and rate leaves 64 bits.
pub proof fn lemma_release_succeeds(amount: u64)
    ensures
        release_outcome(amount, PLATFORM_FEE_BPS) is Ok <==> amount * PLATFORM_FEE_BPS
            <= u64::MAX,
        release_outcome(amount, PLATFORM_FEE_BPS) matches Ok(s) ==> s.buyer_amount == 0 && s.fee
            == fee_of(amount as nat, PLATFORM_FEE_BPS as nat) && s.seller_amount == amount
            - s.fee,
{
    lemma_fraction_bounded(amount as nat, PLATFORM_FEE_BPS as nat, 10000);
}

/// Boundary percentages: at 0 percent the buyer receives nothing and
/// the seller is paid as by a release; at 100 percent the buyer receives
/// everything and neither seller nor platform anything; above 100 the
/// split is rejected with `InvalidPercentage`.
pub proof fn lemma_boundary_percentages(amount: u64, buyer_percentage: u8)
    ensures
        dispute_outcome(amount, 0, PLATFORM_FEE_BPS) == release_outcome(amount, PLATFORM_FEE_BPS),
        amount * 100 <= u64::MAX ==> dispute_outcome(amount, 100, PLATFORM_FEE_BPS) == Ok::<
            Settlement,
            EscrowError,
        >(Settlement { buyer_amount: amount, seller_amount: 0, fee: 0 }),
        buyer_percentage > 100 ==> dispute_outcome(amount, buyer_percentage, PLATFORM_FEE_BPS)
            == Err::<Settlement, EscrowError>(EscrowError::InvalidPercentage),
{
    assert((amount * 0) / 100 == 0) by (nonlinear_arith);
    assert((amount * 100) / 100 == amount) by (nonlinear_arith);
    assert((0 * 1000) / 10000 == 0) by (nonlinear_arith);
}

} // verus!
