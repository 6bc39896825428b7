//! The value transfers that carry out a settlement.

use vstd::prelude::*;
use crate::identity::Identity;
use crate::record::Escrow;
use crate::settlement::Settlement;

verus! {

/// An instruction to move `amount` out of the vault to `recipient`.
#[derive(Clone, Copy, Debug, PartialEq, Eq)]
pub struct Transfer {
    pub recipient: Identity,
    pub amount: u64,
}

/// The sum of the amounts of `transfers`.
pub open spec fn transfers_total(transfers: Seq<Transfer>) -> nat
    decreases transfers.len(),
{
    if transfers.len() == 0 {
        0
    } else {
        transfers_total(transfers.drop_last()) + transfers.last().amount as nat
    }
}

/// The transfer of `amount` to `recipient`, or nothing where the amount
/// is zero.
pub open spec fn leg(recipient: Identity, amount: u64) -> Seq<Transfer> {
    if amount > 0 {
        seq![Transfer { recipient, amount }]
    } else {
        Seq::empty()
    }
}

/// The transfers that pay `settlement` to the parties of `escrow`: the
/// buyer first, then the seller, then the platform, zero amounts left
/// out.
pub open spec fn payout_plan(escrow: Escrow, settlement: Settlement) -> Seq<Transfer> {
    leg(escrow.buyer, settlement.buyer_amount) + leg(escrow.seller, settlement.seller_amount)
        + leg(escrow.platform, settlement.fee)
}

/// Appending a transfer adds its amount to the total.
pub proof fn lemma_total_push(transfers: Seq<Transfer>, transfer: Transfer)
    ensures
        transfers_total(transfers.push(transfer)) == transfers_total(transfers) + transfer.amount,
{
    assert(transfers.push(transfer).drop_last() =~= transfers);
}

/// Lists the transfers that carry out `settlement` on `escrow`. There
/// are at most three, and together they move exactly the settlement's
/// total.
pub fn payouts(escrow: &Escrow, settlement: &Settlement) -> (transfers: Vec<Transfer>)
    ensures
        transfers@ == payout_plan(*escrow, *settlement),
        transfers_total(transfers@) == settlement.total(),
        transfers@.len() <= 3,
{
    let mut transfers: Vec<Transfer> = Vec::new();
    if settlement.buyer_amount > 0 {
        let transfer = Transfer { recipient: escrow.buyer, amount: settlement.buyer_amount };
        proof {
            lemma_total_push(transfers@, transfer);
        }
        transfers.push(transfer);
    }
    assert(transfers@ =~= leg(escrow.buyer, settlement.buyer_amount));
    if settlement.seller_amount > 0 {
        let transfer = Transfer { recipient: escrow.seller, amount: settlement.seller_amount };
        proof {
            lemma_total_push(transfers@, transfer);
        }
        transfers.push(transfer);
    }
    assert(transfers@ =~= leg(escrow.buyer, settlement.buyer_amount) + leg(
        escrow.seller,
        settlement.seller_amount,
    ));
    if settlement.fee > 0 {
        let transfer = Transfer { recipient: escrow.platform, amount: settlement.fee };
        proof {
            lemma_total_push(transfers@, transfer);
        }
        transfers.push(transfer);
    }
    assert(transfers@ =~= payout_plan(*escrow, *settlement));
    transfers
}

} // verus!
