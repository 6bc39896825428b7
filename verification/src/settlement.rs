//! Settlement arithmetic: how a custodied amount splits into payouts and
//! the platform fee. Pure functions on non-negative integers; a product
//! that does not fit in 64 bits is an error, never wrapped.

use vstd::prelude::*;
use crate::error::EscrowError;

verus! {

/// The platform's fee rate, in basis points (10%).
pub const PLATFORM_FEE_BPS: u64 = 1000;

/// Basis points in a whole.
pub const BPS_DENOMINATOR: u64 = 10000;

/// Percent in a whole.
pub const PERCENT_DENOMINATOR: u64 = 100;

/// What each party receives when a record is settled.
#[derive(Clone, Copy, Debug, PartialEq, Eq, Structural)]
pub struct Settlement {
    /// Paid to the buyer.
    pub buyer_amount: u64,
    /// Paid to the seller, net of the fee.
    pub seller_amount: u64,
    /// Paid to the platform.
    pub fee: u64,
}

impl Settlement {
    /// The sum of the three payouts.
    pub open spec fn total(&self) -> nat {
        (self.buyer_amount + self.seller_amount + self.fee) as nat
    }
}

/// The fee on `base` at `fee_bps` basis points, rounded down.
pub open spec fn fee_of(base: nat, fee_bps: nat) -> nat {
    (base * fee_bps) / (BPS_DENOMINATOR as nat)
}

/// `percentage` percent of `amount`, rounded down.
pub open spec fn share_of(amount: nat, percentage: nat) -> nat {
    (amount * percentage) / (PERCENT_DENOMINATOR as nat)
}

/// The fee computation: overflow where the product leaves 64 bits.
pub open spec fn fee_outcome(base: u64, fee_bps: u64) -> Result<u64, EscrowError> {
    if base * fee_bps > u64::MAX {
        Err(EscrowError::ArithmeticOverflow)
    } else {
        Ok(fee_of(base as nat, fee_bps as nat) as u64)
    }
}

/// The split of a released amount between seller and platform. A fee
/// that exceeds the amount cannot be deducted and counts as overflow.
pub open spec fn release_outcome(amount: u64, fee_bps: u64) -> Result<Settlement, EscrowError> {
    match fee_outcome(amount, fee_bps) {
        Err(e) => Err(e),
        Ok(fee) => if fee > amount {
            Err(EscrowError::ArithmeticOverflow)
        } else {
            Ok(Settlement { buyer_amount: 0, seller_amount: (amount - fee) as u64, fee })
        },
    }
}

/// A refund returns the whole amount to the buyer, with no fee.
pub open spec fn refund_outcome(amount: u64) -> Settlement {
    Settlement { buyer_amount: amount, seller_amount: 0, fee: 0 }
}

/// The arbitrated split: the buyer receives `buyer_percentage` percent,
/// the seller the remainder less the fee, which is charged on the
/// seller's share alone.
pub open spec fn dispute_outcome(amount: u64, buyer_percentage: u8, fee_bps: u64) -> Result<
    Settlement,
    EscrowError,
> {
    if buyer_percentage > PERCENT_DENOMINATOR {
        Err(EscrowError::InvalidPercentage)
    } else if amount * buyer_percentage > u64::MAX {
        Err(EscrowError::ArithmeticOverflow)
    } else {
        let buyer_amount = share_of(amount as nat, buyer_percentage as nat) as u64;
        let seller_gross = (amount - buyer_amount) as u64;
        match release_outcome(seller_gross, fee_bps) {
            Err(e) => Err(e),
            Ok(s) => Ok(Settlement { buyer_amount, seller_amount: s.seller_amount, fee: s.fee }),
        }
    }
}

/// A rounded-down fraction of at most the whole never exceeds the base.
pub proof fn lemma_fraction_bounded(base: nat, part: nat, whole: nat)
    requires
        0 < whole,
        part <= whole,
    ensures
        (base * part) / whole <= base,
{
    assert(base * part <= base * whole) by (nonlinear_arith)
        requires
            part <= whole,
    ;
    assert((base * part) / whole <= (base * whole) / whole) by (nonlinear_arith)
        requires
            base * part <= base * whole,
            0 < whole,
    ;
    assert((base * whole) / whole == base) by (nonlinear_arith)
        requires
            0 < whole,
    ;
}

/// Computes the fee on `base` at `fee_bps` basis points.
pub fn platform_fee(base: u64, fee_bps: u64) -> (r: Result<u64, EscrowError>)
    ensures
        r == fee_outcome(base, fee_bps),
{
    match base.checked_mul(fee_bps) {
        Some(product) => Ok(product / BPS_DENOMINATOR),
        None => Err(EscrowError::ArithmeticOverflow),
    }
}

/// Splits a released `amount` into the seller's payout and the fee.
pub fn settle_release(amount: u64, fee_bps: u64) -> (r: Result<Settlement, EscrowError>)
    ensures
        r == release_outcome(amount, fee_bps),
        r matches Ok(s) ==> s.total() == amount,
{
    match platform_fee(amount, fee_bps) {
        Err(e) => Err(e),
        Ok(fee) => match amount.checked_sub(fee) {
            Some(seller_amount) => Ok(Settlement { buyer_amount: 0, seller_amount, fee }),
            None => Err(EscrowError::ArithmeticOverflow),
        },
    }
}

/// The settlement of a refund of `amount`.
pub fn settle_refund(amount: u64) -> (s: Settlement)
    ensures
        s == refund_outcome(amount),
        s.total() == amount,
{
    Settlement { buyer_amount: amount, seller_amount: 0, fee: 0 }
}

/// Splits a disputed `amount` between buyer, seller and platform.
pub fn settle_dispute(amount: u64, buyer_percentage: u8, fee_bps: u64) -> (r: Result<
    Settlement,
    EscrowError,
>)
    ensures
        r == dispute_outcome(amount, buyer_percentage, fee_bps),
        r matches Ok(s) ==> s.total() == amount,
{
    if buyer_percentage > 100 {
        return Err(EscrowError::InvalidPercentage);
    }
    let percentage: u64 = buyer_percentage as u64;
    let product: u64 = match amount.checked_mul(percentage) {
        Some(product) => product,
        None => { return Err(EscrowError::ArithmeticOverflow); },
    };
    let buyer_amount: u64 = product / PERCENT_DENOMINATOR;
    proof {
        lemma_fraction_bounded(amount as nat, percentage as nat, 100);
    }
    let seller_gross: u64 = amount - buyer_amount;
    match settle_release(seller_gross, fee_bps) {
        Err(e) => Err(e),
        Ok(s) => Ok(Settlement { buyer_amount, seller_amount: s.seller_amount, fee: s.fee }),
    }
}

} // verus!
