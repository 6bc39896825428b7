//! Failures that escrow operations return.

use vstd::prelude::*;

verus! {

/// Why an operation was rejected. Every rejection leaves the record and
/// its vault untouched.
#[derive(Clone, Copy, Debug, PartialEq, Eq, Structural)]
pub enum EscrowError {
    /// The record's current status does not permit the operation.
    InvalidStatus,
    /// The caller is not allowed to perform the operation, or a supplied
    /// party account is not the one stored on the record.
    Unauthorized,
    /// The funding amount differs from the agreed amount.
    InvalidAmount,
    /// The buyer's share of a dispute is not within 0 to 100 percent.
    InvalidPercentage,
    /// A fee or split computation does not fit in 64 bits.
    ArithmeticOverflow,
    /// A record already exists for the order.
    InvalidInput,
}

impl EscrowError {
    /// A human-readable description of the failure.
    pub fn message(&self) -> (text: String)
        ensures
            text@ == self.message_text(),
    {
        match self {
            EscrowError::InvalidStatus => "Invalid escrow status for this operation".to_string(),
            EscrowError::Unauthorized => "Unauthorized to perform this action".to_string(),
            EscrowError::InvalidAmount => "Invalid amount".to_string(),
            EscrowError::InvalidPercentage => "Invalid percentage (must be 0-100)".to_string(),
            EscrowError::ArithmeticOverflow => "Arithmetic overflow in settlement".to_string(),
            EscrowError::InvalidInput => "Escrow already exists for this order".to_string(),
        }
    }

    /// The description of each failure, as a sequence of characters.
    pub open spec fn message_text(&self) -> Seq<char> {
        match self {
            EscrowError::InvalidStatus => "Invalid escrow status for this operation"@,
            EscrowError::Unauthorized => "Unauthorized to perform this action"@,
            EscrowError::InvalidAmount => "Invalid amount"@,
            EscrowError::InvalidPercentage => "Invalid percentage (must be 0-100)"@,
            EscrowError::ArithmeticOverflow => "Arithmetic overflow in settlement"@,
            EscrowError::InvalidInput => "Escrow already exists for this order"@,
        }
    }
}

} // verus!
