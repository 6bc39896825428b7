//! Lifecycle states, operations, roles, and the two tables that govern
//! them: which status an operation leads to, and who may invoke it.

use vstd::prelude::*;

verus! {

/// Where a record stands in its lifecycle.
#[derive(Clone, Copy, Debug, PartialEq, Eq, Structural)]
pub enum EscrowStatus {
    Initialized,
    Funded,
    Released,
    Refunded,
    Disputed,
    Resolved,
}

/// The operations that act on an existing record.
#[derive(Clone, Copy, Debug, PartialEq, Eq, Structural)]
pub enum Operation {
    Fund,
    Release,
    Refund,
    OpenDispute,
    ResolveDispute,
}

/// The part a party plays in an escrow.
#[derive(Clone, Copy, Debug, PartialEq, Eq, Structural)]
pub enum Role {
    Buyer,
    Seller,
    Platform,
}

impl EscrowStatus {
    /// No operation leads out of a terminal status.
    pub open spec fn spec_is_terminal(self) -> bool {
        self == EscrowStatus::Released || self == EscrowStatus::Refunded || self
            == EscrowStatus::Resolved
    }

    /// Whether the status is `Released`, `Refunded` or `Resolved`.
    #[verifier::when_used_as_spec(spec_is_terminal)]
    pub fn is_terminal(self) -> (r: bool)
        ensures
            r == self.spec_is_terminal(),
    {
        match self {
            EscrowStatus::Released | EscrowStatus::Refunded | EscrowStatus::Resolved => true,
            _ => false,
        }
    }

    /// The vault holds the agreed amount exactly in these statuses.
    pub open spec fn spec_holds_funds(self) -> bool {
        self == EscrowStatus::Funded || self == EscrowStatus::Disputed
    }

    /// Whether the status is `Funded` or `Disputed`.
    #[verifier::when_used_as_spec(spec_holds_funds)]
    pub fn holds_funds(self) -> (r: bool)
        ensures
            r == self.spec_holds_funds(),
    {
        match self {
            EscrowStatus::Funded | EscrowStatus::Disputed => true,
            _ => false,
        }
    }
}

/// The transition table: the status that `op` leads to from `from`, or
/// `None` where `from` does not permit `op`.
pub open spec fn next_status(from: EscrowStatus, op: Operation) -> Option<EscrowStatus> {
    match (from, op) {
        (EscrowStatus::Initialized, Operation::Fund) => Some(EscrowStatus::Funded),
        (EscrowStatus::Funded, Operation::Release) => Some(EscrowStatus::Released),
        (EscrowStatus::Funded, Operation::Refund) => Some(EscrowStatus::Refunded),
        (EscrowStatus::Funded, Operation::OpenDispute) => Some(EscrowStatus::Disputed),
        (EscrowStatus::Disputed, Operation::Refund) => Some(EscrowStatus::Refunded),
        (EscrowStatus::Disputed, Operation::ResolveDispute) => Some(EscrowStatus::Resolved),
        _ => None,
    }
}

/// Looks `op` up in the transition table.
pub fn transition(from: EscrowStatus, op: Operation) -> (to: Option<EscrowStatus>)
    ensures
        to == next_status(from, op),
{
    match (from, op) {
        (EscrowStatus::Initialized, Operation::Fund) => Some(EscrowStatus::Funded),
        (EscrowStatus::Funded, Operation::Release) => Some(EscrowStatus::Released),
        (EscrowStatus::Funded, Operation::Refund) => Some(EscrowStatus::Refunded),
        (EscrowStatus::Funded, Operation::OpenDispute) => Some(EscrowStatus::Disputed),
        (EscrowStatus::Disputed, Operation::Refund) => Some(EscrowStatus::Refunded),
        (EscrowStatus::Disputed, Operation::ResolveDispute) => Some(EscrowStatus::Resolved),
        _ => None,
    }
}

/// The authorization table: whether a party in `role` may invoke `op`.
pub open spec fn permits(op: Operation, role: Role) -> bool {
    match op {
        Operation::Fund => role == Role::Buyer,
        Operation::Release => role == Role::Buyer || role == Role::Platform,
        Operation::Refund => role == Role::Seller || role == Role::Platform,
        Operation::OpenDispute => role == Role::Buyer || role == Role::Seller,
        Operation::ResolveDispute => role == Role::Platform,
    }
}

/// Looks `role` up in the authorization table for `op`.
pub fn role_allowed(op: Operation, role: Role) -> (r: bool)
    ensures
        r == permits(op, role),
{
    match op {
        Operation::Fund => matches!(role, Role::Buyer),
        Operation::Release => matches!(role, Role::Buyer | Role::Platform),
        Operation::Refund => matches!(role, Role::Seller | Role::Platform),
        Operation::OpenDispute => matches!(role, Role::Buyer | Role::Seller),
        Operation::ResolveDispute => matches!(role, Role::Platform),
    }
}

} // verus!
