//! Two-party escrow with third-party arbitration.
//!
//! A buyer deposits value for an order, a seller is paid on delivery, and a
//! platform collects a fee and arbitrates disputes. This crate holds the
//! lifecycle state machine, the authorization table and the settlement
//! arithmetic; every function is verified against its contract.

pub mod identity;
pub mod status;
pub mod error;
pub mod settlement;
pub mod record;
pub mod accounts;
pub mod operations;
pub mod payout;
pub mod machine;
pub mod laws;
