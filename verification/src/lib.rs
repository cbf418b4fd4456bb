//! Verified core of a fungible-token ledger: an account-balance store that
//! maintains a strict conservation invariant (the stored balances always sum
//! to the total supply), plus the synchronous transfer operation and the
//! asynchronous transfer-notify-resolve protocol built on top of it, with
//! its compensating refund/burn logic for partial failures.

pub mod errors;
pub mod laws;
pub mod ledger;
pub mod outcome;
pub mod store;
pub mod transfer;
