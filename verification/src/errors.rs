use vstd::prelude::*;

verus! {

/// The failure kinds of the ledger and transfer operations.
///
/// Every one of them is fatal to the enclosing operation: a function that
/// returns one of these leaves the ledger exactly as it was, so the caller
/// never sees a partially applied mutation.
#[derive(Clone, Copy, Debug, PartialEq, Eq)]
pub enum TokenError {
    /// A balance or the total supply would exceed the largest representable
    /// amount.
    ArithmeticOverflow,
    /// A withdrawal asks for more than the account currently holds.
    InsufficientBalance,
    /// A transfer names the same account as sender and receiver.
    SameAccount,
    /// A transfer of a zero amount.
    ZeroAmount,
}

} // verus!
