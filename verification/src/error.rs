//! The ways in which an operation on the ledger can be refused.

use vstd::prelude::*;

verus! {

/// Why an operation was rejected. A rejected operation leaves the ledger
/// exactly as it found it and records no notification.
#[derive(Clone, Copy, Debug, PartialEq, Eq, Structural)]
pub enum Error {
    /// The ledger has been initialized before.
    AlreadyInitialized,
    /// The account has no recorded balance where one is required.
    UnknownAccount,
    /// The amount exceeds the sender's balance.
    InsufficientBalance,
    /// The amount exceeds the allowance.
    InsufficientAllowance,
    /// No allowance has been recorded for the pair of accounts.
    AllowanceMissing,
    /// A sum would exceed the largest representable amount.
    Overflow,
    /// A difference would fall below zero.
    Underflow,
}

} // verus!
