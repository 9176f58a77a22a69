//! Notifications that the ledger records when its state changes.

use vstd::prelude::*;

use crate::amount::{AccountId, TokenBalance};

verus! {

/// A notice of a change to the ledger, for whoever listens outside it.
#[derive(Clone, Copy, Debug, PartialEq, Eq, Structural)]
pub enum Event {
    /// Tokens moved: sender, receiver, amount.
    Transfer(AccountId, AccountId, TokenBalance),
    /// An allowance changed: owner, spender, the allowance now in force.
    Approval(AccountId, AccountId, TokenBalance),
    /// A burn was announced: account, amount.
    Burn(AccountId, TokenBalance),
}

} // verus!
