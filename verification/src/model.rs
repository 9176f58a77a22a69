//! The ledger as a mathematical state machine.
//!
//! A [`LedgerState`] is what the ledger holds; a [`Call`] is one operation
//! with its arguments; [`LedgerState::step`] says what a call returns, what
//! state it leaves and what it announces. The contracts of the executable
//! ledger are written with these functions, and the laws of the ledger are
//! proved about them.

use vstd::prelude::*;

use crate::amount::{AccountId, TokenBalance, MAX_BALANCE};
use crate::error::Error;
use crate::event::Event;
use crate::supply::total;

verus! {

/// Everything the ledger holds.
///
/// An account or a pair of accounts that is missing from its map counts
/// as holding zero; whether it is recorded at all still matters to some
/// operations.
pub struct LedgerState {
    /// Whether the ledger has been initialized.
    pub init: bool,
    /// The total supply, fixed when the ledger is configured.
    pub total_supply: TokenBalance,
    /// The recorded balance of each account.
    pub balance_of: Map<AccountId, TokenBalance>,
    /// The recorded allowance of each (owner, spender) pair.
    pub allowance: Map<(AccountId, AccountId), TokenBalance>,
}

/// One operation on the ledger, with the account that was authenticated
/// for it where the operation has one.
#[derive(Clone, Copy, Debug, PartialEq, Eq, Structural)]
pub enum Call {
    /// Hand the total supply to `owner`.
    Init { owner: AccountId },
    /// Move `value` from `sender` to `to`.
    Transfer { sender: AccountId, to: AccountId, value: TokenBalance },
    /// Raise what `spender` may move out of `sender`'s balance by `value`.
    Approve { sender: AccountId, spender: AccountId, value: TokenBalance },
    /// Move `value` from `from` to `to` against the allowance of that pair.
    TransferFrom { caller: AccountId, from: AccountId, to: AccountId, value: TokenBalance },
    /// Announce that `caller` burns `value`.
    Burn { caller: AccountId, value: TokenBalance },
}

/// What one call does: its result, the state it leaves, and the
/// notifications it records, in order.
pub struct Outcome {
    /// What the call returns.
    pub result: Result<(), Error>,
    /// What the ledger holds after the call.
    pub state: LedgerState,
    /// What the call announces, oldest first.
    pub events: Seq<Event>,
}

impl LedgerState {
    /// The ledger as configured with `total_supply`, before any call.
    pub open spec fn genesis(total_supply: TokenBalance) -> LedgerState {
        LedgerState {
            init: false,
            total_supply,
            balance_of: Map::empty(),
            allowance: Map::empty(),
        }
    }

    /// Whether a balance has been recorded for `who`.
    pub open spec fn has_balance_record(self, who: AccountId) -> bool {
        self.balance_of.contains_key(who)
    }

    /// The balance of `who`; zero where none is recorded.
    pub open spec fn balance(self, who: AccountId) -> TokenBalance {
        if self.balance_of.contains_key(who) {
            self.balance_of[who]
        } else {
            0
        }
    }

    /// Whether an allowance has been recorded for the pair.
    pub open spec fn has_allowance_record(self, owner: AccountId, spender: AccountId) -> bool {
        self.allowance.contains_key((owner, spender))
    }

    /// What `spender` may move out of `owner`'s balance; zero where
    /// nothing is recorded.
    pub open spec fn allowed(self, owner: AccountId, spender: AccountId) -> TokenBalance {
        if self.allowance.contains_key((owner, spender)) {
            self.allowance[(owner, spender)]
        } else {
            0
        }
    }

    /// The sum of all recorded balances.
    pub open spec fn circulating(self) -> nat {
        total(self.balance_of)
    }

    /// This state with the balance of `who` overwritten.
    pub open spec fn with_balance(self, who: AccountId, amount: TokenBalance) -> LedgerState {
        LedgerState { balance_of: self.balance_of.insert(who, amount), ..self }
    }

    /// This state with the allowance of the pair overwritten.
    pub open spec fn with_allowance(
        self,
        owner: AccountId,
        spender: AccountId,
        amount: TokenBalance,
    ) -> LedgerState {
        LedgerState { allowance: self.allowance.insert((owner, spender), amount), ..self }
    }

    /// What initializing returns: it is refused once the flag is set.
    pub open spec fn init_result(self) -> Result<(), Error> {
        if self.init {
            Err(Error::AlreadyInitialized)
        } else {
            Ok(())
        }
    }

    /// The state after a successful initialization: `owner` holds the
    /// total supply and the flag is set.
    pub open spec fn initialized(self, owner: AccountId) -> LedgerState {
        LedgerState { init: true, ..self.with_balance(owner, self.total_supply) }
    }

    /// What a transfer of `value` from `from` to `to` returns. The
    /// conditions are tried in this order, each against the balances as
    /// they stand before the call: the sender is recorded, the sender can
    /// afford it, the receiver's balance has room for it. A transfer to
    /// oneself has to meet the same three.
    pub open spec fn transfer_result(
        self,
        from: AccountId,
        to: AccountId,
        value: TokenBalance,
    ) -> Result<(), Error> {
        if !self.has_balance_record(from) {
            Err(Error::UnknownAccount)
        } else if self.balance(from) < value {
            Err(Error::InsufficientBalance)
        } else if self.balance(to) + value > MAX_BALANCE {
            Err(Error::Overflow)
        } else {
            Ok(())
        }
    }

    /// The state once `value` has left the balance of `from`.
    pub open spec fn debited(self, from: AccountId, value: TokenBalance) -> LedgerState {
        self.with_balance(from, (self.balance(from) - value) as TokenBalance)
    }

    /// The state once `value` has reached the balance of `to`.
    pub open spec fn credited(self, to: AccountId, value: TokenBalance) -> LedgerState {
        self.with_balance(to, (self.balance(to) + value) as TokenBalance)
    }

    /// The state after a successful transfer: the sender is debited, then
    /// the receiver is credited on top of that. Where the two are one
    /// account, it ends with the balance it had.
    pub open spec fn transferred(
        self,
        from: AccountId,
        to: AccountId,
        value: TokenBalance,
    ) -> LedgerState {
        self.debited(from, value).credited(to, value)
    }

    /// What an approval returns: the owner must hold a recorded balance,
    /// and the raised allowance must fit.
    pub open spec fn approve_result(
        self,
        owner: AccountId,
        spender: AccountId,
        value: TokenBalance,
    ) -> Result<(), Error> {
        if !self.has_balance_record(owner) {
            Err(Error::UnknownAccount)
        } else if self.allowed(owner, spender) + value > MAX_BALANCE {
            Err(Error::Overflow)
        } else {
            Ok(())
        }
    }

    /// The allowance that a successful approval leaves: the one in force
    /// before, plus `value`.
    pub open spec fn raised_allowance(
        self,
        owner: AccountId,
        spender: AccountId,
        value: TokenBalance,
    ) -> TokenBalance {
        (self.allowed(owner, spender) + value) as TokenBalance
    }

    /// The state after a successful approval.
    pub open spec fn approved(
        self,
        owner: AccountId,
        spender: AccountId,
        value: TokenBalance,
    ) -> LedgerState {
        self.with_allowance(owner, spender, self.raised_allowance(owner, spender, value))
    }

    /// What a transfer against an allowance returns. The allowance that
    /// counts is the one of the pair (`from`, `to`); once it is found
    /// sufficient, the conditions of a plain transfer follow.
    pub open spec fn transfer_from_result(
        self,
        from: AccountId,
        to: AccountId,
        value: TokenBalance,
    ) -> Result<(), Error> {
        if !self.has_allowance_record(from, to) {
            Err(Error::AllowanceMissing)
        } else if self.allowed(from, to) < value {
            Err(Error::InsufficientAllowance)
        } else {
            self.transfer_result(from, to, value)
        }
    }

    /// The allowance that a successful transfer against it leaves.
    pub open spec fn reduced_allowance(
        self,
        from: AccountId,
        to: AccountId,
        value: TokenBalance,
    ) -> TokenBalance {
        (self.allowed(from, to) - value) as TokenBalance
    }

    /// The state after a successful transfer against an allowance: the
    /// allowance is reduced and the tokens have moved.
    pub open spec fn transferred_from(
        self,
        from: AccountId,
        to: AccountId,
        value: TokenBalance,
    ) -> LedgerState {
        self.with_allowance(from, to, self.reduced_allowance(from, to, value)).transferred(
            from,
            to,
            value,
        )
    }

    /// The books balance: before initialization nothing is recorded at
    /// all, and from then on the balances sum to the total supply.
    pub open spec fn balanced(self) -> bool {
        &&& self.balance_of.dom().finite()
        &&& if self.init {
            self.circulating() == self.total_supply
        } else {
            self.balance_of == Map::<AccountId, TokenBalance>::empty() && self.allowance
                == Map::<(AccountId, AccountId), TokenBalance>::empty()
        }
    }

    /// A call that succeeds with this state and these notifications.
    pub open spec fn accepted(self, events: Seq<Event>) -> Outcome {
        Outcome { result: Ok(()), state: self, events }
    }

    /// A call that fails: the state stays and nothing is announced.
    pub open spec fn rejected(self, error: Error) -> Outcome {
        Outcome { result: Err(error), state: self, events: Seq::empty() }
    }

    /// What `call` does to this state.
    pub open spec fn step(self, call: Call) -> Outcome {
        match call {
            Call::Init { owner } => match self.init_result() {
                Ok(_) => self.initialized(owner).accepted(Seq::empty()),
                Err(error) => self.rejected(error),
            },
            Call::Transfer { sender, to, value } => match self.transfer_result(sender, to, value) {
                Ok(_) => self.transferred(sender, to, value).accepted(
                    seq![Event::Transfer(sender, to, value)],
                ),
                Err(error) => self.rejected(error),
            },
            Call::Approve { sender, spender, value } => match self.approve_result(
                sender,
                spender,
                value,
            ) {
                Ok(_) => self.approved(sender, spender, value).accepted(
                    seq![
                        Event::Approval(
                            sender,
                            spender,
                            self.raised_allowance(sender, spender, value),
                        ),
                    ],
                ),
                Err(error) => self.rejected(error),
            },
            Call::TransferFrom { from, to, value, .. } => match self.transfer_from_result(
                from,
                to,
                value,
            ) {
                Ok(_) => self.transferred_from(from, to, value).accepted(
                    seq![
                        Event::Approval(from, to, self.reduced_allowance(from, to, value)),
                        Event::Transfer(from, to, value),
                    ],
                ),
                Err(error) => self.rejected(error),
            },
            Call::Burn { caller, value } => self.accepted(seq![Event::Burn(caller, value)]),
        }
    }

    /// The state after `calls`, made one after the other.
    pub open spec fn run(self, calls: Seq<Call>) -> LedgerState
        decreases calls.len(),
    {
        if calls.len() == 0 {
            self
        } else {
            self.run(calls.drop_last()).step(calls.last()).state
        }
    }
}

} // verus!
