//! The operations of the ledger, applied to a store.
//!
//! Every operation is atomic: it validates against the store first and
//! writes only when nothing can fail any more, so a rejected call leaves
//! the store untouched and records no notification. Callers hand in account
//! identities that have been authenticated elsewhere.

use vstd::prelude::*;

use crate::amount::{checked_add, checked_sub, AccountId, TokenBalance};
use crate::error::Error;
use crate::event::Event;
use crate::laws::lemma_transfer_keeps_supply;
use crate::model::{Call, LedgerState};
use crate::store::LedgerStore;

verus! {

/// A ledger: its store, and the notifications recorded since they were
/// last taken.
pub struct Module {
    store: LedgerStore,
    events: Vec<Event>,
}

/// What a [`Module`] stands for: the state of its ledger, and the
/// notifications recorded and not yet taken, oldest first.
pub struct ModuleView {
    /// What the ledger holds.
    pub ledger: LedgerState,
    /// The notifications recorded and not yet taken, oldest first.
    pub events: Seq<Event>,
}

impl View for Module {
    type V = ModuleView;

    closed spec fn view(&self) -> ModuleView {
        ModuleView { ledger: self.store@, events: self.events@ }
    }
}

impl Module {
    /// A fresh ledger configured with `total_supply`: not initialized, no
    /// balance and no allowance recorded.
    pub fn new(total_supply: TokenBalance) -> (module: Self)
        ensures
            module@.ledger == LedgerState::genesis(total_supply),
            module@.events == Seq::<Event>::empty(),
    {
        Module { store: LedgerStore::new(total_supply), events: Vec::new() }
    }

    /// A ledger over an existing store, with no notification recorded.
    pub fn from_store(store: LedgerStore) -> (module: Self)
        ensures
            module@.ledger == store@,
            module@.events == Seq::<Event>::empty(),
    {
        Module { store, events: Vec::new() }
    }

    /// The store behind the ledger.
    pub fn store(&self) -> (store: &LedgerStore)
        ensures
            store@ == self@.ledger,
    {
        &self.store
    }

    /// Gives up the ledger for its store.
    pub fn into_store(self) -> (store: LedgerStore)
        ensures
            store@ == self@.ledger,
    {
        self.store
    }

    /// The notifications recorded and not yet taken, oldest first.
    pub fn events(&self) -> (events: &Vec<Event>)
        ensures
            events@ == self@.events,
    {
        &self.events
    }

    /// Hands over the recorded notifications and starts an empty record.
    pub fn take_events(&mut self) -> (taken: Vec<Event>)
        ensures
            taken@ == old(self)@.events,
            final(self)@.events == Seq::<Event>::empty(),
            final(self)@.ledger == old(self)@.ledger,
    {
        let mut taken: Vec<Event> = Vec::new();
        std::mem::swap(&mut taken, &mut self.events);
        taken
    }

    /// Only finitely many balances and allowances are ever recorded.
    pub proof fn lemma_finite(&self)
        ensures
            self@.ledger.balance_of.dom().finite(),
            self@.ledger.allowance.dom().finite(),
    {
        self.store.lemma_finite();
    }

    /// Whether the ledger has been initialized.
    pub fn is_init(&self) -> (flag: bool)
        ensures
            flag == self@.ledger.init,
    {
        self.store.is_initialized()
    }

    /// The total supply.
    pub fn total_supply(&self) -> (amount: TokenBalance)
        ensures
            amount == self@.ledger.total_supply,
    {
        self.store.get_total_supply()
    }

    /// The balance of `who`; zero where none is recorded.
    pub fn balance_of(&self, who: AccountId) -> (amount: TokenBalance)
        ensures
            amount == self@.ledger.balance(who),
    {
        self.store.get_balance(who)
    }

    /// The allowance of the pair (owner, spender); zero where none is
    /// recorded.
    pub fn allowance(&self, pair: (AccountId, AccountId)) -> (amount: TokenBalance)
        ensures
            amount == self@.ledger.allowed(pair.0, pair.1),
    {
        self.store.get_allowance(pair.0, pair.1)
    }

    /// Records a notification behind those already recorded.
    fn deposit_event(&mut self, event: Event)
        ensures
            final(self)@.ledger == old(self)@.ledger,
            final(self)@.events == old(self)@.events.push(event),
    {
        self.events.push(event);
    }

    /// Hands the total supply to `owner` and marks the ledger initialized.
    /// This works once; afterwards it is refused with
    /// `AlreadyInitialized`. No notification is recorded.
    pub fn init(&mut self, owner: AccountId) -> (result: Result<(), Error>)
        ensures
            result == old(self)@.ledger.init_result(),
            result is Ok ==> final(self)@.ledger == old(self)@.ledger.initialized(owner),
            result is Err ==> final(self)@.ledger == old(self)@.ledger,
            final(self)@.events == old(self)@.events,
    {
        if self.store.is_initialized() {
            return Err(Error::AlreadyInitialized);
        }
        let total_supply = self.store.get_total_supply();
        self.store.set_balance(owner, total_supply);
        self.store.set_initialized();
        Ok(())
    }

    /// Validates a transfer against the balances as they stand, without
    /// writing anything, and computes the balance that it would leave the
    /// sender.
    fn validate_transfer(&self, from: AccountId, to: AccountId, value: TokenBalance) -> (result:
        Result<TokenBalance, Error>)
        ensures
            match result {
                Ok(updated_from) => {
                    &&& self@.ledger.transfer_result(from, to, value) is Ok
                    &&& updated_from == self@.ledger.balance(from) - value
                },
                Err(error) => self@.ledger.transfer_result(from, to, value) == Err::<(), Error>(
                    error,
                ),
            },
    {
        if !self.store.has_balance_record(from) {
            return Err(Error::UnknownAccount);
        }
        let sender_balance = self.store.get_balance(from);
        if sender_balance < value {
            return Err(Error::InsufficientBalance);
        }
        let updated_from_balance = match checked_sub(sender_balance, value) {
            Ok(amount) => amount,
            Err(error) => {
                return Err(error);
            },
        };
        let receiver_balance = self.store.get_balance(to);
        match checked_add(receiver_balance, value) {
            Ok(_) => Ok(updated_from_balance),
            Err(error) => Err(error),
        }
    }

    /// Moves `value` from `from` to `to` and records the transfer. The
    /// sender is debited first and the receiver credited on what the store
    /// then holds, so an account that sends to itself keeps its balance.
    fn _transfer(&mut self, from: AccountId, to: AccountId, value: TokenBalance) -> (result: Result<
        (),
        Error,
    >)
        ensures
            result == old(self)@.ledger.transfer_result(from, to, value),
            result is Ok ==> {
                &&& final(self)@.ledger == old(self)@.ledger.transferred(from, to, value)
                &&& final(self)@.events == old(self)@.events.push(
                    Event::Transfer(from, to, value),
                )
            },
            result is Err ==> final(self)@ == old(self)@,
    {
        let updated_from_balance = match self.validate_transfer(from, to, value) {
            Ok(amount) => amount,
            Err(error) => {
                return Err(error);
            },
        };
        self.store.set_balance(from, updated_from_balance);
        let receiver_balance = self.store.get_balance(to);
        let updated_to_balance = receiver_balance + value;
        self.store.set_balance(to, updated_to_balance);
        self.deposit_event(Event::Transfer(from, to, value));
        Ok(())
    }

    /// Moves `value` out of `sender`'s balance into `to`'s.
    ///
    /// The sender must hold a recorded balance of at least `value`, and
    /// the receiver's balance, as it stands before the call, must have
    /// room for it. On success a `Transfer` notification is recorded and
    /// the sum of all balances is what it was. A transfer to oneself has
    /// to meet the same conditions; it leaves the balance as it was and is
    /// recorded like any other.
    pub fn transfer(&mut self, sender: AccountId, to: AccountId, value: TokenBalance) -> (result:
        Result<(), Error>)
        ensures
            result == old(self)@.ledger.transfer_result(sender, to, value),
            result is Ok ==> {
                &&& final(self)@.ledger == old(self)@.ledger.transferred(sender, to, value)
                &&& final(self)@.events == old(self)@.events.push(
                    Event::Transfer(sender, to, value),
                )
            },
            result is Err ==> final(self)@ == old(self)@,
            final(self)@.ledger.circulating() == old(self)@.ledger.circulating(),
    {
        proof {
            self.lemma_finite();
            if self@.ledger.transfer_result(sender, to, value) is Ok {
                lemma_transfer_keeps_supply(self@.ledger, sender, to, value);
            }
        }
        self._transfer(sender, to, value)
    }

    /// Raises what `spender` may move out of `sender`'s balance by
    /// `value`, on top of the allowance already in force.
    ///
    /// The sender must hold a recorded balance, and the raised allowance
    /// must fit. On success an `Approval` notification carries the
    /// allowance now in force. Balances are not touched.
    pub fn approve(&mut self, sender: AccountId, spender: AccountId, value: TokenBalance) -> (result:
        Result<(), Error>)
        ensures
            result == old(self)@.ledger.approve_result(sender, spender, value),
            result is Ok ==> {
                &&& final(self)@.ledger == old(self)@.ledger.approved(sender, spender, value)
                &&& final(self)@.events == old(self)@.events.push(
                    Event::Approval(
                        sender,
                        spender,
                        old(self)@.ledger.raised_allowance(sender, spender, value),
                    ),
                )
            },
            result is Err ==> final(self)@ == old(self)@,
    {
        if !self.store.has_balance_record(sender) {
            return Err(Error::UnknownAccount);
        }
        let allowance = self.store.get_allowance(sender, spender);
        let updated_allowance = match checked_add(allowance, value) {
            Ok(amount) => amount,
            Err(error) => {
                return Err(error);
            },
        };
        self.store.set_allowance(sender, spender, updated_allowance);
        self.deposit_event(Event::Approval(sender, spender, updated_allowance));
        Ok(())
    }

    /// Announces that `caller` burns `value`. Only the `Burn` notification
    /// is recorded: no balance and no supply changes, and the amount is
    /// not held against the caller's balance.
    pub fn burn(&mut self, caller: AccountId, value: TokenBalance) -> (result: Result<(), Error>)
        ensures
            result == Ok::<(), Error>(()),
            final(self)@.ledger == old(self)@.ledger,
            final(self)@.events == old(self)@.events.push(Event::Burn(caller, value)),
    {
        self.deposit_event(Event::Burn(caller, value));
        Ok(())
    }

    /// Moves `value` from `from` to `to` against the allowance recorded
    /// for the pair (`from`, `to`).
    ///
    /// The allowance consulted and reduced is the one that `from` gave to
    /// `to`; who makes the call plays no part. The allowance must be
    /// recorded and cover `value`, and the transfer itself must meet the
    /// conditions of [`Module::transfer`]. On success the allowance is
    /// reduced, the tokens move, and two notifications are recorded: an
    /// `Approval` with the allowance left, then the `Transfer`. When any
    /// condition fails nothing is written, the allowance included.
    pub fn transfer_from(
        &mut self,
        _caller: AccountId,
        from: AccountId,
        to: AccountId,
        value: TokenBalance,
    ) -> (result: Result<(), Error>)
        ensures
            result == old(self)@.ledger.transfer_from_result(from, to, value),
            result is Ok ==> {
                &&& final(self)@.ledger == old(self)@.ledger.transferred_from(from, to, value)
                &&& final(self)@.events == old(self)@.events.push(
                    Event::Approval(from, to, old(self)@.ledger.reduced_allowance(from, to, value)),
                ).push(Event::Transfer(from, to, value))
            },
            result is Err ==> final(self)@ == old(self)@,
            final(self)@.ledger.circulating() == old(self)@.ledger.circulating(),
    {
        if !self.store.has_allowance_record(from, to) {
            return Err(Error::AllowanceMissing);
        }
        let allowance = self.store.get_allowance(from, to);
        if allowance < value {
            return Err(Error::InsufficientAllowance);
        }
        let updated_allowance = match checked_sub(allowance, value) {
            Ok(amount) => amount,
            Err(error) => {
                return Err(error);
            },
        };
        match self.validate_transfer(from, to, value) {
            Ok(_) => {},
            Err(error) => {
                return Err(error);
            },
        }
        proof {
            self.lemma_finite();
            lemma_transfer_keeps_supply(
                self@.ledger.with_allowance(from, to, updated_allowance),
                from,
                to,
                value,
            );
        }
        self.store.set_allowance(from, to, updated_allowance);
        self.deposit_event(Event::Approval(from, to, updated_allowance));
        self._transfer(from, to, value)
    }

    /// Applies `call`: the operation it names, with its arguments.
    pub fn dispatch(&mut self, call: Call) -> (result: Result<(), Error>)
        ensures
            result == old(self)@.ledger.step(call).result,
            final(self)@.ledger == old(self)@.ledger.step(call).state,
            final(self)@.events == old(self)@.events + old(self)@.ledger.step(
                call,
            ).events,
    {
        let result = match call {
            Call::Init { owner } => self.init(owner),
            Call::Transfer { sender, to, value } => self.transfer(sender, to, value),
            Call::Approve { sender, spender, value } => self.approve(sender, spender, value),
            Call::TransferFrom { caller, from, to, value } => self.transfer_from(
                caller,
                from,
                to,
                value,
            ),
            Call::Burn { caller, value } => self.burn(caller, value),
        };
        assert(self@.events =~= old(self)@.events + old(self)@.ledger.step(call).events);
        result
    }
}

} // verus!
