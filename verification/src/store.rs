//! Keyed storage for the ledger: point reads and point writes, nothing more.
//!
//! The store holds no rule across keys. Every rule of the ledger is
//! enforced by [`crate::engine::Module`], which reads and writes through it.

use std::collections::BTreeMap;
use vstd::prelude::*;

use crate::amount::{AccountId, TokenBalance};
use crate::model::LedgerState;

verus! {

/// The balances, the allowances, the total supply and the initialization
/// flag of one ledger.
pub struct LedgerStore {
    init: bool,
    total_supply: TokenBalance,
    balance_of: BTreeMap<AccountId, TokenBalance>,
    allowance: BTreeMap<(AccountId, AccountId), TokenBalance>,
}

impl View for LedgerStore {
    type V = LedgerState;

    closed spec fn view(&self) -> LedgerState {
        LedgerState {
            init: self.init,
            total_supply: self.total_supply,
            balance_of: self.balance_of@,
            allowance: self.allowance@,
        }
    }
}

impl LedgerStore {
    /// An empty store configured with `total_supply`.
    pub fn new(total_supply: TokenBalance) -> (store: Self)
        ensures
            store@ == LedgerState::genesis(total_supply),
    {
        LedgerStore {
            init: false,
            total_supply,
            balance_of: BTreeMap::new(),
            allowance: BTreeMap::new(),
        }
    }

    /// Only finitely many balances are ever recorded.
    pub proof fn lemma_finite(&self)
        ensures
            self@.balance_of.dom().finite(),
            self@.allowance.dom().finite(),
    {
    }

    /// The balance of `account`; zero where none is recorded.
    pub fn get_balance(&self, account: AccountId) -> (amount: TokenBalance)
        ensures
            amount == self@.balance(account),
    {
        match self.balance_of.get(&account) {
            Some(amount) => *amount,
            None => 0,
        }
    }

    /// Records `amount` as the balance of `account`, replacing any other.
    pub fn set_balance(&mut self, account: AccountId, amount: TokenBalance)
        ensures
            final(self)@ == old(self)@.with_balance(account, amount),
    {
        self.balance_of.insert(account, amount);
    }

    /// What `spender` may move out of `owner`'s balance; zero where
    /// nothing is recorded.
    pub fn get_allowance(&self, owner: AccountId, spender: AccountId) -> (amount: TokenBalance)
        ensures
            amount == self@.allowed(owner, spender),
    {
        match self.allowance.get(&(owner, spender)) {
            Some(amount) => *amount,
            None => 0,
        }
    }

    /// Records `amount` as the allowance of the pair, replacing any other.
    pub fn set_allowance(&mut self, owner: AccountId, spender: AccountId, amount: TokenBalance)
        ensures
            final(self)@ == old(self)@.with_allowance(owner, spender, amount),
    {
        self.allowance.insert((owner, spender), amount);
    }

    /// Whether a balance has been recorded for `account`, as opposed to
    /// read as zero for want of one.
    pub fn has_balance_record(&self, account: AccountId) -> (recorded: bool)
        ensures
            recorded == self@.has_balance_record(account),
    {
        self.balance_of.contains_key(&account)
    }

    /// Whether an allowance has been recorded for the pair.
    pub fn has_allowance_record(&self, owner: AccountId, spender: AccountId) -> (recorded: bool)
        ensures
            recorded == self@.has_allowance_record(owner, spender),
    {
        self.allowance.contains_key(&(owner, spender))
    }

    /// The total supply that the store was configured with.
    pub fn get_total_supply(&self) -> (amount: TokenBalance)
        ensures
            amount == self@.total_supply,
    {
        self.total_supply
    }

    /// Whether the ledger has been initialized.
    pub fn is_initialized(&self) -> (flag: bool)
        ensures
            flag == self@.init,
    {
        self.init
    }

    /// Sets the initialization flag; it is never cleared.
    pub fn set_initialized(&mut self)
        ensures
            final(self)@ == (LedgerState { init: true, ..old(self)@ }),
    {
        self.init = true;
    }
}

} // verus!
