//! A fungible-token ledger: account balances, delegated spending allowances,
//! and the operations that move tokens between accounts.
//!
//! The ledger is a small transactional state machine. [`store::LedgerStore`]
//! keeps the balances and allowances; [`engine::Module`] applies the
//! operations to it, each one either completely or not at all, and records
//! a notification for every change. [`model`] describes the same machine
//! mathematically, and [`laws`] proves what holds of every run of it.

pub mod amount;
pub mod engine;
pub mod error;
pub mod event;
pub mod laws;
pub mod model;
pub mod store;
pub mod supply;

pub use amount::{checked_add, checked_sub, AccountId, TokenBalance, MAX_BALANCE};
pub use engine::{Module, ModuleView};
pub use error::Error;
pub use event::Event;
pub use model::{Call, LedgerState, Outcome};
pub use store::LedgerStore;
