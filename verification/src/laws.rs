//! What holds of every ledger, proved over the model in [`crate::model`].
//!
//! The contracts of the executable operations are written with the model's
//! functions, so each statement here is a statement about what the code does.

use vstd::prelude::*;

use crate::amount::{AccountId, TokenBalance, MAX_BALANCE};
use crate::error::Error;
use crate::event::Event;
use crate::model::{Call, LedgerState};
use crate::supply::{lemma_total_empty, lemma_total_insert};

verus! {

/// A transfer that is accepted leaves the sum of all balances where it
/// was, whoever sends and whoever receives: what the sender loses is what
/// the receiver gains.
pub proof fn lemma_transfer_keeps_supply(
    state: LedgerState,
    from: AccountId,
    to: AccountId,
    value: TokenBalance,
)
    requires
        state.balance_of.dom().finite(),
        state.transfer_result(from, to, value) is Ok,
    ensures
        state.transferred(from, to, value).circulating() == state.circulating(),
        state.transferred(from, to, value).balance_of.dom().finite(),
{
    let debited = state.debited(from, value);
    lemma_total_insert(state.balance_of, from, debited.balance(from));
    lemma_total_insert(debited.balance_of, to, debited.credited(to, value).balance(to));
}

/// One call keeps the books balanced and the total supply fixed.
pub proof fn lemma_step_keeps_balance(state: LedgerState, call: Call)
    requires
        state.balanced(),
    ensures
        state.step(call).state.balanced(),
        state.step(call).state.total_supply == state.total_supply,
{
    match call {
        Call::Init { owner } => {
            if !state.init {
                lemma_total_empty();
                lemma_total_insert(state.balance_of, owner, state.total_supply);
            }
        },
        Call::Transfer { sender, to, value } => {
            if state.transfer_result(sender, to, value) is Ok {
                lemma_transfer_keeps_supply(state, sender, to, value);
            }
        },
        Call::Approve { .. } => {},
        Call::TransferFrom { from, to, value, .. } => {
            if state.transfer_from_result(from, to, value) is Ok {
                let reduced = state.with_allowance(
                    from,
                    to,
                    state.reduced_allowance(from, to, value),
                );
                lemma_transfer_keeps_supply(reduced, from, to, value);
            }
        },
        Call::Burn { .. } => {},
    }
}

/// Conservation. Start from a ledger configured with `total_supply` and
/// make any calls in any order. The books stay balanced throughout:
/// nothing is recorded before the ledger is initialized, and from then on
/// the sum of all balances equals the total supply, which never changes.
pub proof fn conservation(total_supply: TokenBalance, calls: Seq<Call>)
    ensures
        ({
            let end = LedgerState::genesis(total_supply).run(calls);
            &&& end.total_supply == total_supply
            &&& end.init ==> end.circulating() == total_supply
            &&& !end.init ==> end == LedgerState::genesis(total_supply)
            &&& end.circulating() <= total_supply
        }),
{
    lemma_run_keeps_balance(total_supply, calls);
    lemma_total_empty();
}

/// The induction behind [`conservation`]: the books are balanced after
/// every run from a fresh ledger.
pub proof fn lemma_run_keeps_balance(total_supply: TokenBalance, calls: Seq<Call>)
    ensures
        LedgerState::genesis(total_supply).run(calls).balanced(),
        LedgerState::genesis(total_supply).run(calls).total_supply == total_supply,
    decreases calls.len(),
{
    if calls.len() > 0 {
        let earlier = calls.drop_last();
        lemma_run_keeps_balance(total_supply, earlier);
        lemma_step_keeps_balance(LedgerState::genesis(total_supply).run(earlier), calls.last());
    }
}

/// Non-negativity. No balance and no allowance is ever below zero, in any
/// state whatever.
pub proof fn non_negativity(
    state: LedgerState,
    who: AccountId,
    owner: AccountId,
    spender: AccountId,
)
    ensures
        0 <= state.balance(who) <= MAX_BALANCE,
        0 <= state.allowed(owner, spender) <= MAX_BALANCE,
{
}

/// Single initialization. Whatever the first attempt came to, a second
/// one is refused with `AlreadyInitialized` and leaves the ledger as the
/// first left it.
pub proof fn single_initialization(state: LedgerState, first: AccountId, second: AccountId)
    ensures
        state.step(Call::Init { owner: first }).state.step(Call::Init { owner: second })
            == state.step(Call::Init { owner: first }).state.rejected(Error::AlreadyInitialized),
{
}

/// Initialization from scratch gives `owner` the whole supply, and
/// nobody else anything.
pub proof fn initialization_hands_over_supply(total_supply: TokenBalance, owner: AccountId)
    ensures
        ({
            let outcome = LedgerState::genesis(total_supply).step(Call::Init { owner });
            &&& outcome.result is Ok
            &&& outcome.state.init
            &&& outcome.state.balance(owner) == total_supply
            &&& forall|other: AccountId| other != owner ==> outcome.state.balance(other) == 0
            &&& outcome.state.circulating() == total_supply
        }),
{
    lemma_total_empty();
    lemma_total_insert(Map::<AccountId, TokenBalance>::empty(), owner, total_supply);
}

/// Allowance accumulation. Two approvals for one pair that both go
/// through leave the allowance at what it was plus both amounts: an
/// approval adds to the allowance, it does not replace it.
pub proof fn allowance_accumulation(
    state: LedgerState,
    owner: AccountId,
    spender: AccountId,
    first: TokenBalance,
    second: TokenBalance,
)
    requires
        state.step(Call::Approve { sender: owner, spender, value: first }).result is Ok,
        state.step(Call::Approve { sender: owner, spender, value: first }).state.step(
            Call::Approve { sender: owner, spender, value: second },
        ).result is Ok,
    ensures
        state.step(Call::Approve { sender: owner, spender, value: first }).state.step(
            Call::Approve { sender: owner, spender, value: second },
        ).state.allowed(owner, spender) == state.allowed(owner, spender) + first + second,
{
}

/// Atomicity. A call that is refused, for whatever reason, changes
/// nothing and announces nothing. In particular a transfer refused with
/// `InsufficientBalance` leaves the sender's and the receiver's balances
/// as they were.
pub proof fn rejection_changes_nothing(state: LedgerState, call: Call)
    requires
        state.step(call).result is Err,
    ensures
        state.step(call).state == state,
        state.step(call).events == Seq::<Event>::empty(),
{
}

/// No call is ever refused with `Underflow`: every subtraction that an
/// operation makes comes after a comparison that rules it out. The error
/// is left to [`crate::amount::checked_sub`] alone.
pub proof fn underflow_never_surfaces(state: LedgerState, call: Call)
    ensures
        state.step(call).result != Err::<(), Error>(Error::Underflow),
{
}

/// Nothing is ever forgotten. Whatever a call does, every balance and
/// every allowance that was recorded before it is still recorded after it,
/// an initialized ledger stays initialized, and the total supply stays what
/// it was.
pub proof fn records_persist(
    state: LedgerState,
    call: Call,
    who: AccountId,
    owner: AccountId,
    spender: AccountId,
)
    ensures
        state.has_balance_record(who) ==> state.step(call).state.has_balance_record(who),
        state.has_allowance_record(owner, spender) ==> state.step(call).state.has_allowance_record(
            owner,
            spender,
        ),
        state.init ==> state.step(call).state.init,
        state.step(call).state.total_supply == state.total_supply,
{
}

/// Overflow rejection. When the receiver's balance is at the largest
/// representable amount, a transfer of a positive amount that the sender
/// can afford is refused with `Overflow`, and nothing changes.
pub proof fn overflow_rejection(
    state: LedgerState,
    sender: AccountId,
    to: AccountId,
    value: TokenBalance,
)
    requires
        state.balance(to) == MAX_BALANCE,
        state.has_balance_record(sender),
        1 <= value <= state.balance(sender),
    ensures
        state.step(Call::Transfer { sender, to, value }) == state.rejected(Error::Overflow),
{
}

/// Before initialization the ledger is inert: starting from a fresh
/// ledger, calls other than `Init` are refused or, for a burn, change
/// nothing, so the state stays what it was configured to be.
pub proof fn nothing_moves_before_initialization(total_supply: TokenBalance, calls: Seq<Call>)
    requires
        forall|i: int| 0 <= i < calls.len() ==> !(#[trigger] calls[i] is Init),
    ensures
        LedgerState::genesis(total_supply).run(calls) == LedgerState::genesis(total_supply),
    decreases calls.len(),
{
    if calls.len() > 0 {
        nothing_moves_before_initialization(total_supply, calls.drop_last());
    }
}

} // verus!
