//! The sum of all recorded balances, and how it moves when one balance is
//! written.

use vstd::prelude::*;

use crate::amount::{AccountId, TokenBalance};

verus! {

/// The sum of every balance recorded in `balances`.
pub open spec fn total(balances: Map<AccountId, TokenBalance>) -> nat
    decreases balances.dom().len(),
    when balances.dom().finite()
{
    if balances.dom().len() == 0 {
        0
    } else {
        let who = balances.dom().choose();
        balances[who] as nat + total(balances.remove(who))
    }
}

/// Nothing recorded sums to nothing.
pub proof fn lemma_total_empty()
    ensures
        total(Map::<AccountId, TokenBalance>::empty()) == 0,
{
}

/// Any one recorded balance can be split off the sum.
pub proof fn lemma_total_remove(balances: Map<AccountId, TokenBalance>, who: AccountId)
    requires
        balances.dom().finite(),
        balances.contains_key(who),
    ensures
        total(balances) == balances[who] + total(balances.remove(who)),
    decreases balances.dom().len(),
{
    let first = balances.dom().choose();
    if first != who {
        lemma_total_remove(balances.remove(first), who);
        lemma_total_remove(balances.remove(who), first);
        assert(balances.remove(first).remove(who) =~= balances.remove(who).remove(first));
    }
}

/// Writing one balance changes the sum by the difference between the new
/// value and the one it replaces.
pub proof fn lemma_total_insert(
    balances: Map<AccountId, TokenBalance>,
    who: AccountId,
    amount: TokenBalance,
)
    requires
        balances.dom().finite(),
    ensures
        total(balances.insert(who, amount)) + (if balances.contains_key(who) {
            balances[who] as nat
        } else {
            0
        }) == total(balances) + amount,
{
    let written = balances.insert(who, amount);
    lemma_total_remove(written, who);
    assert(written.remove(who) =~= balances.remove(who));
    if balances.contains_key(who) {
        lemma_total_remove(balances, who);
    } else {
        assert(balances.remove(who) =~= balances);
    }
}

} // verus!
