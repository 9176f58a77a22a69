//! Account identifiers, token amounts, and arithmetic that reports failure
//! instead of wrapping.

use vstd::prelude::*;

use crate::error::Error;

verus! {

/// Identifies a token holder. The ledger only compares identifiers.
pub type AccountId = u64;

/// A quantity of tokens: a balance, an allowance or the total supply.
pub type TokenBalance = u128;

/// The largest amount a [`TokenBalance`] can hold.
pub const MAX_BALANCE: TokenBalance = 0xffff_ffff_ffff_ffff_ffff_ffff_ffff_ffff;

/// `a + b`, or `Overflow` when the sum does not fit.
pub fn checked_add(a: TokenBalance, b: TokenBalance) -> (r: Result<TokenBalance, Error>)
    ensures
        a + b <= MAX_BALANCE ==> r == Ok::<TokenBalance, Error>((a + b) as TokenBalance),
        a + b > MAX_BALANCE ==> r == Err::<TokenBalance, Error>(Error::Overflow),
{
    match a.checked_add(b) {
        Some(sum) => Ok(sum),
        None => Err(Error::Overflow),
    }
}

/// `a - b`, or `Underflow` when `b` is the larger.
pub fn checked_sub(a: TokenBalance, b: TokenBalance) -> (r: Result<TokenBalance, Error>)
    ensures
        b <= a ==> r == Ok::<TokenBalance, Error>((a - b) as TokenBalance),
        b > a ==> r == Err::<TokenBalance, Error>(Error::Underflow),
{
    match a.checked_sub(b) {
        Some(difference) => Ok(difference),
        None => Err(Error::Underflow),
    }
}

} // verus!
