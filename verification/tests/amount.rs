use token::{checked_add, checked_sub, Error, TokenBalance, MAX_BALANCE};

#[test]
fn checked_add_gives_the_sum() {
    assert_eq!(checked_add(0, 0), Ok(0));
    assert_eq!(checked_add(700, 300), Ok(1000));
    assert_eq!(checked_add(TokenBalance::MAX - 1, 1), Ok(TokenBalance::MAX));
    assert_eq!(checked_add(TokenBalance::MAX, 0), Ok(TokenBalance::MAX));
}

#[test]
fn checked_add_reports_overflow() {
    assert_eq!(checked_add(TokenBalance::MAX, 1), Err(Error::Overflow));
    assert_eq!(checked_add(1, TokenBalance::MAX), Err(Error::Overflow));
    assert_eq!(checked_add(TokenBalance::MAX, TokenBalance::MAX), Err(Error::Overflow));
}

#[test]
fn checked_sub_gives_the_difference() {
    assert_eq!(checked_sub(0, 0), Ok(0));
    assert_eq!(checked_sub(1000, 300), Ok(700));
    assert_eq!(checked_sub(TokenBalance::MAX, TokenBalance::MAX), Ok(0));
    assert_eq!(checked_sub(TokenBalance::MAX, 0), Ok(TokenBalance::MAX));
}

#[test]
fn checked_sub_reports_underflow() {
    assert_eq!(checked_sub(0, 1), Err(Error::Underflow));
    assert_eq!(checked_sub(299, 300), Err(Error::Underflow));
    assert_eq!(checked_sub(0, TokenBalance::MAX), Err(Error::Underflow));
}

#[test]
fn largest_amount_is_the_largest_of_the_type() {
    assert_eq!(MAX_BALANCE, TokenBalance::MAX);
    assert_eq!(MAX_BALANCE, 340282366920938463463374607431768211455);
    assert_eq!(checked_add(MAX_BALANCE - 1, 1), Ok(MAX_BALANCE));
    assert_eq!(checked_add(MAX_BALANCE, 1), Err(Error::Overflow));
}
