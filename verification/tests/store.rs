use token::{LedgerStore, TokenBalance};

#[test]
fn new_store_is_empty() {
    let store = LedgerStore::new(1000);
    assert_eq!(store.get_total_supply(), 1000);
    assert!(!store.is_initialized());
    assert_eq!(store.get_balance(1), 0);
    assert_eq!(store.get_allowance(1, 2), 0);
    assert!(!store.has_balance_record(1));
    assert!(!store.has_allowance_record(1, 2));
}

#[test]
fn set_balance_overwrites() {
    let mut store = LedgerStore::new(1000);
    store.set_balance(1, 10);
    assert_eq!(store.get_balance(1), 10);
    assert!(store.has_balance_record(1));
    store.set_balance(1, 3);
    assert_eq!(store.get_balance(1), 3);
    store.set_balance(2, TokenBalance::MAX);
    assert_eq!(store.get_balance(2), TokenBalance::MAX);
    assert_eq!(store.get_balance(1), 3);
    assert_eq!(store.get_balance(3), 0);
    assert!(!store.has_balance_record(3));
}

#[test]
fn zero_balance_is_still_a_record() {
    let mut store = LedgerStore::new(1000);
    store.set_balance(1, 0);
    assert_eq!(store.get_balance(1), 0);
    assert!(store.has_balance_record(1));
    assert!(!store.has_balance_record(2));
}

#[test]
fn set_allowance_overwrites_and_is_ordered() {
    let mut store = LedgerStore::new(1000);
    store.set_allowance(1, 2, 10);
    assert_eq!(store.get_allowance(1, 2), 10);
    assert_eq!(store.get_allowance(2, 1), 0);
    assert!(store.has_allowance_record(1, 2));
    assert!(!store.has_allowance_record(2, 1));
    store.set_allowance(1, 2, 4);
    assert_eq!(store.get_allowance(1, 2), 4);
    store.set_allowance(2, 1, 0);
    assert!(store.has_allowance_record(2, 1));
    assert_eq!(store.get_allowance(2, 1), 0);
    assert_eq!(store.get_allowance(1, 2), 4);
}

#[test]
fn writes_do_not_touch_other_keyspaces() {
    let mut store = LedgerStore::new(1000);
    store.set_balance(1, 10);
    store.set_allowance(1, 1, 20);
    store.set_initialized();
    assert!(store.is_initialized());
    assert_eq!(store.get_balance(1), 10);
    assert_eq!(store.get_allowance(1, 1), 20);
    assert_eq!(store.get_total_supply(), 1000);
    store.set_initialized();
    assert!(store.is_initialized());
}
