use ipfs_ks::id::AccountId;
use ipfs_ks::ledger::Ledger;

fn account(tag: u8) -> AccountId {
    AccountId::new([tag; 32])
}

#[test]
fn new_ledger_is_empty() {
    let ledger = Ledger::new();
    assert_eq!(ledger.len(), 0);
    assert_eq!(ledger.system_balance(), 0);
    assert!(!ledger.is_registered(account(1)));
    assert_eq!(ledger.balance_of(account(1)), 0);
}

#[test]
fn register_sets_the_initial_balance() {
    let mut ledger = Ledger::new();
    assert!(ledger.register(account(1), 100));
    assert_eq!(ledger.balance_of(account(1)), 100);
    assert!(ledger.is_registered(account(1)));
    assert_eq!(ledger.len(), 1);
}

#[test]
fn register_twice_is_refused_and_keeps_the_balance() {
    let mut ledger = Ledger::new();
    assert!(ledger.register(account(1), 100));
    assert!(!ledger.register(account(1), 100));
    assert_eq!(ledger.balance_of(account(1)), 100);
    assert!(!ledger.register(account(1), 5));
    assert_eq!(ledger.balance_of(account(1)), 100);
    assert_eq!(ledger.len(), 1);
}

#[test]
fn register_with_zero_balance_keeps_the_account() {
    let mut ledger = Ledger::new();
    assert!(ledger.register(account(9), 0));
    assert!(ledger.is_registered(account(9)));
    assert_eq!(ledger.balance_of(account(9)), 0);
}

#[test]
fn accounts_differ_by_any_byte() {
    let mut ledger = Ledger::new();
    let mut bytes = [0u8; 32];
    assert!(ledger.register(AccountId::new(bytes), 1));
    bytes[31] = 1;
    assert!(!ledger.is_registered(AccountId::new(bytes)));
    assert!(ledger.register(AccountId::new(bytes), 2));
    bytes[31] = 0;
    bytes[0] = 1;
    assert!(ledger.register(AccountId::new(bytes), 3));
    assert_eq!(ledger.len(), 3);
    assert_eq!(ledger.balance_of(AccountId::new([0u8; 32])), 1);
    assert_eq!(ledger.balance_of(AccountId::new(bytes)), 3);
}

#[test]
fn deposit_adds_to_the_balance() {
    let mut ledger = Ledger::new();
    assert!(ledger.register(account(1), 100));
    assert!(ledger.deposit(account(1), 50));
    assert_eq!(ledger.balance_of(account(1)), 150);
}

#[test]
fn deposit_to_an_unregistered_account_is_refused_and_makes_no_entry() {
    let mut ledger = Ledger::new();
    assert!(ledger.register(account(1), 100));
    assert!(!ledger.deposit(account(2), 50));
    assert!(!ledger.is_registered(account(2)));
    assert_eq!(ledger.balance_of(account(2)), 0);
    assert_eq!(ledger.len(), 1);
    assert_eq!(ledger.balance_of(account(1)), 100);
}

#[test]
fn deposit_up_to_the_largest_balance() {
    let mut ledger = Ledger::new();
    assert!(ledger.register(account(1), 1));
    assert!(ledger.deposit(account(1), u128::MAX - 1));
    assert_eq!(ledger.balance_of(account(1)), u128::MAX);
}

#[test]
fn withdraw_more_than_the_balance_returns_zero_and_changes_nothing() {
    let mut ledger = Ledger::new();
    assert!(ledger.register(account(1), 100));
    assert!(ledger.deposit(account(1), 50));
    assert_eq!(ledger.withdraw(account(1), 200), 0);
    assert_eq!(ledger.balance_of(account(1)), 150);
}

#[test]
fn withdraw_the_whole_balance_leaves_zero() {
    let mut ledger = Ledger::new();
    assert!(ledger.register(account(1), 150));
    assert_eq!(ledger.withdraw(account(1), 150), 150);
    assert_eq!(ledger.balance_of(account(1)), 0);
    assert!(ledger.is_registered(account(1)));
    assert_eq!(ledger.len(), 1);
}

#[test]
fn withdraw_a_part_leaves_the_rest() {
    let mut ledger = Ledger::new();
    assert!(ledger.register(account(1), 150));
    assert_eq!(ledger.withdraw(account(1), 40), 40);
    assert_eq!(ledger.balance_of(account(1)), 110);
}

#[test]
fn withdraw_from_an_unregistered_account_returns_zero() {
    let mut ledger = Ledger::new();
    assert_eq!(ledger.withdraw(account(3), 10), 0);
    assert_eq!(ledger.withdraw(account(3), 0), 0);
    assert!(!ledger.is_registered(account(3)));
    assert_eq!(ledger.len(), 0);
}

#[test]
fn withdraw_touches_no_other_account() {
    let mut ledger = Ledger::new();
    assert!(ledger.register(account(1), 10));
    assert!(ledger.register(account(2), 20));
    assert_eq!(ledger.withdraw(account(2), 5), 5);
    assert_eq!(ledger.balance_of(account(1)), 10);
    assert_eq!(ledger.balance_of(account(2)), 15);
    assert_eq!(ledger.system_balance(), 0);
}

#[test]
fn debit_succeeds_only_when_the_balance_covers_it() {
    let mut ledger = Ledger::new();
    assert!(ledger.register(account(1), 10));
    assert!(!ledger.debit(account(1), 11));
    assert_eq!(ledger.balance_of(account(1)), 10);
    assert!(ledger.debit(account(1), 10));
    assert_eq!(ledger.balance_of(account(1)), 0);
    assert!(!ledger.debit(account(1), 1));
    assert!(ledger.debit(account(1), 0));
    assert!(!ledger.debit(account(2), 0));
    assert!(!ledger.is_registered(account(2)));
}

#[test]
fn credit_system_adds_to_the_system_account_only() {
    let mut ledger = Ledger::new();
    assert!(ledger.register(account(1), 10));
    ledger.credit_system(7);
    ledger.credit_system(5);
    assert_eq!(ledger.system_balance(), 12);
    assert_eq!(ledger.balance_of(account(1)), 10);
    assert_eq!(ledger.len(), 1);
}
