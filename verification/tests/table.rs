use ipfs_ks::id::AccountId;
use ipfs_ks::id::ContentHash;
use ipfs_ks::id::Key;
use ipfs_ks::table::Table;

fn account(tag: u8) -> AccountId {
    AccountId::new([tag; 32])
}

#[test]
fn new_table_holds_nothing() {
    let table: Table<AccountId, u64> = Table::new();
    assert_eq!(table.len(), 0);
    assert!(!table.contains_key(&account(1)));
    assert_eq!(table.get(&account(1)), None);
}

#[test]
fn insert_then_get_gives_the_value() {
    let mut table: Table<AccountId, u64> = Table::new();
    assert_eq!(table.insert(account(1), 10), None);
    assert_eq!(table.insert(account(2), 20), None);
    assert_eq!(table.get(&account(1)), Some(&10));
    assert_eq!(table.get(&account(2)), Some(&20));
    assert_eq!(table.get(&account(3)), None);
    assert!(table.contains_key(&account(2)));
    assert_eq!(table.len(), 2);
}

#[test]
fn insert_on_a_held_key_replaces_and_returns_the_old_value() {
    let mut table: Table<AccountId, u64> = Table::new();
    assert_eq!(table.insert(account(1), 10), None);
    assert_eq!(table.insert(account(2), 20), None);
    assert_eq!(table.insert(account(1), 11), Some(10));
    assert_eq!(table.get(&account(1)), Some(&11));
    assert_eq!(table.get(&account(2)), Some(&20));
    assert_eq!(table.len(), 2);
}

#[test]
fn get_mut_writes_through_to_the_key() {
    let mut table: Table<ContentHash, Vec<u8>> = Table::new();
    let first = ContentHash::new([1; 32]);
    let second = ContentHash::new([2; 32]);
    table.insert(first, vec![1]);
    table.insert(second, vec![2]);
    match table.get_mut(&first) {
        Some(value) => value.push(9),
        None => panic!("the key was inserted"),
    }
    assert_eq!(table.get(&first), Some(&vec![1, 9]));
    assert_eq!(table.get(&second), Some(&vec![2]));
    assert!(table.get_mut(&ContentHash::new([3; 32])).is_none());
    assert_eq!(table.len(), 2);
}

#[test]
fn keys_compare_by_their_bytes() {
    let mut bytes = [7u8; 32];
    let a = AccountId::new(bytes);
    assert!(a.same(&AccountId::new([7u8; 32])));
    bytes[16] = 8;
    assert!(!a.same(&AccountId::new(bytes)));
    assert_eq!(AccountId::new(bytes).bytes(), bytes);
    let h = ContentHash::new(bytes);
    assert!(h.same(&ContentHash::new(bytes)));
    assert!(!h.same(&ContentHash::new([7u8; 32])));
    assert_eq!(h.bytes(), bytes);
}

#[test]
fn same_bytes_tells_first_and_last_byte_apart() {
    let a = [0u8; 32];
    let mut b = [0u8; 32];
    assert!(ipfs_ks::id::same_bytes(&a, &b));
    b[0] = 1;
    assert!(!ipfs_ks::id::same_bytes(&a, &b));
    b[0] = 0;
    b[31] = 1;
    assert!(!ipfs_ks::id::same_bytes(&a, &b));
}
