use ipfs_ks::id::AccountId;
use ipfs_ks::permission::PermissionEntry;
use ipfs_ks::permission::PermissionKind;
use ipfs_ks::permission::PermissionTable;

fn account(tag: u8) -> AccountId {
    AccountId::new([tag; 32])
}

#[test]
fn empty_table_allows_nothing() {
    let table = PermissionTable::new();
    assert_eq!(table.len(), 0);
    assert!(!table.has_permission(account(1), PermissionKind::Read));
    assert!(!table.has_permission(account(1), PermissionKind::Write));
    assert_eq!(table.entry(account(1)), None);
}

#[test]
fn grant_write_allows_write_and_not_read() {
    let mut table = PermissionTable::new();
    assert!(table.grant(account(1), PermissionKind::Write));
    assert!(table.has_permission(account(1), PermissionKind::Write));
    assert!(!table.has_permission(account(1), PermissionKind::Read));
    assert_eq!(
        table.entry(account(1)),
        Some(PermissionEntry { can_read: false, can_write: true })
    );
}

#[test]
fn grant_read_allows_read_and_not_write() {
    let mut table = PermissionTable::new();
    assert!(table.grant(account(1), PermissionKind::Read));
    assert!(table.has_permission(account(1), PermissionKind::Read));
    assert!(!table.has_permission(account(1), PermissionKind::Write));
}

#[test]
fn grant_both_kinds_keeps_both() {
    let mut table = PermissionTable::new();
    assert!(table.grant(account(1), PermissionKind::Read));
    assert!(table.grant(account(1), PermissionKind::Write));
    assert_eq!(
        table.entry(account(1)),
        Some(PermissionEntry { can_read: true, can_write: true })
    );
    assert_eq!(table.len(), 1);
}

#[test]
fn grant_twice_is_the_same_as_once() {
    let mut table = PermissionTable::new();
    assert!(table.grant(account(1), PermissionKind::Write));
    let once = table.entry(account(1));
    assert!(table.grant(account(1), PermissionKind::Write));
    assert_eq!(table.entry(account(1)), once);
    assert_eq!(table.len(), 1);
}

#[test]
fn grant_to_one_account_gives_nothing_to_another() {
    let mut table = PermissionTable::new();
    assert!(table.grant(account(1), PermissionKind::Write));
    assert!(!table.has_permission(account(2), PermissionKind::Write));
    assert_eq!(table.entry(account(2)), None);
}

#[test]
fn revoke_clears_the_bit_and_keeps_the_entry() {
    let mut table = PermissionTable::new();
    assert!(table.grant(account(1), PermissionKind::Write));
    assert!(table.revoke(account(1), PermissionKind::Write));
    assert!(!table.has_permission(account(1), PermissionKind::Write));
    assert_eq!(
        table.entry(account(1)),
        Some(PermissionEntry { can_read: false, can_write: false })
    );
    assert_eq!(table.len(), 1);
}

#[test]
fn revoke_leaves_the_other_bit() {
    let mut table = PermissionTable::new();
    assert!(table.grant(account(1), PermissionKind::Read));
    assert!(table.grant(account(1), PermissionKind::Write));
    assert!(table.revoke(account(1), PermissionKind::Read));
    assert!(!table.has_permission(account(1), PermissionKind::Read));
    assert!(table.has_permission(account(1), PermissionKind::Write));
}

#[test]
fn revoke_of_a_bit_that_is_clear_succeeds_on_an_entry() {
    let mut table = PermissionTable::new();
    assert!(table.grant(account(1), PermissionKind::Read));
    assert!(table.revoke(account(1), PermissionKind::Write));
    assert_eq!(
        table.entry(account(1)),
        Some(PermissionEntry { can_read: true, can_write: false })
    );
}

#[test]
fn revoke_without_an_entry_is_refused_and_makes_none() {
    let mut table = PermissionTable::new();
    assert!(!table.revoke(account(1), PermissionKind::Write));
    assert_eq!(table.entry(account(1)), None);
    assert_eq!(table.len(), 0);
    assert!(table.grant(account(2), PermissionKind::Read));
    assert!(!table.revoke(account(1), PermissionKind::Read));
    assert_eq!(table.len(), 1);
}

#[test]
fn entry_bits_are_set_one_at_a_time() {
    let mut entry = PermissionEntry { can_read: false, can_write: false };
    assert!(!entry.permits(PermissionKind::Read));
    entry.set(PermissionKind::Read, true);
    assert!(entry.permits(PermissionKind::Read));
    assert!(!entry.permits(PermissionKind::Write));
    entry.set(PermissionKind::Write, true);
    entry.set(PermissionKind::Read, false);
    assert_eq!(entry, PermissionEntry { can_read: false, can_write: true });
}
