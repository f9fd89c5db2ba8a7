//! The permission table of one content record: which accounts, besides the
//! owner, may read it or write it.

use crate::id::AccountId;
use crate::table::Table;
use vstd::prelude::*;

verus! {

/// What a permission allows.
#[derive(Clone, Copy, Debug, PartialEq, Eq, Structural)]
pub enum PermissionKind {
    Read,
    Write,
}

/// The permissions of one account on one content record.
#[derive(Clone, Copy, Debug, PartialEq, Eq, Structural)]
pub struct PermissionEntry {
    pub can_read: bool,
    pub can_write: bool,
}

impl PermissionEntry {
    /// The entry that allows nothing.
    pub open spec fn nothing() -> PermissionEntry {
        PermissionEntry { can_read: false, can_write: false }
    }

    /// Whether the entry allows `kind`.
    pub open spec fn allows(self, kind: PermissionKind) -> bool {
        match kind {
            PermissionKind::Read => self.can_read,
            PermissionKind::Write => self.can_write,
        }
    }

    /// The entry with the bit of `kind` set to `allowed` and the other bit
    /// as it was.
    pub open spec fn with(self, kind: PermissionKind, allowed: bool) -> PermissionEntry {
        match kind {
            PermissionKind::Read => PermissionEntry { can_read: allowed, ..self },
            PermissionKind::Write => PermissionEntry { can_write: allowed, ..self },
        }
    }

    /// Whether the entry allows `kind`.
    pub fn permits(&self, kind: PermissionKind) -> (allowed: bool)
        ensures
            allowed == self.allows(kind),
    {
        match kind {
            PermissionKind::Read => self.can_read,
            PermissionKind::Write => self.can_write,
        }
    }

    /// Sets the bit of `kind` to `allowed`.
    pub fn set(&mut self, kind: PermissionKind, allowed: bool)
        ensures
            *final(self) == old(self).with(kind, allowed),
    {
        match kind {
            PermissionKind::Read => {
                self.can_read = allowed;
            },
            PermissionKind::Write => {
                self.can_write = allowed;
            },
        }
    }
}

/// What a permission table holds: an entry for each account that was ever
/// granted something. An account without an entry has no permission.
#[verifier::ext_equal]
pub struct PermissionModel {
    pub entries: Map<AccountId, PermissionEntry>,
}

impl PermissionModel {
    /// The table without entries.
    pub open spec fn empty() -> PermissionModel {
        PermissionModel { entries: Map::empty() }
    }

    /// Whether the table has an entry for `account`.
    pub open spec fn has_entry(self, account: AccountId) -> bool {
        self.entries.contains_key(account)
    }

    /// Whether the table allows `kind` to `account`.
    pub open spec fn allows(self, account: AccountId, kind: PermissionKind) -> bool {
        self.has_entry(account) && self.entries[account].allows(kind)
    }

    /// The table after `kind` was granted to `account`: the bit is set, in
    /// a new entry if the account had none.
    pub open spec fn grant(self, account: AccountId, kind: PermissionKind) -> PermissionModel {
        let entry = if self.has_entry(account) {
            self.entries[account]
        } else {
            PermissionEntry::nothing()
        };
        PermissionModel { entries: self.entries.insert(account, entry.with(kind, true)) }
    }

    /// The table after `kind` was revoked from `account`: the bit is
    /// cleared and the entry stays; a table without an entry for the
    /// account is left as it is.
    pub open spec fn revoke(self, account: AccountId, kind: PermissionKind) -> PermissionModel {
        if self.has_entry(account) {
            PermissionModel {
                entries: self.entries.insert(account, self.entries[account].with(kind, false)),
            }
        } else {
            self
        }
    }
}

/// The permission table of one content record.
///
/// The owner of the record is not listed: whoever asks on behalf of a
/// record tests for the owner first.
pub struct PermissionTable {
    entries: Table<AccountId, PermissionEntry>,
}

impl PermissionTable {
    /// What the table holds.
    pub closed spec fn view(&self) -> PermissionModel {
        PermissionModel { entries: self.entries@ }
    }

    /// A table without entries.
    pub fn new() -> (table: Self)
        ensures
            table@ == PermissionModel::empty(),
    {
        PermissionTable { entries: Table::new() }
    }

    /// The number of accounts with an entry.
    pub fn len(&self) -> (n: usize)
        ensures
            self@.entries.dom().finite(),
            n == self@.entries.dom().len(),
    {
        self.entries.len()
    }

    /// The entry of `account`, if it has one.
    pub fn entry(&self, account: AccountId) -> (entry: Option<PermissionEntry>)
        ensures
            entry == if self@.has_entry(account) {
                Some(self@.entries[account])
            } else {
                None::<PermissionEntry>
            },
    {
        match self.entries.get(&account) {
            Some(entry) => Some(*entry),
            None => None,
        }
    }

    /// Whether the table allows `kind` to `account`: `false` if the account
    /// has no entry, else the bit of `kind`.
    pub fn has_permission(&self, account: AccountId, kind: PermissionKind) -> (allowed: bool)
        ensures
            allowed == self@.allows(account, kind),
    {
        match self.entries.get(&account) {
            Some(entry) => entry.permits(kind),
            None => false,
        }
    }

    /// Grants `kind` to `account`, in a new entry if the account had none.
    /// Always returns `true`.
    pub fn grant(&mut self, account: AccountId, kind: PermissionKind) -> (done: bool)
        ensures
            done,
            final(self)@ == old(self)@.grant(account, kind),
    {
        match self.entries.get_mut(&account) {
            Some(entry) => {
                entry.set(kind, true);
            },
            None => {
                let mut entry = PermissionEntry { can_read: false, can_write: false };
                entry.set(kind, true);
                self.entries.insert(account, entry);
            },
        }
        true
    }

    /// Revokes `kind` from `account`. The entry stays, even if it allows
    /// nothing any more. Returns `false`, and changes nothing, if the
    /// account has no entry.
    pub fn revoke(&mut self, account: AccountId, kind: PermissionKind) -> (done: bool)
        ensures
            done == old(self)@.has_entry(account),
            final(self)@ == old(self)@.revoke(account, kind),
    {
        match self.entries.get_mut(&account) {
            Some(entry) => {
                entry.set(kind, false);
                true
            },
            None => false,
        }
    }
}

} // verus!
