//! The content registry: for each content hash that was added, the record
//! of its owner, of how often it was accessed and of when it was created,
//! with the record's permission table.
//!
//! A record, once created, stays: `remove` reports whether there is a
//! record to remove and leaves the record, and its permission table, in
//! place.

use crate::id::AccountId;
use crate::id::ContentHash;
use crate::id::Key;
use crate::permission::PermissionKind;
use crate::permission::PermissionModel;
use crate::permission::PermissionTable;
use crate::table::Table;
use vstd::prelude::*;

verus! {

/// What a content record holds.
#[verifier::ext_equal]
pub struct RecordModel {
    pub owner: AccountId,
    pub access_count: nat,
    pub created_at: u64,
    pub permissions: PermissionModel,
}

impl RecordModel {
    /// The record of content that `owner` added at `now`: never accessed,
    /// and with an empty permission table.
    pub open spec fn fresh(owner: AccountId, now: u64) -> RecordModel {
        RecordModel { owner, access_count: 0, created_at: now, permissions: PermissionModel::empty() }
    }

    /// Whether `account` may do `kind` on the record: the owner may do
    /// everything, another account what the permission table allows it.
    pub open spec fn permits(self, account: AccountId, kind: PermissionKind) -> bool {
        account == self.owner || self.permissions.allows(account, kind)
    }

    /// The record after one more access.
    pub open spec fn bumped(self) -> RecordModel {
        RecordModel { access_count: self.access_count + 1, ..self }
    }
}

/// The record of one piece of content.
pub struct ContentRecord {
    owner: AccountId,
    access_count: u64,
    created_at: u64,
    permissions: PermissionTable,
}

impl ContentRecord {
    /// What the record holds.
    pub closed spec fn view(&self) -> RecordModel {
        RecordModel {
            owner: self.owner,
            access_count: self.access_count as nat,
            created_at: self.created_at,
            permissions: self.permissions@,
        }
    }

    /// The account that added the content.
    pub fn owner(&self) -> (owner: AccountId)
        ensures
            owner == self@.owner,
    {
        self.owner
    }

    /// How often the content was read or written.
    pub fn access_count(&self) -> (count: u64)
        ensures
            count == self@.access_count,
    {
        self.access_count
    }

    /// When the content was added.
    pub fn created_at(&self) -> (at: u64)
        ensures
            at == self@.created_at,
    {
        self.created_at
    }

    /// The permission table of the record.
    pub fn permissions(&self) -> (table: &PermissionTable)
        ensures
            table@ == self@.permissions,
    {
        &self.permissions
    }

    /// Whether `account` may do `kind` on the record: the owner may do
    /// everything, another account what the permission table allows it.
    pub fn permits(&self, account: AccountId, kind: PermissionKind) -> (allowed: bool)
        ensures
            allowed == self@.permits(account, kind),
    {
        account.same(&self.owner) || self.permissions.has_permission(account, kind)
    }
}

/// What a registry holds: a record for each content hash that was added.
#[verifier::ext_equal]
pub struct RegistryModel {
    pub files: Map<ContentHash, RecordModel>,
}

impl RegistryModel {
    /// The registry without records.
    pub open spec fn empty() -> RegistryModel {
        RegistryModel { files: Map::empty() }
    }

    /// Whether there is a record for `hash`.
    pub open spec fn contains(self, hash: ContentHash) -> bool {
        self.files.contains_key(hash)
    }

    /// How often the content of `hash` was accessed; 0 if there is no
    /// record for it.
    pub open spec fn access_count(self, hash: ContentHash) -> nat {
        if self.contains(hash) {
            self.files[hash].access_count
        } else {
            0
        }
    }

    /// Whether `account` may do `kind` on the content of `hash`: never, if
    /// there is no record for it.
    pub open spec fn permits(self, account: AccountId, hash: ContentHash, kind: PermissionKind) -> bool {
        self.contains(hash) && self.files[hash].permits(account, kind)
    }

    /// The registry after `owner` asked at `now` for a record of `hash`: a
    /// fresh record, unless there was a record already.
    pub open spec fn create(self, hash: ContentHash, owner: AccountId, now: u64) -> RegistryModel {
        if self.contains(hash) {
            self
        } else {
            RegistryModel { files: self.files.insert(hash, RecordModel::fresh(owner, now)) }
        }
    }

    /// The registry after one more access to `hash`, if there is a record
    /// for it.
    pub open spec fn bump_access(self, hash: ContentHash) -> RegistryModel {
        if self.contains(hash) {
            RegistryModel { files: self.files.insert(hash, self.files[hash].bumped()) }
        } else {
            self
        }
    }

    /// The registry after `kind` on `hash` was granted to `account`, if
    /// there is a record for `hash`.
    pub open spec fn grant(self, account: AccountId, hash: ContentHash, kind: PermissionKind) -> RegistryModel {
        if self.contains(hash) {
            let record = self.files[hash];
            RegistryModel {
                files: self.files.insert(
                    hash,
                    RecordModel { permissions: record.permissions.grant(account, kind), ..record },
                ),
            }
        } else {
            self
        }
    }

    /// The registry after `kind` on `hash` was revoked from `account`, if
    /// there is a record for `hash`.
    pub open spec fn revoke(self, account: AccountId, hash: ContentHash, kind: PermissionKind) -> RegistryModel {
        if self.contains(hash) {
            let record = self.files[hash];
            RegistryModel {
                files: self.files.insert(
                    hash,
                    RecordModel { permissions: record.permissions.revoke(account, kind), ..record },
                ),
            }
        } else {
            self
        }
    }
}

/// The records of all content that was added.
pub struct Registry {
    files: Table<ContentHash, ContentRecord>,
}

impl Registry {
    /// What the registry holds.
    pub closed spec fn view(&self) -> RegistryModel {
        RegistryModel { files: self.files@.map_values(|record: ContentRecord| record@) }
    }

    /// A registry without records.
    pub fn new() -> (registry: Self)
        ensures
            registry@ == RegistryModel::empty(),
    {
        Registry { files: Table::new() }
    }

    /// The number of records.
    pub fn len(&self) -> (n: usize)
        ensures
            self@.files.dom().finite(),
            n == self@.files.dom().len(),
    {
        let n: usize = self.files.len();
        assert(self@.files.dom() =~= self.files@.dom());
        n
    }

    /// Whether there is a record for `hash`.
    pub fn contains(&self, hash: ContentHash) -> (held: bool)
        ensures
            held == self@.contains(hash),
    {
        self.files.contains_key(&hash)
    }

    /// The record for `hash`, if there is one.
    pub fn get(&self, hash: ContentHash) -> (record: Option<&ContentRecord>)
        ensures
            match record {
                Some(r) => self@.contains(hash) && r@ == self@.files[hash],
                None => !self@.contains(hash),
            },
    {
        self.files.get(&hash)
    }

    /// Whether `account` may do `kind` on the content of `hash`. The owner
    /// of a record may do everything on it, another account what the
    /// record's permission table allows; nobody may do anything where
    /// there is no record.
    pub fn has_permission(&self, account: AccountId, hash: ContentHash, kind: PermissionKind) -> (allowed: bool)
        ensures
            allowed == self@.permits(account, hash, kind),
    {
        match self.files.get(&hash) {
            Some(record) => record.permits(account, kind),
            None => false,
        }
    }

    /// Creates the record for `hash`, owned by `owner` and created at
    /// `now`, never accessed and with an empty permission table. Returns
    /// `false`, and changes nothing, if there is a record for `hash`
    /// already.
    pub fn create(&mut self, hash: ContentHash, owner: AccountId, now: u64) -> (done: bool)
        ensures
            done == !old(self)@.contains(hash),
            final(self)@ == old(self)@.create(hash, owner, now),
    {
        if self.files.contains_key(&hash) {
            return false;
        }
        let record = ContentRecord {
            owner,
            access_count: 0,
            created_at: now,
            permissions: PermissionTable::new(),
        };
        self.files.insert(hash, record);
        true
    }

    /// Counts one more access to `hash`. Returns `false`, and changes
    /// nothing, if there is no record for `hash`.
    ///
    /// The new count must fit the counter.
    pub fn bump_access(&mut self, hash: ContentHash) -> (done: bool)
        requires
            old(self)@.contains(hash) ==> old(self)@.access_count(hash) < u64::MAX,
        ensures
            done == old(self)@.contains(hash),
            final(self)@ == old(self)@.bump_access(hash),
    {
        match self.files.get_mut(&hash) {
            Some(record) => {
                record.access_count = record.access_count + 1;
                true
            },
            None => false,
        }
    }

    /// Reports whether there is a record for `hash` to remove. The record
    /// and its permission table are kept: the registry is left as it was.
    pub fn remove(&mut self, hash: ContentHash) -> (done: bool)
        ensures
            done == old(self)@.contains(hash),
            final(self)@ == old(self)@,
    {
        self.files.contains_key(&hash)
    }

    /// Grants `kind` on the content of `hash` to `account`. Returns
    /// `false`, and changes nothing, if there is no record for `hash`.
    pub fn grant(&mut self, account: AccountId, hash: ContentHash, kind: PermissionKind) -> (done: bool)
        ensures
            done == old(self)@.contains(hash),
            final(self)@ == old(self)@.grant(account, hash, kind),
    {
        match self.files.get_mut(&hash) {
            Some(record) => {
                record.permissions.grant(account, kind);
                true
            },
            None => false,
        }
    }

    /// Revokes `kind` on the content of `hash` from `account`. Returns
    /// `false`, and changes nothing, if there is no record for `hash` or
    /// the account has no entry in the record's permission table.
    pub fn revoke(&mut self, account: AccountId, hash: ContentHash, kind: PermissionKind) -> (done: bool)
        ensures
            done == (old(self)@.contains(hash) && old(self)@.files[hash].permissions.has_entry(
                account,
            )),
            final(self)@ == old(self)@.revoke(account, hash, kind),
    {
        match self.files.get_mut(&hash) {
            Some(record) => record.permissions.revoke(account, kind),
            None => false,
        }
    }
}

} // verus!
