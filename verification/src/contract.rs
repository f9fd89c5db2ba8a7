//! The registry as a whole: the ledger and the content registry, and the
//! operations that join them.
//!
//! Every operation names its caller and the time of the call, and returns
//! the event that is to be recorded for it. An operation either does all
//! of its work or, when one of its conditions fails, changes nothing.
//!
//! Permissions and billing meet here, and by choice: each could stand
//! without the other. Reading and writing depend on the permission
//! tables: the owner of a record may read and write it, another account
//! only with the matching permission. A caller who lacks it is turned away
//! before any charge.
//!
//! Removing is recorded and not performed: `remove_file` returns its
//! event, and the record stays with its permission table.
//!
//! What an operation costs is taken from the caller's balance and added to
//! the balance of the system account, so that the charge moves value and
//! does not destroy it.

use crate::charging::cost;
use crate::charging::TxOp;
use crate::event::outcome_of;
use crate::event::FileEvent;
use crate::event::OpError;
use crate::id::AccountId;
use crate::id::ContentHash;
use crate::ledger::Ledger;
use crate::model::Model;
use crate::permission::PermissionKind;
use crate::registry::ContentRecord;
use crate::registry::Registry;
use vstd::prelude::*;

verus! {

/// The ledger and the content registry, with the operations on them.
pub struct IpfsKs {
    ledger: Ledger,
    registry: Registry,
}

impl IpfsKs {
    /// The state of the registry as a whole.
    pub closed spec fn view(&self) -> Model {
        Model { ledger: self.ledger@, registry: self.registry@ }
    }

    /// A registry with no account and no record.
    pub fn new() -> (fresh: Self)
        ensures
            fresh@ == Model::empty(),
    {
        IpfsKs { ledger: Ledger::new(), registry: Registry::new() }
    }

    /// The number of registered accounts.
    pub fn num_users(&self) -> (n: usize)
        ensures
            self@.ledger.balances.dom().finite(),
            n == self@.ledger.balances.dom().len(),
    {
        self.ledger.len()
    }

    /// The number of content records.
    pub fn num_files(&self) -> (n: usize)
        ensures
            self@.registry.files.dom().finite(),
            n == self@.registry.files.dom().len(),
    {
        self.registry.len()
    }

    /// Whether `account` is registered.
    pub fn is_user_registered(&self, account: AccountId) -> (held: bool)
        ensures
            held == self@.ledger.registered(account),
    {
        self.ledger.is_registered(account)
    }

    /// The balance of `account`: 0 if it is not registered.
    pub fn balance_of(&self, account: AccountId) -> (balance: u128)
        ensures
            balance == self@.ledger.balance_of(account),
    {
        self.ledger.balance_of(account)
    }

    /// What the system account has received from charges.
    pub fn system_balance(&self) -> (balance: u128)
        ensures
            balance == self@.ledger.system,
    {
        self.ledger.system_balance()
    }

    /// The record for `hash`, if there is one.
    pub fn file(&self, hash: ContentHash) -> (record: Option<&ContentRecord>)
        ensures
            match record {
                Some(r) => self@.registry.contains(hash) && r@ == self@.registry.files[hash],
                None => !self@.registry.contains(hash),
            },
    {
        self.registry.get(hash)
    }

    /// Whether `account` may do `kind` on the content of `hash`: the owner
    /// of the record may do everything, another account what the record's
    /// permission table allows, and nobody anything where there is no
    /// record.
    pub fn has_permission(&self, account: AccountId, hash: ContentHash, kind: PermissionKind) -> (allowed: bool)
        ensures
            allowed == self@.registry.permits(account, hash, kind),
    {
        self.registry.has_permission(account, hash, kind)
    }

    /// The price of `op` on the content of `hash` as things stand: that of
    /// a record never accessed for `Create`, else that of the record's
    /// access count.
    pub fn price(&self, hash: ContentHash, op: TxOp) -> (price: u128)
        ensures
            price == self@.price(hash, op),
    {
        match op {
            TxOp::Create => cost(op, 0),
            _ => match self.registry.get(hash) {
                Some(record) => cost(op, record.access_count()),
                None => cost(op, 0),
            },
        }
    }

    /// Whether the balance of `account` covers the price of `op` on the
    /// content of `hash`.
    pub fn can_pay(&self, account: AccountId, hash: ContentHash, op: TxOp) -> (covered: bool)
        ensures
            covered == self@.can_pay(account, hash, op),
    {
        self.price(hash, op) <= self.ledger.balance_of(account)
    }

    /// Whether a charge for `op` on the content of `hash` stays within what
    /// the balance of the system account and the access counter of the
    /// record can hold. `add_file`, `write_file` and `read_file` ask for
    /// this where they are not refused.
    pub fn within_limits(&self, hash: ContentHash, op: TxOp) -> (fits: bool)
        ensures
            fits == self@.within_limits(hash, op),
    {
        let accesses: u64 = match self.registry.get(hash) {
            Some(record) => record.access_count(),
            None => 0,
        };
        let room: bool = self.ledger.system_balance() <= u128::MAX - self.price(hash, op);
        match op {
            TxOp::Create => room,
            _ => room && accesses < u64::MAX,
        }
    }

    /// Why `add_file` would be refused as things stand, if it would:
    /// `NotFound` if the caller is not registered, else `AlreadyExists` if
    /// `hash` has a record, else `InsufficientFunds` if the caller's
    /// balance is below the price of `Create`.
    pub fn add_file_refusal(&self, caller: AccountId, hash: ContentHash) -> (refusal: Option<
        OpError,
    >)
        ensures
            refusal == self@.add_file_refusal(caller, hash),
    {
        if !self.ledger.is_registered(caller) {
            Some(OpError::NotFound)
        } else if self.registry.contains(hash) {
            Some(OpError::AlreadyExists)
        } else if !self.can_pay(caller, hash, TxOp::Create) {
            Some(OpError::InsufficientFunds)
        } else {
            None
        }
    }

    /// Why `remove_file` would be refused as things stand, if it would:
    /// `NotFound` if the caller is not registered or `hash` has no record.
    pub fn remove_file_refusal(&self, caller: AccountId, hash: ContentHash) -> (refusal: Option<
        OpError,
    >)
        ensures
            refusal == self@.remove_file_refusal(caller, hash),
    {
        if !self.ledger.is_registered(caller) {
            Some(OpError::NotFound)
        } else if !self.registry.contains(hash) {
            Some(OpError::NotFound)
        } else {
            None
        }
    }

    fn access_refusal(&self, caller: AccountId, hash: ContentHash, kind: PermissionKind, op: TxOp) -> (refusal: Option<OpError>)
        ensures
            refusal == self@.access_refusal(caller, hash, kind, op),
    {
        if !self.ledger.is_registered(caller) {
            Some(OpError::NotFound)
        } else if !self.registry.contains(hash) {
            Some(OpError::NotFound)
        } else if !self.registry.has_permission(caller, hash, kind) {
            Some(OpError::PermissionDenied)
        } else if !self.can_pay(caller, hash, op) {
            Some(OpError::InsufficientFunds)
        } else {
            None
        }
    }

    /// Why `write_file` would be refused as things stand, if it would:
    /// `NotFound` if the caller is not registered or `hash` has no record,
    /// else `PermissionDenied` if the caller is neither the owner nor
    /// allowed to write, else `InsufficientFunds` if the caller's balance
    /// is below the price of `Write`.
    pub fn write_file_refusal(&self, caller: AccountId, hash: ContentHash) -> (refusal: Option<
        OpError,
    >)
        ensures
            refusal == self@.write_file_refusal(caller, hash),
    {
        self.access_refusal(caller, hash, PermissionKind::Write, TxOp::Write)
    }

    /// Why `read_file` would be refused as things stand, if it would:
    /// `NotFound` if the caller is not registered or `hash` has no record,
    /// else `PermissionDenied` if the caller is neither the owner nor
    /// allowed to read, else `InsufficientFunds` if the caller's balance is
    /// below the price of `Read`.
    pub fn read_file_refusal(&self, caller: AccountId, hash: ContentHash) -> (refusal: Option<
        OpError,
    >)
        ensures
            refusal == self@.read_file_refusal(caller, hash),
    {
        self.access_refusal(caller, hash, PermissionKind::Read, TxOp::Read)
    }

    /// Registers `account` with `initial_balance`. Returns `false`, and
    /// changes nothing, if the account is registered already.
    pub fn register(&mut self, account: AccountId, initial_balance: u128) -> (done: bool)
        ensures
            done == !old(self)@.ledger.registered(account),
            final(self)@ == old(self)@.register(account, initial_balance as int),
    {
        self.ledger.register(account, initial_balance)
    }

    /// Adds `amount` to the balance of `account`. Returns `false`, and
    /// changes nothing, if the account is not registered.
    ///
    /// The new balance must fit the balance type.
    pub fn deposit(&mut self, account: AccountId, amount: u128) -> (done: bool)
        requires
            old(self)@.ledger.registered(account) ==> old(self)@.ledger.balance_of(account)
                + amount <= u128::MAX,
        ensures
            done == old(self)@.ledger.registered(account),
            final(self)@ == old(self)@.deposit(account, amount as int),
    {
        self.ledger.deposit(account, amount)
    }

    /// Takes `amount` from the balance of `account` and returns it. Returns
    /// 0, and changes nothing, if the account is not registered or holds
    /// less than `amount`.
    pub fn withdraw(&mut self, account: AccountId, amount: u128) -> (withdrawn: u128)
        ensures
            withdrawn == if old(self)@.ledger.covers(account, amount as int) {
                amount
            } else {
                0
            },
            final(self)@ == old(self)@.withdraw(account, amount as int),
    {
        self.ledger.withdraw(account, amount)
    }

    /// Charges `account` for `op` on the content of `hash`: the price moves
    /// from the account's balance to the system account. Returns `false`,
    /// and changes nothing, if the balance is below the price.
    ///
    /// A read or a write is charged on an existing record only, and the
    /// system account's new balance must fit the balance type.
    fn charge(&mut self, account: AccountId, hash: ContentHash, op: TxOp) -> (paid: bool)
        requires
            op != TxOp::Create ==> old(self)@.registry.contains(hash),
            old(self)@.can_pay(account, hash, op) ==> old(self)@.ledger.system + old(self)@.price(
                hash,
                op,
            ) <= u128::MAX,
        ensures
            paid == old(self)@.can_pay(account, hash, op),
            final(self)@ == old(self)@.charge(account, hash, op),
    {
        let price: u128 = self.price(hash, op);
        if price > self.ledger.balance_of(account) {
            return false;
        }
        self.ledger.debit(account, price);
        self.ledger.credit_system(price);
        true
    }

    /// Adds the content of `hash` for `caller`, who pays the price of
    /// `Create` and becomes the owner of the new record.
    ///
    /// Refused, with nothing changed: `NotFound` if the caller is not
    /// registered, else `AlreadyExists` if `hash` has a record, else
    /// `InsufficientFunds` if the caller's balance is below the price.
    pub fn add_file(&mut self, caller: AccountId, hash: ContentHash, now: u64) -> (outcome: Result<
        FileEvent,
        OpError,
    >)
        requires
            old(self)@.add_file_refusal(caller, hash) is None ==> old(self)@.within_limits(
                hash,
                TxOp::Create,
            ),
        ensures
            outcome == outcome_of(
                old(self)@.add_file_refusal(caller, hash),
                (FileEvent::FileCreated { owner: caller, hash, ts: now }),
            ),
            final(self)@ == old(self)@.add_file(caller, hash, now),
            outcome is Err ==> final(self)@ == old(self)@,
    {
        match self.add_file_refusal(caller, hash) {
            Some(reason) => Err(reason),
            None => {
                self.charge(caller, hash, TxOp::Create);
                self.registry.create(hash, caller, now);
                Ok(FileEvent::FileCreated { owner: caller, hash, ts: now })
            },
        }
    }

    /// Records the removal of the content of `hash`. The record and its
    /// permission table are kept: nothing changes but that the event is
    /// returned.
    ///
    /// Refused with `NotFound` if the caller is not registered or `hash`
    /// has no record.
    pub fn remove_file(&mut self, caller: AccountId, hash: ContentHash, now: u64) -> (outcome: Result<
        FileEvent,
        OpError,
    >)
        ensures
            outcome == outcome_of(
                old(self)@.remove_file_refusal(caller, hash),
                (FileEvent::FileRemoved { hash, ts: now }),
            ),
            final(self)@ == old(self)@,
    {
        match self.remove_file_refusal(caller, hash) {
            Some(reason) => Err(reason),
            None => {
                self.registry.remove(hash);
                Ok(FileEvent::FileRemoved { hash, ts: now })
            },
        }
    }

    fn access(
        &mut self,
        caller: AccountId,
        hash: ContentHash,
        kind: PermissionKind,
        op: TxOp,
        event: FileEvent,
    ) -> (outcome: Result<FileEvent, OpError>)
        requires
            op != TxOp::Create,
            old(self)@.access_refusal(caller, hash, kind, op) is None ==> old(
                self,
            )@.within_limits(hash, op),
        ensures
            outcome == outcome_of(old(self)@.access_refusal(caller, hash, kind, op), event),
            final(self)@ == old(self)@.access(caller, hash, kind, op),
    {
        match self.access_refusal(caller, hash, kind, op) {
            Some(reason) => Err(reason),
            None => {
                self.charge(caller, hash, op);
                self.registry.bump_access(hash);
                Ok(event)
            },
        }
    }

    /// Writes the content of `hash` for `caller`, who pays the price of
    /// `Write`; the record counts one more access.
    ///
    /// Refused, with nothing changed: `NotFound` if the caller is not
    /// registered or `hash` has no record, else `PermissionDenied` if the
    /// caller is neither the owner nor allowed to write, else
    /// `InsufficientFunds` if the caller's balance is below the price.
    pub fn write_file(&mut self, caller: AccountId, hash: ContentHash, now: u64) -> (outcome: Result<
        FileEvent,
        OpError,
    >)
        requires
            old(self)@.write_file_refusal(caller, hash) is None ==> old(self)@.within_limits(
                hash,
                TxOp::Write,
            ),
        ensures
            outcome == outcome_of(
                old(self)@.write_file_refusal(caller, hash),
                (FileEvent::FileModified { hash, ts: now }),
            ),
            final(self)@ == old(self)@.write_file(caller, hash),
            outcome is Err ==> final(self)@ == old(self)@,
    {
        self.access(
            caller,
            hash,
            PermissionKind::Write,
            TxOp::Write,
            FileEvent::FileModified { hash, ts: now },
        )
    }

    /// Reads the content of `hash` for `caller`, who pays the price of
    /// `Read`; the record counts one more access.
    ///
    /// Refused, with nothing changed: `NotFound` if the caller is not
    /// registered or `hash` has no record, else `PermissionDenied` if the
    /// caller is neither the owner nor allowed to read, else
    /// `InsufficientFunds` if the caller's balance is below the price.
    pub fn read_file(&mut self, caller: AccountId, hash: ContentHash, now: u64) -> (outcome: Result<
        FileEvent,
        OpError,
    >)
        requires
            old(self)@.read_file_refusal(caller, hash) is None ==> old(self)@.within_limits(
                hash,
                TxOp::Read,
            ),
        ensures
            outcome == outcome_of(
                old(self)@.read_file_refusal(caller, hash),
                (FileEvent::FileRead { hash, ts: now }),
            ),
            final(self)@ == old(self)@.read_file(caller, hash),
            outcome is Err ==> final(self)@ == old(self)@,
    {
        self.access(
            caller,
            hash,
            PermissionKind::Read,
            TxOp::Read,
            FileEvent::FileRead { hash, ts: now },
        )
    }

    /// Grants `kind` on the content of `hash` to `account`. Returns
    /// `false`, and changes nothing, if `hash` has no record.
    pub fn grant(&mut self, account: AccountId, hash: ContentHash, kind: PermissionKind) -> (done: bool)
        ensures
            done == old(self)@.registry.contains(hash),
            final(self)@ == old(self)@.grant(account, hash, kind),
    {
        self.registry.grant(account, hash, kind)
    }

    /// Revokes `kind` on the content of `hash` from `account`. Returns
    /// `false`, and changes nothing, if `hash` has no record or the
    /// account has no entry in the record's permission table.
    pub fn revoke(&mut self, account: AccountId, hash: ContentHash, kind: PermissionKind) -> (done: bool)
        ensures
            done == (old(self)@.registry.contains(hash) && old(
                self,
            )@.registry.files[hash].permissions.has_entry(account)),
            final(self)@ == old(self)@.revoke(account, hash, kind),
    {
        self.registry.revoke(account, hash, kind)
    }
}

} // verus!
