//! The state of the registry as a whole, and what each operation makes of
//! it.
//!
//! An operation that is refused leaves the state as it is. The conditions
//! of an operation are tested in a fixed order, and the first that fails
//! gives the reason.

use crate::charging::cost_of;
use crate::charging::TxOp;
use crate::event::OpError;
use crate::id::AccountId;
use crate::id::ContentHash;
use crate::ledger::LedgerModel;
use crate::permission::PermissionKind;
use crate::registry::RegistryModel;
use vstd::prelude::*;

verus! {

/// The state of the registry as a whole.
#[verifier::ext_equal]
pub struct Model {
    pub ledger: LedgerModel,
    pub registry: RegistryModel,
}

/// One call of an operation that may change the state.
pub enum Operation {
    Register { account: AccountId, initial_balance: nat },
    Deposit { account: AccountId, amount: nat },
    Withdraw { account: AccountId, amount: nat },
    AddFile { caller: AccountId, hash: ContentHash, now: u64 },
    RemoveFile { caller: AccountId, hash: ContentHash, now: u64 },
    WriteFile { caller: AccountId, hash: ContentHash, now: u64 },
    ReadFile { caller: AccountId, hash: ContentHash, now: u64 },
    Grant { account: AccountId, hash: ContentHash, kind: PermissionKind },
    Revoke { account: AccountId, hash: ContentHash, kind: PermissionKind },
}

impl Model {
    /// The state with no account and no record.
    pub open spec fn empty() -> Model {
        Model { ledger: LedgerModel::empty(), registry: RegistryModel::empty() }
    }

    /// The state after `register`.
    pub open spec fn register(self, account: AccountId, initial: int) -> Model {
        Model { ledger: self.ledger.register(account, initial), ..self }
    }

    /// The state after `deposit`.
    pub open spec fn deposit(self, account: AccountId, amount: int) -> Model {
        Model { ledger: self.ledger.deposit(account, amount), ..self }
    }

    /// The state after `withdraw`.
    pub open spec fn withdraw(self, account: AccountId, amount: int) -> Model {
        Model { ledger: self.ledger.withdraw(account, amount), ..self }
    }

    /// The state after `grant`.
    pub open spec fn grant(self, account: AccountId, hash: ContentHash, kind: PermissionKind) -> Model {
        Model { registry: self.registry.grant(account, hash, kind), ..self }
    }

    /// The state after `revoke`.
    pub open spec fn revoke(self, account: AccountId, hash: ContentHash, kind: PermissionKind) -> Model {
        Model { registry: self.registry.revoke(account, hash, kind), ..self }
    }

    /// The price of `op` on the content of `hash`: that of a record never
    /// accessed for `Create`, else that of the record's access count.
    pub open spec fn price(self, hash: ContentHash, op: TxOp) -> nat {
        match op {
            TxOp::Create => cost_of(op, 0),
            _ => cost_of(op, self.registry.access_count(hash)),
        }
    }

    /// Whether the balance of `account` covers the price of `op` on `hash`.
    pub open spec fn can_pay(self, account: AccountId, hash: ContentHash, op: TxOp) -> bool {
        self.price(hash, op) <= self.ledger.balance_of(account)
    }

    /// The state after `account` was charged for `op` on `hash`: the price
    /// moves from the account to the system account, unless the account
    /// cannot pay it.
    pub open spec fn charge(self, account: AccountId, hash: ContentHash, op: TxOp) -> Model {
        if self.can_pay(account, hash, op) {
            let price: int = self.price(hash, op) as int;
            Model { ledger: self.ledger.withdraw(account, price).credit_system(price), ..self }
        } else {
            self
        }
    }

    /// Whether charging for `op` on `hash` stays within what the balance of
    /// the system account and the access counter of the record can hold.
    pub open spec fn within_limits(self, hash: ContentHash, op: TxOp) -> bool {
        &&& self.ledger.system + self.price(hash, op) <= u128::MAX
        &&& op != TxOp::Create ==> self.registry.access_count(hash) < u64::MAX
    }

    /// Why `add_file` is refused, if it is.
    pub open spec fn add_file_refusal(self, caller: AccountId, hash: ContentHash) -> Option<OpError> {
        if !self.ledger.registered(caller) {
            Some(OpError::NotFound)
        } else if self.registry.contains(hash) {
            Some(OpError::AlreadyExists)
        } else if !self.can_pay(caller, hash, TxOp::Create) {
            Some(OpError::InsufficientFunds)
        } else {
            None
        }
    }

    /// The state after `add_file`: the caller has paid and owns a fresh
    /// record, unless the call was refused.
    pub open spec fn add_file(self, caller: AccountId, hash: ContentHash, now: u64) -> Model {
        if self.add_file_refusal(caller, hash) is None {
            Model {
                ledger: self.charge(caller, hash, TxOp::Create).ledger,
                registry: self.registry.create(hash, caller, now),
            }
        } else {
            self
        }
    }

    /// Why `remove_file` is refused, if it is.
    pub open spec fn remove_file_refusal(self, caller: AccountId, hash: ContentHash) -> Option<OpError> {
        if !self.ledger.registered(caller) {
            Some(OpError::NotFound)
        } else if !self.registry.contains(hash) {
            Some(OpError::NotFound)
        } else {
            None
        }
    }

    /// Why an access of `kind` to `hash`, charged as `op`, is refused, if
    /// it is.
    pub open spec fn access_refusal(
        self,
        caller: AccountId,
        hash: ContentHash,
        kind: PermissionKind,
        op: TxOp,
    ) -> Option<OpError> {
        if !self.ledger.registered(caller) {
            Some(OpError::NotFound)
        } else if !self.registry.contains(hash) {
            Some(OpError::NotFound)
        } else if !self.registry.permits(caller, hash, kind) {
            Some(OpError::PermissionDenied)
        } else if !self.can_pay(caller, hash, op) {
            Some(OpError::InsufficientFunds)
        } else {
            None
        }
    }

    /// The state after an access of `kind` to `hash` that is charged as
    /// `op`: the caller has paid and the record counts one more access,
    /// unless the access was refused.
    pub open spec fn access(self, caller: AccountId, hash: ContentHash, kind: PermissionKind, op: TxOp) -> Model {
        if self.access_refusal(caller, hash, kind, op) is None {
            Model {
                ledger: self.charge(caller, hash, op).ledger,
                registry: self.registry.bump_access(hash),
            }
        } else {
            self
        }
    }

    /// Why `write_file` is refused, if it is.
    pub open spec fn write_file_refusal(self, caller: AccountId, hash: ContentHash) -> Option<OpError> {
        self.access_refusal(caller, hash, PermissionKind::Write, TxOp::Write)
    }

    /// The state after `write_file`.
    pub open spec fn write_file(self, caller: AccountId, hash: ContentHash) -> Model {
        self.access(caller, hash, PermissionKind::Write, TxOp::Write)
    }

    /// Why `read_file` is refused, if it is.
    pub open spec fn read_file_refusal(self, caller: AccountId, hash: ContentHash) -> Option<OpError> {
        self.access_refusal(caller, hash, PermissionKind::Read, TxOp::Read)
    }

    /// The state after `read_file`.
    pub open spec fn read_file(self, caller: AccountId, hash: ContentHash) -> Model {
        self.access(caller, hash, PermissionKind::Read, TxOp::Read)
    }

    /// The state after one call.
    pub open spec fn step(self, call: Operation) -> Model {
        match call {
            Operation::Register { account, initial_balance } => self.register(
                account,
                initial_balance as int,
            ),
            Operation::Deposit { account, amount } => self.deposit(account, amount as int),
            Operation::Withdraw { account, amount } => self.withdraw(account, amount as int),
            Operation::AddFile { caller, hash, now } => self.add_file(caller, hash, now),
            Operation::RemoveFile { .. } => self,
            Operation::WriteFile { caller, hash, .. } => self.write_file(caller, hash),
            Operation::ReadFile { caller, hash, .. } => self.read_file(caller, hash),
            Operation::Grant { account, hash, kind } => self.grant(account, hash, kind),
            Operation::Revoke { account, hash, kind } => self.revoke(account, hash, kind),
        }
    }

    /// What one call brings into the ledger from outside: a registration
    /// its initial balance and a deposit its amount, a withdrawal the
    /// amount that it takes out, as a negative number, and every other
    /// call nothing.
    pub open spec fn inflow(self, call: Operation) -> int {
        match call {
            Operation::Register { account, initial_balance } => if self.ledger.registered(
                account,
            ) {
                0
            } else {
                initial_balance as int
            },
            Operation::Deposit { account, amount } => if self.ledger.registered(account) {
                amount as int
            } else {
                0
            },
            Operation::Withdraw { account, amount } => if self.ledger.covers(
                account,
                amount as int,
            ) {
                -(amount as int)
            } else {
                0
            },
            _ => 0,
        }
    }

    /// The state after a sequence of calls, the first of them first.
    pub open spec fn run(self, calls: Seq<Operation>) -> Model
        decreases calls.len(),
    {
        if calls.len() == 0 {
            self
        } else {
            self.run(calls.drop_last()).step(calls.last())
        }
    }
}

} // verus!
