//! What holds of the operations, whatever the state and the arguments.

use crate::charging::cost_of;
use crate::charging::TxOp;
use crate::event::OpError;
use crate::id::AccountId;
use crate::id::ContentHash;
use crate::ledger::lemma_sum_of_insert;
use crate::model::Model;
use crate::model::Operation;
use crate::permission::PermissionKind;
use crate::registry::RecordModel;
use vstd::prelude::*;

verus! {

/// One call leaves every balance at or above zero, if every balance was so
/// before.
pub proof fn lemma_step_keeps_balances_nonnegative(before: Model, call: Operation)
    requires
        before.ledger.nonnegative(),
    ensures
        before.step(call).ledger.nonnegative(),
{
}

/// No sequence of calls drives a balance below zero.
pub proof fn lemma_run_keeps_balances_nonnegative(start: Model, calls: Seq<Operation>)
    requires
        start.ledger.nonnegative(),
    ensures
        start.run(calls).ledger.nonnegative(),
    decreases calls.len(),
{
    if calls.len() > 0 {
        lemma_run_keeps_balances_nonnegative(start, calls.drop_last());
        lemma_step_keeps_balances_nonnegative(start.run(calls.drop_last()), calls.last());
    }
}

/// Whatever was called since the registry was made, the balance of every
/// account, and that of the system account, is at least zero.
pub proof fn lemma_balance_is_never_negative(calls: Seq<Operation>, account: AccountId)
    ensures
        Model::empty().run(calls).ledger.balance_of(account) >= 0,
        Model::empty().run(calls).ledger.system >= 0,
{
    lemma_run_keeps_balances_nonnegative(Model::empty(), calls);
}

/// An account, once registered, stays registered, whatever is called.
pub proof fn lemma_accounts_stay_registered(before: Model, call: Operation, account: AccountId)
    requires
        before.ledger.registered(account),
    ensures
        before.step(call).ledger.registered(account),
{
}

/// A record, once created, stays, whatever is called: its owner and its
/// time of creation never change, and its access count never falls and
/// rises by one at most.
pub proof fn lemma_records_stay(before: Model, call: Operation, hash: ContentHash)
    requires
        before.registry.contains(hash),
    ensures
        before.step(call).registry.contains(hash),
        before.step(call).registry.files[hash].owner == before.registry.files[hash].owner,
        before.step(call).registry.files[hash].created_at
            == before.registry.files[hash].created_at,
        before.registry.access_count(hash) <= before.step(call).registry.access_count(hash)
            <= before.registry.access_count(hash) + 1,
{
}

/// An account is registered only by `register`: a call that leaves a new
/// account behind is a call of `register` for that account.
pub proof fn lemma_accounts_come_from_register(
    before: Model,
    call: Operation,
    account: AccountId,
)
    requires
        !before.ledger.registered(account),
        before.step(call).ledger.registered(account),
    ensures
        call matches Operation::Register { account: registered, initial_balance }
            && registered == account && before.step(call).ledger.balance_of(account)
            == initial_balance,
{
}

/// A record is created only by `add_file`: a call that leaves a new record
/// behind is a call of `add_file` for that hash, which was not refused,
/// and the record is fresh and belongs to the caller.
pub proof fn lemma_records_come_from_add_file(before: Model, call: Operation, hash: ContentHash)
    requires
        !before.registry.contains(hash),
        before.step(call).registry.contains(hash),
    ensures
        call matches Operation::AddFile { caller, hash: added, now } && added == hash
            && before.add_file_refusal(caller, hash) is None
            && before.step(call).registry.files[hash] == RecordModel::fresh(caller, now),
{
}

/// A call that is refused changes nothing.
pub proof fn lemma_refused_call_changes_nothing(
    before: Model,
    caller: AccountId,
    hash: ContentHash,
    now: u64,
)
    ensures
        before.add_file_refusal(caller, hash) is Some ==> before.add_file(caller, hash, now)
            == before,
        before.write_file_refusal(caller, hash) is Some ==> before.write_file(caller, hash)
            == before,
        before.read_file_refusal(caller, hash) is Some ==> before.read_file(caller, hash)
            == before,
        !before.can_pay(caller, hash, TxOp::Read) ==> before.read_file(caller, hash) == before,
        !before.can_pay(caller, hash, TxOp::Write) ==> before.write_file(caller, hash) == before,
        !before.can_pay(caller, hash, TxOp::Create) ==> before.add_file(caller, hash, now)
            == before,
{
}

/// A charge moves the price from the payer to the system account: the two
/// balances together are what they were, and no other balance and no
/// record changes.
pub proof fn lemma_charge_moves_the_price(
    before: Model,
    payer: AccountId,
    hash: ContentHash,
    op: TxOp,
    other: AccountId,
)
    requires
        before.can_pay(payer, hash, op),
        other != payer,
    ensures
        before.charge(payer, hash, op).ledger.balance_of(payer) == before.ledger.balance_of(payer)
            - before.price(hash, op),
        before.charge(payer, hash, op).ledger.system == before.ledger.system + before.price(
            hash,
            op,
        ),
        before.charge(payer, hash, op).ledger.balance_of(other) == before.ledger.balance_of(other),
        before.charge(payer, hash, op).registry == before.registry,
{
}

/// The ledger neither makes nor loses value: after a call it holds what
/// it held before and what the call brought in from outside. What an
/// operation on content costs stays in the ledger, with the system
/// account.
pub proof fn lemma_step_conserves_the_total(before: Model, call: Operation)
    requires
        before.ledger.balances.dom().finite(),
    ensures
        before.step(call).ledger.balances.dom().finite(),
        before.step(call).ledger.total() == before.ledger.total() + before.inflow(call),
{
    let balances = before.ledger.balances;
    match call {
        Operation::Register { account, initial_balance } => {
            lemma_sum_of_insert(balances, account, initial_balance as int);
        },
        Operation::Deposit { account, amount } => {
            lemma_sum_of_insert(balances, account, balances[account] + amount);
        },
        Operation::Withdraw { account, amount } => {
            lemma_sum_of_insert(balances, account, balances[account] - amount);
        },
        Operation::AddFile { caller, hash, .. } => {
            lemma_sum_of_insert(
                balances,
                caller,
                balances[caller] - before.price(hash, TxOp::Create),
            );
        },
        Operation::WriteFile { caller, hash, .. } => {
            lemma_sum_of_insert(
                balances,
                caller,
                balances[caller] - before.price(hash, TxOp::Write),
            );
        },
        Operation::ReadFile { caller, hash, .. } => {
            lemma_sum_of_insert(balances, caller, balances[caller] - before.price(hash, TxOp::Read));
        },
        _ => {},
    }
}

/// A new account holds its initial balance.
pub proof fn lemma_register_sets_the_balance(before: Model, account: AccountId, initial: nat)
    requires
        !before.ledger.registered(account),
    ensures
        before.register(account, initial as int).ledger.registered(account),
        before.register(account, initial as int).ledger.balance_of(account) == initial,
{
}

/// Registering an account a second time changes nothing.
pub proof fn lemma_register_again_changes_nothing(
    before: Model,
    account: AccountId,
    first: nat,
    second: nat,
)
    ensures
        before.register(account, first as int).ledger.registered(account),
        before.register(account, first as int).register(account, second as int)
            == before.register(account, first as int),
{
}

/// A deposit adds its amount to the balance of a registered account, and
/// does nothing for an account that is not registered: it makes no entry.
pub proof fn lemma_deposit_adds(before: Model, account: AccountId, amount: nat)
    ensures
        before.ledger.registered(account) ==> before.deposit(
            account,
            amount as int,
        ).ledger.balance_of(account) == before.ledger.balance_of(account) + amount,
        !before.ledger.registered(account) ==> before.deposit(account, amount as int) == before,
        before.deposit(account, amount as int).ledger.registered(account)
            == before.ledger.registered(account),
{
}

/// A withdrawal that the balance covers takes its amount from the balance;
/// one that it does not cover changes nothing.
pub proof fn lemma_withdraw_takes(before: Model, account: AccountId, amount: nat)
    ensures
        before.ledger.covers(account, amount as int) ==> before.withdraw(
            account,
            amount as int,
        ).ledger.balance_of(account) == before.ledger.balance_of(account) - amount,
        !before.ledger.covers(account, amount as int) ==> before.withdraw(account, amount as int)
            == before,
{
}

/// A registered caller whose balance is at least 3 can add content that
/// has no record yet. The new record belongs to the caller and was never
/// accessed, its permission table is empty, and exactly 3 have moved from
/// the caller to the system account.
pub proof fn lemma_add_file_creates_and_charges(
    before: Model,
    caller: AccountId,
    hash: ContentHash,
    now: u64,
)
    requires
        before.ledger.registered(caller),
        !before.registry.contains(hash),
        before.ledger.balance_of(caller) >= 3,
    ensures
        before.add_file_refusal(caller, hash) is None,
        before.add_file(caller, hash, now).registry.contains(hash),
        before.add_file(caller, hash, now).registry.files[hash] == RecordModel::fresh(caller, now),
        before.add_file(caller, hash, now).ledger.balance_of(caller) == before.ledger.balance_of(
            caller,
        ) - 3,
        before.add_file(caller, hash, now).ledger.system == before.ledger.system + 3,
{
}

/// Content that was added cannot be added again: the second call is
/// refused, whoever makes it, and changes nothing.
pub proof fn lemma_add_file_again_is_refused(
    before: Model,
    caller: AccountId,
    hash: ContentHash,
    now: u64,
    second_caller: AccountId,
    later: u64,
)
    requires
        before.add_file_refusal(caller, hash) is None,
    ensures
        before.add_file(caller, hash, now).add_file_refusal(caller, hash) == Some(
            OpError::AlreadyExists,
        ),
        before.add_file(caller, hash, now).add_file_refusal(second_caller, hash) is Some,
        before.add_file(caller, hash, now).add_file(second_caller, hash, later) == before.add_file(
            caller,
            hash,
            now,
        ),
{
}

/// A write that is not refused costs the caller `3 + 1.07 * t`, rounded
/// down, where `t` is the record's access count, and raises that count to
/// `t + 1`.
pub proof fn lemma_write_file_charges_and_counts(
    before: Model,
    caller: AccountId,
    hash: ContentHash,
)
    requires
        before.write_file_refusal(caller, hash) is None,
    ensures
        before.write_file(caller, hash).ledger.balance_of(caller) == before.ledger.balance_of(
            caller,
        ) - cost_of(TxOp::Write, before.registry.access_count(hash)),
        cost_of(TxOp::Write, before.registry.access_count(hash)) == 3 + (107
            * before.registry.access_count(hash)) / 100,
        before.write_file(caller, hash).registry.access_count(hash) == before.registry.access_count(
            hash,
        ) + 1,
{
}

/// A read that is not refused costs the caller `2 + 1.07 * t`, rounded
/// down, where `t` is the record's access count, and raises that count to
/// `t + 1`.
pub proof fn lemma_read_file_charges_and_counts(
    before: Model,
    caller: AccountId,
    hash: ContentHash,
)
    requires
        before.read_file_refusal(caller, hash) is None,
    ensures
        before.read_file(caller, hash).ledger.balance_of(caller) == before.ledger.balance_of(
            caller,
        ) - cost_of(TxOp::Read, before.registry.access_count(hash)),
        cost_of(TxOp::Read, before.registry.access_count(hash)) == 2 + (107
            * before.registry.access_count(hash)) / 100,
        before.read_file(caller, hash).registry.access_count(hash) == before.registry.access_count(
            hash,
        ) + 1,
{
}

/// After a grant the account has the permission, and what it may do of the
/// other kind is what it might do before: an account that could not read
/// still cannot read after it was allowed to write.
pub proof fn lemma_grant_gives_the_permission(
    before: Model,
    account: AccountId,
    hash: ContentHash,
    kind: PermissionKind,
    other_kind: PermissionKind,
)
    requires
        before.registry.contains(hash),
        other_kind != kind,
    ensures
        before.grant(account, hash, kind).registry.permits(account, hash, kind),
        before.grant(account, hash, kind).registry.permits(account, hash, other_kind)
            == before.registry.permits(account, hash, other_kind),
        !before.registry.permits(account, hash, other_kind) ==> !before.grant(
            account,
            hash,
            kind,
        ).registry.permits(account, hash, other_kind),
{
}

/// After a revocation the account no longer has the permission, unless it
/// owns the record: the owner is not in the table and cannot lose anything.
pub proof fn lemma_revoke_takes_the_permission(
    before: Model,
    account: AccountId,
    hash: ContentHash,
    kind: PermissionKind,
)
    requires
        !(before.registry.contains(hash) && account == before.registry.files[hash].owner),
    ensures
        !before.revoke(account, hash, kind).registry.permits(account, hash, kind),
{
}

/// The owner of a record may read and write it, whatever was granted or
/// revoked.
pub proof fn lemma_owner_is_always_permitted(
    before: Model,
    account: AccountId,
    hash: ContentHash,
    kind: PermissionKind,
    asked: PermissionKind,
)
    requires
        before.registry.contains(hash),
    ensures
        before.revoke(account, hash, kind).registry.permits(
            before.registry.files[hash].owner,
            hash,
            asked,
        ),
        before.grant(account, hash, kind).registry.permits(
            before.registry.files[hash].owner,
            hash,
            asked,
        ),
{
}

/// Revoking from an account that has no entry changes nothing: no entry is
/// made for it.
pub proof fn lemma_revoke_without_entry_changes_nothing(
    before: Model,
    account: AccountId,
    hash: ContentHash,
    kind: PermissionKind,
)
    requires
        !before.registry.contains(hash) || !before.registry.files[hash].permissions.has_entry(
            account,
        ),
    ensures
        before.revoke(account, hash, kind) == before,
{
}

/// Granting the same permission twice is the same as granting it once.
pub proof fn lemma_grant_twice_is_grant_once(
    before: Model,
    account: AccountId,
    hash: ContentHash,
    kind: PermissionKind,
)
    ensures
        before.grant(account, hash, kind).grant(account, hash, kind) == before.grant(
            account,
            hash,
            kind,
        ),
{
    assert(before.grant(account, hash, kind).grant(account, hash, kind) =~~= before.grant(
        account,
        hash,
        kind,
    ));
}

} // verus!
