//! The ledger: the balance of every registered account, and the balance of
//! the system account that receives what operations cost.

use crate::id::AccountId;
use crate::table::Table;
use vstd::prelude::*;

verus! {

/// The sum of the balances of finitely many accounts.
pub open spec fn sum_of(balances: Map<AccountId, int>) -> int
    decreases balances.dom().len(),
    when balances.dom().finite()
{
    if balances.dom().len() == 0 {
        0
    } else {
        let account = balances.dom().choose();
        balances[account] + sum_of(balances.remove(account))
    }
}

/// The sum of some balances is the balance of any one of the accounts plus
/// the sum of the others.
pub proof fn lemma_sum_of_splits(balances: Map<AccountId, int>, account: AccountId)
    requires
        balances.dom().finite(),
        balances.contains_key(account),
    ensures
        sum_of(balances) == balances[account] + sum_of(balances.remove(account)),
    decreases balances.dom().len(),
{
    let chosen = balances.dom().choose();
    if chosen != account {
        lemma_sum_of_splits(balances.remove(chosen), account);
        lemma_sum_of_splits(balances.remove(account), chosen);
        assert(balances.remove(chosen).remove(account) =~= balances.remove(account).remove(chosen));
    }
}

/// Giving an account a balance changes the sum by the difference to the
/// balance that the account had, which is 0 for an account without one.
pub proof fn lemma_sum_of_insert(balances: Map<AccountId, int>, account: AccountId, balance: int)
    requires
        balances.dom().finite(),
    ensures
        sum_of(balances.insert(account, balance)) == sum_of(balances) + balance - (
        if balances.contains_key(account) {
            balances[account]
        } else {
            0
        }),
{
    lemma_sum_of_splits(balances.insert(account, balance), account);
    if balances.contains_key(account) {
        lemma_sum_of_splits(balances, account);
        assert(balances.insert(account, balance).remove(account) =~= balances.remove(account));
    } else {
        assert(balances.insert(account, balance).remove(account) =~= balances);
    }
}

/// What a ledger holds: a balance for each registered account, and the
/// balance of the system account.
#[verifier::ext_equal]
pub struct LedgerModel {
    pub balances: Map<AccountId, int>,
    pub system: int,
}

impl LedgerModel {
    /// The ledger with no account and nothing collected.
    pub open spec fn empty() -> LedgerModel {
        LedgerModel { balances: Map::empty(), system: 0 }
    }

    /// Whether `account` is registered.
    pub open spec fn registered(self, account: AccountId) -> bool {
        self.balances.contains_key(account)
    }

    /// The balance of `account`; that of an account that is not registered
    /// is 0.
    pub open spec fn balance_of(self, account: AccountId) -> int {
        if self.registered(account) {
            self.balances[account]
        } else {
            0
        }
    }

    /// Whether `account` is registered and holds at least `amount`.
    pub open spec fn covers(self, account: AccountId, amount: int) -> bool {
        self.registered(account) && amount <= self.balances[account]
    }

    /// The ledger after `account` asked to be registered with `initial`:
    /// a new entry, unless the account was registered already.
    pub open spec fn register(self, account: AccountId, initial: int) -> LedgerModel {
        if self.registered(account) {
            self
        } else {
            LedgerModel { balances: self.balances.insert(account, initial), ..self }
        }
    }

    /// The ledger after a deposit of `amount` to `account`: the balance
    /// grows by `amount`, unless the account is not registered.
    pub open spec fn deposit(self, account: AccountId, amount: int) -> LedgerModel {
        if self.registered(account) {
            LedgerModel {
                balances: self.balances.insert(account, self.balances[account] + amount),
                ..self
            }
        } else {
            self
        }
    }

    /// The ledger after `account` was asked to give up `amount`: the balance
    /// shrinks by `amount`, unless the account does not cover it.
    pub open spec fn withdraw(self, account: AccountId, amount: int) -> LedgerModel {
        if self.covers(account, amount) {
            LedgerModel {
                balances: self.balances.insert(account, self.balances[account] - amount),
                ..self
            }
        } else {
            self
        }
    }

    /// The ledger after the system account received `amount`.
    pub open spec fn credit_system(self, amount: int) -> LedgerModel {
        LedgerModel { system: self.system + amount, ..self }
    }

    /// All that the ledger holds: the balances of the registered accounts
    /// and that of the system account together.
    pub open spec fn total(self) -> int {
        sum_of(self.balances) + self.system
    }

    /// No balance is below zero.
    pub open spec fn nonnegative(self) -> bool {
        &&& self.system >= 0
        &&& forall|account: AccountId| #[trigger]
            self.balances.contains_key(account) ==> self.balances[account] >= 0
    }
}

/// The balances of the registered accounts and of the system account.
///
/// A balance changes only by `deposit`, `withdraw`, `debit` and
/// `credit_system`, and an account, once registered, stays registered.
pub struct Ledger {
    accounts: Table<AccountId, u128>,
    system: u128,
}

impl Ledger {
    /// What the ledger holds.
    pub closed spec fn view(&self) -> LedgerModel {
        LedgerModel {
            balances: self.accounts@.map_values(|balance: u128| balance as int),
            system: self.system as int,
        }
    }

    /// A ledger with no account and nothing collected.
    pub fn new() -> (ledger: Self)
        ensures
            ledger@ == LedgerModel::empty(),
    {
        Ledger { accounts: Table::new(), system: 0 }
    }

    /// The number of registered accounts.
    pub fn len(&self) -> (n: usize)
        ensures
            self@.balances.dom().finite(),
            n == self@.balances.dom().len(),
    {
        let n: usize = self.accounts.len();
        assert(self@.balances.dom() =~= self.accounts@.dom());
        n
    }

    /// Whether `account` is registered.
    pub fn is_registered(&self, account: AccountId) -> (held: bool)
        ensures
            held == self@.registered(account),
    {
        self.accounts.contains_key(&account)
    }

    /// The balance of `account`: 0 if it is not registered.
    pub fn balance_of(&self, account: AccountId) -> (balance: u128)
        ensures
            balance == self@.balance_of(account),
    {
        match self.accounts.get(&account) {
            Some(balance) => *balance,
            None => 0,
        }
    }

    /// What the system account has received.
    pub fn system_balance(&self) -> (balance: u128)
        ensures
            balance == self@.system,
    {
        self.system
    }

    /// Registers `account` with `initial_balance`. Returns `false`, and
    /// changes nothing, if the account is registered already.
    pub fn register(&mut self, account: AccountId, initial_balance: u128) -> (done: bool)
        ensures
            done == !old(self)@.registered(account),
            final(self)@ == old(self)@.register(account, initial_balance as int),
    {
        if self.accounts.contains_key(&account) {
            return false;
        }
        self.accounts.insert(account, initial_balance);
        true
    }

    /// Adds `amount` to the balance of `account`. Returns `false`, and
    /// changes nothing, if the account is not registered.
    ///
    /// The new balance must fit the balance type.
    pub fn deposit(&mut self, account: AccountId, amount: u128) -> (done: bool)
        requires
            old(self)@.registered(account) ==> old(self)@.balance_of(account) + amount
                <= u128::MAX,
        ensures
            done == old(self)@.registered(account),
            final(self)@ == old(self)@.deposit(account, amount as int),
    {
        match self.accounts.get_mut(&account) {
            Some(balance) => {
                *balance = *balance + amount;
                true
            },
            None => false,
        }
    }

    /// Takes `amount` from the balance of `account` and returns it. Returns
    /// 0, and changes nothing, if the account is not registered or holds
    /// less than `amount`.
    pub fn withdraw(&mut self, account: AccountId, amount: u128) -> (withdrawn: u128)
        ensures
            withdrawn == if old(self)@.covers(account, amount as int) {
                amount
            } else {
                0
            },
            final(self)@ == old(self)@.withdraw(account, amount as int),
    {
        if self.debit(account, amount) {
            amount
        } else {
            0
        }
    }

    /// Takes `amount` from the balance of `account`. Returns `false`, and
    /// changes nothing, if the account is not registered or holds less
    /// than `amount`.
    pub fn debit(&mut self, account: AccountId, amount: u128) -> (done: bool)
        ensures
            done == old(self)@.covers(account, amount as int),
            final(self)@ == old(self)@.withdraw(account, amount as int),
    {
        match self.accounts.get_mut(&account) {
            Some(balance) => {
                if amount > *balance {
                    return false;
                }
                *balance = *balance - amount;
                true
            },
            None => false,
        }
    }

    /// Adds `amount` to the balance of the system account.
    ///
    /// The new balance must fit the balance type.
    pub fn credit_system(&mut self, amount: u128)
        requires
            old(self)@.system + amount <= u128::MAX,
        ensures
            final(self)@ == old(self)@.credit_system(amount as int),
    {
        self.system = self.system + amount;
    }
}

} // verus!
