//! The use-case layer: the only place with multi-step workflows. Each
//! operation sequences one domain-model step with the persistence calls that
//! record it, and reports the store's failures instead of discarding them.

use vstd::prelude::*;

use crate::bank_account::{amount_of, BankAccount, Transaction};
use crate::port::{AccountState, BankAccountPort, StoreError};

verus! {

/// Sequences domain operations with persistence through an injected port
/// adapter.
pub struct BankAccountUseCase<T> where T: BankAccountPort {
    adapter: T,
}

impl<T> BankAccountUseCase<T> where T: BankAccountPort {
    /// The store behind the injected adapter, as the port models it.
    pub closed spec fn store(&self) -> Map<Seq<char>, AccountState> {
        self.adapter.store()
    }

    pub fn new(adapter: T) -> (r: BankAccountUseCase<T>)
        ensures
            r.store() == adapter.store(),
    {
        BankAccountUseCase { adapter }
    }

    /// Opens an account with an empty history and persists its header.
    /// On success the store gains exactly that account; a duplicate number is
    /// refused by the store and reported.
    pub fn create_bank_account(&mut self, account_number: String, initial_amount: i32) -> (r:
        Result<(), StoreError>)
        ensures
            r is Ok ==> !old(self).store().contains_key(account_number@)
                && final(self).store() == old(self).store().insert(
                    account_number@,
                    AccountState {
                        initial_amount: initial_amount as int,
                        transactions: Seq::<Transaction>::empty(),
                    },
                ),
            old(self).store().contains_key(account_number@) ==> r is Err,
            r == Err::<(), StoreError>(StoreError::AlreadyExists)
                ==> old(self).store().contains_key(account_number@),
            r is Err ==> r == Err::<(), StoreError>(StoreError::AlreadyExists) || r == Err::<
                (),
                StoreError,
            >(StoreError::PersistenceError),
            r is Err ==> final(self).store() == old(self).store(),
    {
        let account = BankAccount::create_new_account(account_number, initial_amount);
        match self.adapter.save_account(&account) {
            Ok(_) => Ok(()),
            Err(e) => Err(e),
        }
    }

    /// Loads the account, appends a deposit of `amount` stamped with the
    /// current time, and persists exactly that one new record. Only the
    /// named account changes, and only by the appended transaction.
    pub fn deposit_into_bank_account(&mut self, account_number: String, amount: i32) -> (r: Result<
        (),
        StoreError,
    >)
        ensures
            !old(self).store().contains_key(account_number@) ==> r == Err::<(), StoreError>(
                StoreError::NotFound,
            ),
            r == Err::<(), StoreError>(StoreError::NotFound) ==> !old(self).store().contains_key(
                account_number@,
            ),
            r is Ok ==> old(self).store().contains_key(account_number@)
                && final(self).store()[account_number@].transactions.last() is Deposit
                && amount_of(final(self).store()[account_number@].transactions.last()) == amount
                && final(self).store() == old(self).store().insert(
                    account_number@,
                    AccountState {
                        initial_amount: old(self).store()[account_number@].initial_amount,
                        transactions: old(self).store()[account_number@].transactions.push(
                            final(self).store()[account_number@].transactions.last(),
                        ),
                    },
                ),
            r is Err ==> r == Err::<(), StoreError>(StoreError::NotFound) || r == Err::<
                (),
                StoreError,
            >(StoreError::PersistenceError),
            r is Err ==> final(self).store() == old(self).store(),
    {
        let mut account = match self.adapter.load(account_number.as_str()) {
            Ok(account) => account,
            Err(e) => {
                return Err(e);
            },
        };
        let deposit = account.deposit(amount);
        match self.adapter.save_transaction(account_number.as_str(), &deposit) {
            Ok(_) => Ok(()),
            Err(e) => Err(e),
        }
    }

    /// Loads the account, appends a withdrawal of `amount` stamped with the
    /// current time, and persists exactly that one new record. No overdraft
    /// check happens anywhere on this path.
    pub fn with_draw_into_bank_account(&mut self, account_number: String, amount: i32) -> (r:
        Result<(), StoreError>)
        ensures
            !old(self).store().contains_key(account_number@) ==> r == Err::<(), StoreError>(
                StoreError::NotFound,
            ),
            r == Err::<(), StoreError>(StoreError::NotFound) ==> !old(self).store().contains_key(
                account_number@,
            ),
            r is Ok ==> old(self).store().contains_key(account_number@)
                && final(self).store()[account_number@].transactions.last() is Withdraw
                && amount_of(final(self).store()[account_number@].transactions.last()) == amount
                && final(self).store() == old(self).store().insert(
                    account_number@,
                    AccountState {
                        initial_amount: old(self).store()[account_number@].initial_amount,
                        transactions: old(self).store()[account_number@].transactions.push(
                            final(self).store()[account_number@].transactions.last(),
                        ),
                    },
                ),
            r is Err ==> r == Err::<(), StoreError>(StoreError::NotFound) || r == Err::<
                (),
                StoreError,
            >(StoreError::PersistenceError),
            r is Err ==> final(self).store() == old(self).store(),
    {
        let mut account = match self.adapter.load(account_number.as_str()) {
            Ok(account) => account,
            Err(e) => {
                return Err(e);
            },
        };
        let transaction = account.with_draw(amount);
        match self.adapter.save_transaction(account_number.as_str(), &transaction) {
            Ok(_) => Ok(()),
            Err(e) => Err(e),
        }
    }

    /// Reads an account; an unknown number is an empty result, not a fault.
    /// `None` also stands for a store that failed to answer, as the read
    /// path keeps no error detail.
    pub fn get_bank_account(&self, account_number: &str) -> (r: Option<BankAccount>)
        ensures
            !self.store().contains_key(account_number@) ==> r is None,
            r matches Some(account) ==> self.store().contains_key(account_number@)
                && account@.account_number == account_number@
                && account@.initial_amount == self.store()[account_number@].initial_amount
                && account@.transactions == self.store()[account_number@].transactions,
    {
        match self.adapter.load(account_number) {
            Ok(account) => Some(account),
            Err(_) => None,
        }
    }
}

} // verus!
