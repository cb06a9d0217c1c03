//! The storage port: the abstract persistence contract separating the domain
//! from its concrete adapter. The store is modelled as a map from account
//! number to the persisted account state, and each operation says exactly how
//! it reads or rewrites that map.

use vstd::prelude::*;

use crate::bank_account::{AccountModel, BankAccount, Transaction};

verus! {

/// The persisted state of one account: its opening amount and its transaction
/// log in original insertion order.
#[verifier::ext_equal]
pub struct AccountState {
    pub initial_amount: int,
    pub transactions: Seq<Transaction>,
}

impl AccountState {
    /// The derived balance of a persisted account.
    pub open spec fn balance(&self) -> int {
        self.initial_amount + crate::bank_account::transaction_sum(self.transactions)
    }
}

/// The failures a store can report: a missing account, a duplicate account
/// number on creation, and any other persistence-level fault.
#[derive(Clone, Copy, Debug, PartialEq, Eq, Structural)]
pub enum StoreError {
    NotFound,
    AlreadyExists,
    PersistenceError,
}

/// The persistence contract an adapter implements. An adapter may always fail
/// with `PersistenceError` (an I/O fault can strike any call), so no
/// operation promises success; each promises what holds of the store model
/// whichever way the call went, and ties the specific errors to their causes.
pub trait BankAccountPort: Sized {
    /// The store as a map from account number to persisted account state.
    spec fn store(&self) -> Map<Seq<char>, AccountState>;

    /// Persists a brand-new account header and returns the adapter-assigned
    /// numeric id. The account's number must not already be present:
    /// uniqueness is enforced by the store, not the domain.
    fn save_account(&mut self, bank_account: &BankAccount) -> (r: Result<i32, StoreError>)
        ensures
            r is Ok ==> !old(self).store().contains_key(bank_account@.account_number)
                && final(self).store() == old(self).store().insert(
                    bank_account@.account_number,
                    AccountState {
                        initial_amount: bank_account@.initial_amount,
                        transactions: Seq::<Transaction>::empty(),
                    },
                ),
            old(self).store().contains_key(bank_account@.account_number) ==> r is Err,
            r == Err::<i32, StoreError>(StoreError::AlreadyExists)
                ==> old(self).store().contains_key(bank_account@.account_number),
            r is Err ==> r == Err::<i32, StoreError>(StoreError::AlreadyExists) || r == Err::<
                i32,
                StoreError,
            >(StoreError::PersistenceError),
            r is Err ==> final(self).store() == old(self).store(),
    ;

    /// Appends one transaction to the persisted history of the account that
    /// `account_number` alone resolves, and returns the row's numeric id.
    fn save_transaction(&mut self, account_number: &str, transaction: &Transaction) -> (r: Result<
        i32,
        StoreError,
    >)
        ensures
            !old(self).store().contains_key(account_number@) ==> r == Err::<i32, StoreError>(
                StoreError::NotFound,
            ),
            r == Err::<i32, StoreError>(StoreError::NotFound) ==> !old(self).store().contains_key(
                account_number@,
            ),
            r is Ok ==> old(self).store().contains_key(account_number@)
                && final(self).store() == old(self).store().insert(
                    account_number@,
                    AccountState {
                        initial_amount: old(self).store()[account_number@].initial_amount,
                        transactions: old(self).store()[account_number@].transactions.push(
                            *transaction,
                        ),
                    },
                ),
            r is Err ==> r == Err::<i32, StoreError>(StoreError::NotFound) || r == Err::<
                i32,
                StoreError,
            >(StoreError::PersistenceError),
            r is Err ==> final(self).store() == old(self).store(),
    ;

    /// Rehydrates an account: header plus full history, in original
    /// insertion order.
    fn load(&self, account_number: &str) -> (r: Result<BankAccount, StoreError>)
        ensures
            !self.store().contains_key(account_number@) ==> r == Err::<BankAccount, StoreError>(
                StoreError::NotFound,
            ),
            r == Err::<BankAccount, StoreError>(StoreError::NotFound)
                ==> !self.store().contains_key(account_number@),
            r matches Ok(account) ==> self.store().contains_key(account_number@)
                && account@ == (AccountModel {
                    account_number: account_number@,
                    initial_amount: self.store()[account_number@].initial_amount,
                    transactions: self.store()[account_number@].transactions,
                }),
            r is Err ==> r == Err::<BankAccount, StoreError>(StoreError::NotFound) || r == Err::<
                BankAccount,
                StoreError,
            >(StoreError::PersistenceError),
    ;
}

} // verus!
