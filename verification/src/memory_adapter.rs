//! A stand-in storage adapter: the port contract implemented over plain
//! in-process memory, so the use-case layer can be driven without an outside
//! store. Accounts are held in a vector with pairwise-distinct numbers, and
//! the port's map model is the fold of that vector.

use vstd::prelude::*;

use crate::bank_account::{BankAccount, Transaction};
use crate::port::{AccountState, BankAccountPort, StoreError};

verus! {

/// One persisted account: header plus its transaction rows.
struct StoredAccount {
    account_number: String,
    initial_amount: i32,
    transactions: Vec<Transaction>,
}

/// The persisted state one stored account denotes.
spec fn state_of(a: StoredAccount) -> AccountState {
    AccountState { initial_amount: a.initial_amount as int, transactions: a.transactions@ }
}

/// No two stored accounts share a number.
spec fn unique_numbers(s: Seq<StoredAccount>) -> bool {
    forall|i: int, j: int|
        0 <= i < j < s.len() ==> s[i].account_number@ != s[j].account_number@
}

/// The map model of the stored accounts.
spec fn store_of(s: Seq<StoredAccount>) -> Map<Seq<char>, AccountState>
    decreases s.len(),
{
    if s.len() == 0 {
        Map::empty()
    } else {
        store_of(s.drop_last()).insert(s.last().account_number@, state_of(s.last()))
    }
}

proof fn lemma_store_of_contains(s: Seq<StoredAccount>, k: Seq<char>)
    ensures
        store_of(s).contains_key(k) <==> (exists|i: int|
            0 <= i < s.len() && s[i].account_number@ == k),
    decreases s.len(),
{
    if s.len() == 0 {
    } else {
        let sub = s.drop_last();
        lemma_store_of_contains(sub, k);
        if s.last().account_number@ == k {
            assert(s[s.len() - 1].account_number@ == k);
        } else {
            if store_of(s).contains_key(k) {
                let i = choose|i: int| 0 <= i < sub.len() && sub[i].account_number@ == k;
                assert(s[i].account_number@ == k);
            }
            if exists|i: int| 0 <= i < s.len() && s[i].account_number@ == k {
                let i = choose|i: int| 0 <= i < s.len() && s[i].account_number@ == k;
                assert(i != s.len() - 1);
                assert(sub[i].account_number@ == k);
            }
        }
    }
}

proof fn lemma_store_of_index(s: Seq<StoredAccount>, i: int)
    requires
        unique_numbers(s),
        0 <= i < s.len(),
    ensures
        store_of(s).contains_key(s[i].account_number@),
        store_of(s)[s[i].account_number@] == state_of(s[i]),
    decreases s.len(),
{
    if i == s.len() - 1 {
    } else {
        let sub = s.drop_last();
        assert(unique_numbers(sub)) by {
            assert(forall|p: int| 0 <= p < sub.len() ==> sub[p] == s[p]);
        }
        lemma_store_of_index(sub, i);
        assert(s[i].account_number@ != s.last().account_number@);
    }
}

proof fn lemma_store_of_update(s: Seq<StoredAccount>, i: int, a: StoredAccount)
    requires
        unique_numbers(s),
        0 <= i < s.len(),
        a.account_number@ == s[i].account_number@,
    ensures
        store_of(s.update(i, a)) == store_of(s).insert(a.account_number@, state_of(a)),
    decreases s.len(),
{
    let u = s.update(i, a);
    if i == s.len() - 1 {
        assert(u.drop_last() =~= s.drop_last());
        assert(u.last() == a);
        assert(store_of(s.drop_last()).insert(a.account_number@, state_of(a)) =~= store_of(
            s,
        ).insert(a.account_number@, state_of(a)));
    } else {
        let sub = s.drop_last();
        assert(unique_numbers(sub)) by {
            assert(forall|p: int| 0 <= p < sub.len() ==> sub[p] == s[p]);
        }
        lemma_store_of_update(sub, i, a);
        assert(u.drop_last() =~= sub.update(i, a));
        assert(u.last() == s.last());
        // The two keys are distinct, so the inserts commute.
        assert(s[i].account_number@ != s.last().account_number@);
        assert(store_of(sub).insert(a.account_number@, state_of(a)).insert(
            s.last().account_number@,
            state_of(s.last()),
        ) =~= store_of(sub).insert(s.last().account_number@, state_of(s.last())).insert(
            a.account_number@,
            state_of(a),
        ));
    }
}

proof fn lemma_store_of_dom_size(s: Seq<StoredAccount>)
    requires
        unique_numbers(s),
    ensures
        store_of(s).dom().finite(),
        store_of(s).dom().len() == s.len(),
    decreases s.len(),
{
    if s.len() == 0 {
        assert(store_of(s).dom() =~= Set::<Seq<char>>::empty());
    } else {
        let sub = s.drop_last();
        let last_key = s.last().account_number@;
        assert(unique_numbers(sub)) by {
            assert(forall|p: int| 0 <= p < sub.len() ==> sub[p] == s[p]);
        }
        lemma_store_of_dom_size(sub);
        lemma_store_of_contains(sub, last_key);
        assert(!store_of(sub).contains_key(last_key)) by {
            if exists|i: int| 0 <= i < sub.len() && sub[i].account_number@ == last_key {
                let i = choose|i: int| 0 <= i < sub.len() && sub[i].account_number@ == last_key;
                assert(s[i].account_number@ == s[s.len() - 1].account_number@);
            }
        }
        assert(store_of(s).dom() =~= store_of(sub).dom().insert(last_key));
        vstd::set::axiom_set_insert_len(store_of(sub).dom(), last_key);
    }
}

/// The index of the account with this number, if any.
fn find_account(accounts: &Vec<StoredAccount>, account_number: &str) -> (r: Option<usize>)
    ensures
        r matches Some(i) ==> i < accounts@.len() && accounts@[i as int].account_number@
            == account_number@,
        r is None ==> forall|i: int|
            0 <= i < accounts@.len() ==> accounts@[i].account_number@ != account_number@,
{
    let needle: String = account_number.to_owned();
    let mut i: usize = 0;
    while i < accounts.len()
        invariant
            needle@ == account_number@,
            0 <= i <= accounts@.len(),
            forall|j: int| 0 <= j < i ==> accounts@[j].account_number@ != account_number@,
        decreases accounts@.len() - i,
    {
        if accounts[i].account_number == needle {
            return Some(i);
        }
        i = i + 1;
    }
    None
}

/// A fresh vector holding the same transactions.
fn copy_transactions(src: &Vec<Transaction>) -> (r: Vec<Transaction>)
    ensures
        r@ == src@,
{
    let mut out: Vec<Transaction> = Vec::new();
    let mut i: usize = 0;
    while i < src.len()
        invariant
            0 <= i <= src@.len(),
            out@ == src@.subrange(0, i as int),
        decreases src@.len() - i,
    {
        out.push(src[i]);
        proof {
            assert(out@ =~= src@.subrange(0, (i + 1) as int));
        }
        i = i + 1;
    }
    proof {
        assert(src@.subrange(0, src@.len() as int) =~= src@);
    }
    out
}

/// The stand-in store itself. It starts empty and lives only in process
/// memory; row ids are assigned sequentially, as a relational store would.
pub struct InMemoryAdapter {
    accounts: Vec<StoredAccount>,
}

impl InMemoryAdapter {
    #[verifier::type_invariant]
    spec fn wf(&self) -> bool {
        unique_numbers(self.accounts@)
    }

    /// An empty store.
    pub fn new() -> (r: InMemoryAdapter)
        ensures
            r.store() == Map::<Seq<char>, AccountState>::empty(),
    {
        InMemoryAdapter { accounts: Vec::new() }
    }

    /// Whether another account header still fits the store's id range.
    pub open spec fn has_capacity(&self) -> bool {
        self.store().dom().finite() && self.store().dom().len() < 0x7fff_ffff
    }

    /// Whether another transaction row still fits the id range of the
    /// account with this number.
    pub open spec fn has_row_capacity(&self, account_number: Seq<char>) -> bool {
        self.store().contains_key(account_number)
            ==> self.store()[account_number].transactions.len() < 0x7fff_ffff
    }
}

impl BankAccountPort for InMemoryAdapter {
    closed spec fn store(&self) -> Map<Seq<char>, AccountState> {
        store_of(self.accounts@)
    }

    fn save_account(&mut self, bank_account: &BankAccount) -> (r: Result<i32, StoreError>)
        // Beyond the port's contract: this store answers whenever it has room.
        ensures
            !old(self).store().contains_key(bank_account@.account_number) && old(
                self,
            ).has_capacity() ==> r is Ok,
    {
        proof {
            use_type_invariant(&*self);
        }
        let ghost s0 = self.accounts@;
        match find_account(&self.accounts, bank_account.account_number()) {
            Some(i) => {
                proof {
                    lemma_store_of_index(s0, i as int);
                }
                Err(StoreError::AlreadyExists)
            },
            None => {
                proof {
                    lemma_store_of_contains(s0, bank_account@.account_number);
                    lemma_store_of_dom_size(s0);
                }
                if self.accounts.len() >= 0x7fff_ffff {
                    return Err(StoreError::PersistenceError);
                }
                let id: i32 = (self.accounts.len() as i32) + 1;
                let entry = StoredAccount {
                    account_number: bank_account.account_number().to_owned(),
                    initial_amount: bank_account.initial_amount(),
                    transactions: Vec::new(),
                };
                let mut accounts: Vec<StoredAccount> = Vec::new();
                core::mem::swap(&mut accounts, &mut self.accounts);
                accounts.push(entry);
                proof {
                    let s1 = accounts@;
                    assert(s1.drop_last() =~= s0);
                    assert(forall|p: int| 0 <= p < s0.len() ==> s1[p] == s0[p]);
                    assert(unique_numbers(s1));
                    assert(state_of(s1.last()) =~= AccountState {
                        initial_amount: bank_account@.initial_amount,
                        transactions: Seq::<Transaction>::empty(),
                    });
                }
                self.accounts = accounts;
                Ok(id)
            },
        }
    }

    fn save_transaction(&mut self, account_number: &str, transaction: &Transaction) -> (r: Result<
        i32,
        StoreError,
    >)
        // Beyond the port's contract: this store answers whenever the
        // account exists and has room for another row.
        ensures
            old(self).store().contains_key(account_number@) && old(self).has_row_capacity(
                account_number@,
            ) ==> r is Ok,
    {
        proof {
            use_type_invariant(&*self);
        }
        let ghost s0 = self.accounts@;
        match find_account(&self.accounts, account_number) {
            None => {
                proof {
                    lemma_store_of_contains(s0, account_number@);
                }
                Err(StoreError::NotFound)
            },
            Some(i) => {
                proof {
                    lemma_store_of_index(s0, i as int);
                    lemma_store_of_contains(s0, account_number@);
                }
                if self.accounts[i].transactions.len() >= 0x7fff_ffff {
                    return Err(StoreError::PersistenceError);
                }
                let id: i32 = (self.accounts[i].transactions.len() as i32) + 1;
                let mut accounts: Vec<StoredAccount> = Vec::new();
                core::mem::swap(&mut accounts, &mut self.accounts);
                let entry = &mut accounts[i];
                entry.transactions.push(*transaction);
                proof {
                    let s1 = accounts@;
                    assert(s1 =~= s0.update(i as int, s1[i as int]));
                    assert(s1[i as int].account_number@ == s0[i as int].account_number@);
                    assert(unique_numbers(s1)) by {
                        assert(forall|p: int|
                            0 <= p < s0.len() ==> s1[p].account_number@
                                == s0[p].account_number@);
                    }
                    lemma_store_of_update(s0, i as int, s1[i as int]);
                    assert(state_of(s1[i as int]) =~= AccountState {
                        initial_amount: store_of(s0)[account_number@].initial_amount,
                        transactions: store_of(s0)[account_number@].transactions.push(
                            *transaction,
                        ),
                    });
                }
                self.accounts = accounts;
                Ok(id)
            },
        }
    }

    fn load(&self, account_number: &str) -> (r: Result<BankAccount, StoreError>)
        // Beyond the port's contract: this store answers every read of an
        // account it holds.
        ensures
            self.store().contains_key(account_number@) ==> r is Ok,
    {
        proof {
            use_type_invariant(&*self);
        }
        match find_account(&self.accounts, account_number) {
            None => {
                proof {
                    lemma_store_of_contains(self.accounts@, account_number@);
                }
                Err(StoreError::NotFound)
            },
            Some(i) => {
                proof {
                    lemma_store_of_index(self.accounts@, i as int);
                }
                let number = self.accounts[i].account_number.clone();
                let transactions = copy_transactions(&self.accounts[i].transactions);
                let initial_amount = self.accounts[i].initial_amount;
                Ok(BankAccount::create_from_existing_account(number, transactions, initial_amount))
            },
        }
    }
}

} // verus!
