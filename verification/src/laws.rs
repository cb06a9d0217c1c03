//! The ledger's stated laws, proved once and for all inputs: how the balance
//! decomposes over the log, that a deposit-withdraw pair of equal amounts is
//! a no-op on the balance, what a fresh account's state looks like, and that
//! an overdraft is accepted and drives the balance negative.

use vstd::prelude::*;

use crate::bank_account::{amount_of, transaction_sum, AccountModel, Transaction};
use crate::port::AccountState;

verus! {

/// The sum of the deposit magnitudes in a log.
pub open spec fn deposit_sum(s: Seq<Transaction>) -> int
    decreases s.len(),
{
    if s.len() == 0 {
        0
    } else {
        deposit_sum(s.drop_last()) + if s.last() is Deposit {
            amount_of(s.last()) as int
        } else {
            0
        }
    }
}

/// The sum of the withdrawal magnitudes in a log.
pub open spec fn withdraw_sum(s: Seq<Transaction>) -> int
    decreases s.len(),
{
    if s.len() == 0 {
        0
    } else {
        withdraw_sum(s.drop_last()) + if s.last() is Withdraw {
            amount_of(s.last()) as int
        } else {
            0
        }
    }
}

proof fn lemma_transaction_sum_decomposition(s: Seq<Transaction>)
    ensures
        transaction_sum(s) == deposit_sum(s) - withdraw_sum(s),
    decreases s.len(),
{
    if s.len() == 0 {
    } else {
        lemma_transaction_sum_decomposition(s.drop_last());
    }
}

/// However deposits and withdrawals interleave, the balance of an account
/// opened with some amount is that amount, plus the sum of the deposit
/// amounts, minus the sum of the withdrawal amounts.
pub proof fn lemma_balance_decomposition(m: AccountModel)
    ensures
        m.balance() == m.initial_amount + deposit_sum(m.transactions) - withdraw_sum(
            m.transactions,
        ),
{
    lemma_transaction_sum_decomposition(m.transactions);
}

/// Depositing an amount and then immediately withdrawing the same amount
/// returns the balance to its value before the pair, whatever dates the two
/// transactions were stamped with.
pub proof fn lemma_deposit_withdraw_round_trip(
    m: AccountModel,
    amount: i32,
    deposit_date: i64,
    withdraw_date: i64,
)
    ensures
        (AccountModel {
            account_number: m.account_number,
            initial_amount: m.initial_amount,
            transactions: m.transactions.push(
                Transaction::Deposit { date: deposit_date, amount },
            ).push(Transaction::Withdraw { date: withdraw_date, amount }),
        }).balance() == m.balance(),
{
    let s1 = m.transactions.push(Transaction::Deposit { date: deposit_date, amount });
    let s2 = s1.push(Transaction::Withdraw { date: withdraw_date, amount });
    assert(s2.drop_last() =~= s1);
    assert(s1.drop_last() =~= m.transactions);
    assert(transaction_sum(s2) == transaction_sum(s1) + crate::bank_account::signed_amount(
        Transaction::Withdraw { date: withdraw_date, amount },
    ));
    assert(transaction_sum(s1) == transaction_sum(m.transactions)
        + crate::bank_account::signed_amount(
        Transaction::Deposit { date: deposit_date, amount },
    ));
}

/// A persisted account that no transaction has touched yet: its balance is
/// exactly its opening amount.
pub proof fn lemma_fresh_account_balance(st: AccountState)
    requires
        st.transactions == Seq::<Transaction>::empty(),
    ensures
        st.balance() == st.initial_amount,
{
}

/// Recording a transaction never reorders or rewrites what the log already
/// holds: after an append, every earlier transaction stands unchanged at its
/// index and the new one stands last. Together with the port's promise that
/// `load` hands the log back as stored, reads return transactions in
/// insertion order.
pub proof fn lemma_append_preserves_insertion_order(s: Seq<Transaction>, t: Transaction)
    ensures
        s.push(t).len() == s.len() + 1,
        s.push(t).last() == t,
        forall|i: int| 0 <= i < s.len() ==> s.push(t)[i] == s[i],
{
}

/// A withdrawal of more than the current balance is accepted, and the
/// balance it leaves behind is negative.
pub proof fn lemma_overdraft_goes_negative(m: AccountModel, date: i64, amount: i32)
    requires
        m.balance() < amount,
    ensures
        (AccountModel {
            account_number: m.account_number,
            initial_amount: m.initial_amount,
            transactions: m.transactions.push(Transaction::Withdraw { date, amount }),
        }).balance() < 0,
{
    assert(m.transactions.push(Transaction::Withdraw { date, amount }).drop_last()
        =~= m.transactions);
}

} // verus!
