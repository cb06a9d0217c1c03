//! The caller-facing shapes of requests and responses, and the pure step of
//! the read path: turning a loaded account into the view the transport layer
//! returns, with its freshly derived balance.

use vstd::prelude::*;

use crate::bank_account::{amount_of, date_of, BankAccount, Transaction};

verus! {

/// The request body for opening an account.
pub struct CreateBankAccount {
    pub initial_amount: i32,
}

/// The request body for a deposit or a withdrawal.
pub struct TransactionRequest {
    pub amount: i32,
}

/// The caller-facing shape of one transaction.
pub struct TransactionResponse {
    pub transaction_type: String,
    pub amount: i32,
    pub date: i64,
}

/// The caller-facing shape of one account, with its derived balance.
pub struct BankAccountResponse {
    pub account_number: String,
    pub initial_amount: i32,
    pub transactions: Vec<TransactionResponse>,
    pub balance: i32,
}

/// The discriminator under which a transaction is reported to callers.
pub open spec fn response_type_of(t: Transaction) -> Seq<char> {
    match t {
        Transaction::Deposit { .. } => "Deposit"@,
        Transaction::Withdraw { .. } => "WithDraw"@,
    }
}

/// Whether one response row faithfully renders one transaction.
pub open spec fn renders_transaction(r: TransactionResponse, t: Transaction) -> bool {
    r.transaction_type@ == response_type_of(t) && r.amount == amount_of(t) && r.date == date_of(t)
}

fn transaction_response(t: &Transaction) -> (r: TransactionResponse)
    ensures
        renders_transaction(r, *t),
{
    match t {
        Transaction::Deposit { date, amount } => TransactionResponse {
            transaction_type: "Deposit".to_owned(),
            amount: *amount,
            date: *date,
        },
        Transaction::Withdraw { date, amount } => TransactionResponse {
            transaction_type: "WithDraw".to_owned(),
            amount: *amount,
            date: *date,
        },
    }
}

/// Shapes an account for the transport layer: the header, the rendered log
/// in insertion order, and the balance folded afresh from that log. `None`
/// exactly when the balance does not fit the response's machine type.
pub fn account_response(account: &BankAccount) -> (r: Option<BankAccountResponse>)
    ensures
        r is Some <==> i32::MIN <= account@.balance() <= i32::MAX,
        r matches Some(resp) ==> resp.account_number@ == account@.account_number
            && resp.initial_amount == account@.initial_amount
            && resp.balance == account@.balance()
            && resp.transactions@.len() == account@.transactions.len()
            && (forall|i: int|
                0 <= i < account@.transactions.len() ==> renders_transaction(
                    resp.transactions@[i],
                    account@.transactions[i],
                )),
{
    let balance = match account.checked_balance() {
        Some(b) => b,
        None => {
            return None;
        },
    };
    let transactions_src = account.transactions();
    let mut transactions: Vec<TransactionResponse> = Vec::new();
    let mut i: usize = 0;
    while i < transactions_src.len()
        invariant
            transactions_src@ == account@.transactions,
            0 <= i <= transactions_src@.len(),
            transactions@.len() == i,
            forall|j: int|
                0 <= j < i ==> renders_transaction(transactions@[j], transactions_src@[j]),
        decreases transactions_src@.len() - i,
    {
        let tr = transaction_response(&transactions_src[i]);
        transactions.push(tr);
        i = i + 1;
    }
    Some(
        BankAccountResponse {
            account_number: account.account_number().to_owned(),
            initial_amount: account.initial_amount(),
            transactions,
            balance,
        },
    )
}

} // verus!
