//! The ledger domain model: one account, its append-only transaction log,
//! and the balance derived by folding that log.

use vstd::prelude::*;

verus! {

/// One recorded movement on an account. The stored `amount` is the unsigned
/// magnitude as entered by the caller; the sign of its contribution to the
/// balance comes from the variant alone. The `date` is a server-assigned
/// timestamp in milliseconds, stamped when the transaction is created.
#[derive(Clone, Copy, Debug, PartialEq, Eq, Structural)]
pub enum Transaction {
    Deposit { date: i64, amount: i32 },
    Withdraw { date: i64, amount: i32 },
}

/// The unsigned magnitude stored in a transaction.
pub open spec fn amount_of(t: Transaction) -> i32 {
    match t {
        Transaction::Deposit { amount, .. } => amount,
        Transaction::Withdraw { amount, .. } => amount,
    }
}

/// The timestamp stored in a transaction.
pub open spec fn date_of(t: Transaction) -> i64 {
    match t {
        Transaction::Deposit { date, .. } => date,
        Transaction::Withdraw { date, .. } => date,
    }
}

/// The signed contribution of one transaction to the balance: a deposit
/// counts positively, a withdrawal negatively.
pub open spec fn signed_amount(t: Transaction) -> int {
    match t {
        Transaction::Deposit { amount, .. } => amount as int,
        Transaction::Withdraw { amount, .. } => -(amount as int),
    }
}

/// The fold over a transaction log: the sum of the signed contributions.
pub open spec fn transaction_sum(s: Seq<Transaction>) -> int
    decreases s.len(),
{
    if s.len() == 0 {
        0
    } else {
        transaction_sum(s.drop_last()) + signed_amount(s.last())
    }
}

/// The storage discriminator under which a transaction is persisted.
pub open spec fn storage_type_of(t: Transaction) -> Seq<char> {
    match t {
        Transaction::Deposit { .. } => "deposit"@,
        Transaction::Withdraw { .. } => "withdraw"@,
    }
}

/// The mathematical value of a `BankAccount`: its number, its opening
/// balance, and its transaction log in insertion order.
#[verifier::ext_equal]
pub struct AccountModel {
    pub account_number: Seq<char>,
    pub initial_amount: int,
    pub transactions: Seq<Transaction>,
}

impl AccountModel {
    /// The derived balance: never stored, always the opening amount plus the
    /// fold over the log.
    pub open spec fn balance(&self) -> int {
        self.initial_amount + transaction_sum(self.transactions)
    }
}

/// One account: an opaque number, an opening amount set once at creation,
/// and the append-only log of its transactions in insertion order.
#[derive(Debug)]
pub struct BankAccount {
    account_number: String,
    transactions: Vec<Transaction>,
    initial_amount: i32,
}

impl View for BankAccount {
    type V = AccountModel;

    closed spec fn view(&self) -> AccountModel {
        AccountModel {
            account_number: self.account_number@,
            initial_amount: self.initial_amount as int,
            transactions: self.transactions@,
        }
    }
}

/// Relies on std's `SystemTime::now` for the server-side transaction date,
/// read as a signed millisecond offset from the Unix epoch: `duration_since`
/// returns the offset as `Ok` for a clock at or past the epoch and as the
/// error's duration for one before it, so every clock state yields a value
/// and none panics. Nothing is assumed of the value that comes back.
#[verifier::external_body]
fn current_timestamp_millis() -> i64 {
    match std::time::SystemTime::now().duration_since(std::time::UNIX_EPOCH) {
        Ok(d) => d.as_millis() as i64,
        Err(e) => -(e.duration().as_millis() as i64),
    }
}

impl BankAccount {
    /// Opens an account with an empty history. The opening amount is taken
    /// as-is; no sign validation happens at this layer.
    pub fn create_new_account(account_number: String, initial_amount: i32) -> (account: Self)
        ensures
            account@ == (AccountModel {
                account_number: account_number@,
                initial_amount: initial_amount as int,
                transactions: Seq::<Transaction>::empty(),
            }),
    {
        BankAccount { account_number, transactions: Vec::new(), initial_amount }
    }

    /// Rebuilds an account hydrated from storage; the supplied log is trusted
    /// to be in original insertion order and is not re-checked.
    pub fn create_from_existing_account(
        account_number: String,
        transactions: Vec<Transaction>,
        initial_amount: i32,
    ) -> (account: Self)
        ensures
            account@ == (AccountModel {
                account_number: account_number@,
                initial_amount: initial_amount as int,
                transactions: transactions@,
            }),
    {
        BankAccount { account_number, transactions, initial_amount }
    }

    /// Appends a deposit stamped with the current time and returns the
    /// created transaction, so a caller can persist exactly that record.
    pub fn deposit(&mut self, amount: i32) -> (t: Transaction)
        ensures
            t is Deposit,
            amount_of(t) == amount,
            final(self)@.transactions == old(self)@.transactions.push(t),
            final(self)@.account_number == old(self)@.account_number,
            final(self)@.initial_amount == old(self)@.initial_amount,
    {
        let transaction = Transaction::Deposit { date: current_timestamp_millis(), amount };
        self.transactions.push(transaction);
        transaction
    }

    /// Appends a withdrawal stamped with the current time and returns it.
    /// No overdraft check happens: the balance may go negative.
    pub fn with_draw(&mut self, amount: i32) -> (t: Transaction)
        ensures
            t is Withdraw,
            amount_of(t) == amount,
            final(self)@.transactions == old(self)@.transactions.push(t),
            final(self)@.account_number == old(self)@.account_number,
            final(self)@.initial_amount == old(self)@.initial_amount,
    {
        let transaction = Transaction::Withdraw { date: current_timestamp_millis(), amount };
        self.transactions.push(transaction);
        transaction
    }

    /// The derived balance, freshly folded over the whole log; `None` when
    /// the mathematical balance does not fit the machine result type.
    pub fn checked_balance(&self) -> (r: Option<i32>)
        ensures
            r is Some <==> i32::MIN <= self@.balance() <= i32::MAX,
            r matches Some(b) ==> b == self@.balance(),
    {
        let mut sum: i128 = 0;
        let n = self.transactions.len();
        let mut i: usize = 0;
        while i < n
            invariant
                n == self.transactions@.len(),
                0 <= i <= n,
                sum == transaction_sum(self.transactions@.subrange(0, i as int)),
                -(i as int) * 0x8000_0000 <= sum <= (i as int) * 0x8000_0000,
            decreases n - i,
        {
            let t = self.transactions[i];
            proof {
                assert(self.transactions@.subrange(0, (i + 1) as int).drop_last()
                    =~= self.transactions@.subrange(0, i as int));
            }
            match t {
                Transaction::Deposit { amount, .. } => {
                    sum = sum + amount as i128;
                }
                Transaction::Withdraw { amount, .. } => {
                    sum = sum - amount as i128;
                }
            }
            i = i + 1;
        }
        proof {
            assert(self.transactions@.subrange(0, n as int) =~= self.transactions@);
        }
        let total: i128 = self.initial_amount as i128 + sum;
        if i32::MIN as i128 <= total && total <= i32::MAX as i128 {
            Some(total as i32)
        } else {
            None
        }
    }

    /// The derived balance; the caller owes that it fits the result type.
    pub fn balance(&self) -> (r: i32)
        requires
            i32::MIN <= self@.balance() <= i32::MAX,
        ensures
            r == self@.balance(),
    {
        self.checked_balance().unwrap()
    }

    pub fn account_number(&self) -> (r: &str)
        ensures
            r@ == self@.account_number,
    {
        self.account_number.as_str()
    }

    pub fn initial_amount(&self) -> (r: i32)
        ensures
            r == self@.initial_amount,
    {
        self.initial_amount
    }

    /// The log, read-only, in insertion order.
    pub fn transactions(&self) -> (r: &Vec<Transaction>)
        ensures
            r@ == self@.transactions,
    {
        &self.transactions
    }
}

/// Equality of two string slices by their character sequences.
fn str_eq(a: &str, b: &str) -> (r: bool)
    ensures
        r == (a@ == b@),
{
    let a_owned: String = a.to_owned();
    let b_owned: String = b.to_owned();
    a_owned == b_owned
}

impl Transaction {
    /// The storage discriminator of this transaction.
    pub fn transaction_type(&self) -> (r: &str)
        ensures
            r@ == storage_type_of(*self),
    {
        match self {
            Transaction::Deposit { .. } => "deposit",
            Transaction::Withdraw { .. } => "withdraw",
        }
    }

    pub fn amount(&self) -> (r: &i32)
        ensures
            *r == amount_of(*self),
    {
        match self {
            Transaction::Deposit { amount, .. } => amount,
            Transaction::Withdraw { amount, .. } => amount,
        }
    }

    pub fn date(&self) -> (r: &i64)
        ensures
            *r == date_of(*self),
    {
        match self {
            Transaction::Deposit { date, .. } => date,
            Transaction::Withdraw { date, .. } => date,
        }
    }

    /// Rebuilds a transaction from the plain values a storage row holds.
    /// `None` exactly when the discriminator names no known variant.
    pub fn from_parts(transaction_type: &str, amount: i32, date: i64) -> (r: Option<Transaction>)
        ensures
            r is Some <==> (transaction_type@ == "deposit"@ || transaction_type@ == "withdraw"@),
            r matches Some(t) ==> amount_of(t) == amount && date_of(t) == date
                && storage_type_of(t) == transaction_type@,
    {
        if str_eq(transaction_type, "deposit") {
            Some(Transaction::Deposit { date, amount })
        } else if str_eq(transaction_type, "withdraw") {
            Some(Transaction::Withdraw { date, amount })
        } else {
            None
        }
    }
}

} // verus!
