use bank_ledger::bank_account::{BankAccount, Transaction};
use bank_ledger::memory_adapter::InMemoryAdapter;
use bank_ledger::port::{BankAccountPort, StoreError};
use bank_ledger::resource::account_response;
use bank_ledger::use_case::BankAccountUseCase;

fn service() -> BankAccountUseCase<InMemoryAdapter> {
    BankAccountUseCase::new(InMemoryAdapter::new())
}

#[test]
fn create_then_get_returns_a_fresh_account() {
    let mut uc = service();
    assert_eq!(uc.create_bank_account("A1".to_string(), 100), Ok(()));

    let account = uc.get_bank_account("A1").unwrap();
    assert_eq!(account.account_number(), "A1");
    assert_eq!(account.initial_amount(), 100);
    assert_eq!(account.balance(), 100);
    assert!(account.transactions().is_empty());

    let response = account_response(&account).unwrap();
    assert_eq!(response.account_number, "A1");
    assert_eq!(response.initial_amount, 100);
    assert_eq!(response.balance, 100);
    assert!(response.transactions.is_empty());
}

#[test]
fn get_unknown_account_is_an_empty_result() {
    let uc = service();
    assert!(uc.get_bank_account("UNKNOWN").is_none());
}

#[test]
fn deposit_then_get_shows_the_new_balance_and_log() {
    let mut uc = service();
    assert_eq!(uc.create_bank_account("A1".to_string(), 100), Ok(()));
    assert_eq!(uc.deposit_into_bank_account("A1".to_string(), 50), Ok(()));

    let account = uc.get_bank_account("A1").unwrap();
    assert_eq!(account.balance(), 150);
    assert_eq!(account.transactions().len(), 1);
    assert!(matches!(
        account.transactions()[0],
        Transaction::Deposit { date: _date, amount: 50 }
    ));

    let response = account_response(&account).unwrap();
    assert_eq!(response.balance, 150);
    assert_eq!(response.transactions.len(), 1);
    assert_eq!(response.transactions[0].transaction_type, "Deposit");
    assert_eq!(response.transactions[0].amount, 50);
}

#[test]
fn withdraw_then_deposit_accumulate() {
    let mut uc = service();
    assert_eq!(uc.create_bank_account("A1".to_string(), 1000), Ok(()));
    assert_eq!(uc.with_draw_into_bank_account("A1".to_string(), 500), Ok(()));
    assert_eq!(uc.deposit_into_bank_account("A1".to_string(), 2000), Ok(()));

    let account = uc.get_bank_account("A1").unwrap();
    assert_eq!(account.balance(), 2500);
}

#[test]
fn deposit_then_withdraw_same_amount_is_a_round_trip() {
    let mut uc = service();
    assert_eq!(uc.create_bank_account("A1".to_string(), 75), Ok(()));
    assert_eq!(uc.deposit_into_bank_account("A1".to_string(), 250), Ok(()));
    assert_eq!(uc.with_draw_into_bank_account("A1".to_string(), 250), Ok(()));

    let account = uc.get_bank_account("A1").unwrap();
    assert_eq!(account.balance(), 75);
    assert_eq!(account.transactions().len(), 2);
}

#[test]
fn transactions_come_back_in_insertion_order_with_ascending_dates() {
    let mut uc = service();
    assert_eq!(uc.create_bank_account("A1".to_string(), 0), Ok(()));
    assert_eq!(uc.deposit_into_bank_account("A1".to_string(), 1), Ok(()));
    assert_eq!(uc.with_draw_into_bank_account("A1".to_string(), 2), Ok(()));
    assert_eq!(uc.deposit_into_bank_account("A1".to_string(), 3), Ok(()));

    let account = uc.get_bank_account("A1").unwrap();
    let log = account.transactions();
    assert_eq!(log.len(), 3);
    assert!(matches!(log[0], Transaction::Deposit { date: _d, amount: 1 }));
    assert!(matches!(log[1], Transaction::Withdraw { date: _d, amount: 2 }));
    assert!(matches!(log[2], Transaction::Deposit { date: _d, amount: 3 }));
    assert!(*log[0].date() <= *log[1].date());
    assert!(*log[1].date() <= *log[2].date());
}

#[test]
fn overdraft_is_accepted_and_goes_negative() {
    let mut uc = service();
    assert_eq!(uc.create_bank_account("A1".to_string(), 100), Ok(()));
    assert_eq!(uc.with_draw_into_bank_account("A1".to_string(), 500), Ok(()));

    let account = uc.get_bank_account("A1").unwrap();
    assert_eq!(account.balance(), -400);
}

#[test]
fn duplicate_account_number_is_rejected() {
    let mut uc = service();
    assert_eq!(uc.create_bank_account("A1".to_string(), 100), Ok(()));
    assert_eq!(
        uc.create_bank_account("A1".to_string(), 999),
        Err(StoreError::AlreadyExists)
    );

    // The store is unchanged by the refused creation.
    let account = uc.get_bank_account("A1").unwrap();
    assert_eq!(account.initial_amount(), 100);
}

#[test]
fn deposit_into_unknown_account_is_not_found() {
    let mut uc = service();
    assert_eq!(
        uc.deposit_into_bank_account("NOBODY".to_string(), 10),
        Err(StoreError::NotFound)
    );
}

#[test]
fn withdraw_from_unknown_account_is_not_found() {
    let mut uc = service();
    assert_eq!(
        uc.with_draw_into_bank_account("NOBODY".to_string(), 10),
        Err(StoreError::NotFound)
    );
}

#[test]
fn adapter_assigns_sequential_ids_and_keeps_accounts_apart() {
    let mut adapter = InMemoryAdapter::new();
    let first = BankAccount::create_new_account("A1".to_string(), 10);
    let second = BankAccount::create_new_account("A2".to_string(), 20);
    assert_eq!(adapter.save_account(&first), Ok(1));
    assert_eq!(adapter.save_account(&second), Ok(2));

    let d = Transaction::Deposit { date: 1, amount: 7 };
    let w = Transaction::Withdraw { date: 2, amount: 3 };
    assert_eq!(adapter.save_transaction("A2", &d), Ok(1));
    assert_eq!(adapter.save_transaction("A2", &w), Ok(2));
    assert_eq!(
        adapter.save_transaction("A3", &d),
        Err(StoreError::NotFound)
    );

    let a1 = adapter.load("A1").unwrap();
    assert!(a1.transactions().is_empty());
    let a2 = adapter.load("A2").unwrap();
    assert_eq!(a2.transactions(), &vec![d, w]);
    assert_eq!(a2.balance(), 20 + 7 - 3);
    assert!(matches!(adapter.load("A3"), Err(StoreError::NotFound)));
}

#[test]
fn account_response_renders_the_whole_log() {
    let log = vec![
        Transaction::Deposit { date: 11, amount: 40 },
        Transaction::Withdraw { date: 22, amount: 15 },
    ];
    let account = BankAccount::create_from_existing_account("x9".to_string(), log, 5);
    let response = account_response(&account).unwrap();
    assert_eq!(response.account_number, "x9");
    assert_eq!(response.initial_amount, 5);
    assert_eq!(response.balance, 30);
    assert_eq!(response.transactions.len(), 2);
    assert_eq!(response.transactions[0].transaction_type, "Deposit");
    assert_eq!(response.transactions[0].amount, 40);
    assert_eq!(response.transactions[0].date, 11);
    assert_eq!(response.transactions[1].transaction_type, "WithDraw");
    assert_eq!(response.transactions[1].amount, 15);
    assert_eq!(response.transactions[1].date, 22);
}

#[test]
fn account_response_refuses_an_overflowing_balance() {
    let log = vec![Transaction::Deposit { date: 0, amount: 1 }];
    let account = BankAccount::create_from_existing_account("a".to_string(), log, i32::MAX);
    assert!(account_response(&account).is_none());
}
