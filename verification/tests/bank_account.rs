use bank_ledger::bank_account::{BankAccount, Transaction};

#[test]
fn should_create_new_bank_account() {
    // Given / When
    let account = BankAccount::create_new_account("account_number".to_string(), 100);

    // Then
    assert_eq!(account.account_number(), "account_number");
    assert_eq!(account.transactions().len(), 0);
    assert_eq!(account.initial_amount(), 100);
}

#[test]
fn should_deposit_to_bank_account() {
    // Given
    let mut account = BankAccount::create_new_account("account_number".to_string(), 100);

    // When
    account.deposit(1000);

    // Then
    assert_eq!(
        matches!(
            account.transactions()[0],
            Transaction::Deposit {
                date: _date,
                amount: 1000
            }
        ),
        true
    );
}

#[test]
fn should_with_draw_to_bank_account() {
    // Given
    let mut account = BankAccount::create_new_account("account_number".to_string(), 100);

    // When
    account.with_draw(500);

    // Then
    assert_eq!(
        matches!(
            account.transactions()[0],
            Transaction::Withdraw {
                date: _date,
                amount: 500
            }
        ),
        true
    );
}

#[test]
fn should_compute_balance() {
    // Given
    let mut account = BankAccount::create_new_account("account_number".to_string(), 1000);

    // When
    account.with_draw(500);
    account.deposit(2000);

    // Then
    assert_eq!(account.balance(), 2_500);
}

#[test]
fn balance_is_initial_plus_deposits_minus_withdrawals() {
    let mut account = BankAccount::create_new_account("a".to_string(), 10);
    account.deposit(5);
    account.with_draw(3);
    account.deposit(7);
    account.with_draw(2);
    assert_eq!(account.balance(), 10 + 5 + 7 - 3 - 2);
}

#[test]
fn deposit_then_withdraw_same_amount_restores_balance() {
    let mut account = BankAccount::create_new_account("a".to_string(), 420);
    account.deposit(33);
    let before = account.balance();
    account.deposit(250);
    account.with_draw(250);
    assert_eq!(account.balance(), before);
}

#[test]
fn returned_transaction_is_the_appended_one() {
    let mut account = BankAccount::create_new_account("a".to_string(), 0);
    let t = account.deposit(77);
    assert_eq!(account.transactions()[0], t);
    let w = account.with_draw(12);
    assert_eq!(account.transactions()[1], w);
    assert_eq!(account.transactions().len(), 2);
}

#[test]
fn create_from_existing_account_keeps_the_supplied_log() {
    let log = vec![
        Transaction::Deposit { date: 10, amount: 40 },
        Transaction::Withdraw { date: 20, amount: 15 },
    ];
    let account = BankAccount::create_from_existing_account("x9".to_string(), log.clone(), 5);
    assert_eq!(account.account_number(), "x9");
    assert_eq!(account.initial_amount(), 5);
    assert_eq!(account.transactions(), &log);
    assert_eq!(account.balance(), 5 + 40 - 15);
}

#[test]
fn transaction_getters_read_the_stored_parts() {
    let d = Transaction::Deposit { date: 123, amount: 9 };
    assert_eq!(d.transaction_type(), "deposit");
    assert_eq!(*d.amount(), 9);
    assert_eq!(*d.date(), 123);

    let w = Transaction::Withdraw { date: 456, amount: 8 };
    assert_eq!(w.transaction_type(), "withdraw");
    assert_eq!(*w.amount(), 8);
    assert_eq!(*w.date(), 456);
}

#[test]
fn from_parts_rebuilds_a_deposit() {
    let t = Transaction::from_parts("deposit", 42, 7).unwrap();
    assert_eq!(t, Transaction::Deposit { date: 7, amount: 42 });
}

#[test]
fn from_parts_rebuilds_a_withdrawal() {
    let t = Transaction::from_parts("withdraw", 13, 99).unwrap();
    assert_eq!(t, Transaction::Withdraw { date: 99, amount: 13 });
}

#[test]
fn from_parts_refuses_an_unknown_discriminator() {
    assert!(Transaction::from_parts("transfer", 1, 1).is_none());
    assert!(Transaction::from_parts("", 1, 1).is_none());
    assert!(Transaction::from_parts("Deposit", 1, 1).is_none());
}

#[test]
fn checked_balance_in_range_matches_balance() {
    let mut account = BankAccount::create_new_account("a".to_string(), -30);
    account.deposit(10);
    assert_eq!(account.checked_balance(), Some(-20));
}

#[test]
fn checked_balance_reports_overflow() {
    let log = vec![Transaction::Deposit { date: 0, amount: 1 }];
    let account = BankAccount::create_from_existing_account("a".to_string(), log, i32::MAX);
    assert_eq!(account.checked_balance(), None);
}

#[test]
fn checked_balance_reports_underflow() {
    let log = vec![Transaction::Withdraw { date: 0, amount: 1 }];
    let account = BankAccount::create_from_existing_account("a".to_string(), log, i32::MIN);
    assert_eq!(account.checked_balance(), None);
}
