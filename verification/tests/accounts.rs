//! Tests of the account balance operations and the account directory.

use payments::accounts::Account;
use payments::accounts::Accounts;
use payments::amount::Amount;

fn funds(amount: f32) -> Amount {
    Amount::new((amount * 10000.0) as i64)
}

#[test]
fn test_deposit() {}

#[test]
fn test_account_creation() {
    let client = 1;
    let acc = Account::new(client);
    assert_eq!(acc.available, Amount::zero());
    assert_eq!(acc.held, Amount::zero());
    assert_eq!(acc.total, Amount::zero());
    assert!(!acc.locked);
}

#[test]
fn test_accounts_create_and_retrieve_account() {
    let client = 1;
    let mut accounts = Accounts::new();
    let account = accounts.get_mut(client);
    account.credit(funds(5.0)).unwrap();

    let retrieved = accounts.get_mut(client);
    assert_eq!(retrieved.available, funds(5.0));
}

#[test]
fn test_credit_increases_available_and_total() {
    let client = 1;
    let mut acc = Account::new(client);
    acc.credit(funds(10.0)).unwrap();
    assert_eq!(acc.available, funds(10.0));
    assert_eq!(acc.total, funds(10.0));
}

#[test]
fn test_debit_decreases_available_and_total() {
    let client = 1;
    let mut acc = Account::new(client);
    acc.credit(funds(20.0)).unwrap();
    acc.debit(funds(5.0)).unwrap();
    assert_eq!(acc.available, funds(15.0));
    assert_eq!(acc.total, funds(15.0));
}

#[test]
fn test_debit_fails_with_insufficient_funds() {
    let client = 1;
    let mut acc = Account::new(client);
    let result = acc.debit(funds(1.0));
    assert!(result.is_err());
}

#[test]
fn test_dispute_moves_funds_from_available_to_held() {
    let client = 1;
    let tx_id = 1;
    let mut acc = Account::new(client);
    acc.credit(funds(10.0)).unwrap();
    acc.dispute(funds(5.0), tx_id).unwrap();
    assert_eq!(acc.available, funds(5.0));
    assert_eq!(acc.held, funds(5.0));
    assert_eq!(acc.total, funds(10.0));
}

#[test]
fn test_resolve_moves_funds_back_to_available() {
    let client = 1;
    let tx_id = 1;
    let mut acc = Account::new(client);
    acc.credit(funds(10.0)).unwrap();
    acc.dispute(funds(5.0), tx_id).unwrap();
    acc.resolve(tx_id).unwrap();
    assert_eq!(acc.available, funds(10.0));
    assert_eq!(acc.held, Amount::zero());
}

#[test]
fn test_chargeback_removes_funds_and_locks_account() {
    let client = 1;
    let tx_id = 1;
    let mut acc = Account::new(client);
    acc.credit(funds(10.0)).unwrap();
    acc.dispute(funds(5.0), tx_id).unwrap();
    acc.chargeback(tx_id).unwrap();
    assert_eq!(acc.available, funds(5.0));
    assert_eq!(acc.held, Amount::zero());
    assert!(acc.locked);
}

#[test]
fn test_locked_account_cannot_credit_or_debit() {
    let client = 1;
    let tx_id = 1;
    let mut acc = Account::new(client);
    acc.credit(funds(10.0)).unwrap();
    acc.dispute(funds(5.0), tx_id).unwrap();
    acc.chargeback(tx_id).unwrap();

    assert!(acc.credit(funds(5.0)).is_err());
    assert!(acc.debit(funds(5.0)).is_err());
}
