//! Tests of transaction shape validation.

use payments::amount::Amount;
use payments::error::TransactionError;
use payments::transactions::Transaction;
use payments::transactions::TxType;

fn funds(amount: f32) -> Amount {
    Amount::new((amount * 10000.0) as i64)
}

#[test]
fn test_valid_deposit() {
    let t = Transaction {
        variant: TxType::Deposit,
        client: 1,
        tx: 100,
        amount: Some(funds(10.0)),
    };

    assert!(t.is_valid().is_ok());
}

#[test]
fn test_valid_withdrawal() {
    let t = Transaction {
        variant: TxType::Withdrawal,
        client: 2,
        tx: 101,
        amount: Some(funds(5.0)),
    };

    assert!(t.is_valid().is_ok());
}

#[test]
fn test_invalid_deposit_missing_amount() {
    let t = Transaction {
        variant: TxType::Deposit,
        client: 3,
        tx: 102,
        amount: None,
    };

    assert_eq!(
        t.is_valid().unwrap_err(),
        TransactionError::MissingAmount(102)
    );
}

#[test]
fn test_invalid_withdrawal_missing_amount() {
    let t = Transaction {
        variant: TxType::Withdrawal,
        client: 4,
        tx: 103,
        amount: None,
    };

    assert_eq!(
        t.is_valid().unwrap_err(),
        TransactionError::MissingAmount(103)
    );
}

#[test]
fn test_invalid_dispute_with_amount() {
    let t = Transaction {
        variant: TxType::Dispute,
        client: 5,
        tx: 104,
        amount: Some(funds(10.0)),
    };

    assert_eq!(
        t.is_valid().unwrap_err(),
        TransactionError::AmountPresent(104)
    );
}

#[test]
fn test_invalid_resolve_with_amount() {
    let t = Transaction {
        variant: TxType::Resolve,
        client: 6,
        tx: 105,
        amount: Some(funds(1.0)),
    };

    assert_eq!(
        t.is_valid().unwrap_err(),
        TransactionError::AmountPresent(105)
    );
}

#[test]
fn test_invalid_chargeback_with_amount() {
    let t = Transaction {
        variant: TxType::Chargeback,
        client: 7,
        tx: 106,
        amount: Some(funds(1.0)),
    };

    assert_eq!(
        t.is_valid().unwrap_err(),
        TransactionError::AmountPresent(106)
    );
}

#[test]
fn test_valid_dispute_without_amount() {
    let t = Transaction {
        variant: TxType::Dispute,
        client: 8,
        tx: 107,
        amount: None,
    };

    assert!(t.is_valid().is_ok());
}

#[test]
fn test_invalid_negative_amount() {
    let t = Transaction {
        variant: TxType::Deposit,
        client: 9,
        tx: 108,
        amount: Some(funds(-5.0)),
    };

    assert_eq!(
        t.is_valid().unwrap_err(),
        TransactionError::NonPositiveAmount(108)
    );
}

#[test]
fn test_invalid_zero_amount() {
    let t = Transaction {
        variant: TxType::Withdrawal,
        client: 10,
        tx: 109,
        amount: Some(funds(0.0)),
    };

    assert_eq!(
        t.is_valid().unwrap_err(),
        TransactionError::NonPositiveAmount(109)
    );
}
