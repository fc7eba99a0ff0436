//! The errors that a single transaction can be rejected with. They are all
//! local: the engine reports them and goes on with the next transaction.

use vstd::prelude::*;
use crate::Client;
use crate::Tx;

verus! {

/// Errors raised by the account balance operations.
#[derive(Clone, Copy, Debug, PartialEq, Eq, Structural)]
pub enum AccountError {
    /// The client's account has fewer available funds than the operation needs.
    InsufficientFunds(Client),
    /// The client's account is locked and cannot perform operations.
    AccountLocked(Client),
    /// A balance of the client's account would exceed the representable range.
    Overflow(Client),
    /// A balance of the client's account would fall below the representable range.
    Underflow(Client),
}

/// Errors raised while validating a transaction or resolving its references.
#[derive(Clone, Copy, Debug, PartialEq, Eq, Structural)]
pub enum TransactionError {
    /// The transaction requires an amount and has none.
    MissingAmount(Tx),
    /// The transaction must not carry an amount and has one.
    AmountPresent(Tx),
    /// The amount carried is zero or negative.
    NonPositiveAmount(Tx),
    /// The transaction id is already recorded in the ledger.
    DuplicateFound(Tx),
    /// A dispute is already open for the transaction.
    ExistingDispute(Tx),
    /// No open dispute (or no ledger record) exists for the transaction.
    MissingDispute(Tx),
    /// The referenced transaction's kind is not eligible for a dispute.
    OnlyDepositsCanBeDisputed(Tx),
    /// The referencing client differs from the referenced transaction's
    /// client; carries the transaction id, the recorded client and the
    /// client found on the referencing transaction.
    WrongClient(Tx, Client, Client),
}

/// Any rejection of one transaction.
#[derive(Clone, Copy, Debug, PartialEq, Eq, Structural)]
pub enum Error {
    /// Rejected by an account balance operation.
    Account(AccountError),
    /// Rejected while validating or resolving references.
    Transaction(TransactionError),
}

} // verus!
