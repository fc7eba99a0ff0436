//! The shape of a transaction, its kinds, and the shape validation applied
//! to every transaction before it is processed.

use vstd::prelude::*;
use crate::Client;
use crate::Tx;
use crate::amount::Amount;
use crate::error::TransactionError;

verus! {

/// The kinds of transaction the engine accepts.
#[derive(Clone, Copy, Debug, PartialEq, Eq, Structural)]
pub enum TxType {
    /// A credit to the client's account: available and total funds increase.
    Deposit,
    /// A debit to the client's account: available and total funds decrease.
    Withdrawal,
    /// A client's claim that a recorded transaction was an error: the
    /// disputed funds move from available to held.
    Dispute,
    /// A resolution of an open dispute: the held funds move back to available.
    Resolve,
    /// The terminal state of a dispute: the held funds are withdrawn and the
    /// account is frozen.
    Chargeback,
}

/// One transaction of the input stream.
#[derive(Clone, Copy, Debug, PartialEq, Eq, Structural)]
pub struct Transaction {
    /// The kind of transaction.
    pub variant: TxType,
    /// The client this transaction applies to.
    pub client: Client,
    /// The transaction id: for a deposit or withdrawal, its own fresh id;
    /// for the dispute family, the id of the referenced transaction.
    pub tx: Tx,
    /// The amount moved, present exactly for deposits and withdrawals.
    pub amount: Option<Amount>,
}

/// What shape validation returns for a transaction: deposits and
/// withdrawals must carry a strictly positive amount, the dispute family
/// must carry none.
pub open spec fn spec_validate(t: Transaction) -> Result<(), TransactionError> {
    if (t.variant is Deposit || t.variant is Withdrawal) && t.amount is None {
        Err(TransactionError::MissingAmount(t.tx))
    } else if (t.variant is Dispute || t.variant is Resolve || t.variant is Chargeback)
        && t.amount is Some {
        Err(TransactionError::AmountPresent(t.tx))
    } else if t.amount matches Some(a) && a@ <= 0 {
        Err(TransactionError::NonPositiveAmount(t.tx))
    } else {
        Ok(())
    }
}

impl Transaction {
    /// Checks that the transaction has the fields its kind requires:
    /// an amount present if and only if the kind is deposit or withdrawal,
    /// and strictly positive when present.
    pub fn is_valid(&self) -> (r: Result<(), TransactionError>)
        ensures
            r == spec_validate(*self),
    {
        if matches!(self.variant, TxType::Deposit | TxType::Withdrawal) && self.amount.is_none() {
            return Err(TransactionError::MissingAmount(self.tx));
        }

        if matches!(self.variant, TxType::Dispute | TxType::Resolve | TxType::Chargeback)
            && self.amount.is_some() {
            return Err(TransactionError::AmountPresent(self.tx));
        }

        if let Some(value) = self.amount {
            if value.raw <= 0 {
                return Err(TransactionError::NonPositiveAmount(self.tx));
            }
        }

        Ok(())
    }
}

} // verus!
