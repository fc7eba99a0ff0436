//! A transaction-processing ledger: five kinds of transactions (deposit,
//! withdrawal, dispute, resolve, chargeback) are replayed in input order
//! against per-client accounts, with checked fixed-point arithmetic and
//! referentially-checked dispute handling.

pub mod accounts;
pub mod amount;
pub mod engine;
pub mod error;
pub mod laws;
pub mod transactions;

use vstd::prelude::*;

verus! {

/// A client (account holder) identifier.
pub type Client = u16;

/// A transaction identifier, unique per deposit or withdrawal in the input.
pub type Tx = u32;

} // verus!
