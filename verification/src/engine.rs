//! The transaction engine: validates each transaction, guards the ledger
//! against a reused deposit/withdrawal id, resolves dispute-family
//! references against the ledger, and dispatches to the account operations.
//!
//! Every path is specified by a pure step function on the engine's model
//! (the ledger as a map) and the account's model: the executable methods
//! return exactly the state and result those functions name.

use vstd::prelude::*;
use std::collections::HashMap;
use crate::Client;
use crate::Tx;
use crate::accounts::Account;
use crate::accounts::AccountModel;
use crate::accounts::Accounts;
use crate::accounts::chargeback_step;
use crate::accounts::credit_step;
use crate::accounts::debit_step;
use crate::accounts::dispute_step;
use crate::accounts::new_account_model;
use crate::accounts::resolve_step;
use crate::error::Error;
use crate::error::TransactionError;
use crate::transactions::Transaction;
use crate::transactions::TxType;
use crate::transactions::spec_validate;

verus! {

broadcast use vstd::std_specs::hash::group_hash_axioms;

/// Which kind of recorded transaction a dispute may reference. The rule
/// shipped by the reference behavior rejects a dispute whose referenced
/// transaction is a deposit — the inverse of the domain commentary that
/// only deposits should be disputable — so the choice is exposed as a
/// policy: `WithdrawalsOnly` reproduces the shipped behavior and is the
/// default, `DepositsOnly` applies the domain rule.
#[derive(Clone, Copy, Debug, PartialEq, Eq, Structural)]
pub enum DisputeEligibility {
    /// Reject a dispute whose referenced transaction is a deposit, as the
    /// reference behavior does.
    WithdrawalsOnly,
    /// Accept a dispute only when the referenced transaction is a deposit.
    DepositsOnly,
}

/// Whether a dispute may reference a recorded transaction of this kind
/// under the given policy.
pub open spec fn dispute_eligible(policy: DisputeEligibility, kind: TxType) -> bool {
    match policy {
        DisputeEligibility::WithdrawalsOnly => !(kind is Deposit),
        DisputeEligibility::DepositsOnly => kind is Deposit,
    }
}

/// The ledger's invariant: every record is stored under its own id and is
/// an accepted deposit or withdrawal, so it carries a strictly positive
/// amount.
pub open spec fn ledger_wf(ledger: Map<Tx, Transaction>) -> bool {
    forall|tx: Tx| #[trigger] ledger.contains_key(tx) ==> {
        &&& ledger[tx].tx == tx
        &&& (ledger[tx].variant is Deposit || ledger[tx].variant is Withdrawal)
        &&& ledger[tx].amount is Some
        &&& ledger[tx].amount->0@ > 0
    }
}

/// The deposit step: credit the account; when the credit succeeds, record
/// the transaction in the ledger.
pub open spec fn deposit_step(ledger: Map<Tx, Transaction>, a: AccountModel, t: Transaction) -> (
    Map<Tx, Transaction>,
    AccountModel,
    Result<(), Error>,
) {
    let step = credit_step(a, t.amount->0);
    if step.1 is Ok {
        (ledger.insert(t.tx, t), step.0, step.1)
    } else {
        (ledger, step.0, step.1)
    }
}

/// The withdrawal step: debit the account; when the debit succeeds, record
/// the transaction in the ledger.
pub open spec fn withdrawal_step(ledger: Map<Tx, Transaction>, a: AccountModel, t: Transaction) -> (
    Map<Tx, Transaction>,
    AccountModel,
    Result<(), Error>,
) {
    let step = debit_step(a, t.amount->0);
    if step.1 is Ok {
        (ledger.insert(t.tx, t), step.0, step.1)
    } else {
        (ledger, step.0, step.1)
    }
}

/// The dispute step: fails with missing-dispute when the ledger holds no
/// record under the referenced id, with the eligibility error when the
/// recorded kind may not be disputed under the policy, and with
/// wrong-client when the recorded client differs from the disputing one;
/// otherwise the account disputes the *recorded* amount under the
/// referenced id.
pub open spec fn dispute_ref_step(
    ledger: Map<Tx, Transaction>,
    policy: DisputeEligibility,
    a: AccountModel,
    t: Transaction,
) -> (AccountModel, Result<(), Error>) {
    if !ledger.contains_key(t.tx) {
        (a, Err(Error::Transaction(TransactionError::MissingDispute(t.tx))))
    } else {
        let past = ledger[t.tx];
        if !dispute_eligible(policy, past.variant) {
            (a, Err(Error::Transaction(TransactionError::OnlyDepositsCanBeDisputed(t.tx))))
        } else if past.client != t.client {
            (
                a,
                Err(Error::Transaction(TransactionError::WrongClient(t.tx, past.client, t.client))),
            )
        } else {
            dispute_step(a, past.amount->0, t.tx)
        }
    }
}

/// The resolve step: fails with missing-dispute when the ledger holds no
/// record under the referenced id and with wrong-client on a client
/// mismatch; otherwise the account resolves the dispute open under the id.
pub open spec fn resolve_ref_step(
    ledger: Map<Tx, Transaction>,
    a: AccountModel,
    t: Transaction,
) -> (AccountModel, Result<(), Error>) {
    if !ledger.contains_key(t.tx) {
        (a, Err(Error::Transaction(TransactionError::MissingDispute(t.tx))))
    } else if ledger[t.tx].client != t.client {
        (
            a,
            Err(
                Error::Transaction(
                    TransactionError::WrongClient(t.tx, ledger[t.tx].client, t.client),
                ),
            ),
        )
    } else {
        resolve_step(a, t.tx)
    }
}

/// The chargeback step: fails with missing-dispute when the ledger holds
/// no record under the referenced id and with wrong-client on a client
/// mismatch; otherwise the account charges back the dispute open under the
/// id.
pub open spec fn chargeback_ref_step(
    ledger: Map<Tx, Transaction>,
    a: AccountModel,
    t: Transaction,
) -> (AccountModel, Result<(), Error>) {
    if !ledger.contains_key(t.tx) {
        (a, Err(Error::Transaction(TransactionError::MissingDispute(t.tx))))
    } else if ledger[t.tx].client != t.client {
        (
            a,
            Err(
                Error::Transaction(
                    TransactionError::WrongClient(t.tx, ledger[t.tx].client, t.client),
                ),
            ),
        )
    } else {
        chargeback_step(a, t.tx)
    }
}

/// The full processing step for one transaction: validate its shape,
/// reject a deposit or withdrawal whose id the ledger already records,
/// then dispatch on the kind. The dispute family never touches the ledger.
pub open spec fn process_step(
    ledger: Map<Tx, Transaction>,
    policy: DisputeEligibility,
    a: AccountModel,
    t: Transaction,
) -> (Map<Tx, Transaction>, AccountModel, Result<(), Error>) {
    match spec_validate(t) {
        Err(e) => (ledger, a, Err(Error::Transaction(e))),
        Ok(()) => if (t.variant is Deposit || t.variant is Withdrawal) && ledger.contains_key(
            t.tx,
        ) {
            (ledger, a, Err(Error::Transaction(TransactionError::DuplicateFound(t.tx))))
        } else {
            match t.variant {
                TxType::Deposit => deposit_step(ledger, a, t),
                TxType::Withdrawal => withdrawal_step(ledger, a, t),
                TxType::Dispute => {
                    let step = dispute_ref_step(ledger, policy, a, t);
                    (ledger, step.0, step.1)
                },
                TxType::Resolve => {
                    let step = resolve_ref_step(ledger, a, t);
                    (ledger, step.0, step.1)
                },
                TxType::Chargeback => {
                    let step = chargeback_ref_step(ledger, a, t);
                    (ledger, step.0, step.1)
                },
            }
        },
    }
}

/// The account an incoming transaction meets in the directory: the stored
/// one, or a fresh account when its client has none yet.
pub open spec fn entry_model(directory: Map<Client, Account>, client: Client) -> AccountModel {
    if directory.contains_key(client) {
        directory[client]@
    } else {
        new_account_model(client)
    }
}

/// The engine applying transactions: holds the ledger of accepted deposits
/// and withdrawals, and the dispute-eligibility policy. Its view is the
/// ledger as a map.
pub struct Engine {
    ledger: HashMap<Tx, Transaction>,
    policy: DisputeEligibility,
}

impl View for Engine {
    type V = Map<Tx, Transaction>;

    closed spec fn view(&self) -> Map<Tx, Transaction> {
        self.ledger@
    }
}

impl Engine {
    /// The engine's invariant: its ledger is well formed.
    pub open spec fn wf(self) -> bool {
        ledger_wf(self@)
    }

    /// Which recorded kind a dispute may reference.
    pub closed spec fn spec_policy(self) -> DisputeEligibility {
        self.policy
    }

    /// Creates an engine with an empty ledger and the reference behavior's
    /// dispute-eligibility policy.
    pub fn new() -> (engine: Engine)
        ensures
            engine@ == Map::<Tx, Transaction>::empty(),
            engine.spec_policy() == DisputeEligibility::WithdrawalsOnly,
            engine.wf(),
    {
        Engine { ledger: HashMap::new(), policy: DisputeEligibility::WithdrawalsOnly }
    }

    /// Creates an engine with an empty ledger and the given
    /// dispute-eligibility policy.
    pub fn with_policy(policy: DisputeEligibility) -> (engine: Engine)
        ensures
            engine@ == Map::<Tx, Transaction>::empty(),
            engine.spec_policy() == policy,
            engine.wf(),
    {
        Engine { ledger: HashMap::new(), policy }
    }

    /// Looks a transaction up in the ledger, failing with a missing-dispute
    /// error when no record exists under the id.
    pub fn get_transaction(&self, tx: Tx) -> (r: Result<&Transaction, Error>)
        ensures
            match r {
                Ok(past) => self@.contains_key(tx) && *past == self@[tx],
                Err(e) => !self@.contains_key(tx) && e == Error::Transaction(
                    TransactionError::MissingDispute(tx),
                ),
            },
    {
        match self.ledger.get(&tx) {
            Some(past) => Ok(past),
            None => Err(Error::Transaction(TransactionError::MissingDispute(tx))),
        }
    }

    /// Credits the account with the deposit's amount and, on success,
    /// records the deposit in the ledger.
    pub fn process_deposit(&mut self, account: &mut Account, transaction: Transaction) -> (r:
        Result<(), Error>)
        requires
            old(self).wf(),
            spec_validate(transaction) is Ok,
            transaction.variant is Deposit,
            !old(self)@.contains_key(transaction.tx),
        ensures
            final(self).wf(),
            final(self).spec_policy() == old(self).spec_policy(),
            final(self)@ == deposit_step(old(self)@, old(account)@, transaction).0,
            final(account)@ == deposit_step(old(self)@, old(account)@, transaction).1,
            r == deposit_step(old(self)@, old(account)@, transaction).2,
    {
        let amount = transaction.amount.unwrap();
        match account.credit(amount) {
            Ok(()) => {
                self.ledger.insert(transaction.tx, transaction);
                proof {
                    assert(self.wf()) by {
                        assert forall|tx: Tx| #[trigger] self@.contains_key(tx) implies {
                            &&& self@[tx].tx == tx
                            &&& (self@[tx].variant is Deposit || self@[tx].variant is Withdrawal)
                            &&& self@[tx].amount is Some
                            &&& self@[tx].amount->0@ > 0
                        } by {
                            if tx != transaction.tx {
                                assert(old(self)@.contains_key(tx));
                            }
                        }
                    }
                }
                Ok(())
            },
            Err(e) => Err(e),
        }
    }

    /// Debits the account with the withdrawal's amount and, on success,
    /// records the withdrawal in the ledger.
    pub fn process_withdrawal(&mut self, account: &mut Account, transaction: Transaction) -> (r:
        Result<(), Error>)
        requires
            old(self).wf(),
            spec_validate(transaction) is Ok,
            transaction.variant is Withdrawal,
            !old(self)@.contains_key(transaction.tx),
        ensures
            final(self).wf(),
            final(self).spec_policy() == old(self).spec_policy(),
            final(self)@ == withdrawal_step(old(self)@, old(account)@, transaction).0,
            final(account)@ == withdrawal_step(old(self)@, old(account)@, transaction).1,
            r == withdrawal_step(old(self)@, old(account)@, transaction).2,
    {
        let amount = transaction.amount.unwrap();
        match account.debit(amount) {
            Ok(()) => {
                self.ledger.insert(transaction.tx, transaction);
                proof {
                    assert(self.wf()) by {
                        assert forall|tx: Tx| #[trigger] self@.contains_key(tx) implies {
                            &&& self@[tx].tx == tx
                            &&& (self@[tx].variant is Deposit || self@[tx].variant is Withdrawal)
                            &&& self@[tx].amount is Some
                            &&& self@[tx].amount->0@ > 0
                        } by {
                            if tx != transaction.tx {
                                assert(old(self)@.contains_key(tx));
                            }
                        }
                    }
                }
                Ok(())
            },
            Err(e) => Err(e),
        }
    }

    /// Applies a dispute: finds the referenced record, checks its kind
    /// against the policy and its client against the dispute's, and opens
    /// the dispute on the account with the recorded amount.
    pub fn process_dispute(&mut self, account: &mut Account, transaction: Transaction) -> (r:
        Result<(), Error>)
        requires
            old(self).wf(),
            transaction.variant is Dispute,
        ensures
            final(self).wf(),
            final(self).spec_policy() == old(self).spec_policy(),
            final(self)@ == old(self)@,
            final(account)@ == dispute_ref_step(
                old(self)@,
                old(self).spec_policy(),
                old(account)@,
                transaction,
            ).0,
            r == dispute_ref_step(old(self)@, old(self).spec_policy(), old(account)@, transaction).1,
    {
        let past = match self.get_transaction(transaction.tx) {
            Ok(past) => *past,
            Err(e) => {
                return Err(e);
            },
        };

        let eligible = match self.policy {
            DisputeEligibility::WithdrawalsOnly => !matches!(past.variant, TxType::Deposit),
            DisputeEligibility::DepositsOnly => matches!(past.variant, TxType::Deposit),
        };
        if !eligible {
            return Err(
                Error::Transaction(TransactionError::OnlyDepositsCanBeDisputed(transaction.tx)),
            );
        }

        if past.client != transaction.client {
            return Err(
                Error::Transaction(
                    TransactionError::WrongClient(transaction.tx, past.client, transaction.client),
                ),
            );
        }

        account.dispute(past.amount.unwrap(), transaction.tx)
    }

    /// Applies a resolve: finds the referenced record, checks its client,
    /// and resolves the dispute open on the account under the referenced id.
    pub fn process_resolution(&mut self, account: &mut Account, transaction: Transaction) -> (r:
        Result<(), Error>)
        requires
            old(self).wf(),
            transaction.variant is Resolve,
        ensures
            final(self).wf(),
            final(self).spec_policy() == old(self).spec_policy(),
            final(self)@ == old(self)@,
            final(account)@ == resolve_ref_step(old(self)@, old(account)@, transaction).0,
            r == resolve_ref_step(old(self)@, old(account)@, transaction).1,
    {
        let past = match self.get_transaction(transaction.tx) {
            Ok(past) => *past,
            Err(e) => {
                return Err(e);
            },
        };

        if past.client != transaction.client {
            return Err(
                Error::Transaction(
                    TransactionError::WrongClient(transaction.tx, past.client, transaction.client),
                ),
            );
        }

        account.resolve(transaction.tx)
    }

    /// Applies a chargeback: finds the referenced record, checks its
    /// client, and charges back the dispute open on the account under the
    /// referenced id.
    pub fn process_chargeback(&mut self, account: &mut Account, transaction: Transaction) -> (r:
        Result<(), Error>)
        requires
            old(self).wf(),
            transaction.variant is Chargeback,
        ensures
            final(self).wf(),
            final(self).spec_policy() == old(self).spec_policy(),
            final(self)@ == old(self)@,
            final(account)@ == chargeback_ref_step(old(self)@, old(account)@, transaction).0,
            r == chargeback_ref_step(old(self)@, old(account)@, transaction).1,
    {
        let past = match self.get_transaction(transaction.tx) {
            Ok(past) => *past,
            Err(e) => {
                return Err(e);
            },
        };

        if past.client != transaction.client {
            return Err(
                Error::Transaction(
                    TransactionError::WrongClient(transaction.tx, past.client, transaction.client),
                ),
            );
        }

        account.chargeback(transaction.tx)
    }

    /// Processes one transaction against the given account: validates its
    /// shape, rejects a deposit or withdrawal reusing a recorded id, and
    /// dispatches on the kind — exactly as the processing step function
    /// says. A failure rejects this transaction alone; the caller goes on
    /// with the next one.
    pub fn process(&mut self, account: &mut Account, transaction: Transaction) -> (r: Result<
        (),
        Error,
    >)
        requires
            old(self).wf(),
        ensures
            final(self).wf(),
            final(self).spec_policy() == old(self).spec_policy(),
            final(self)@ == process_step(
                old(self)@,
                old(self).spec_policy(),
                old(account)@,
                transaction,
            ).0,
            final(account)@ == process_step(
                old(self)@,
                old(self).spec_policy(),
                old(account)@,
                transaction,
            ).1,
            r == process_step(old(self)@, old(self).spec_policy(), old(account)@, transaction).2,
    {
        if let Err(e) = transaction.is_valid() {
            return Err(Error::Transaction(e));
        }

        match transaction.variant {
            TxType::Deposit | TxType::Withdrawal => {
                if self.ledger.contains_key(&transaction.tx) {
                    return Err(
                        Error::Transaction(TransactionError::DuplicateFound(transaction.tx)),
                    );
                }
            },
            _ => {},
        }

        match transaction.variant {
            TxType::Deposit => self.process_deposit(account, transaction),
            TxType::Withdrawal => self.process_withdrawal(account, transaction),
            TxType::Dispute => self.process_dispute(account, transaction),
            TxType::Resolve => self.process_resolution(account, transaction),
            TxType::Chargeback => self.process_chargeback(account, transaction),
        }
    }

    /// Processes one transaction against the directory: looks the account
    /// of the transaction's client up — creating it, with all funds at
    /// zero, on first reference — and processes the transaction against it.
    pub fn process_record(&mut self, accounts: &mut Accounts, transaction: Transaction) -> (r:
        Result<(), Error>)
        requires
            old(self).wf(),
        ensures
            final(self).wf(),
            final(self).spec_policy() == old(self).spec_policy(),
            final(self)@ == process_step(
                old(self)@,
                old(self).spec_policy(),
                entry_model(old(accounts)@, transaction.client),
                transaction,
            ).0,
            final(accounts)@.contains_key(transaction.client),
            final(accounts)@[transaction.client]@ == process_step(
                old(self)@,
                old(self).spec_policy(),
                entry_model(old(accounts)@, transaction.client),
                transaction,
            ).1,
            final(accounts)@.remove(transaction.client) == old(accounts)@.remove(
                transaction.client,
            ),
            r == process_step(
                old(self)@,
                old(self).spec_policy(),
                entry_model(old(accounts)@, transaction.client),
                transaction,
            ).2,
    {
        let ghost dir = accounts@;
        let account = accounts.get_mut(transaction.client);
        let result = self.process(account, transaction);
        proof {
            assert(accounts@.remove(transaction.client) =~= dir.remove(transaction.client));
        }
        result
    }
}

} // verus!
