//! The general laws of the transaction state machine, stated and proved
//! over the step functions that the executable contracts name. Each law
//! holds for every input its hypotheses allow, not just for chosen values.

use vstd::prelude::*;
use crate::accounts::AccountModel;
use crate::accounts::balanced;
use crate::accounts::credit_step;
use crate::accounts::debit_step;
use crate::accounts::dispute_step;
use crate::accounts::resolve_step;
use crate::amount::Amount;
use crate::engine::DisputeEligibility;
use crate::engine::process_step;
use crate::error::Error;
use crate::error::TransactionError;
use crate::transactions::Transaction;
use crate::transactions::spec_validate;
use crate::Tx;

verus! {

/// Balance consistency, per operation: a successful credit leaves the
/// account with `total == available + held`, whatever held before.
pub proof fn lemma_credit_balanced(a: AccountModel, funds: Amount)
    requires
        credit_step(a, funds).1 is Ok,
    ensures
        balanced(credit_step(a, funds).0),
{
}

/// Balance consistency, per operation: a successful debit leaves the
/// account with `total == available + held`, whatever held before.
pub proof fn lemma_debit_balanced(a: AccountModel, funds: Amount)
    requires
        debit_step(a, funds).1 is Ok,
    ensures
        balanced(debit_step(a, funds).0),
{
}

/// Balance consistency, per operation: a successful dispute leaves the
/// account with `total == available + held`, whatever held before.
pub proof fn lemma_dispute_balanced(a: AccountModel, funds: Amount, tx: Tx)
    requires
        dispute_step(a, funds, tx).1 is Ok,
    ensures
        balanced(dispute_step(a, funds, tx).0),
{
}

/// Balance consistency, per operation: a successful resolve leaves the
/// account with `total == available + held`, whatever held before.
pub proof fn lemma_resolve_balanced(a: AccountModel, tx: Tx)
    requires
        resolve_step(a, tx).1 is Ok,
    ensures
        balanced(resolve_step(a, tx).0),
{
}

/// Balance consistency at the engine: every successfully processed
/// transaction other than a chargeback leaves the touched account with
/// `total == available + held` exactly. A chargeback is the deliberate
/// exception: it withdraws the held funds without recomputing the total.
pub proof fn lemma_process_keeps_balance(
    ledger: Map<Tx, Transaction>,
    policy: DisputeEligibility,
    a: AccountModel,
    t: Transaction,
)
    requires
        process_step(ledger, policy, a, t).2 is Ok,
        !(t.variant is Chargeback),
    ensures
        balanced(process_step(ledger, policy, a, t).1),
{
}

/// Monotonicity of the lock: once an account is locked, no processed
/// transaction — of any kind, accepted or rejected — unlocks it.
pub proof fn lemma_process_locked_monotonic(
    ledger: Map<Tx, Transaction>,
    policy: DisputeEligibility,
    a: AccountModel,
    t: Transaction,
)
    requires
        a.locked,
    ensures
        process_step(ledger, policy, a, t).1.locked,
{
}

/// Idempotence of rejection: a deposit or withdrawal whose id the ledger
/// already records is rejected and changes neither the ledger nor the
/// account; when its shape is valid, the rejection is duplicate-found.
pub proof fn lemma_replay_rejected(
    ledger: Map<Tx, Transaction>,
    policy: DisputeEligibility,
    a: AccountModel,
    t: Transaction,
)
    requires
        ledger.contains_key(t.tx),
        t.variant is Deposit || t.variant is Withdrawal,
    ensures
        process_step(ledger, policy, a, t).0 == ledger,
        process_step(ledger, policy, a, t).1 == a,
        process_step(ledger, policy, a, t).2 is Err,
        spec_validate(t) is Ok ==> process_step(ledger, policy, a, t).2 == Err::<(), Error>(
            Error::Transaction(TransactionError::DuplicateFound(t.tx)),
        ),
{
}

/// Round trip: depositing an amount and then immediately withdrawing the
/// same amount, under fresh transaction ids, returns an account that held
/// zero funds to `available == held == total == 0`; both transactions are
/// accepted.
pub proof fn lemma_deposit_withdraw_round_trip(
    ledger: Map<Tx, Transaction>,
    policy: DisputeEligibility,
    a: AccountModel,
    deposit: Transaction,
    withdrawal: Transaction,
)
    requires
        a.available == 0,
        a.held == 0,
        a.total == 0,
        !a.locked,
        deposit.variant is Deposit,
        withdrawal.variant is Withdrawal,
        deposit.amount is Some,
        deposit.amount->0@ > 0,
        withdrawal.amount == deposit.amount,
        !ledger.contains_key(deposit.tx),
        !ledger.contains_key(withdrawal.tx),
        withdrawal.tx != deposit.tx,
    ensures
        ({
            let first = process_step(ledger, policy, a, deposit);
            let second = process_step(first.0, policy, first.1, withdrawal);
            &&& first.2 is Ok
            &&& second.2 is Ok
            &&& second.1.available == 0
            &&& second.1.held == 0
            &&& second.1.total == 0
        }),
{
}

} // verus!
