//! Per-client accounts and the directory that holds them.
//!
//! An account is a balance state machine over (available, held, total,
//! locked) together with its own index of open disputes. Every balance
//! operation is specified by a pure transition function on the account's
//! mathematical model: the executable method returns exactly the state and
//! result that the transition function names, for every input.

use vstd::prelude::*;
use std::collections::HashMap;
use crate::Client;
use crate::Tx;
use crate::amount::Amount;
use crate::error::AccountError;
use crate::error::Error;
use crate::error::TransactionError;

verus! {

broadcast use vstd::std_specs::hash::group_hash_axioms;

/// The mathematical model of an account: balances as unbounded integers
/// (each taken from a 64-bit count of ten-thousandths, so always in that
/// range), and the open disputes as a map from transaction id to the
/// disputed amount.
#[verifier::ext_equal]
pub ghost struct AccountModel {
    pub client: Client,
    pub available: int,
    pub held: int,
    pub total: int,
    pub locked: bool,
    pub disputes: Map<Tx, Amount>,
}

/// The model of a freshly created account: all balances zero, unlocked,
/// no open disputes.
pub open spec fn new_account_model(client: Client) -> AccountModel {
    AccountModel {
        client,
        available: 0,
        held: 0,
        total: 0,
        locked: false,
        disputes: Map::empty(),
    }
}

/// Whether a balance value fits the representable range of an `Amount`.
pub open spec fn in_range(v: int) -> bool {
    i64::MIN <= v <= i64::MAX
}

/// The consistency invariant of an account's balances: the total is the
/// sum of the available and held funds.
pub open spec fn balanced(a: AccountModel) -> bool {
    a.total == a.available + a.held
}

/// Recomputing the total after a mutation: sets `total = available + held`,
/// or fails with an overflow naming the client and leaves the account as
/// it stands.
pub open spec fn retotal_step(a: AccountModel) -> (AccountModel, Result<(), AccountError>) {
    if in_range(a.available + a.held) {
        (AccountModel { total: a.available + a.held, ..a }, Ok(()))
    } else {
        (a, Err(AccountError::Overflow(a.client)))
    }
}

/// Lifts an account-level failure into the general error type.
pub open spec fn wrap_account(r: Result<(), AccountError>) -> Result<(), Error> {
    match r {
        Ok(()) => Ok(()),
        Err(e) => Err(Error::Account(e)),
    }
}

/// The credit transition: adds `funds` to the available balance and
/// recomputes the total. Fails on a locked account or on overflow.
pub open spec fn credit_step(a: AccountModel, funds: Amount) -> (AccountModel, Result<(), Error>) {
    if a.locked {
        (a, Err(Error::Account(AccountError::AccountLocked(a.client))))
    } else if !in_range(a.available + funds@) {
        (a, Err(Error::Account(AccountError::Overflow(a.client))))
    } else {
        let step = retotal_step(AccountModel { available: a.available + funds@, ..a });
        (step.0, wrap_account(step.1))
    }
}

/// The debit transition: removes `funds` from the available balance and
/// recomputes the total. Fails on a locked account, on fewer available
/// funds than asked for, or on a balance leaving the representable range.
pub open spec fn debit_step(a: AccountModel, funds: Amount) -> (AccountModel, Result<(), Error>) {
    if a.locked {
        (a, Err(Error::Account(AccountError::AccountLocked(a.client))))
    } else if a.available < funds@ {
        (a, Err(Error::Account(AccountError::InsufficientFunds(a.client))))
    } else if !in_range(a.available - funds@) {
        (a, Err(Error::Account(AccountError::Underflow(a.client))))
    } else {
        let step = retotal_step(AccountModel { available: a.available - funds@, ..a });
        (step.0, wrap_account(step.1))
    }
}

/// The dispute transition: moves `funds` from available to held, records
/// the open dispute under `tx`, and recomputes the total. Fails on a locked
/// account, a dispute already open for `tx`, fewer available funds than
/// disputed, or a balance leaving the representable range.
pub open spec fn dispute_step(a: AccountModel, funds: Amount, tx: Tx) -> (
    AccountModel,
    Result<(), Error>,
) {
    if a.locked {
        (a, Err(Error::Account(AccountError::AccountLocked(a.client))))
    } else if a.disputes.contains_key(tx) {
        (a, Err(Error::Transaction(TransactionError::ExistingDispute(tx))))
    } else if a.available < funds@ {
        (a, Err(Error::Account(AccountError::InsufficientFunds(a.client))))
    } else if !in_range(a.available - funds@) {
        (a, Err(Error::Account(AccountError::Underflow(a.client))))
    } else {
        let b = AccountModel { available: a.available - funds@, ..a };
        if !in_range(b.held + funds@) {
            (b, Err(Error::Account(AccountError::Overflow(a.client))))
        } else {
            let c = AccountModel {
                held: b.held + funds@,
                disputes: b.disputes.insert(tx, funds),
                ..b
            };
            let step = retotal_step(c);
            (step.0, wrap_account(step.1))
        }
    }
}

/// The resolve transition: moves the disputed amount recorded under `tx`
/// from held back to available, recomputes the total, and closes the
/// dispute. Fails on a locked account, on no open dispute for `tx`, or on
/// a balance leaving the representable range; the dispute stays open on
/// any failure.
pub open spec fn resolve_step(a: AccountModel, tx: Tx) -> (AccountModel, Result<(), Error>) {
    if a.locked {
        (a, Err(Error::Account(AccountError::AccountLocked(a.client))))
    } else if !a.disputes.contains_key(tx) {
        (a, Err(Error::Transaction(TransactionError::MissingDispute(tx))))
    } else {
        let amount = a.disputes[tx];
        if !in_range(a.held - amount@) {
            (a, Err(Error::Account(AccountError::Underflow(a.client))))
        } else {
            let b = AccountModel { held: a.held - amount@, ..a };
            if !in_range(b.available + amount@) {
                (b, Err(Error::Account(AccountError::Overflow(a.client))))
            } else {
                let c = AccountModel { available: b.available + amount@, ..b };
                let step = retotal_step(c);
                if step.1 is Ok {
                    (AccountModel { disputes: step.0.disputes.remove(tx), ..step.0 }, Ok(()))
                } else {
                    (step.0, wrap_account(step.1))
                }
            }
        }
    }
}

/// The chargeback transition: withdraws the disputed amount recorded under
/// `tx` from the held funds, freezes the account, and closes the dispute.
/// It is the one operation not gated by the lock, since its purpose is to
/// impose it; the available and total balances are left as they stand.
/// Fails on no open dispute for `tx` or on the held balance leaving the
/// representable range.
pub open spec fn chargeback_step(a: AccountModel, tx: Tx) -> (AccountModel, Result<(), Error>) {
    if !a.disputes.contains_key(tx) {
        (a, Err(Error::Transaction(TransactionError::MissingDispute(tx))))
    } else {
        let amount = a.disputes[tx];
        if !in_range(a.held - amount@) {
            (a, Err(Error::Account(AccountError::Underflow(a.client))))
        } else {
            (
                AccountModel {
                    held: a.held - amount@,
                    locked: true,
                    disputes: a.disputes.remove(tx),
                    ..a
                },
                Ok(()),
            )
        }
    }
}

/// One client's account: its balances, its lock, and its open disputes.
#[derive(Debug)]
pub struct Account {
    /// The client this account belongs to.
    pub client: Client,
    /// The funds free to withdraw or dispute.
    pub available: Amount,
    /// The funds earmarked by open disputes.
    pub held: Amount,
    /// The sum of available and held funds, recomputed after every mutation.
    pub total: Amount,
    /// Whether the account is frozen by a chargeback.
    pub locked: bool,
    /// The open disputes: transaction id to disputed amount, holding exactly
    /// the disputes opened and not yet resolved or charged back.
    pub disputed_transactions: HashMap<Tx, Amount>,
}

impl View for Account {
    type V = AccountModel;

    open spec fn view(&self) -> AccountModel {
        AccountModel {
            client: self.client,
            available: self.available@,
            held: self.held@,
            total: self.total@,
            locked: self.locked,
            disputes: self.disputed_transactions@,
        }
    }
}

impl Account {
    /// Creates a new account for the given client, with all funds at zero.
    pub fn new(client: Client) -> (account: Account)
        ensures
            account@ == new_account_model(client),
    {
        let account = Account {
            client,
            available: Amount::zero(),
            held: Amount::zero(),
            total: Amount::zero(),
            locked: false,
            disputed_transactions: HashMap::new(),
        };
        proof {
            assert(account@ =~= new_account_model(client));
        }
        account
    }

    /// Checks the lock: fails with an account-locked error when the account
    /// is frozen.
    pub fn locked(&self) -> (r: Result<(), Error>)
        ensures
            r == if self.locked {
                Err::<(), Error>(Error::Account(AccountError::AccountLocked(self.client)))
            } else {
                Ok::<(), Error>(())
            },
    {
        if self.locked {
            Err(Error::Account(AccountError::AccountLocked(self.client)))
        } else {
            Ok(())
        }
    }

    /// Looks up the amount recorded for an open dispute, failing with a
    /// missing-dispute error when none is open for `tx`.
    pub fn get_disputed(&self, tx: Tx) -> (r: Result<Amount, Error>)
        ensures
            r == if self@.disputes.contains_key(tx) {
                Ok::<Amount, Error>(self@.disputes[tx])
            } else {
                Err::<Amount, Error>(Error::Transaction(TransactionError::MissingDispute(tx)))
            },
    {
        match self.disputed_transactions.get(&tx) {
            Some(amount) => Ok(*amount),
            None => Err(Error::Transaction(TransactionError::MissingDispute(tx))),
        }
    }

    /// Recomputes the `total` field as the sum of available and held funds.
    pub fn update_total(&mut self) -> (r: Result<(), AccountError>)
        ensures
            final(self)@ == retotal_step(old(self)@).0,
            r == retotal_step(old(self)@).1,
    {
        match self.available.checked_add(self.held) {
            Some(value) => {
                self.total = value;
                Ok(())
            },
            None => Err(AccountError::Overflow(self.client)),
        }
    }

    /// Adds funds to the account, exactly as the credit transition says.
    pub fn credit(&mut self, funds: Amount) -> (r: Result<(), Error>)
        ensures
            final(self)@ == credit_step(old(self)@, funds).0,
            r == credit_step(old(self)@, funds).1,
    {
        if let Err(e) = self.locked() {
            return Err(e);
        }

        match self.available.checked_add(funds) {
            Some(value) => {
                self.available = value;
                match self.update_total() {
                    Ok(()) => Ok(()),
                    Err(e) => Err(Error::Account(e)),
                }
            },
            None => Err(Error::Account(AccountError::Overflow(self.client))),
        }
    }

    /// Removes funds from the account, exactly as the debit transition says.
    pub fn debit(&mut self, funds: Amount) -> (r: Result<(), Error>)
        ensures
            final(self)@ == debit_step(old(self)@, funds).0,
            r == debit_step(old(self)@, funds).1,
    {
        if let Err(e) = self.locked() {
            return Err(e);
        }

        if self.available.raw < funds.raw {
            return Err(Error::Account(AccountError::InsufficientFunds(self.client)));
        }

        match self.available.checked_sub(funds) {
            Some(value) => {
                self.available = value;
                match self.update_total() {
                    Ok(()) => Ok(()),
                    Err(e) => Err(Error::Account(e)),
                }
            },
            None => Err(Error::Account(AccountError::Underflow(self.client))),
        }
    }

    /// Opens a dispute for `tx`, exactly as the dispute transition says:
    /// the disputed funds move from available to held and the dispute is
    /// recorded.
    pub fn dispute(&mut self, funds: Amount, tx: Tx) -> (r: Result<(), Error>)
        ensures
            final(self)@ == dispute_step(old(self)@, funds, tx).0,
            r == dispute_step(old(self)@, funds, tx).1,
    {
        if let Err(e) = self.locked() {
            return Err(e);
        }

        if self.disputed_transactions.contains_key(&tx) {
            return Err(Error::Transaction(TransactionError::ExistingDispute(tx)));
        }

        if self.available.raw < funds.raw {
            return Err(Error::Account(AccountError::InsufficientFunds(self.client)));
        }

        match self.available.checked_sub(funds) {
            Some(value) => {
                self.available = value;
            },
            None => {
                return Err(Error::Account(AccountError::Underflow(self.client)));
            },
        }

        match self.held.checked_add(funds) {
            Some(value) => {
                self.held = value;
            },
            None => {
                return Err(Error::Account(AccountError::Overflow(self.client)));
            },
        }

        self.disputed_transactions.insert(tx, funds);

        match self.update_total() {
            Ok(()) => Ok(()),
            Err(e) => Err(Error::Account(e)),
        }
    }

    /// Resolves the dispute open for `tx`, exactly as the resolve
    /// transition says: the disputed funds move from held back to available
    /// and the dispute is closed.
    pub fn resolve(&mut self, tx: Tx) -> (r: Result<(), Error>)
        ensures
            final(self)@ == resolve_step(old(self)@, tx).0,
            r == resolve_step(old(self)@, tx).1,
    {
        if let Err(e) = self.locked() {
            return Err(e);
        }

        let amount = match self.get_disputed(tx) {
            Ok(amount) => amount,
            Err(e) => {
                return Err(e);
            },
        };

        match self.held.checked_sub(amount) {
            Some(value) => {
                self.held = value;
            },
            None => {
                return Err(Error::Account(AccountError::Underflow(self.client)));
            },
        }

        match self.available.checked_add(amount) {
            Some(value) => {
                self.available = value;
            },
            None => {
                return Err(Error::Account(AccountError::Overflow(self.client)));
            },
        }

        match self.update_total() {
            Ok(()) => {},
            Err(e) => {
                return Err(Error::Account(e));
            },
        }

        self.disputed_transactions.remove(&tx);

        Ok(())
    }

    /// Charges back the dispute open for `tx`, exactly as the chargeback
    /// transition says: the disputed funds leave the held balance, the
    /// dispute is closed, and the account is frozen.
    pub fn chargeback(&mut self, tx: Tx) -> (r: Result<(), Error>)
        ensures
            final(self)@ == chargeback_step(old(self)@, tx).0,
            r == chargeback_step(old(self)@, tx).1,
    {
        let amount = match self.get_disputed(tx) {
            Ok(amount) => amount,
            Err(e) => {
                return Err(e);
            },
        };

        match self.held.checked_sub(amount) {
            Some(value) => {
                self.held = value;
            },
            None => {
                return Err(Error::Account(AccountError::Underflow(self.client)));
            },
        }

        self.locked = true;

        self.disputed_transactions.remove(&tx);

        Ok(())
    }
}

/// Relies on std's `HashMap::get_mut`: returns a mutable reference to the
/// value stored for the key, which is present by the precondition.
#[verifier::external_body]
fn map_get_mut<'a>(m: &'a mut HashMap<Client, Account>, client: Client) -> (account:
    &'a mut Account)
    requires
        old(m)@.contains_key(client),
    ensures
        *account == old(m)@[client],
        final(m)@ == old(m)@.insert(client, *final(account)),
{
    m.get_mut(&client).unwrap()
}

/// The directory of accounts, keyed by client id; an account is created
/// lazily, with all funds at zero, the first time its client is referenced.
#[derive(Debug)]
pub struct Accounts {
    directory: HashMap<Client, Account>,
}

impl View for Accounts {
    type V = Map<Client, Account>;

    closed spec fn view(&self) -> Map<Client, Account> {
        self.directory@
    }
}

impl Accounts {
    /// Creates an empty directory.
    pub fn new() -> (accounts: Accounts)
        ensures
            accounts@ == Map::<Client, Account>::empty(),
    {
        Accounts { directory: HashMap::new() }
    }

    /// Hands the directory's map out, consuming the directory.
    pub fn inner(self) -> (m: HashMap<Client, Account>)
        ensures
            m@ == self@,
    {
        self.directory
    }

    /// Makes sure an account exists for the client, creating a fresh one
    /// when none does; an existing account is left untouched.
    pub fn ensure_exists(&mut self, client: Client)
        ensures
            final(self)@.contains_key(client),
            old(self)@.contains_key(client) ==> final(self)@ == old(self)@,
            !old(self)@.contains_key(client) ==> final(self)@ == old(self)@.insert(
                client,
                final(self)@[client],
            ) && final(self)@[client]@ == new_account_model(client),
    {
        if self.directory.contains_key(&client) {
            return;
        }
        self.directory.insert(client, Account::new(client));
    }

    /// Gets a mutable reference to the client's account, creating the
    /// account first when none exists.
    pub fn get_mut(&mut self, client: Client) -> (account: &mut Account)
        ensures
            old(self)@.contains_key(client) ==> *account == old(self)@[client],
            !old(self)@.contains_key(client) ==> (*account)@ == new_account_model(client),
            final(self)@ == old(self)@.insert(client, *final(account)),
    {
        self.ensure_exists(client);
        let ghost mid = self@;
        let account = map_get_mut(&mut self.directory, client);
        proof {
            assert(mid.insert(client, *final(account)) =~= old(self)@.insert(
                client,
                *final(account),
            ));
        }
        account
    }
}

} // verus!
