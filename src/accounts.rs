use vstd::prelude::*;

use crate::error::Error;
use crate::storage::KVStore;
use crate::types::{Account, ClientID, Transaction, TransactionID, TxType};

verus! {

/// The account that a transaction for `client` starts from: the stored one,
/// or a fresh one when the client has none yet.
pub open spec fn account_of(accounts: Map<ClientID, Account>, client: ClientID) -> Account {
    if accounts.contains_key(client) {
        accounts[client]
    } else {
        Account::fresh(client)
    }
}

/// `amount`, but no more than `limit`.
pub open spec fn clamp(amount: u64, limit: u64) -> u64 {
    if amount > limit {
        limit
    } else {
        amount
    }
}

/// What a dispute, resolve or chargeback of kind `kind` does to `acct` when
/// it refers to the stored transaction `source`.
pub open spec fn apply_reference(acct: Account, kind: TxType, source: Transaction) -> Account {
    match source.amount {
        None => acct,
        Some(a) => match (kind, source.type_) {
            (TxType::Dispute, TxType::Deposit) => {
                let h = clamp(a, acct.available);
                Account {
                    available: (acct.available - h) as u64,
                    held: (acct.held + h) as u64,
                    ..acct
                }
            },
            (TxType::Resolve, TxType::Deposit) => {
                let r = clamp(a, acct.held);
                Account {
                    available: (acct.available + r) as u64,
                    held: (acct.held - r) as u64,
                    ..acct
                }
            },
            (TxType::Chargeback, TxType::Deposit) => {
                let t = clamp(a, acct.held);
                Account {
                    held: (acct.held - t) as u64,
                    total: (acct.total - t) as u64,
                    locked: true,
                    ..acct
                }
            },
            (TxType::Chargeback, TxType::Withdrawal) => Account {
                available: (acct.available + a) as u64,
                total: (acct.total + a) as u64,
                ..acct
            },
            _ => acct,
        },
    }
}

/// The account after `tx`, or the error that refuses it, given the stored
/// deposits and withdrawals in `ledger`.
pub open spec fn apply(acct: Account, tx: Transaction, ledger: Map<TransactionID, Transaction>) -> Result<
    Account,
    Error,
> {
    if acct.locked {
        Err(Error::AccountLocked)
    } else {
        match tx.type_ {
            TxType::Deposit => match tx.amount {
                Some(a) => Ok(
                    Account {
                        available: (acct.available + a) as u64,
                        total: (acct.total + a) as u64,
                        ..acct
                    },
                ),
                None => Ok(acct),
            },
            TxType::Withdrawal => match tx.amount {
                Some(a) => if acct.available < a {
                    Err(Error::InsufficientFunds)
                } else {
                    Ok(
                        Account {
                            available: (acct.available - a) as u64,
                            total: (acct.total - a) as u64,
                            ..acct
                        },
                    )
                },
                None => Ok(acct),
            },
            _ => if ledger.contains_key(tx.tx) {
                Ok(apply_reference(acct, tx.type_, ledger[tx.tx]))
            } else {
                Err(Error::NotFound)
            },
        }
    }
}

/// The only transactions that add to a balance are a deposit and the
/// chargeback of a withdrawal; this holds when what they add still fits
/// in a `u64` total.
pub open spec fn within_range(acct: Account, tx: Transaction, ledger: Map<TransactionID, Transaction>) -> bool {
    match tx.type_ {
        TxType::Deposit => match tx.amount {
            Some(a) => acct.total + a <= u64::MAX,
            None => true,
        },
        TxType::Chargeback => ledger.contains_key(tx.tx) ==> match ledger[tx.tx] {
            Transaction { type_: TxType::Withdrawal, amount: Some(a), .. } => acct.total + a
                <= u64::MAX,
            _ => true,
        },
        _ => true,
    }
}

/// Applies transactions to accounts, one at a time.
///
/// `accounts` holds each client's account under its id; `transactions`
/// holds the deposits and withdrawals that later disputes refer to.
pub struct Manager<A, T> where
    A: KVStore<Key = ClientID, Value = Account>,
    T: KVStore<Key = TransactionID, Value = Transaction>,
 {
    pub accounts: A,
    pub transactions: T,
}

impl<A, T> Manager<A, T> where
    A: KVStore<Key = ClientID, Value = Account>,
    T: KVStore<Key = TransactionID, Value = Transaction>,
 {
    /// Both stores are usable, and every stored account is balanced and
    /// kept under its own id.
    pub open spec fn well_formed(&self) -> bool {
        &&& self.accounts.well_formed()
        &&& self.transactions.well_formed()
        &&& forall|c: ClientID| #[trigger]
            self.accounts.view().contains_key(c) ==> self.accounts.view()[c].balanced()
                && self.accounts.view()[c].id == c
    }

    /// The account that a transaction for `client` starts from.
    pub open spec fn start_of(&self, client: ClientID) -> Account {
        account_of(self.accounts.view(), client)
    }

    /// What `tx` would make of its client's account in the current state.
    pub open spec fn outcome(&self, tx: Transaction) -> Result<Account, Error> {
        apply(self.start_of(tx.client), tx, self.transactions.view())
    }

    pub fn new(account_store: A, tx_store: T) -> (r: Self)
        ensures
            r.accounts == account_store,
            r.transactions == tx_store,
    {
        Manager { accounts: account_store, transactions: tx_store }
    }

    /// Loads the account of `client`, creating and storing a fresh one when
    /// there is none.
    fn get_account(&mut self, client: ClientID) -> (r: Result<Account, Error>)
        requires
            old(self).well_formed(),
        ensures
            final(self).well_formed(),
            final(self).transactions == old(self).transactions,
            final(self).accounts.infallible() == old(self).accounts.infallible(),
            old(self).accounts.infallible() ==> r is Ok,
            r is Ok ==> r == Ok::<Account, Error>(account_of(old(self).accounts.view(), client)),
            final(self).accounts.view() == old(self).accounts.view()
                || final(self).accounts.view() == old(self).accounts.view().insert(
                client,
                account_of(old(self).accounts.view(), client),
            ),
            r is Ok ==> final(self).accounts.view() == old(self).accounts.view().insert(
                client,
                account_of(old(self).accounts.view(), client),
            ),
    {
        match self.accounts.get(client) {
            Ok(account) => {
                proof {
                    assert(self.accounts.view().insert(client, *account) =~= self.accounts.view());
                }
                Ok(*account)
            },
            Err(_) => {
                let account = Account::new(client);
                match self.accounts.set(client, account) {
                    Ok(()) => {},
                    Err(e) => {
                        return Err(e);
                    },
                }
                match self.accounts.get(client) {
                    Ok(account) => Ok(*account),
                    Err(e) => Err(e),
                }
            },
        }
    }
    /// Applies one transaction to its client's account.
    ///
    /// The account is created (all zero, unlocked) and stored on first
    /// reference, even when the transaction is then refused. A refused
    /// transaction changes no balance; an accepted one replaces the account
    /// with what `apply` makes of it. The stored transactions are only read.
    pub fn process_transaction(&mut self, tx: Transaction) -> (r: Result<(), Error>)
        requires
            old(self).well_formed(),
            within_range(old(self).start_of(tx.client), tx, old(self).transactions.view()),
        ensures
            final(self).well_formed(),
            final(self).transactions == old(self).transactions,
            final(self).accounts.infallible() == old(self).accounts.infallible(),
            match r {
                Ok(()) => match old(self).outcome(tx) {
                    Ok(a) => final(self).accounts.view() == old(self).accounts.view().insert(
                        tx.client,
                        a,
                    ),
                    Err(_) => false,
                },
                Err(_) => final(self).accounts.view() == old(self).accounts.view()
                    || final(self).accounts.view() == old(self).accounts.view().insert(
                    tx.client,
                    old(self).start_of(tx.client),
                ),
            },
            old(self).accounts.infallible() ==> match old(self).outcome(tx) {
                Ok(_) => r is Ok,
                Err(e) => r == Err::<(), Error>(e) && final(self).accounts.view()
                    == old(self).accounts.view().insert(tx.client, old(self).start_of(tx.client)),
            },
    {
        let mut account = match self.get_account(tx.client) {
            Ok(a) => a,
            Err(e) => {
                return Err(e);
            },
        };
        if account.locked {
            return Err(Error::AccountLocked);
        }
        match tx.type_ {
            // a deposit adds to the balance
            TxType::Deposit => {
                if let Some(amount) = tx.amount {
                    account.available = account.available + amount;
                    account.total = account.total + amount;
                }
            },
            // a withdrawal takes from the balance, never more than is available
            TxType::Withdrawal => {
                if let Some(amount) = tx.amount {
                    if account.available < amount {
                        return Err(Error::InsufficientFunds);
                    }
                    account.available = account.available - amount;
                    account.total = account.total - amount;
                }
            },
            // a disputed deposit is held back, as far as it is still available
            TxType::Dispute => {
                let source_tx = match self.transactions.get(tx.tx) {
                    Ok(s) => *s,
                    Err(e) => {
                        return Err(e);
                    },
                };
                if let Some(amount) = source_tx.amount {
                    if source_tx.type_ == TxType::Deposit {
                        let mut amount = amount;
                        if amount > account.available {
                            amount = account.available;
                        }
                        account.held = account.held + amount;
                        account.available = account.available - amount;
                    }
                }
            },
            // a resolved deposit is released again, as far as it is still held
            TxType::Resolve => {
                let source_tx = match self.transactions.get(tx.tx) {
                    Ok(s) => *s,
                    Err(e) => {
                        return Err(e);
                    },
                };
                if let Some(amount) = source_tx.amount {
                    if source_tx.type_ == TxType::Deposit {
                        let mut amount = amount;
                        if amount > account.held {
                            amount = account.held;
                        }
                        account.held = account.held - amount;
                        account.available = account.available + amount;
                    }
                }
            },
            // a charged-back deposit leaves the account, which is locked;
            // a charged-back withdrawal is paid back, and the account stays open
            TxType::Chargeback => {
                let source_tx = match self.transactions.get(tx.tx) {
                    Ok(s) => *s,
                    Err(e) => {
                        return Err(e);
                    },
                };
                if let Some(amount) = source_tx.amount {
                    if source_tx.type_ == TxType::Deposit {
                        let mut amount = amount;
                        if amount > account.held {
                            amount = account.held;
                        }
                        account.held = account.held - amount;
                        account.total = account.total - amount;
                        account.locked = true;
                    } else if source_tx.type_ == TxType::Withdrawal {
                        account.available = account.available + amount;
                        account.total = account.total + amount;
                    }
                }
            },
        }
        self.set_account(account)
    }

    /// Stores `account` under its own id.
    fn set_account(&mut self, account: Account) -> (r: Result<(), Error>)
        requires
            old(self).well_formed(),
            account.balanced(),
        ensures
            final(self).well_formed(),
            final(self).transactions == old(self).transactions,
            final(self).accounts.infallible() == old(self).accounts.infallible(),
            old(self).accounts.infallible() ==> r is Ok,
            r is Ok ==> final(self).accounts.view() == old(self).accounts.view().insert(
                account.id,
                account,
            ),
            r is Err ==> final(self).accounts.view() == old(self).accounts.view(),
    {
        self.accounts.set(account.id, account)
    }
    /// Keeps a deposit or a withdrawal in the transaction store, so that a
    /// later dispute can find it. Other transactions are not kept.
    pub fn record_transaction(&mut self, tx: &Transaction) -> (r: Result<(), Error>)
        requires
            old(self).well_formed(),
        ensures
            final(self).well_formed(),
            final(self).accounts == old(self).accounts,
            final(self).transactions.infallible() == old(self).transactions.infallible(),
            old(self).transactions.infallible() ==> r is Ok,
            (tx.type_ == TxType::Deposit || tx.type_ == TxType::Withdrawal) && r is Ok
                ==> final(self).transactions.view() == old(self).transactions.view().insert(
                tx.tx,
                *tx,
            ),
            !(tx.type_ == TxType::Deposit || tx.type_ == TxType::Withdrawal) || r is Err
                ==> final(self).transactions.view() == old(self).transactions.view(),
    {
        if tx.type_ == TxType::Deposit || tx.type_ == TxType::Withdrawal {
            self.transactions.set(tx.tx, *tx)
        } else {
            Ok(())
        }
    }

    /// Whether what `tx` would add to its client's total still fits in a
    /// `u64`; `process_transaction` asks this of its caller.
    pub fn fits(&self, tx: &Transaction) -> (r: bool)
        requires
            self.well_formed(),
        ensures
            r == within_range(self.start_of(tx.client), *tx, self.transactions.view()),
    {
        let total = match self.accounts.get(tx.client) {
            Ok(account) => account.total,
            Err(_) => 0,
        };
        match tx.type_ {
            TxType::Deposit => match tx.amount {
                Some(a) => a <= u64::MAX - total,
                None => true,
            },
            TxType::Chargeback => match self.transactions.get(tx.tx) {
                Ok(source_tx) => match (source_tx.type_, source_tx.amount) {
                    (TxType::Withdrawal, Some(a)) => a <= u64::MAX - total,
                    _ => true,
                },
                Err(_) => true,
            },
            _ => true,
        }
    }

    /// A locked account refuses every transaction, whatever its kind, and
    /// processing it leaves the account store as it was.
    pub proof fn lemma_locked_account_is_frozen(&self, tx: Transaction)
        requires
            self.well_formed(),
            self.accounts.view().contains_key(tx.client),
            self.accounts.view()[tx.client].locked,
        ensures
            self.outcome(tx) == Err::<Account, Error>(Error::AccountLocked),
            self.accounts.view().insert(tx.client, self.start_of(tx.client)) == self.accounts.view(),
    {
        lemma_locked_refuses(self.start_of(tx.client), tx, self.transactions.view());
        assert(self.accounts.view().insert(tx.client, self.start_of(tx.client)) =~= self.accounts.view());
    }
}

/// Every accepted transaction keeps an account balanced: the total stays
/// the available balance plus the held one, and the account keeps its id.
pub proof fn lemma_apply_keeps_balance(acct: Account, tx: Transaction, ledger: Map<TransactionID, Transaction>)
    requires
        acct.balanced(),
        within_range(acct, tx, ledger),
    ensures
        apply(acct, tx, ledger) matches Ok(a) ==> a.balanced() && a.id == acct.id,
{
}

/// A dispute of a deposit larger than the available balance holds back
/// exactly what is available: the available balance comes to zero, never
/// below, and the total does not change.
pub proof fn lemma_dispute_clamps_to_available(
    acct: Account,
    tx: Transaction,
    ledger: Map<TransactionID, Transaction>,
)
    requires
        acct.balanced(),
        !acct.locked,
        tx.type_ == TxType::Dispute,
        ledger.contains_key(tx.tx),
        ledger[tx.tx].type_ == TxType::Deposit,
        ledger[tx.tx].amount matches Some(a) && a >= acct.available,
    ensures
        apply(acct, tx, ledger) matches Ok(r) && r.available == 0 && r.held == acct.held
            + acct.available && r.total == acct.total,
{
}

/// With nothing held, a resolve or a chargeback of a deposit moves no money:
/// what it releases or takes is clamped to the held balance, zero.
pub proof fn lemma_release_without_dispute_is_noop(
    acct: Account,
    tx: Transaction,
    ledger: Map<TransactionID, Transaction>,
)
    requires
        acct.held == 0,
        tx.type_ == TxType::Resolve || tx.type_ == TxType::Chargeback,
        ledger.contains_key(tx.tx),
        ledger[tx.tx].type_ == TxType::Deposit,
    ensures
        !acct.locked ==> (apply(acct, tx, ledger) matches Ok(a) && a.same_balances(acct)),
        acct.locked ==> apply(acct, tx, ledger) == Err::<Account, Error>(Error::AccountLocked),
{
}

/// A locked account refuses deposits, withdrawals, disputes, resolves and
/// chargebacks alike.
pub proof fn lemma_locked_refuses(acct: Account, tx: Transaction, ledger: Map<TransactionID, Transaction>)
    requires
        acct.locked,
    ensures
        apply(acct, tx, ledger) == Err::<Account, Error>(Error::AccountLocked),
{
}

} // verus!
