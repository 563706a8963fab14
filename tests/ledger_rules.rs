use ledger::accounts::Manager;
use ledger::error::Error;
use ledger::storage::{InMemoryKVStore, KVStore};
use ledger::types::{Account, ClientID, Transaction, TransactionID, TxType};

type Mgr = Manager<InMemoryKVStore<ClientID, Account>, InMemoryKVStore<TransactionID, Transaction>>;

fn fresh_manager() -> Mgr {
    let accounts = InMemoryKVStore::<ClientID, Account>::new().unwrap();
    let transactions = InMemoryKVStore::<TransactionID, Transaction>::new().unwrap();
    Manager::new(accounts, transactions)
}

fn tx(type_: TxType, client: ClientID, id: TransactionID, amount: Option<u64>) -> Transaction {
    Transaction { type_, client, tx: id, amount }
}

/// Records the transaction where the pipeline would, then applies it.
fn submit(mgr: &mut Mgr, t: Transaction) -> Result<(), Error> {
    mgr.record_transaction(&t)?;
    assert!(mgr.fits(&t));
    mgr.process_transaction(t)
}

fn balances(mgr: &Mgr, client: ClientID) -> (u64, u64, u64, bool) {
    let a = mgr.accounts.get(client).unwrap();
    (a.available, a.held, a.total, a.locked)
}

#[test]
fn scenario_deposit() {
    let mut mgr = fresh_manager();
    submit(&mut mgr, tx(TxType::Deposit, 1, 1, Some(10000))).unwrap();
    assert_eq!(balances(&mgr, 1), (10000, 0, 10000, false));
}

#[test]
fn scenario_deposit_then_withdrawal() {
    let mut mgr = fresh_manager();
    submit(&mut mgr, tx(TxType::Deposit, 1, 1, Some(10000))).unwrap();
    submit(&mut mgr, tx(TxType::Withdrawal, 1, 2, Some(5000))).unwrap();
    assert_eq!(balances(&mgr, 1), (5000, 0, 5000, false));
}

#[test]
fn scenario_dispute_clamped_then_resolved() {
    let mut mgr = fresh_manager();
    submit(&mut mgr, tx(TxType::Deposit, 1, 1, Some(10000))).unwrap();
    submit(&mut mgr, tx(TxType::Withdrawal, 1, 2, Some(5000))).unwrap();
    submit(&mut mgr, tx(TxType::Dispute, 1, 1, None)).unwrap();
    assert_eq!(balances(&mgr, 1), (0, 5000, 5000, false));
    submit(&mut mgr, tx(TxType::Resolve, 1, 1, None)).unwrap();
    assert_eq!(balances(&mgr, 1), (5000, 0, 5000, false));
}

#[test]
fn scenario_deposit_disputed_and_charged_back() {
    let mut mgr = fresh_manager();
    submit(&mut mgr, tx(TxType::Deposit, 1, 1, Some(10000))).unwrap();
    submit(&mut mgr, tx(TxType::Dispute, 1, 1, None)).unwrap();
    assert_eq!(balances(&mgr, 1), (0, 10000, 10000, false));
    submit(&mut mgr, tx(TxType::Chargeback, 1, 1, None)).unwrap();
    assert_eq!(balances(&mgr, 1), (0, 0, 0, true));
}

#[test]
fn scenario_withdrawal_disputed_and_charged_back() {
    let mut mgr = fresh_manager();
    submit(&mut mgr, tx(TxType::Deposit, 1, 1, Some(10000))).unwrap();
    submit(&mut mgr, tx(TxType::Withdrawal, 1, 2, Some(3000))).unwrap();
    assert_eq!(balances(&mgr, 1), (7000, 0, 7000, false));
    submit(&mut mgr, tx(TxType::Dispute, 1, 2, None)).unwrap();
    assert_eq!(balances(&mgr, 1), (7000, 0, 7000, false));
    submit(&mut mgr, tx(TxType::Chargeback, 1, 2, None)).unwrap();
    assert_eq!(balances(&mgr, 1), (10000, 0, 10000, false));
}

#[test]
fn locked_account_refuses_every_kind() {
    let mut mgr = fresh_manager();
    mgr.accounts
        .set(3, Account { id: 3, available: 700, held: 300, total: 1000, locked: true })
        .unwrap();
    mgr.transactions.set(9, tx(TxType::Deposit, 3, 9, Some(300))).unwrap();
    let kinds = [
        tx(TxType::Deposit, 3, 10, Some(5)),
        tx(TxType::Withdrawal, 3, 11, Some(5)),
        tx(TxType::Dispute, 3, 9, None),
        tx(TxType::Resolve, 3, 9, None),
        tx(TxType::Chargeback, 3, 9, None),
    ];
    for t in kinds {
        assert_eq!(mgr.process_transaction(t), Err(Error::AccountLocked));
        assert_eq!(balances(&mgr, 3), (700, 300, 1000, true));
    }
}

#[test]
fn resolve_and_chargeback_without_dispute_move_nothing() {
    let mut mgr = fresh_manager();
    submit(&mut mgr, tx(TxType::Deposit, 2, 1, Some(4000))).unwrap();
    submit(&mut mgr, tx(TxType::Resolve, 2, 1, None)).unwrap();
    assert_eq!(balances(&mgr, 2), (4000, 0, 4000, false));
    submit(&mut mgr, tx(TxType::Chargeback, 2, 1, None)).unwrap();
    assert_eq!(balances(&mgr, 2), (4000, 0, 4000, true));
}

#[test]
fn balances_stay_consistent_over_a_run() {
    let mut mgr = fresh_manager();
    let run = [
        tx(TxType::Deposit, 1, 1, Some(2500)),
        tx(TxType::Deposit, 1, 2, Some(1500)),
        tx(TxType::Withdrawal, 1, 3, Some(3000)),
        tx(TxType::Dispute, 1, 1, None),
        tx(TxType::Dispute, 1, 2, None),
        tx(TxType::Resolve, 1, 1, None),
        tx(TxType::Chargeback, 1, 2, None),
        tx(TxType::Chargeback, 1, 3, None),
    ];
    for t in run {
        let _ = submit(&mut mgr, t);
        let (available, held, total, _) = balances(&mgr, 1);
        assert_eq!(total, available + held);
    }
    assert_eq!(balances(&mgr, 1), (1000, 0, 1000, true));
}

#[test]
fn dispute_of_unknown_transaction_is_not_found() {
    let mut mgr = fresh_manager();
    assert_eq!(mgr.process_transaction(tx(TxType::Dispute, 5, 42, None)), Err(Error::NotFound));
    assert_eq!(mgr.process_transaction(tx(TxType::Resolve, 5, 42, None)), Err(Error::NotFound));
    assert_eq!(mgr.process_transaction(tx(TxType::Chargeback, 5, 42, None)), Err(Error::NotFound));
    // the account was created on first reference all the same
    assert_eq!(balances(&mgr, 5), (0, 0, 0, false));
}

#[test]
fn withdrawal_beyond_available_is_insufficient_funds() {
    let mut mgr = fresh_manager();
    submit(&mut mgr, tx(TxType::Deposit, 1, 1, Some(100))).unwrap();
    assert_eq!(submit(&mut mgr, tx(TxType::Withdrawal, 1, 2, Some(101))), Err(Error::InsufficientFunds));
    assert_eq!(balances(&mgr, 1), (100, 0, 100, false));
    submit(&mut mgr, tx(TxType::Withdrawal, 1, 3, Some(100))).unwrap();
    assert_eq!(balances(&mgr, 1), (0, 0, 0, false));
}

#[test]
fn only_deposits_and_withdrawals_are_recorded() {
    let mut mgr = fresh_manager();
    mgr.record_transaction(&tx(TxType::Deposit, 1, 1, Some(7))).unwrap();
    mgr.record_transaction(&tx(TxType::Withdrawal, 1, 2, Some(3))).unwrap();
    mgr.record_transaction(&tx(TxType::Dispute, 1, 3, None)).unwrap();
    assert_eq!(*mgr.transactions.get(1).unwrap(), tx(TxType::Deposit, 1, 1, Some(7)));
    assert_eq!(*mgr.transactions.get(2).unwrap(), tx(TxType::Withdrawal, 1, 2, Some(3)));
    assert_eq!(mgr.transactions.get(3), Err(Error::NotFound));
    assert!(mgr.accounts.get(1).is_err());
}

#[test]
fn fits_detects_overflowing_totals() {
    let mut mgr = fresh_manager();
    mgr.accounts
        .set(1, Account { id: 1, available: u64::MAX - 10, held: 0, total: u64::MAX - 10, locked: false })
        .unwrap();
    assert!(mgr.fits(&tx(TxType::Deposit, 1, 1, Some(10))));
    assert!(!mgr.fits(&tx(TxType::Deposit, 1, 1, Some(11))));
    mgr.transactions.set(2, tx(TxType::Withdrawal, 1, 2, Some(20))).unwrap();
    assert!(!mgr.fits(&tx(TxType::Chargeback, 1, 2, None)));
    assert!(mgr.fits(&tx(TxType::Dispute, 1, 2, None)));
    assert!(mgr.fits(&tx(TxType::Deposit, 2, 3, Some(u64::MAX))));
}

#[test]
fn deposit_without_amount_changes_nothing() {
    let mut mgr = fresh_manager();
    submit(&mut mgr, tx(TxType::Deposit, 4, 1, Some(10))).unwrap();
    submit(&mut mgr, tx(TxType::Deposit, 4, 2, None)).unwrap();
    submit(&mut mgr, tx(TxType::Withdrawal, 4, 3, None)).unwrap();
    assert_eq!(balances(&mgr, 4), (10, 0, 10, false));
}

#[test]
fn store_get_and_set() {
    let mut store = InMemoryKVStore::<u32, u64>::new().unwrap();
    assert_eq!(store.get(1), Err(Error::NotFound));
    store.set(1, 10).unwrap();
    store.set(1, 11).unwrap();
    store.set(2, 20).unwrap();
    assert_eq!(store.get(1), Ok(&11));
    assert_eq!(store.get(2), Ok(&20));
}

#[test]
fn store_into_entries_lists_each_key_once() {
    let mut store = InMemoryKVStore::<u16, u64>::new().unwrap();
    store.set(3, 30).unwrap();
    store.set(1, 10).unwrap();
    store.set(3, 31).unwrap();
    let mut entries = store.into_entries();
    entries.sort();
    assert_eq!(entries, vec![(1, 10), (3, 31)]);
}

#[test]
fn new_and_default_values() {
    assert_eq!(Account::new(9), Account { id: 9, available: 0, held: 0, total: 0, locked: false });
    assert_eq!(Account::default(), Account::new(0));
    assert_eq!(Transaction::default(), tx(TxType::Deposit, 0, 0, None));
}

#[test]
fn error_messages() {
    assert_eq!(Error::InvalidArguments.message(), "invalid arguments");
    assert_eq!(Error::InsufficientFunds.message(), "insufficient funds");
    assert_eq!(Error::AccountLocked.message(), "account locked");
    assert_eq!(Error::NotFound.message(), "not found");
}
