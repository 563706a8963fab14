use vstd::prelude::*;

verus! {

/// The kinds of transaction that the ledger understands.
#[derive(Debug, Clone, Copy, PartialEq, Eq, Structural)]
pub enum TxType {
    Deposit,
    Withdrawal,
    Dispute,
    Resolve,
    Chargeback,
}

pub type TransactionID = u32;

pub type ClientID = u16;

/// One transaction as the ledger sees it.
///
/// Amounts are fixed-point: the stored integer is the decimal amount
/// times 10 000 (four decimal digits). For a dispute, a resolve or a
/// chargeback, `tx` names the deposit or withdrawal that it refers to
/// and `amount` is absent.
#[derive(Debug, Clone, Copy, PartialEq, Eq, Structural)]
pub struct Transaction {
    pub type_: TxType,
    pub client: ClientID,
    pub tx: TransactionID,
    pub amount: Option<u64>,
}

/// The balances of one client, in the same fixed-point units as
/// `Transaction::amount`.
#[derive(Debug, Clone, Copy, PartialEq, Eq, Structural)]
pub struct Account {
    pub id: ClientID,
    pub available: u64,
    pub held: u64,
    pub total: u64,
    pub locked: bool,
}

impl Account {
    /// The balances always add up: the total is what is available plus
    /// what is held back by disputes.
    pub open spec fn balanced(self) -> bool {
        self.total == self.available + self.held
    }

    /// A fresh, unlocked account with every balance at zero.
    pub open spec fn fresh(id: ClientID) -> Account {
        Account { id, available: 0, held: 0, total: 0, locked: false }
    }

    /// Whether two accounts agree on their three balances.
    pub open spec fn same_balances(self, other: Account) -> bool {
        &&& self.available == other.available
        &&& self.held == other.held
        &&& self.total == other.total
    }

    pub fn new(id: ClientID) -> (r: Account)
        ensures
            r == Account::fresh(id),
            r.balanced(),
    {
        Account { id, available: 0, held: 0, total: 0, locked: false }
    }
}

impl Default for Account {
    fn default() -> (r: Account)
        ensures
            r == Account::fresh(0),
    {
        Account { id: 0, available: 0, held: 0, total: 0, locked: false }
    }
}

impl Default for Transaction {
    fn default() -> (r: Transaction)
        ensures
            r == (Transaction { type_: TxType::Deposit, client: 0, tx: 0, amount: None }),
    {
        Transaction { type_: TxType::Deposit, client: 0, tx: 0, amount: None }
    }
}

} // verus!
