//! Per-client account balances driven by a stream of deposits, withdrawals
//! and the dispute / resolve / chargeback lifecycle.

pub mod types;
pub mod error;
pub mod storage;
pub mod accounts;
