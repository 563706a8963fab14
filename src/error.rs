use vstd::prelude::*;

verus! {

/// Why a request to the ledger was refused.
#[derive(Debug, Clone, Copy, PartialEq, Eq, Structural)]
pub enum Error {
    /// The program was started the wrong way.
    InvalidArguments,
    /// A withdrawal asked for more than the available balance.
    InsufficientFunds,
    /// The account was locked by a chargeback and takes no more transactions.
    AccountLocked,
    /// A store holds nothing under the key that was asked for.
    NotFound,
}

impl Error {
    /// A short human-readable description of the error.
    pub fn message(&self) -> (r: &'static str)
        ensures
            *self == Error::InvalidArguments ==> r@ == "invalid arguments"@,
            *self == Error::InsufficientFunds ==> r@ == "insufficient funds"@,
            *self == Error::AccountLocked ==> r@ == "account locked"@,
            *self == Error::NotFound ==> r@ == "not found"@,
    {
        match self {
            Error::InvalidArguments => "invalid arguments",
            Error::InsufficientFunds => "insufficient funds",
            Error::AccountLocked => "account locked",
            Error::NotFound => "not found",
        }
    }
}

} // verus!
