//! Errors returned by the custody contract.
use vstd::prelude::*;

verus! {

/// Errors returned by the custody contract.
#[derive(Clone, Copy, Debug, PartialEq, Eq, Structural)]
pub enum Error {
    /// The org's prepaid balance cannot cover the requested amount.
    InsufficientBalance,
    /// No operator is configured (contract not initialized) or the caller
    /// is not the operator.
    NotOperator,
    /// The amount is not a positive, valid amount.
    InvalidAmount,
}

impl Error {
    /// The numeric code under which the error is published on-chain.
    pub fn code(&self) -> (r: u32)
        ensures
            r == match *self {
                Error::InsufficientBalance => 1u32,
                Error::NotOperator => 2u32,
                Error::InvalidAmount => 3u32,
            },
    {
        match self {
            Error::InsufficientBalance => 1,
            Error::NotOperator => 2,
            Error::InvalidAmount => 3,
        }
    }
}

} // verus!
