//! Transaction validation errors.

use vstd::prelude::*;
use crate::u256::U256;

verus! {

/// Why a transaction was rejected before execution.
#[derive(Clone, Copy, Debug, PartialEq, Eq, Structural)]
pub enum InvalidTransaction {
    /// The caller cannot cover the worst-case cost of the transaction.
    LackOfFundForMaxFee { fee: U256, balance: U256 },
    /// The transaction's nonce is ahead of the account's.
    NonceTooHigh { tx: u64, state: u64 },
    /// The transaction's nonce is behind the account's.
    NonceTooLow { tx: u64, state: u64 },
    /// Both nonces sit at the maximum; no further transaction is possible.
    NonceOverflowInTransaction,
    /// The caller's account carries code.
    RejectCallerWithCode,
    /// A fee computation overflowed the 256-bit range.
    OverflowPaymentInTransaction,
}

/// The chain's transaction validation error.
#[derive(Clone, Copy, Debug, PartialEq, Eq, Structural)]
pub enum ZKsyncTxError {
    /// A base validation error.
    Base(InvalidTransaction),
}

impl ZKsyncTxError {
    pub fn from_invalid(value: InvalidTransaction) -> (r: ZKsyncTxError)
        ensures
            r == ZKsyncTxError::Base(value),
    {
        ZKsyncTxError::Base(value)
    }
}

} // verus!
