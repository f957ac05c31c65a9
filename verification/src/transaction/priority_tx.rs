//! The cross-layer parts of a transaction.

use vstd::prelude::*;
use crate::address::Address;
use crate::u256::U256;

verus! {

/// Type tag of an upgrade transaction.
pub const UPGRADE_TRANSACTION_TYPE: u8 = 0x7E;

/// Type tag of a priority (deposit) transaction.
pub const L1_PRIORITY_TRANSACTION_TYPE: u8 = 0x7F;

/// The fields a cross-layer transaction adds to its base.
#[derive(Debug)]
pub struct L1ToL2TransactionParts {
    /// Value credited to the caller before validation.
    pub mint: Option<U256>,
    /// Where unused minted value returns on the source chain's behalf.
    pub refund_recipient: Option<Address>,
}

impl L1ToL2TransactionParts {
    pub fn new(mint: Option<U256>, refund_recipient: Option<Address>) -> (r:
        L1ToL2TransactionParts)
        ensures
            r.mint == mint,
            r.refund_recipient == refund_recipient,
    {
        L1ToL2TransactionParts { mint, refund_recipient }
    }

    /// Parts for an ordinary transaction: nothing minted, nobody refunded.
    pub fn empty() -> (r: L1ToL2TransactionParts)
        ensures
            r.mint is None,
            r.refund_recipient is None,
    {
        L1ToL2TransactionParts { mint: None, refund_recipient: None }
    }
}

} // verus!
