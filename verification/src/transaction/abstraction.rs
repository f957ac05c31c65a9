//! The transaction envelope and its builder.

use vstd::prelude::*;
use crate::address::Address;
use crate::u256::{U256, pow2_128, pow2_256};
use super::error::InvalidTransaction;
use super::priority_tx::{
    L1ToL2TransactionParts, L1_PRIORITY_TRANSACTION_TYPE, UPGRADE_TRANSACTION_TYPE,
};

verus! {

/// Whether a transaction calls an existing account or creates one.
#[derive(Debug)]
pub enum TxKind {
    /// A contract creation.
    Create,
    /// A call of the given address.
    Call(Address),
}

impl TxKind {
    pub open spec fn is_call(self) -> bool {
        self is Call
    }
}

/// The base transaction: the standard fields the lifecycle reads.
#[derive(Debug)]
pub struct TxEnv {
    /// Transaction type tag.
    pub tx_type: u8,
    /// The sender.
    pub caller: Address,
    /// Gas limit.
    pub gas_limit: u64,
    /// Gas price, or the maximum fee per gas for fee-market transactions.
    pub gas_price: u128,
    /// Maximum priority fee per gas, for fee-market transactions.
    pub max_priority_fee_per_gas: Option<u128>,
    /// Value carried by the transaction.
    pub value: U256,
    /// Calldata.
    pub input: Vec<u8>,
    /// The sender's nonce.
    pub nonce: u64,
    /// Chain id, if the transaction names one.
    pub chain_id: Option<u64>,
    /// Call or create.
    pub kind: TxKind,
}

impl TxEnv {
    pub open spec fn wf(self) -> bool {
        self.caller.wf()
    }

    /// A base transaction with every field at its neutral value.
    pub fn new_default() -> (r: TxEnv)
        ensures
            r.wf(),
            r.tx_type == 0,
            r.gas_limit == 0,
            r.gas_price == 0,
            r.max_priority_fee_per_gas is None,
            r.value.as_nat() == 0,
            r.input@.len() == 0,
            r.nonce == 0,
            r.chain_id is None,
            r.kind is Create,
    {
        let caller_bytes: Vec<u8> = vec![0u8; 20];
        TxEnv {
            tx_type: 0,
            caller: Address { bytes: caller_bytes },
            gas_limit: 0,
            gas_price: 0,
            max_priority_fee_per_gas: None,
            value: U256::zero(),
            input: Vec::new(),
            nonce: 0,
            chain_id: None,
            kind: TxKind::Create,
        }
    }
}

/// The transaction envelope: a base transaction plus the cross-layer fields.
#[derive(Debug)]
pub struct ZKsyncTx {
    /// Base transaction fields.
    pub base: TxEnv,
    /// Cross-layer parts.
    pub l1_to_l2_part: L1ToL2TransactionParts,
    /// Gas spent in the originating environment, overriding gas accounting.
    pub gas_used_override: Option<u64>,
    /// Forces a synthetic revert in place of execution.
    pub force_fail: bool,
}

impl ZKsyncTx {
    pub open spec fn wf(self) -> bool {
        &&& self.base.wf()
        &&& (match self.l1_to_l2_part.refund_recipient {
            Some(a) => a.wf(),
            None => true,
        })
        &&& (match self.base.kind {
            TxKind::Call(ref a) => a.wf(),
            TxKind::Create => true,
        })
    }

    /// A transaction is cross-layer exactly when its tag is one of the two
    /// reserved type bytes.
    pub open spec fn spec_is_l1_to_l2(self) -> bool {
        self.base.tx_type == UPGRADE_TRANSACTION_TYPE || self.base.tx_type
            == L1_PRIORITY_TRANSACTION_TYPE
    }

    /// The value minted to the caller; zero unless the envelope carries one.
    pub open spec fn spec_mint(self) -> int {
        match self.l1_to_l2_part.mint {
            Some(m) => m.as_nat(),
            None => 0,
        }
    }

    /// The price actually paid per unit of gas.
    pub open spec fn spec_effective_gas_price(self, base_fee: int) -> int {
        if self.spec_is_l1_to_l2() {
            self.base.gas_price as int
        } else if self.base.tx_type == 0 || self.base.tx_type == 1 {
            self.base.gas_price as int
        } else {
            match self.base.max_priority_fee_per_gas {
                None => self.base.gas_price as int,
                Some(p) => if self.base.gas_price <= base_fee + p {
                    self.base.gas_price as int
                } else {
                    base_fee + p
                },
            }
        }
    }

    /// The worst-case balance the transaction may spend.
    pub open spec fn spec_max_balance_spending(self) -> int {
        self.base.gas_limit * self.base.gas_price + self.base.value.as_nat()
    }

    /// The balance the transaction spends at the effective price.
    pub open spec fn spec_effective_balance_spending(self, base_fee: int) -> int {
        self.base.gas_limit * self.spec_effective_gas_price(base_fee)
            + self.base.value.as_nat()
    }

    /// A new envelope around a base transaction, with no cross-layer parts.
    pub fn new(base: TxEnv) -> (r: ZKsyncTx)
        ensures
            r.base == base,
            r.l1_to_l2_part.mint is None,
            r.l1_to_l2_part.refund_recipient is None,
            r.gas_used_override is None,
            !r.force_fail,
    {
        ZKsyncTx {
            base,
            l1_to_l2_part: L1ToL2TransactionParts::empty(),
            gas_used_override: None,
            force_fail: false,
        }
    }

    /// A builder for an envelope.
    pub fn builder() -> (r: ZKsyncTxBuilder)
        ensures
            r.base.tx_type == 0,
            r.l1_to_l2_part.mint is None,
            r.l1_to_l2_part.refund_recipient is None,
            r.gas_used_override is None,
            !r.force_fail,
    {
        ZKsyncTxBuilder::new()
    }

    pub fn tx_type(&self) -> (r: u8)
        ensures
            r == self.base.tx_type,
    {
        self.base.tx_type
    }

    pub fn caller(&self) -> (r: &Address)
        ensures
            r == &self.base.caller,
    {
        &self.base.caller
    }

    pub fn gas_limit(&self) -> (r: u64)
        ensures
            r == self.base.gas_limit,
    {
        self.base.gas_limit
    }

    pub fn value(&self) -> (r: U256)
        ensures
            r == self.base.value,
    {
        self.base.value
    }

    pub fn input(&self) -> (r: &Vec<u8>)
        ensures
            r == &self.base.input,
    {
        &self.base.input
    }

    pub fn nonce(&self) -> (r: u64)
        ensures
            r == self.base.nonce,
    {
        self.base.nonce
    }

    pub fn kind(&self) -> (r: &TxKind)
        ensures
            r == &self.base.kind,
    {
        &self.base.kind
    }

    pub fn chain_id(&self) -> (r: Option<u64>)
        ensures
            r == self.base.chain_id,
    {
        self.base.chain_id
    }

    pub fn gas_price(&self) -> (r: u128)
        ensures
            r == self.base.gas_price,
    {
        self.base.gas_price
    }

    pub fn max_fee_per_gas(&self) -> (r: u128)
        ensures
            r == self.base.gas_price,
    {
        self.base.gas_price
    }

    pub fn max_priority_fee_per_gas(&self) -> (r: Option<u128>)
        ensures
            r == self.base.max_priority_fee_per_gas,
    {
        self.base.max_priority_fee_per_gas
    }

    pub fn mint(&self) -> (r: Option<U256>)
        ensures
            r == self.l1_to_l2_part.mint,
    {
        self.l1_to_l2_part.mint
    }

    pub fn refund_recipient(&self) -> (r: &Option<Address>)
        ensures
            r == &self.l1_to_l2_part.refund_recipient,
    {
        &self.l1_to_l2_part.refund_recipient
    }

    pub fn gas_used_override(&self) -> (r: Option<u64>)
        ensures
            r == self.gas_used_override,
    {
        self.gas_used_override
    }

    pub fn force_fail(&self) -> (r: bool)
        ensures
            r == self.force_fail,
    {
        self.force_fail
    }

    /// Whether the envelope is a cross-layer transaction.
    pub fn is_l1_to_l2_tx(&self) -> (r: bool)
        ensures
            r == self.spec_is_l1_to_l2(),
    {
        self.base.tx_type == UPGRADE_TRANSACTION_TYPE || self.base.tx_type
            == L1_PRIORITY_TRANSACTION_TYPE
    }

    /// The price actually paid per unit of gas: cross-layer transactions pay
    /// their declared price, fee-market transactions the capped market
    /// price.
    pub fn effective_gas_price(&self, base_fee: u128) -> (r: u128)
        ensures
            r == self.spec_effective_gas_price(base_fee as int),
    {
        if self.is_l1_to_l2_tx() {
            return self.base.gas_price;
        }
        if self.base.tx_type == 0 || self.base.tx_type == 1 {
            return self.base.gas_price;
        }
        match self.base.max_priority_fee_per_gas {
            None => self.base.gas_price,
            Some(p) => {
                if base_fee <= u128::MAX - p {
                    let s = base_fee + p;
                    if self.base.gas_price <= s {
                        self.base.gas_price
                    } else {
                        s
                    }
                } else {
                    self.base.gas_price
                }
            },
        }
    }

    /// The worst-case balance the transaction may spend; an error when the
    /// fee computation overflows the engine's fee range.
    pub fn max_balance_spending(&self) -> (r: Result<U256, InvalidTransaction>)
        ensures
            r is Ok <==> self.base.gas_limit * self.base.gas_price < pow2_128()
                && self.spec_max_balance_spending() < pow2_256(),
            r is Ok ==> r.unwrap().as_nat() == self.spec_max_balance_spending(),
            r is Err ==> r.unwrap_err() == InvalidTransaction::OverflowPaymentInTransaction,
    {
        let gas_cost = match (self.base.gas_limit as u128).checked_mul(self.base.gas_price) {
            Some(c) => c,
            None => {
                return Err(InvalidTransaction::OverflowPaymentInTransaction);
            },
        };
        match U256::from_u128(gas_cost).checked_add(&self.base.value) {
            Some(total) => Ok(total),
            None => Err(InvalidTransaction::OverflowPaymentInTransaction),
        }
    }

    /// The balance the transaction spends at the effective price; an error
    /// when the fee computation overflows the engine's fee range. The blob
    /// price multiplies an empty blob list here, so it contributes nothing.
    pub fn effective_balance_spending(&self, base_fee: u128, _blob_price: u128) -> (r: Result<
        U256,
        InvalidTransaction,
    >)
        ensures
            r is Ok <==> self.base.gas_limit * self.spec_effective_gas_price(base_fee as int)
                < pow2_128() && self.spec_effective_balance_spending(base_fee as int) < pow2_256(),
            r is Ok ==> r.unwrap().as_nat() == self.spec_effective_balance_spending(
                base_fee as int,
            ),
            r is Err ==> r.unwrap_err() == InvalidTransaction::OverflowPaymentInTransaction,
    {
        let price = self.effective_gas_price(base_fee);
        let gas_cost = match (self.base.gas_limit as u128).checked_mul(price) {
            Some(c) => c,
            None => {
                return Err(InvalidTransaction::OverflowPaymentInTransaction);
            },
        };
        match U256::from_u128(gas_cost).checked_add(&self.base.value) {
            Some(total) => Ok(total),
            None => Err(InvalidTransaction::OverflowPaymentInTransaction),
        }
    }
}

/// Builds a [`ZKsyncTx`] field by field, filling defaults for the rest.
#[derive(Debug)]
pub struct ZKsyncTxBuilder {
    pub base: TxEnv,
    pub l1_to_l2_part: L1ToL2TransactionParts,
    pub gas_used_override: Option<u64>,
    pub force_fail: bool,
}

impl ZKsyncTxBuilder {
    /// A builder with every field at its default.
    pub fn new() -> (r: ZKsyncTxBuilder)
        ensures
            r.base.tx_type == 0,
            r.l1_to_l2_part.mint is None,
            r.l1_to_l2_part.refund_recipient is None,
            r.gas_used_override is None,
            !r.force_fail,
    {
        ZKsyncTxBuilder {
            base: TxEnv::new_default(),
            l1_to_l2_part: L1ToL2TransactionParts::empty(),
            gas_used_override: None,
            force_fail: false,
        }
    }

    /// Replaces the base transaction.
    pub fn base(self, base: TxEnv) -> (r: ZKsyncTxBuilder)
        ensures
            r == (ZKsyncTxBuilder { base, ..self }),
    {
        ZKsyncTxBuilder { base, ..self }
    }

    /// Sets the minted value of the cross-layer part.
    pub fn mint(self, mint: U256) -> (r: ZKsyncTxBuilder)
        ensures
            r.l1_to_l2_part.mint == Some(mint),
            r.l1_to_l2_part.refund_recipient == self.l1_to_l2_part.refund_recipient,
            r.base == self.base,
            r.gas_used_override == self.gas_used_override,
            r.force_fail == self.force_fail,
    {
        let l1_to_l2_part = L1ToL2TransactionParts {
            mint: Some(mint),
            refund_recipient: self.l1_to_l2_part.refund_recipient,
        };
        ZKsyncTxBuilder { l1_to_l2_part, ..self }
    }

    /// Sets the gas spent in the originating environment.
    pub fn gas_used_override(self, gas_used_override: Option<u64>) -> (r: ZKsyncTxBuilder)
        ensures
            r == (ZKsyncTxBuilder { gas_used_override, ..self }),
    {
        ZKsyncTxBuilder { gas_used_override, ..self }
    }

    /// Sets the forced-failure flag.
    pub fn force_fail(self, force_fail: bool) -> (r: ZKsyncTxBuilder)
        ensures
            r == (ZKsyncTxBuilder { force_fail, ..self }),
    {
        ZKsyncTxBuilder { force_fail, ..self }
    }

    /// Sets the refund recipient of the cross-layer part.
    pub fn refund_recipient(self, refund_recipient: Option<Address>) -> (r: ZKsyncTxBuilder)
        ensures
            r.l1_to_l2_part.refund_recipient == refund_recipient,
            r.l1_to_l2_part.mint == self.l1_to_l2_part.mint,
            r.base == self.base,
            r.gas_used_override == self.gas_used_override,
            r.force_fail == self.force_fail,
    {
        let l1_to_l2_part = L1ToL2TransactionParts {
            mint: self.l1_to_l2_part.mint,
            refund_recipient,
        };
        ZKsyncTxBuilder { l1_to_l2_part, ..self }
    }

    /// Builds the envelope, defaults standing in for anything unset.
    pub fn build_fill(self) -> (r: ZKsyncTx)
        ensures
            r == (ZKsyncTx {
                base: self.base,
                l1_to_l2_part: self.l1_to_l2_part,
                gas_used_override: self.gas_used_override,
                force_fail: self.force_fail,
            }),
    {
        ZKsyncTx {
            base: self.base,
            l1_to_l2_part: self.l1_to_l2_part,
            gas_used_override: self.gas_used_override,
            force_fail: self.force_fail,
        }
    }
}

} // verus!
