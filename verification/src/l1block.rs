//! The L1 fee oracle: a cached pricing snapshot read from the system
//! account's storage, and the data-posting cost of a transaction's calldata
//! under the two historical formulas.

use vstd::prelude::*;
use vstd::arithmetic::power::pow;
use crate::u256::{U256, sat256, pow2_256};
use crate::byteops::{be_u32, be_u64, is_zero_range, lemma_be_val_slice, lemma_be_val_zero_iff,
    lemma_pow256_values, be_val};
use crate::gas::Gas;
use crate::spec_id::ZkSpecId;

verus! {

/// Gas per calldata token; a zero byte is one token.
pub const STANDARD_TOKEN_COST: u64 = 4;

/// Calldata gas per non-zero byte.
pub const NON_ZERO_BYTE_COST: u64 = 16;

/// A non-zero byte counts as this many tokens.
pub const NON_ZERO_BYTE_MULTIPLIER_ISTANBUL: u64 = 4;

/// Byte offset of the base-fee scalar inside the packed scalar word.
pub const BASE_FEE_SCALAR_OFFSET: usize = 16;

/// Byte offset of the blob-base-fee scalar inside the packed scalar word.
pub const BLOB_BASE_FEE_SCALAR_OFFSET: usize = 20;

/// Byte offset of the operator-fee scalar inside the packed operator word.
pub const OPERATOR_FEE_SCALAR_OFFSET: usize = 20;

/// Byte offset of the operator-fee constant inside the packed operator word.
pub const OPERATOR_FEE_CONSTANT_OFFSET: usize = 24;

/// The storage words of the pricing system account that the oracle reads;
/// the embedder fetches them from the database.
#[derive(Debug)]
pub struct L1BlockStorageWords {
    /// The L1 base fee.
    pub l1_base_fee: U256,
    /// The legacy fee overhead.
    pub l1_fee_overhead: U256,
    /// The legacy single fee scalar.
    pub l1_fee_scalar: U256,
    /// The blob base fee of the current era.
    pub l1_blob_base_fee: U256,
    /// The packed fee-scalar word of the current era.
    pub l1_fee_scalars: U256,
    /// The packed operator-fee word of the further upgrade.
    pub operator_fee_scalars: U256,
}

/// The cached pricing snapshot.
#[derive(Debug)]
pub struct L1BlockInfo {
    /// The L2 block the snapshot was fetched for; a mismatch against the
    /// engine's current block forces a re-fetch.
    pub l2_block: U256,
    /// The base fee of the L1 origin block.
    pub l1_base_fee: U256,
    /// The legacy fee overhead; kept only while the legacy formula applies.
    pub l1_fee_overhead: Option<U256>,
    /// The base-fee scalar.
    pub l1_base_fee_scalar: U256,
    /// The blob base fee of the current era.
    pub l1_blob_base_fee: Option<U256>,
    /// The blob-fee scalar of the current era.
    pub l1_blob_base_fee_scalar: Option<U256>,
    /// The operator-fee scalar of the further upgrade.
    pub operator_fee_scalar: Option<U256>,
    /// The operator-fee constant of the further upgrade.
    pub operator_fee_constant: Option<U256>,
    /// The current era is active but its scalars have not been set yet, so
    /// the legacy formula applies for this one block.
    pub empty_ecotone_scalars: bool,
    /// The cost computed for the current transaction, memoized.
    pub tx_l1_cost: Option<U256>,
}

/// The token count of a calldata string: one per zero byte, four per
/// non-zero byte.
pub open spec fn spec_tokens(s: Seq<u8>) -> int
    decreases s.len(),
{
    if s.len() == 0 {
        0
    } else {
        spec_tokens(s.drop_last()) + if s.last() == 0 {
            1int
        } else {
            4int
        }
    }
}

/// The data gas of a calldata string: tokens times the per-token cost,
/// clamped to the 64-bit range.
pub open spec fn spec_data_gas(s: Seq<u8>) -> int {
    if spec_tokens(s) * 4 > u64::MAX {
        u64::MAX as int
    } else {
        spec_tokens(s) * 4
    }
}

/// What an optional word contributes: its value, or zero when absent.
pub open spec fn spec_or_zero(w: Option<U256>) -> int {
    match w {
        Some(v) => v.as_nat(),
        None => 0,
    }
}

/// The legacy cost formula:
/// `(data_gas + overhead) * base_fee * scalar / 1_000_000`, each product
/// clamped to the 256-bit range.
pub open spec fn spec_l1_cost_bedrock(info: L1BlockInfo, input: Seq<u8>) -> int {
    sat256(
        sat256(
            sat256(spec_data_gas(input) + spec_or_zero(info.l1_fee_overhead))
                * info.l1_base_fee.as_nat(),
        ) * info.l1_base_fee_scalar.as_nat(),
    ) / 1_000_000
}

/// `base_fee * 16 * base_fee_scalar + blob_base_fee * blob_fee_scalar`,
/// each step clamped to the 256-bit range.
pub open spec fn spec_l1_fee_scaled_ecotone(info: L1BlockInfo) -> int {
    sat256(
        sat256(sat256(info.l1_base_fee.as_nat() * 16) * info.l1_base_fee_scalar.as_nat()) + sat256(
            spec_or_zero(info.l1_blob_base_fee) * spec_or_zero(info.l1_blob_base_fee_scalar),
        ),
    )
}

/// The current-era cost formula:
/// `data_gas * (base_fee*16*base_fee_scalar + blob_base_fee*blob_scalar)
/// / 16_000_000`, falling back to the legacy formula while the scalars are
/// unset.
pub open spec fn spec_l1_cost_ecotone(info: L1BlockInfo, input: Seq<u8>) -> int {
    if info.empty_ecotone_scalars {
        spec_l1_cost_bedrock(info, input)
    } else {
        sat256(spec_l1_fee_scaled_ecotone(info) * spec_data_gas(input)) / 16_000_000
    }
}

/// The cost the oracle computes for a snapshot: the current-era formula
/// where the era's fields were fetched, the legacy formula otherwise.
pub open spec fn spec_l1_cost(info: L1BlockInfo, input: Seq<u8>) -> int {
    if info.l1_blob_base_fee is Some {
        spec_l1_cost_ecotone(info, input)
    } else {
        spec_l1_cost_bedrock(info, input)
    }
}

/// The operator fee scalar function; degenerate in the current rules, so
/// that the refund composes correctly once it becomes non-trivial.
pub open spec fn spec_operator_fee_inner(info: L1BlockInfo, gas: int) -> int {
    0
}

/// While the current era's scalars are unset, the current-era formula is
/// the legacy formula: the one-block transition after the scalar-introducing
/// upgrade prices exactly as the era before it.
pub proof fn lemma_empty_scalars_use_legacy_formula(info: L1BlockInfo, input: Seq<u8>)
    requires
        info.empty_ecotone_scalars,
    ensures
        spec_l1_cost_ecotone(info, input) == spec_l1_cost_bedrock(info, input),
{
}

impl L1BlockInfo {
    /// The snapshot decoded from the storage words under the legacy layout:
    /// the overhead slot and the single scalar slot.
    pub fn try_fetch(words: &L1BlockStorageWords, l2_block: U256, spec_id: ZkSpecId) -> (r:
        L1BlockInfo)
        ensures
            r.l2_block == l2_block,
            r.l1_base_fee == words.l1_base_fee,
            r.l1_fee_overhead == Some(words.l1_fee_overhead),
            r.l1_base_fee_scalar == words.l1_fee_scalar,
            r.l1_blob_base_fee is None,
            r.l1_blob_base_fee_scalar is None,
            r.operator_fee_scalar is None,
            r.operator_fee_constant is None,
            !r.empty_ecotone_scalars,
            r.tx_l1_cost is None,
    {
        let _ = spec_id;
        L1BlockInfo {
            l2_block,
            l1_base_fee: words.l1_base_fee,
            l1_fee_overhead: Some(words.l1_fee_overhead),
            l1_base_fee_scalar: words.l1_fee_scalar,
            l1_blob_base_fee: None,
            l1_blob_base_fee_scalar: None,
            operator_fee_scalar: None,
            operator_fee_constant: None,
            empty_ecotone_scalars: false,
            tx_l1_cost: None,
        }
    }

    /// The snapshot decoded from the storage words under the current-era
    /// layout: two 4-byte scalars packed into one word, the blob base fee,
    /// the empty-scalars transition test, and the operator-fee word of the
    /// further upgrade.
    pub fn try_fetch_ecotone(words: &L1BlockStorageWords, l2_block: U256) -> (r: L1BlockInfo)
        ensures
            r.l1_base_fee == words.l1_base_fee,
            r.l1_base_fee_scalar.as_nat() == (words.l1_fee_scalars.as_nat() / pow(256, 12)) % pow(
                256,
                4,
            ),
            r.l1_blob_base_fee == Some(words.l1_blob_base_fee),
            r.l1_blob_base_fee_scalar is Some && r.l1_blob_base_fee_scalar.unwrap().as_nat() == (
            words.l1_fee_scalars.as_nat() / pow(256, 8)) % pow(256, 4),
            r.empty_ecotone_scalars == (words.l1_blob_base_fee.as_nat() == 0 && (
            words.l1_fee_scalars.as_nat() / pow(256, 8)) % pow(256, 8) == 0),
            r.l1_fee_overhead == if r.empty_ecotone_scalars {
                Some(words.l1_fee_overhead)
            } else {
                None::<U256>
            },
            r.operator_fee_scalar is Some && r.operator_fee_scalar.unwrap().as_nat() == (
            words.operator_fee_scalars.as_nat() / pow(256, 8)) % pow(256, 4),
            r.operator_fee_constant is Some && r.operator_fee_constant.unwrap().as_nat()
                == words.operator_fee_scalars.as_nat() % pow(256, 8),
            r.l2_block == l2_block,
            r.tx_l1_cost is None,
    {
        let fee_scalars = words.l1_fee_scalars.to_be_bytes();
        let scalars_slice = fee_scalars.as_slice();

        let base_scalar_bytes = vstd::slice::slice_subrange(scalars_slice, BASE_FEE_SCALAR_OFFSET,
            BASE_FEE_SCALAR_OFFSET + 4);
        let l1_base_fee_scalar = U256::from_u64(be_u32(base_scalar_bytes) as u64);

        let blob_scalar_bytes = vstd::slice::slice_subrange(scalars_slice,
            BLOB_BASE_FEE_SCALAR_OFFSET, BLOB_BASE_FEE_SCALAR_OFFSET + 4);
        let l1_blob_base_fee_scalar = U256::from_u64(be_u32(blob_scalar_bytes) as u64);

        let scalars_empty = is_zero_range(scalars_slice, BASE_FEE_SCALAR_OFFSET,
            BLOB_BASE_FEE_SCALAR_OFFSET + 4);
        let empty_ecotone_scalars = words.l1_blob_base_fee.is_zero() && scalars_empty;

        proof {
            lemma_be_val_slice(fee_scalars@, 16, 20);
            lemma_be_val_slice(fee_scalars@, 20, 24);
            lemma_be_val_slice(fee_scalars@, 16, 24);
            lemma_be_val_zero_iff(fee_scalars@.subrange(16, 24));
            assert(forall|i: int|
                16 <= i < 24 ==> fee_scalars@[i] == fee_scalars@.subrange(16, 24)[i - 16]);
            assert((forall|i: int| 16 <= i < 24 ==> fee_scalars@[i] == 0) <==> (be_val(
                fee_scalars@.subrange(16, 24),
            ) == 0));
        }

        let l1_fee_overhead = if empty_ecotone_scalars {
            Some(words.l1_fee_overhead)
        } else {
            None
        };

        let operator_word = words.operator_fee_scalars.to_be_bytes();
        let operator_slice = operator_word.as_slice();
        let operator_scalar_bytes = vstd::slice::slice_subrange(operator_slice,
            OPERATOR_FEE_SCALAR_OFFSET, OPERATOR_FEE_SCALAR_OFFSET + 4);
        let operator_fee_scalar = U256::from_u64(be_u32(operator_scalar_bytes) as u64);
        let operator_constant_bytes = vstd::slice::slice_subrange(operator_slice,
            OPERATOR_FEE_CONSTANT_OFFSET, OPERATOR_FEE_CONSTANT_OFFSET + 8);
        let operator_fee_constant = U256::from_u64(be_u64(operator_constant_bytes));
        proof {
            lemma_be_val_slice(operator_word@, 20, 24);
            lemma_be_val_slice(operator_word@, 24, 32);
            lemma_pow256_values();
            vstd::arithmetic::div_mod::lemma_fundamental_div_mod(
                words.operator_fee_scalars.as_nat(),
                1,
            );
            assert(words.operator_fee_scalars.as_nat() / pow(256, 0) % pow(256, 8)
                == words.operator_fee_scalars.as_nat() % pow(256, 8));
        }

        L1BlockInfo {
            l2_block,
            l1_base_fee: words.l1_base_fee,
            l1_fee_overhead,
            l1_base_fee_scalar,
            l1_blob_base_fee: Some(words.l1_blob_base_fee),
            l1_blob_base_fee_scalar: Some(l1_blob_base_fee_scalar),
            operator_fee_scalar: Some(operator_fee_scalar),
            operator_fee_constant: Some(operator_fee_constant),
            empty_ecotone_scalars,
            tx_l1_cost: None,
        }
    }

    /// The data gas of posting `input`: non-zero bytes weigh four times as
    /// much as zero bytes in the token model, each token costing
    /// [`STANDARD_TOKEN_COST`] gas.
    pub fn data_gas(&self, input: &[u8], spec_id: ZkSpecId) -> (r: U256)
        ensures
            r.as_nat() == spec_data_gas(input@),
    {
        let _ = spec_id;
        let n = input.len();
        let mut tokens: u128 = 0;
        let mut i: usize = 0;
        proof {
            assert(input@.take(0) =~= Seq::<u8>::empty());
        }
        while i < n
            invariant
                0 <= i <= n,
                n == input@.len(),
                tokens == spec_tokens(input@.take(i as int)),
                tokens <= 4 * i,
            decreases n - i,
        {
            proof {
                assert(input@.take(i + 1).drop_last() =~= input@.take(i as int));
                assert(input@.take(i + 1).last() == input@[i as int]);
            }
            if input[i] == 0 {
                tokens = tokens + 1;
            } else {
                tokens = tokens + NON_ZERO_BYTE_MULTIPLIER_ISTANBUL as u128;
            }
            i += 1;
        }
        proof {
            assert(input@.take(n as int) =~= input@);
        }
        // Each token costs STANDARD_TOKEN_COST gas.
        let gas128: u128 = tokens * 4;
        if gas128 > u64::MAX as u128 {
            U256::from_u64(u64::MAX)
        } else {
            U256::from_u64(gas128 as u64)
        }
    }

    /// Clears the memoized cost before a new transaction.
    pub fn clear_tx_l1_cost(&mut self)
        ensures
            *final(self) == (L1BlockInfo { tx_l1_cost: None, ..*old(self) }),
    {
        self.tx_l1_cost = None;
    }

    /// The cost of posting this transaction's calldata: the memoized value
    /// if one is cached, else the formula of the fetched era, memoized.
    pub fn calculate_tx_l1_cost(&mut self, input: &[u8], spec_id: ZkSpecId) -> (r: U256)
        ensures
            old(self).tx_l1_cost is Some ==> r == old(self).tx_l1_cost.unwrap() && *final(self)
                == *old(self),
            old(self).tx_l1_cost is None ==> r.as_nat() == spec_l1_cost(*old(self), input@)
                && *final(self) == (L1BlockInfo { tx_l1_cost: Some(r), ..*old(self) }),
    {
        if let Some(cost) = self.tx_l1_cost {
            return cost;
        }
        let cost = match self.l1_blob_base_fee {
            Some(_) => self.calculate_tx_l1_cost_ecotone(input, spec_id),
            None => self.calculate_tx_l1_cost_bedrock(input, spec_id),
        };
        self.tx_l1_cost = Some(cost);
        cost
    }

    /// The legacy cost formula.
    fn calculate_tx_l1_cost_bedrock(&self, input: &[u8], spec_id: ZkSpecId) -> (r: U256)
        ensures
            r.as_nat() == spec_l1_cost_bedrock(*self, input@),
    {
        let rollup_data_gas_cost = self.data_gas(input, spec_id);
        let overhead = match self.l1_fee_overhead {
            Some(o) => o,
            None => U256::zero(),
        };
        rollup_data_gas_cost.saturating_add(&overhead).saturating_mul(
            &self.l1_base_fee,
        ).saturating_mul(&self.l1_base_fee_scalar).div_by_u64(1_000_000)
    }

    /// The current-era cost formula, falling back to the legacy formula for
    /// the one block whose scalars are still unset.
    fn calculate_tx_l1_cost_ecotone(&self, input: &[u8], spec_id: ZkSpecId) -> (r: U256)
        ensures
            r.as_nat() == spec_l1_cost_ecotone(*self, input@),
    {
        if self.empty_ecotone_scalars {
            return self.calculate_tx_l1_cost_bedrock(input, spec_id);
        }
        let rollup_data_gas_cost = self.data_gas(input, spec_id);
        let l1_fee_scaled = self.calculate_l1_fee_scaled_ecotone();
        l1_fee_scaled.saturating_mul(&rollup_data_gas_cost).div_by_u64(16_000_000)
    }

    /// `base_fee * 16 * base_fee_scalar + blob_base_fee * blob_fee_scalar`.
    fn calculate_l1_fee_scaled_ecotone(&self) -> (r: U256)
        ensures
            r.as_nat() == spec_l1_fee_scaled_ecotone(*self),
    {
        let sixteen = U256::from_u64(NON_ZERO_BYTE_COST);
        let calldata_cost_per_byte = self.l1_base_fee.saturating_mul(&sixteen).saturating_mul(
            &self.l1_base_fee_scalar,
        );
        let blob_base_fee = match self.l1_blob_base_fee {
            Some(b) => b,
            None => U256::zero(),
        };
        let blob_scalar = match self.l1_blob_base_fee_scalar {
            Some(b) => b,
            None => U256::zero(),
        };
        let blob_cost_per_byte = blob_base_fee.saturating_mul(&blob_scalar);
        calldata_cost_per_byte.saturating_add(&blob_cost_per_byte)
    }

    /// The operator fee of executing this transaction: zero for input that
    /// opens with the cross-layer type marker, else the scalar function of
    /// the gas limit.
    pub fn operator_fee_charge(&self, input: &[u8], gas_limit: U256) -> (r: U256)
        ensures
            r.as_nat() == if input@.len() > 0 && input@[0] == 0x7E {
                0
            } else {
                spec_operator_fee_inner(*self, gas_limit.as_nat())
            },
    {
        if input.len() > 0 && input[0] == 0x7E {
            return U256::zero();
        }
        self.operator_fee_charge_inner(gas_limit)
    }

    /// The operator fee for `gas` units.
    fn operator_fee_charge_inner(&self, gas: U256) -> (r: U256)
        ensures
            r.as_nat() == spec_operator_fee_inner(*self, gas.as_nat()),
    {
        let _ = gas;
        U256::zero()
    }

    /// The operator-fee refund: the charge at the gas limit minus the charge
    /// at the gas actually used, so a future non-trivial scalar composes
    /// without changing the handler.
    pub fn operator_fee_refund(&self, gas: &Gas, spec_id: ZkSpecId) -> (r: U256)
        requires
            gas.wf(),
            0 <= gas.refunded,
            gas.remaining + gas.refunded <= gas.limit,
        ensures
            r.as_nat() == spec_operator_fee_inner(*self, gas.limit as int) - spec_operator_fee_inner(
                *self,
                gas.limit - (gas.remaining + gas.refunded),
            ) || r.as_nat() == 0,
    {
        let _ = spec_id;
        let operator_cost_gas_limit = self.operator_fee_charge_inner(U256::from_u64(gas.limit));
        let operator_cost_gas_used = self.operator_fee_charge_inner(
            U256::from_u64(gas.limit - (gas.remaining + gas.refunded as u64)),
        );
        operator_cost_gas_limit.saturating_sub(&operator_cost_gas_used)
    }
}

} // verus!
