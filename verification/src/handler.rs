//! The transaction state machine: validation, balance and nonce
//! adjustment, the forced-failure short circuit, post-execution fee
//! settlement, commit, and the cross-layer failure-recovery path.
//!
//! The opcode interpreter itself is the base engine's; its outcome enters
//! here as a frame result, and every contract holds for every value of it.

use vstd::prelude::*;
use crate::address::Address;
use crate::gas::Gas;
use crate::result::{ExecutionResult, InstructionResult, InterpreterResult, ZkHaltReason,
    HaltReason};
use crate::state::{AccountModel, JournalState, spec_loaded_map, TransferError};
use crate::transaction::abstraction::{TxKind, ZKsyncTx};
use crate::transaction::error::{InvalidTransaction, ZKsyncTxError};
use crate::u256::{U256, sat256, pow2_128, pow2_256};

verus! {

/// The block fields the lifecycle reads.
#[derive(Debug)]
pub struct BlockEnv {
    /// The block number.
    pub number: U256,
    /// Where the execution fee goes.
    pub beneficiary: Address,
    /// The block's base fee.
    pub basefee: u64,
    /// The block's blob gas price, once blob pricing is active.
    pub blob_gasprice: Option<u128>,
}

impl BlockEnv {
    pub open spec fn wf(self) -> bool {
        self.beneficiary.wf()
    }
}

/// The configuration switches the lifecycle reads.
#[derive(Clone, Copy, Debug)]
pub struct CfgEnv {
    /// The active fork.
    pub spec: crate::spec_id::ZkSpecId,
    /// Whether the caller-has-no-code check is disabled.
    pub is_eip3607_disabled: bool,
    /// Whether the nonce check is disabled.
    pub is_nonce_check_disabled: bool,
}

/// Intrinsic gas of a transaction, as the base engine computes it: the
/// up-front charge and the calldata floor.
#[derive(Clone, Copy, Debug, PartialEq, Eq, Structural)]
pub struct InitialAndFloorGas {
    pub initial_gas: u64,
    pub floor_gas: u64,
}

/// An error queued by the engine while a frame ran.
#[derive(Debug)]
pub enum ContextError {
    /// The underlying store failed; always fatal.
    Db(String),
    /// An embedder-defined error; fatal.
    Custom(String),
}

/// The lifecycle's error: a transaction-level rejection, a database
/// failure, an embedder-defined failure, or a failed value transfer during
/// settlement.
#[derive(Debug)]
pub enum ZkError {
    /// The transaction is invalid; for a cross-layer transaction this is
    /// the one error class the recovery path catches.
    Transaction(ZKsyncTxError),
    /// The underlying store failed; propagated unchanged.
    Database(String),
    /// An embedder-defined failure, carried as text.
    Custom(String),
    /// A settlement transfer could not be applied.
    Transfer(TransferError),
}

/// Classifies an error as transaction-level or not; the recovery path for
/// failed deposits keys on this.
pub trait IsTxError {
    /// Whether the error is transaction-level.
    spec fn spec_is_tx_error(&self) -> bool;

    /// Whether the error is transaction-level.
    fn is_tx_error(&self) -> (r: bool)
        ensures
            r == self.spec_is_tx_error(),
    ;
}

impl IsTxError for ZkError {
    open spec fn spec_is_tx_error(&self) -> bool {
        self is Transaction
    }

    fn is_tx_error(&self) -> (r: bool) {
        match self {
            ZkError::Transaction(_) => true,
            _ => false,
        }
    }
}

/// A code string that is an EIP-7702 delegation designation: `0xef0100`
/// followed by an address.
pub open spec fn spec_is_eip7702_code(c: Seq<u8>) -> bool {
    c.len() == 23 && c[0] == 0xef && c[1] == 0x01 && c[2] == 0x00
}

/// What the standard nonce-and-code validation of a caller account
/// decides.
pub open spec fn spec_validate_nonce_code(
    code: Option<Seq<u8>>,
    account_nonce: u64,
    tx_nonce: u64,
    is_eip3607_disabled: bool,
    is_nonce_check_disabled: bool,
) -> Option<InvalidTransaction> {
    if !is_eip3607_disabled && code is Some && code.unwrap().len() > 0 && !spec_is_eip7702_code(
        code.unwrap(),
    ) {
        Some(InvalidTransaction::RejectCallerWithCode)
    } else if !is_nonce_check_disabled {
        if tx_nonce == u64::MAX && account_nonce == u64::MAX {
            Some(InvalidTransaction::NonceOverflowInTransaction)
        } else if tx_nonce > account_nonce {
            Some(InvalidTransaction::NonceTooHigh { tx: tx_nonce, state: account_nonce })
        } else if tx_nonce < account_nonce {
            Some(InvalidTransaction::NonceTooLow { tx: tx_nonce, state: account_nonce })
        } else {
            None
        }
    } else {
        None
    }
}

/// The standard caller validation: reject a caller whose account carries
/// code other than a delegation designation, and a nonce that does not
/// match the account's.
pub fn validate_account_nonce_and_code(
    code: &Option<Vec<u8>>,
    account_nonce: u64,
    tx_nonce: u64,
    is_eip3607_disabled: bool,
    is_nonce_check_disabled: bool,
) -> (r: Result<(), InvalidTransaction>)
    ensures
        r is Ok <==> spec_validate_nonce_code(
            match code {
                Some(c) => Some(c@),
                None => None,
            },
            account_nonce,
            tx_nonce,
            is_eip3607_disabled,
            is_nonce_check_disabled,
        ) is None,
        r is Err ==> Some(r.unwrap_err()) == spec_validate_nonce_code(
            match code {
                Some(c) => Some(c@),
                None => None,
            },
            account_nonce,
            tx_nonce,
            is_eip3607_disabled,
            is_nonce_check_disabled,
        ),
{
    if !is_eip3607_disabled {
        let nonempty = match code {
            Some(c) => c.len() > 0,
            None => false,
        };
        if nonempty {
            let c = match code {
                Some(c) => c,
                None => {
                    return Err(InvalidTransaction::RejectCallerWithCode);
                },
            };
            let is_delegation = c.len() == 23 && c[0] == 0xef && c[1] == 0x01 && c[2] == 0x00;
            if !is_delegation {
                return Err(InvalidTransaction::RejectCallerWithCode);
            }
        }
    }
    if !is_nonce_check_disabled {
        if tx_nonce == u64::MAX && account_nonce == u64::MAX {
            return Err(InvalidTransaction::NonceOverflowInTransaction);
        }
        if tx_nonce > account_nonce {
            return Err(InvalidTransaction::NonceTooHigh { tx: tx_nonce, state: account_nonce });
        }
        if tx_nonce < account_nonce {
            return Err(InvalidTransaction::NonceTooLow { tx: tx_nonce, state: account_nonce });
        }
    }
    Ok(())
}

/// The caller account after the balance-and-nonce adjustment of an
/// accepted transaction: the mint credited, the gas part of the effective
/// spending debited, the account touched, and — for a call — the nonce
/// bumped.
pub open spec fn spec_deducted_caller(
    acct: AccountModel,
    mint: int,
    gas_spending: int,
    bump: bool,
) -> AccountModel {
    AccountModel {
        balance: {
            let credited = sat256(acct.balance + mint);
            if credited >= gas_spending {
                credited - gas_spending
            } else {
                0
            }
        },
        nonce: if bump {
            if acct.nonce < u64::MAX {
                (acct.nonce + 1) as nat
            } else {
                u64::MAX as nat
            }
        } else {
            acct.nonce
        },
        touched: true,
        ..acct
    }
}

/// The handler that runs one transaction end to end; the unmodified phases
/// delegate to the base engine, whose decisions enter as arguments.
#[derive(Clone, Copy, Debug)]
pub struct ZKsyncHandler {
}

impl Default for ZKsyncHandler {
    fn default() -> (r: ZKsyncHandler) {
        ZKsyncHandler::new()
    }
}

impl ZKsyncHandler {
    /// A new handler.
    pub fn new() -> (r: ZKsyncHandler) {
        ZKsyncHandler {  }
    }

    /// Environment validation: a cross-layer transaction is pre-verified on
    /// the settlement layer and skips the base engine's checks; an ordinary
    /// one stands or falls with them.
    pub fn validate_env(&self, tx: &ZKsyncTx, base_validation: Result<(), ZKsyncTxError>) -> (r:
        Result<(), ZkError>)
        ensures
            tx.spec_is_l1_to_l2() ==> r is Ok,
            !tx.spec_is_l1_to_l2() && base_validation is Ok ==> r is Ok,
            !tx.spec_is_l1_to_l2() && base_validation is Err ==> r
                == Err::<(), ZkError>(ZkError::Transaction(base_validation.unwrap_err())),
    {
        if tx.is_l1_to_l2_tx() {
            return Ok(());
        }
        match base_validation {
            Ok(_) => Ok(()),
            Err(e) => Err(ZkError::Transaction(e)),
        }
    }

    /// Loads the caller, runs the standard account checks for ordinary
    /// transactions, enforces that the balance plus the mint covers the
    /// worst-case spending, then debits the gas part of the effective
    /// spending and bumps the nonce for call-kind transactions.
    ///
    /// A cross-layer transaction skips the account checks and the funds
    /// check: it only lands its mint credit.
    pub fn validate_against_state_and_deduct_caller(
        &self,
        state: &mut JournalState,
        tx: &ZKsyncTx,
        block: &BlockEnv,
        cfg: &CfgEnv,
    ) -> (r: Result<(), ZkError>)
        requires
            old(state).wf(),
            tx.wf(),
        ensures
            final(state).wf(),
            final(state).logs@ == old(state).logs@,
            final(state).snapshot == old(state).snapshot,
            final(state).code_store@ == old(state).code_store@,
            spec_deduct_post(*old(state), *final(state), r, *tx, *block, *cfg),
    {
        let basefee: u128 = block.basefee as u128;
        let blob_price: u128 = match block.blob_gasprice {
            Some(p) => p,
            None => 0,
        };
        let is_l1_to_l2_tx = tx.is_l1_to_l2_tx();
        let mint = match tx.mint() {
            Some(m) => m,
            None => U256::zero(),
        };

        let caller = tx.caller();
        state.load_account(caller);

        if !is_l1_to_l2_tx {
            let code = state.code_of(caller);
            let account_nonce = state.nonce_of(caller);
            match validate_account_nonce_and_code(&code, account_nonce, tx.nonce(),
                cfg.is_eip3607_disabled, cfg.is_nonce_check_disabled) {
                Ok(_) => {},
                Err(e) => {
                    return Err(ZkError::Transaction(ZKsyncTxError::Base(e)));
                },
            }
        }

        let old_balance = state.balance_of(caller);
        let credited = old_balance.saturating_add(&mint);

        let max_balance_spending = match tx.max_balance_spending() {
            Ok(v) => v,
            Err(e) => {
                return Err(ZkError::Transaction(ZKsyncTxError::Base(e)));
            },
        };

        if !is_l1_to_l2_tx && credited.lt(&max_balance_spending) {
            // The caller cannot cover the worst case; reject with no
            // balance or nonce change.
            let e = InvalidTransaction::LackOfFundForMaxFee {
                fee: max_balance_spending,
                balance: credited,
            };
            proof {
                assert(exists|fee: U256, balance: U256|
                    fee.as_nat() == tx.spec_max_balance_spending() && balance.as_nat() == sat256(
                        spec_loaded_map(old(state).accounts_map(), tx.base.caller@)[tx.base.caller@].balance
                            + tx.spec_mint(),
                    ) && Err::<(), ZkError>(ZkError::Transaction(ZKsyncTxError::Base(e))) == Err::<
                        (),
                        ZkError,
                    >(ZkError::Transaction(ZKsyncTxError::Base(
                        InvalidTransaction::LackOfFundForMaxFee { fee, balance },
                    )))) by {
                    assert(max_balance_spending.as_nat() == tx.spec_max_balance_spending()
                        && credited.as_nat() == sat256(
                        spec_loaded_map(old(state).accounts_map(), tx.base.caller@)[tx.base.caller@].balance
                            + tx.spec_mint(),
                    ) && e == (InvalidTransaction::LackOfFundForMaxFee {
                        fee: max_balance_spending,
                        balance: credited,
                    }));
                }
            }
            return Err(ZkError::Transaction(ZKsyncTxError::Base(e)));
        }

        let effective_balance_spending = match tx.effective_balance_spending(basefee, blob_price) {
            Ok(v) => v,
            Err(_) => {
                // The effective spending never exceeds the worst case the
                // engine just computed, so it cannot overflow here.
                proof {
                    lemma_effective_le_max(*tx, basefee as int);
                }
                return Err(ZkError::Transaction(ZKsyncTxError::Base(
                    InvalidTransaction::OverflowPaymentInTransaction,
                )));
            },
        };

        // The value itself is deducted at call time; only the gas part
        // leaves the balance now.
        let gas_balance_spending = match effective_balance_spending.checked_sub(&tx.value()) {
            Some(v) => v,
            None => {
                // Unreachable: the effective spending includes the value.
                proof {
                    assert(false);
                }
                U256::zero()
            },
        };

        let new_balance = credited.saturating_sub(&gas_balance_spending);

        state.touch_account(caller);
        state.set_balance(caller, new_balance);

        let bump = match tx.kind() {
            TxKind::Call(_) => true,
            TxKind::Create => false,
        };
        if bump {
            state.bump_nonce(caller);
        }
        proof {
            lemma_effective_le_max(*tx, basefee as int);
            let k = tx.base.caller@;
            let m0 = spec_loaded_map(old(state).accounts_map(), k);
            let gas_spending = tx.spec_effective_balance_spending(block.basefee as int)
                - tx.base.value.as_nat();
            assert(state.accounts_map() =~= m0.insert(k,
                spec_deducted_caller(m0[k], tx.spec_mint(), gas_spending, tx.base.kind is Call)));
        }
        Ok(())
    }
}

/// The effective balance spending never exceeds the worst-case spending,
/// because the effective price never exceeds the declared maximum.
pub proof fn lemma_effective_le_max(tx: ZKsyncTx, base_fee: int)
    requires
        base_fee >= 0,
    ensures
        tx.spec_effective_gas_price(base_fee) <= tx.base.gas_price,
        tx.spec_effective_balance_spending(base_fee) <= tx.spec_max_balance_spending(),
        tx.base.gas_limit * tx.spec_effective_gas_price(base_fee) <= tx.base.gas_limit
            * tx.base.gas_price,
{
    vstd::arithmetic::mul::lemma_mul_inequality(
        tx.spec_effective_gas_price(base_fee),
        tx.base.gas_price as int,
        tx.base.gas_limit as int,
    );
    vstd::arithmetic::mul::lemma_mul_is_commutative(
        tx.base.gas_limit as int,
        tx.spec_effective_gas_price(base_fee),
    );
    vstd::arithmetic::mul::lemma_mul_is_commutative(tx.base.gas_limit as int,
        tx.base.gas_price as int);
}

/// A mathematical integer clamped to the 128-bit range.
pub open spec fn sat_u128(x: int) -> int {
    if x > u128::MAX {
        u128::MAX as int
    } else {
        x
    }
}

/// `m` with `amount` credited to `k`, the account created when absent and
/// the balance clamped at the largest representable value.
pub open spec fn spec_credit_map(m: Map<Seq<u8>, AccountModel>, k: Seq<u8>, amount: int) -> Map<
    Seq<u8>,
    AccountModel,
> {
    let m0 = spec_loaded_map(m, k);
    m0.insert(k, AccountModel { balance: sat256(m0[k].balance + amount), ..m0[k] })
}

/// `m` with both transfer parties loaded.
pub open spec fn spec_transfer_loaded(
    m: Map<Seq<u8>, AccountModel>,
    from: Seq<u8>,
    to: Seq<u8>,
) -> Map<Seq<u8>, AccountModel> {
    spec_loaded_map(spec_loaded_map(m, from), to)
}

/// `m` after moving `a` from `from` to `to`, the debit before the credit.
pub open spec fn spec_transfer_map(
    m: Map<Seq<u8>, AccountModel>,
    from: Seq<u8>,
    to: Seq<u8>,
    a: int,
) -> Map<Seq<u8>, AccountModel> {
    let m0 = spec_transfer_loaded(m, from, to);
    let m1 = m0.insert(from, AccountModel { balance: m0[from].balance - a, ..m0[from] });
    m1.insert(to, AccountModel { balance: m1[to].balance + a, ..m1[to] })
}

/// The gas a cross-layer settlement charges: the spent gas at the
/// effective price.
pub open spec fn spec_spent_fee(tx: ZKsyncTx, block: BlockEnv, gas: Gas) -> int {
    gas.spec_spent() * tx.spec_effective_gas_price(block.basefee as int)
}

/// The extra value a cross-layer transaction returns to its refund
/// recipient: the mint, less the value on success, less the fee spent.
pub open spec fn spec_additional_refund(
    tx: ZKsyncTx,
    block: BlockEnv,
    gas: Gas,
    success: bool,
) -> int {
    tx.spec_mint() - (if success {
        tx.base.value.as_nat()
    } else {
        0
    }) - spec_spent_fee(tx, block, gas)
}

/// Everything caller reimbursement guarantees: the unused-gas credit, and
/// for a cross-layer transaction the extra refund transfer with its
/// failure modes.
pub open spec fn spec_reimburse_post(
    pre: JournalState,
    post: JournalState,
    r: Result<(), ZkError>,
    tx: ZKsyncTx,
    block: BlockEnv,
    gas: Gas,
    success: bool,
) -> bool {
    let k = tx.base.caller@;
    let egp = tx.spec_effective_gas_price(block.basefee as int);
    let reimb = sat_u128(egp * (gas.remaining + gas.refunded));
    let m1 = spec_credit_map(pre.accounts_map(), k, reimb);
    if !tx.spec_is_l1_to_l2() {
        r is Ok && post.accounts_map() == m1
    } else {
        let rk = tx.l1_to_l2_part.refund_recipient.unwrap()@;
        let add = spec_additional_refund(tx, block, gas, success);
        let m2 = spec_transfer_loaded(m1, k, rk);
        let lacks = m2[k].balance < add;
        let m1b = m2.insert(k, AccountModel { balance: m2[k].balance - add, ..m2[k] });
        let overflows = m1b[rk].balance + add >= pow2_256();
        &&& (r is Ok <==> !lacks && !overflows)
        &&& (lacks ==> r == Err::<(), ZkError>(ZkError::Transfer(TransferError::OutOfFunds)))
        &&& (r is Err ==> r.unwrap_err() is Transfer)
        &&& (r is Ok ==> post.accounts_map() == spec_transfer_map(m1, k, rk, add))
        &&& (r is Err ==> post.accounts_map() == m2)
    }
}

impl ZKsyncHandler {
    /// Returns the unused-gas value to the caller; for a cross-layer
    /// transaction, additionally moves the unspent part of the mint to the
    /// designated refund recipient — also when execution failed, so a
    /// failed deposit still returns its minted value.
    pub fn reimburse_caller(
        &self,
        state: &mut JournalState,
        tx: &ZKsyncTx,
        block: &BlockEnv,
        gas: &Gas,
        success: bool,
    ) -> (r: Result<(), ZkError>)
        requires
            old(state).wf(),
            tx.wf(),
            gas.wf(),
            0 <= gas.refunded,
            gas.remaining + gas.refunded <= u64::MAX,
            tx.spec_is_l1_to_l2() ==> tx.l1_to_l2_part.refund_recipient is Some,
            tx.spec_is_l1_to_l2() ==> spec_additional_refund(*tx, *block, *gas, success) >= 0,
        ensures
            final(state).wf(),
            final(state).logs@ == old(state).logs@,
            final(state).snapshot == old(state).snapshot,
            final(state).code_store@ == old(state).code_store@,
            spec_reimburse_post(*old(state), *final(state), r, *tx, *block, *gas, success),
    {
        let basefee: u128 = block.basefee as u128;
        let egp = tx.effective_gas_price(basefee);
        let reimbursable: u64 = gas.remaining + gas.refunded as u64;
        let credit: u128 = match egp.checked_mul(reimbursable as u128) {
            Some(c) => c,
            None => u128::MAX,
        };
        let caller = tx.caller();
        state.credit_balance(caller, &U256::from_u128(credit));

        if tx.is_l1_to_l2_tx() {
            self.l1_refund_transfer(state, tx, block, gas, success)
        } else {
            Ok(())
        }
    }

    /// Moves the unspent part of a cross-layer transaction's mint from the
    /// caller to the designated refund recipient.
    fn l1_refund_transfer(
        &self,
        state: &mut JournalState,
        tx: &ZKsyncTx,
        block: &BlockEnv,
        gas: &Gas,
        success: bool,
    ) -> (r: Result<(), ZkError>)
        requires
            old(state).wf(),
            tx.wf(),
            gas.wf(),
            tx.spec_is_l1_to_l2(),
            tx.l1_to_l2_part.refund_recipient is Some,
            spec_additional_refund(*tx, *block, *gas, success) >= 0,
        ensures
            final(state).wf(),
            final(state).logs@ == old(state).logs@,
            final(state).snapshot == old(state).snapshot,
            final(state).code_store@ == old(state).code_store@,
            ({
                let k = tx.base.caller@;
                let rk = tx.l1_to_l2_part.refund_recipient.unwrap()@;
                let add = spec_additional_refund(*tx, *block, *gas, success);
                let m2 = spec_transfer_loaded(old(state).accounts_map(), k, rk);
                let lacks = m2[k].balance < add;
                let m1b = m2.insert(k, AccountModel { balance: m2[k].balance - add, ..m2[k] });
                let overflows = m1b[rk].balance + add >= pow2_256();
                &&& (r is Ok <==> !lacks && !overflows)
                &&& (lacks ==> r == Err::<(), ZkError>(ZkError::Transfer(TransferError::OutOfFunds)))
                &&& (r is Err ==> r.unwrap_err() is Transfer)
                &&& (r is Ok ==> final(state).accounts_map() == spec_transfer_map(
                    old(state).accounts_map(), k, rk, add))
                &&& (r is Err ==> final(state).accounts_map() == m2)
            }),
    {
        let basefee: u128 = block.basefee as u128;
        let egp = tx.effective_gas_price(basefee);
        let caller = tx.caller();
        let recipient = match tx.refund_recipient() {
            Some(a) => a,
            None => {
                // Unreachable: a cross-layer transaction names a recipient.
                proof {
                    assert(false);
                }
                return Ok(());
            },
        };
        let spent = gas.spent();
        let spent_fee = U256::from_u64(spent).saturating_mul(&U256::from_u128(egp));
        proof {
            lemma_mul_fits_192(spent as int, egp as int);
            vstd::arithmetic::mul::lemma_mul_nonnegative(spent as int, egp as int);
        }
        let mint = match tx.mint() {
            Some(m) => m,
            None => U256::zero(),
        };
        let base_refund = if success {
            match mint.checked_sub(&tx.value()) {
                Some(v) => v,
                None => {
                    // Unreachable: the refund never goes negative.
                    proof {
                        assert(false);
                    }
                    U256::zero()
                },
            }
        } else {
            mint
        };
        let additional_refund = match base_refund.checked_sub(&spent_fee) {
            Some(v) => v,
            None => {
                // Unreachable: the refund never goes negative.
                proof {
                    assert(false);
                }
                U256::zero()
            },
        };
        let tr = state.transfer(caller, recipient, &additional_refund);
        proof {
            assert(additional_refund.as_nat() == spec_additional_refund(*tx, *block, *gas,
                success));
        }
        match tr {
            Ok(_) => Ok(()),
            Err(e) => Err(ZkError::Transfer(e)),
        }
    }

    /// Pays the beneficiary the execution fee: the effective price times
    /// the gas finally used.
    pub fn reward_beneficiary(
        &self,
        state: &mut JournalState,
        tx: &ZKsyncTx,
        block: &BlockEnv,
        gas: &Gas,
    ) -> (r: Result<(), ZkError>)
        requires
            old(state).wf(),
            tx.wf(),
            block.wf(),
            gas.wf(),
            0 <= gas.refunded,
            tx.spec_effective_gas_price(block.basefee as int) * (gas.spec_spent() - gas.refunded)
                <= u128::MAX || gas.spec_spent() <= gas.refunded,
        ensures
            final(state).wf(),
            final(state).logs@ == old(state).logs@,
            final(state).snapshot == old(state).snapshot,
            final(state).code_store@ == old(state).code_store@,
            r is Ok,
            ({
                let egp = tx.spec_effective_gas_price(block.basefee as int);
                let used = if gas.spec_spent() >= gas.refunded {
                    gas.spec_spent() - gas.refunded
                } else {
                    0
                };
                final(state).accounts_map() == spec_credit_map(old(state).accounts_map(),
                    block.beneficiary@, egp * used)
            }),
    {
        let basefee: u128 = block.basefee as u128;
        let egp = tx.effective_gas_price(basefee);
        let used = gas.used();
        proof {
            if gas.spec_spent() <= gas.refunded {
                assert(used == 0);
                vstd::arithmetic::mul::lemma_mul_by_zero_is_zero(egp as int);
            } else {
                vstd::arithmetic::mul::lemma_mul_nonnegative(egp as int, used as int);
            }
        }
        let fee: u128 = egp * used as u128;
        state.credit_balance(&block.beneficiary, &U256::from_u128(fee));
        Ok(())
    }
}

/// The gas refunds may reclaim: a fifth of the spent gas.
pub const MAX_REFUND_QUOTIENT: u64 = 5;

/// The gas counter after the post-execution rewrite.
///
/// With a gas-used override, accounting is rewritten to exactly that value
/// (capped at the limit) and standard refunds are suppressed; otherwise the
/// standard refund cap and the calldata gas floor apply.
pub open spec fn spec_post_gas(
    gas: Gas,
    gas_used_override: Option<u64>,
    limit: u64,
    floor: u64,
    eip7702_refund: int,
) -> Gas {
    match gas_used_override {
        Some(o) => {
            let used = if o <= limit {
                o
            } else {
                limit
            };
            Gas { limit, remaining: (limit - used) as u64, refunded: 0 }
        },
        None => {
            let spent = limit - gas.remaining;
            let refunded1 = gas.refunded + eip7702_refund;
            let refunded2 = if refunded1 <= spent as int / 5 {
                refunded1
            } else {
                spent as int / 5
            };
            let used_after = spent - refunded2;
            if used_after < floor {
                Gas {
                    limit,
                    remaining: if floor <= limit {
                        (limit - floor) as u64
                    } else {
                        0
                    },
                    refunded: 0,
                }
            } else {
                Gas { limit, remaining: gas.remaining, refunded: refunded2 as i64 }
            }
        },
    }
}

/// The caller-facing state after a successful settlement: the unused-gas
/// credit, the cross-layer refund transfer if one applies.
pub open spec fn spec_reimburse_map_ok(
    m: Map<Seq<u8>, AccountModel>,
    tx: ZKsyncTx,
    block: BlockEnv,
    gas: Gas,
    success: bool,
) -> Map<Seq<u8>, AccountModel> {
    let k = tx.base.caller@;
    let egp = tx.spec_effective_gas_price(block.basefee as int);
    let m1 = spec_credit_map(m, k, sat_u128(egp * (gas.remaining + gas.refunded)));
    if !tx.spec_is_l1_to_l2() {
        m1
    } else {
        spec_transfer_map(m1, k, tx.l1_to_l2_part.refund_recipient.unwrap()@,
            spec_additional_refund(tx, block, gas, success))
    }
}

/// Whether the settlement's refund transfer can be applied.
pub open spec fn spec_reimburse_ok(
    m: Map<Seq<u8>, AccountModel>,
    tx: ZKsyncTx,
    block: BlockEnv,
    gas: Gas,
    success: bool,
) -> bool {
    if !tx.spec_is_l1_to_l2() {
        true
    } else {
        let k = tx.base.caller@;
        let egp = tx.spec_effective_gas_price(block.basefee as int);
        let m1 = spec_credit_map(m, k, sat_u128(egp * (gas.remaining + gas.refunded)));
        let rk = tx.l1_to_l2_part.refund_recipient.unwrap()@;
        let add = spec_additional_refund(tx, block, gas, success);
        let m2 = spec_transfer_loaded(m1, k, rk);
        let m1b = m2.insert(k, AccountModel { balance: m2[k].balance - add, ..m2[k] });
        m2[k].balance >= add && m1b[rk].balance + add < pow2_256()
    }
}

/// The full state after a successful settlement: reimbursement, then the
/// beneficiary's reward.
pub open spec fn spec_settled_map(
    m: Map<Seq<u8>, AccountModel>,
    tx: ZKsyncTx,
    block: BlockEnv,
    gas: Gas,
    success: bool,
) -> Map<Seq<u8>, AccountModel> {
    let egp = tx.spec_effective_gas_price(block.basefee as int);
    let used = if gas.spec_spent() >= gas.refunded {
        gas.spec_spent() - gas.refunded
    } else {
        0
    };
    spec_credit_map(spec_reimburse_map_ok(m, tx, block, gas, success), block.beneficiary@,
        egp * used)
}

impl ZKsyncHandler {
    /// Post-execution settlement: with a gas-used override the gas
    /// accounting is rewritten to exactly that value (capped at the limit)
    /// and standard refunds are suppressed; otherwise the standard refund
    /// and calldata-floor logic runs. Either way the caller is reimbursed
    /// and the beneficiary rewarded from the resulting counter.
    pub fn post_execution(
        &self,
        state: &mut JournalState,
        tx: &ZKsyncTx,
        block: &BlockEnv,
        exec_result: &mut InterpreterResult,
        init_and_floor_gas: InitialAndFloorGas,
        eip7702_gas_refund: i64,
    ) -> (r: Result<(), ZkError>)
        requires
            old(state).wf(),
            tx.wf(),
            block.wf(),
            old(exec_result).gas.wf(),
            old(exec_result).gas.limit == tx.base.gas_limit,
            0 <= old(exec_result).gas.refunded,
            0 <= eip7702_gas_refund,
            old(exec_result).gas.refunded + eip7702_gas_refund <= i64::MAX,
            ({
                let g = spec_post_gas(old(exec_result).gas, tx.gas_used_override,
                    tx.base.gas_limit, init_and_floor_gas.floor_gas, eip7702_gas_refund as int);
                let success = old(exec_result).result.is_ok();
                &&& (tx.spec_is_l1_to_l2() ==> tx.l1_to_l2_part.refund_recipient is Some
                    && spec_additional_refund(*tx, *block, g, success) >= 0)
                &&& tx.spec_effective_gas_price(block.basefee as int) * (g.spec_spent()
                    - g.refunded) <= u128::MAX || g.spec_spent() <= g.refunded
            }),
        ensures
            final(state).wf(),
            final(state).logs@ == old(state).logs@,
            final(state).snapshot == old(state).snapshot,
            final(state).code_store@ == old(state).code_store@,
            final(exec_result).result == old(exec_result).result,
            final(exec_result).output == old(exec_result).output,
            final(exec_result).gas == spec_post_gas(old(exec_result).gas, tx.gas_used_override,
                tx.base.gas_limit, init_and_floor_gas.floor_gas, eip7702_gas_refund as int),
            final(exec_result).gas.wf(),
            0 <= final(exec_result).gas.refunded,
            ({
                let g = spec_post_gas(old(exec_result).gas, tx.gas_used_override,
                    tx.base.gas_limit, init_and_floor_gas.floor_gas, eip7702_gas_refund as int);
                let success = old(exec_result).result.is_ok();
                let ok = spec_reimburse_ok(old(state).accounts_map(), *tx, *block, g, success);
                &&& (r is Ok <==> ok)
                &&& (r is Ok ==> final(state).accounts_map() == spec_settled_map(
                    old(state).accounts_map(), *tx, *block, g, success))
                &&& (r is Err ==> r.unwrap_err() is Transfer)
            }),
    {
        let gas_limit = tx.gas_limit();
        match tx.gas_used_override() {
            Some(gas_used_override) => {
                // Use at most the gas limit, to keep the arithmetic sound.
                let used = if gas_used_override <= gas_limit {
                    gas_used_override
                } else {
                    gas_limit
                };
                let unused = gas_limit - used;
                // Rewrite the counter; standard refunds are deliberately
                // not recorded here.
                exec_result.gas = Gas::new_spent(gas_limit);
                exec_result.gas.erase_cost(unused);
            },
            None => {
                // The standard path: cap the refund, then apply the
                // calldata gas floor.
                exec_result.gas.record_refund(eip7702_gas_refund);
                let spent = exec_result.gas.spent();
                let cap = spent / MAX_REFUND_QUOTIENT;
                if exec_result.gas.refunded as u64 > cap {
                    exec_result.gas.refunded = cap as i64;
                }
                let used_after = spent - exec_result.gas.refunded as u64;
                if used_after < init_and_floor_gas.floor_gas {
                    let floor = init_and_floor_gas.floor_gas;
                    exec_result.gas.remaining = if floor <= gas_limit {
                        gas_limit - floor
                    } else {
                        0
                    };
                    exec_result.gas.refunded = 0;
                }
            },
        }
        let gas_snapshot = exec_result.gas;
        let success = match exec_result.result {
            InstructionResult::Return => true,
            InstructionResult::Stop => true,
            _ => false,
        };
        self.reimburse_caller(state, tx, block, &gas_snapshot, success)?;
        self.reward_beneficiary(state, tx, block, &gas_snapshot)?;
        Ok(())
    }
}

/// The caller account after the deposit recovery path: the nonce bumped
/// and the mint landed, whatever else the transaction tried to do.
pub open spec fn spec_caught_deposit_map(
    m: Map<Seq<u8>, AccountModel>,
    tx: ZKsyncTx,
) -> Map<Seq<u8>, AccountModel> {
    let k = tx.base.caller@;
    let m0 = spec_loaded_map(m, k);
    let acct = m0[k];
    m0.insert(k, AccountModel {
        nonce: if acct.nonce < u64::MAX {
            (acct.nonce + 1) as nat
        } else {
            u64::MAX as nat
        },
        balance: sat256(acct.balance + tx.spec_mint()),
        ..acct
    })
}

/// The gas counter of the synthesized forced-failure frame: everything
/// spent up to the override (or the whole limit), nothing refunded.
pub open spec fn spec_forced_gas(tx: ZKsyncTx) -> Gas {
    let limit = tx.base.gas_limit;
    let used = match tx.gas_used_override {
        Some(o) => if o <= limit {
            o
        } else {
            limit
        },
        None => limit,
    };
    Gas { limit, remaining: (limit - used) as u64, refunded: 0 }
}

impl ZKsyncHandler {
    /// Surfaces a queued engine error first — a database error propagates,
    /// a custom one becomes a string-carrying error — then wraps the frame
    /// result into the final taxonomy and commits the journal.
    pub fn execution_result(
        &self,
        state: &mut JournalState,
        tx: &ZKsyncTx,
        frame_result: InterpreterResult,
        engine_error: Option<ContextError>,
    ) -> (r: Result<ExecutionResult, ZkError>)
        requires
            old(state).wf(),
            frame_result.gas.wf(),
            0 <= frame_result.gas.refunded,
        ensures
            final(state).wf(),
            final(state).accounts_map() == old(state).accounts_map(),
            final(state).logs@ == old(state).logs@,
            final(state).code_store@ == old(state).code_store@,
            match engine_error {
                Some(ContextError::Db(e)) => r == Err::<ExecutionResult, ZkError>(
                    ZkError::Database(e),
                ) && final(state).snapshot == old(state).snapshot,
                Some(ContextError::Custom(e)) => r == Err::<ExecutionResult, ZkError>(
                    ZkError::Custom(e),
                ) && final(state).snapshot == old(state).snapshot,
                None => r is Ok && final(state).snapshot is None,
            },
            engine_error is None ==> ({
                let res = r.unwrap();
                let used = if frame_result.gas.spec_spent() >= frame_result.gas.refunded {
                    frame_result.gas.spec_spent() - frame_result.gas.refunded
                } else {
                    0
                };
                &&& (frame_result.result.is_ok() ==> res is Success && res.spec_gas_used() == used
                    && res.arrow_Success_output()@ == frame_result.output@)
                &&& (frame_result.result is Revert ==> res is Revert && res.spec_gas_used() == used
                    && res.arrow_Revert_output()@ == frame_result.output@)
                &&& (frame_result.result is OutOfGas ==> res == ExecutionResult::Halt {
                    reason: ZkHaltReason::Base(HaltReason::OutOfGas),
                    gas_used: (frame_result.gas.limit - frame_result.gas.remaining) as u64,
                })
            }),
    {
        match engine_error {
            Some(ContextError::Db(e)) => {
                return Err(ZkError::Database(e));
            },
            Some(ContextError::Custom(e)) => {
                return Err(ZkError::Custom(e));
            },
            None => {},
        }
        let gas_used = frame_result.gas.used();
        let result = match frame_result.result {
            InstructionResult::Return => ExecutionResult::Success {
                gas_used,
                output: frame_result.output,
            },
            InstructionResult::Stop => ExecutionResult::Success {
                gas_used,
                output: frame_result.output,
            },
            InstructionResult::Revert => ExecutionResult::Revert {
                gas_used,
                output: frame_result.output,
            },
            InstructionResult::OutOfGas => ExecutionResult::Halt {
                reason: ZkHaltReason::Base(HaltReason::OutOfGas),
                gas_used: frame_result.gas.spent(),
            },
        };
        state.commit_tx();
        Ok(result)
    }

    /// Synthesizes the forced-failure outcome: a top-level revert with no
    /// output, charged the overridden gas usage.
    pub fn forced_failure_frame(&self, tx: &ZKsyncTx) -> (r: InterpreterResult)
        ensures
            r.result is Revert,
            r.output@.len() == 0,
            r.gas == spec_forced_gas(*tx),
            r.gas.wf(),
    {
        let gas_limit = tx.gas_limit();
        let gas_used = match tx.gas_used_override() {
            Some(o) => o,
            None => gas_limit,
        };
        let used = if gas_used <= gas_limit {
            gas_used
        } else {
            gas_limit
        };
        let unused = gas_limit - used;
        let mut gas = Gas::new_spent(gas_limit);
        gas.erase_cost(unused);
        InterpreterResult::new(InstructionResult::Revert, Vec::new(), gas)
    }

    /// Runs the whole lifecycle of one transaction, without the deposit
    /// recovery path: validation, caller deduction, execution — the
    /// interpreter's outcome entering as `frame_input`, or synthesized for
    /// a forced failure — settlement, and commit.
    ///
    /// On any error the transaction's checkpoint is left open, holding the
    /// pre-transaction state for the caller to roll back to.
    pub fn run_without_catch_error(
        &self,
        state: &mut JournalState,
        tx: &ZKsyncTx,
        block: &BlockEnv,
        cfg: &CfgEnv,
        base_env_validation: Result<(), ZKsyncTxError>,
        init_and_floor_gas: InitialAndFloorGas,
        frame_input: InterpreterResult,
        engine_error: Option<ContextError>,
    ) -> (r: Result<ExecutionResult, ZkError>)
        requires
            old(state).wf(),
            tx.wf(),
            block.wf(),
            frame_input.gas.wf(),
            frame_input.gas.limit == tx.base.gas_limit,
            0 <= frame_input.gas.refunded,
            ({
                let g0 = if tx.force_fail {
                    spec_forced_gas(*tx)
                } else {
                    frame_input.gas
                };
                let success0 = if tx.force_fail {
                    false
                } else {
                    frame_input.result.is_ok()
                };
                let g = spec_post_gas(g0, tx.gas_used_override, tx.base.gas_limit,
                    init_and_floor_gas.floor_gas, 0);
                &&& (tx.spec_is_l1_to_l2() ==> tx.l1_to_l2_part.refund_recipient is Some
                    && spec_additional_refund(*tx, *block, g, success0) >= 0)
                &&& tx.spec_effective_gas_price(block.basefee as int) * (g.spec_spent()
                    - g.refunded) <= u128::MAX || g.spec_spent() <= g.refunded
            }),
        ensures
            final(state).wf(),
            final(state).code_store@ == old(state).code_store@,
            r is Err ==> final(state).snapshot is Some && final(state).checkpoint_map() == old(
                state,
            ).accounts_map() && final(state).checkpoint_log_len() == old(state).logs@.len()
                && final(state).logs@ == old(state).logs@,
            r is Ok ==> final(state).snapshot is None,
            r is Ok ==> !(r.unwrap() is Halt && r.unwrap().arrow_Halt_reason() is FailedDeposit),
            !tx.spec_is_l1_to_l2() && base_env_validation is Err ==> r
                == Err::<ExecutionResult, ZkError>(ZkError::Transaction(
                base_env_validation.unwrap_err(),
            )) && final(state).accounts_map() == old(state).accounts_map(),
            ({
                let env_ok = tx.spec_is_l1_to_l2() || base_env_validation is Ok;
                let g0 = if tx.force_fail {
                    spec_forced_gas(*tx)
                } else {
                    frame_input.gas
                };
                let success0 = if tx.force_fail {
                    false
                } else {
                    frame_input.result.is_ok()
                };
                let g = spec_post_gas(g0, tx.gas_used_override, tx.base.gas_limit,
                    init_and_floor_gas.floor_gas, 0);
                let dmap = spec_deducted_map(*old(state), *tx, *block);
                let settle_ok = spec_reimburse_ok(dmap, *tx, *block, g, success0);
                &&& (r is Ok <==> env_ok && spec_deduct_ok(*old(state), *tx, *block, *cfg)
                    && settle_ok && engine_error is None)
                &&& (env_ok && !spec_deduct_ok(*old(state), *tx, *block, *cfg) ==> r is Err
                    && r.unwrap_err() is Transaction)
                &&& (r is Ok ==> final(state).accounts_map() == spec_settled_map(dmap, *tx, *block,
                    g, success0) && final(state).logs@ == old(state).logs@)
                &&& (r is Ok ==> ({
                    let res = r.unwrap();
                    let used = if g.spec_spent() >= g.refunded {
                        g.spec_spent() - g.refunded
                    } else {
                        0
                    };
                    &&& (!tx.force_fail && frame_input.result.is_ok() ==> res is Success
                        && res.spec_gas_used() == used)
                    &&& ((tx.force_fail || frame_input.result is Revert) ==> res is Revert
                        && res.spec_gas_used() == used)
                    &&& (!tx.force_fail && frame_input.result is OutOfGas ==> res is Halt
                        && res.spec_gas_used() == g.spec_spent())
                }))
            }),
    {
        state.checkpoint();
        match self.validate_env(tx, base_env_validation) {
            Ok(_) => {},
            Err(e) => {
                return Err(e);
            },
        }
        match self.validate_against_state_and_deduct_caller(state, tx, block, cfg) {
            Ok(_) => {},
            Err(e) => {
                return Err(e);
            },
        }
        // The forced-failure short circuit stands in for real execution;
        // otherwise the interpreter's outcome is taken as handed in.
        let mut exec_result = if tx.force_fail() {
            self.forced_failure_frame(tx)
        } else {
            frame_input
        };
        match self.post_execution(state, tx, block, &mut exec_result, init_and_floor_gas, 0) {
            Ok(_) => {},
            Err(e) => {
                return Err(e);
            },
        }
        self.execution_result(state, tx, exec_result, engine_error)
    }

    /// Runs one transaction with the deposit recovery path: when the run
    /// fails with a transaction-level error and the transaction is
    /// cross-layer, every journaled effect is discarded and exactly two
    /// effects are re-applied — the nonce bump and the mint credit — with
    /// the full gas limit charged and a `FailedDeposit` halt reported.
    /// Any other error propagates after the same rollback.
    pub fn run(
        &self,
        state: &mut JournalState,
        tx: &ZKsyncTx,
        block: &BlockEnv,
        cfg: &CfgEnv,
        base_env_validation: Result<(), ZKsyncTxError>,
        init_and_floor_gas: InitialAndFloorGas,
        frame_input: InterpreterResult,
        engine_error: Option<ContextError>,
    ) -> (r: Result<ExecutionResult, ZkError>)
        requires
            old(state).wf(),
            tx.wf(),
            block.wf(),
            frame_input.gas.wf(),
            frame_input.gas.limit == tx.base.gas_limit,
            0 <= frame_input.gas.refunded,
            ({
                let g0 = if tx.force_fail {
                    spec_forced_gas(*tx)
                } else {
                    frame_input.gas
                };
                let success0 = if tx.force_fail {
                    false
                } else {
                    frame_input.result.is_ok()
                };
                let g = spec_post_gas(g0, tx.gas_used_override, tx.base.gas_limit,
                    init_and_floor_gas.floor_gas, 0);
                &&& (tx.spec_is_l1_to_l2() ==> tx.l1_to_l2_part.refund_recipient is Some
                    && spec_additional_refund(*tx, *block, g, success0) >= 0)
                &&& tx.spec_effective_gas_price(block.basefee as int) * (g.spec_spent()
                    - g.refunded) <= u128::MAX || g.spec_spent() <= g.refunded
            }),
        ensures
            final(state).wf(),
            final(state).code_store@ == old(state).code_store@,
            final(state).snapshot is None,
            // A failed deposit always lands its mint and its nonce bump,
            // has the whole gas limit charged, and nothing else persists.
            r is Ok && r.unwrap() == (ExecutionResult::Halt {
                reason: ZkHaltReason::FailedDeposit,
                gas_used: tx.base.gas_limit,
            }) ==> final(state).accounts_map() == spec_caught_deposit_map(
                old(state).accounts_map(),
                *tx,
            ),
            // Only a cross-layer transaction can halt as a failed deposit.
            !tx.spec_is_l1_to_l2() && r is Ok ==> !(r.unwrap() is Halt
                && r.unwrap().arrow_Halt_reason() is FailedDeposit),
            // Any propagated error leaves the pre-transaction state.
            r is Err ==> final(state).accounts_map() == old(state).accounts_map()
                && final(state).logs@ == old(state).logs@,
            ({
                let env_ok = tx.spec_is_l1_to_l2() || base_env_validation is Ok;
                let g0 = if tx.force_fail {
                    spec_forced_gas(*tx)
                } else {
                    frame_input.gas
                };
                let success0 = if tx.force_fail {
                    false
                } else {
                    frame_input.result.is_ok()
                };
                let g = spec_post_gas(g0, tx.gas_used_override, tx.base.gas_limit,
                    init_and_floor_gas.floor_gas, 0);
                let dmap = spec_deducted_map(*old(state), *tx, *block);
                let settle_ok = spec_reimburse_ok(dmap, *tx, *block, g, success0);
                // When every phase goes through, the settled state and the
                // frame's own classification come out unchanged.
                &&& (env_ok && spec_deduct_ok(*old(state), *tx, *block, *cfg) && settle_ok
                    && engine_error is None ==> r is Ok && final(state).accounts_map()
                    == spec_settled_map(dmap, *tx, *block, g, success0))
                // A cross-layer transaction the adjustment rejects is the
                // failed deposit: it halts as one, with the whole limit
                // charged and exactly the mint and the nonce landing.
                &&& (tx.spec_is_l1_to_l2() && !spec_deduct_ok(*old(state), *tx, *block, *cfg)
                    ==> r is Ok && r.unwrap() == (ExecutionResult::Halt {
                    reason: ZkHaltReason::FailedDeposit,
                    gas_used: tx.base.gas_limit,
                }) && final(state).accounts_map() == spec_caught_deposit_map(
                    old(state).accounts_map(),
                    *tx,
                ))
            }),
    {
        let outcome = self.run_without_catch_error(state, tx, block, cfg, base_env_validation,
            init_and_floor_gas, frame_input, engine_error);
        match outcome {
            Ok(res) => Ok(res),
            Err(e) => {
                if e.is_tx_error() && tx.is_l1_to_l2_tx() {
                    // The deposit recovery path: drop everything the
                    // transaction did, then land the mint and the nonce
                    // bump so the deposit still takes effect.
                    state.discard_tx();
                    let caller = tx.caller();
                    state.load_account(caller);
                    state.bump_nonce(caller);
                    let mint = match tx.mint() {
                        Some(m) => m,
                        None => U256::zero(),
                    };
                    state.credit_balance(caller, &mint);
                    proof {
                        assert(state.accounts_map() =~= spec_caught_deposit_map(
                            old(state).accounts_map(), *tx));
                    }
                    Ok(ExecutionResult::Halt {
                        reason: ZkHaltReason::FailedDeposit,
                        gas_used: tx.gas_limit(),
                    })
                } else {
                    // Propagate after dropping the transaction's effects.
                    state.discard_tx();
                    Err(e)
                }
            },
        }
    }
}

/// A failed deposit still lands: after the recovery path, the caller's
/// nonce has risen by exactly one and its balance carries the full mint,
/// whatever else the transaction tried to do. (At the nonce ceiling the
/// bump clamps, and a mint pushing the balance over the 256-bit range
/// clamps with it; both lie outside this statement.)
pub proof fn lemma_failed_deposit_lands_mint(m: Map<Seq<u8>, AccountModel>, tx: ZKsyncTx)
    requires
        spec_loaded_map(m, tx.base.caller@)[tx.base.caller@].nonce < u64::MAX,
        spec_loaded_map(m, tx.base.caller@)[tx.base.caller@].balance + tx.spec_mint() < pow2_256(),
    ensures
        ({
            let k = tx.base.caller@;
            let before = spec_loaded_map(m, k)[k];
            let after = spec_caught_deposit_map(m, tx)[k];
            &&& after.nonce == before.nonce + 1
            &&& after.balance == before.balance + tx.spec_mint()
        }),
{
}

/// An ordinary transaction that cannot cover its worst-case spending is
/// rejected with the insufficient-funds error, and neither its balance nor
/// its nonce changes.
pub proof fn lemma_insufficient_funds_rejected(
    pre: JournalState,
    post: JournalState,
    r: Result<(), ZkError>,
    tx: ZKsyncTx,
    block: BlockEnv,
    cfg: CfgEnv,
)
    requires
        spec_deduct_post(pre, post, r, tx, block, cfg),
        !tx.spec_is_l1_to_l2(),
        spec_validate_nonce_code(
            spec_loaded_map(pre.accounts_map(), tx.base.caller@)[tx.base.caller@].code,
            spec_loaded_map(pre.accounts_map(), tx.base.caller@)[tx.base.caller@].nonce as u64,
            tx.base.nonce,
            cfg.is_eip3607_disabled,
            cfg.is_nonce_check_disabled,
        ) is None,
        tx.base.gas_limit * tx.base.gas_price < pow2_128(),
        tx.spec_max_balance_spending() < pow2_256(),
        sat256(
            spec_loaded_map(pre.accounts_map(), tx.base.caller@)[tx.base.caller@].balance
                + tx.spec_mint(),
        ) < tx.spec_max_balance_spending(),
    ensures
        r is Err,
        r.unwrap_err() is Transaction,
        ({
            let k = tx.base.caller@;
            let before = spec_loaded_map(pre.accounts_map(), k)[k];
            &&& post.accounts_map()[k].balance == before.balance
            &&& post.accounts_map()[k].nonce == before.nonce
        }),
        exists|fee: U256, balance: U256|
            #![auto]
            r == Err::<(), ZkError>(ZkError::Transaction(ZKsyncTxError::Base(
                InvalidTransaction::LackOfFundForMaxFee { fee, balance },
            ))),
{
}

/// A 64-bit quantity times a 128-bit quantity stays under `2^256`.
pub proof fn lemma_mul_fits_192(a: int, b: int)
    requires
        0 <= a <= u64::MAX,
        0 <= b <= u128::MAX,
    ensures
        0 <= a * b < pow2_256(),
{
    vstd::arithmetic::mul::lemma_mul_upper_bound(a, u64::MAX as int, b, u128::MAX as int);
    vstd::arithmetic::mul::lemma_mul_nonnegative(a, b);
}

/// Whether the balance-and-nonce adjustment accepts the transaction.
pub open spec fn spec_deduct_ok(
    pre: JournalState,
    tx: ZKsyncTx,
    block: BlockEnv,
    cfg: CfgEnv,
) -> bool {
    let k = tx.base.caller@;
    let m0 = spec_loaded_map(pre.accounts_map(), k);
    let acct = m0[k];
    let is_l1 = tx.spec_is_l1_to_l2();
    let nonce_code_err = spec_validate_nonce_code(acct.code, acct.nonce as u64, tx.base.nonce,
        cfg.is_eip3607_disabled, cfg.is_nonce_check_disabled);
    let max_overflows = tx.base.gas_limit * tx.base.gas_price >= pow2_128()
        || tx.spec_max_balance_spending() >= pow2_256();
    let lacks_funds = sat256(acct.balance + tx.spec_mint()) < tx.spec_max_balance_spending();
    &&& (is_l1 || nonce_code_err is None)
    &&& !max_overflows
    &&& (is_l1 || !lacks_funds)
}

/// The state the balance-and-nonce adjustment leaves on acceptance.
pub open spec fn spec_deducted_map(
    pre: JournalState,
    tx: ZKsyncTx,
    block: BlockEnv,
) -> Map<Seq<u8>, AccountModel> {
    let k = tx.base.caller@;
    let m0 = spec_loaded_map(pre.accounts_map(), k);
    let gas_spending = tx.spec_effective_balance_spending(block.basefee as int)
        - tx.base.value.as_nat();
    m0.insert(k, spec_deducted_caller(m0[k], tx.spec_mint(), gas_spending, tx.base.kind is Call))
}

/// Everything the balance-and-nonce adjustment guarantees: which error
/// comes out on which input, and the exact caller account it leaves.
pub open spec fn spec_deduct_post(
    pre: JournalState,
    post: JournalState,
    r: Result<(), ZkError>,
    tx: ZKsyncTx,
    block: BlockEnv,
    cfg: CfgEnv,
) -> bool {
    let k = tx.base.caller@;
    let m0 = spec_loaded_map(pre.accounts_map(), k);
    let acct = m0[k];
    let is_l1 = tx.spec_is_l1_to_l2();
    let mint = tx.spec_mint();
    let nonce_code_err = spec_validate_nonce_code(acct.code, acct.nonce as u64, tx.base.nonce,
        cfg.is_eip3607_disabled, cfg.is_nonce_check_disabled);
    let max_overflows = tx.base.gas_limit * tx.base.gas_price >= pow2_128()
        || tx.spec_max_balance_spending() >= pow2_256();
    let credited = sat256(acct.balance + mint);
    let lacks_funds = credited < tx.spec_max_balance_spending();
    let gas_spending = tx.spec_effective_balance_spending(block.basefee as int)
        - tx.base.value.as_nat();
    let bump = tx.base.kind is Call;
    if !is_l1 && nonce_code_err is Some {
        r == Err::<(), ZkError>(ZkError::Transaction(ZKsyncTxError::Base(nonce_code_err.unwrap())))
            && post.accounts_map() == m0
    } else if max_overflows {
        r == Err::<(), ZkError>(ZkError::Transaction(ZKsyncTxError::Base(
            InvalidTransaction::OverflowPaymentInTransaction,
        ))) && post.accounts_map() == m0
    } else if !is_l1 && lacks_funds {
        (exists|fee: U256, balance: U256|
            fee.as_nat() == tx.spec_max_balance_spending() && balance.as_nat() == credited && r
                == Err::<(), ZkError>(ZkError::Transaction(ZKsyncTxError::Base(
                InvalidTransaction::LackOfFundForMaxFee { fee, balance },
            )))) && post.accounts_map() == m0
    } else {
        r is Ok && post.accounts_map() == m0.insert(k,
            spec_deducted_caller(acct, mint, gas_spending, bump),
        )
    }
}

} // verus!
