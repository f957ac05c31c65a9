//! The standard caller checks: nonce ordering, the code rejection, and the
//! fee-overflow rejection.

use zksync_os::handler::validate_account_nonce_and_code;
use zksync_os::transaction::abstraction::{TxEnv, TxKind, ZKsyncTx};
use zksync_os::transaction::error::InvalidTransaction;
use zksync_os::address::Address;
use zksync_os::u256::U256;

fn addr(last: u8) -> Address {
    let mut bytes = vec![0u8; 19];
    bytes.push(last);
    Address { bytes }
}

#[test]
fn matching_nonce_and_no_code_pass() {
    assert!(validate_account_nonce_and_code(&None, 7, 7, false, false).is_ok());
}

#[test]
fn nonce_too_high_and_too_low() {
    assert_eq!(
        validate_account_nonce_and_code(&None, 1, 2, false, false),
        Err(InvalidTransaction::NonceTooHigh { tx: 2, state: 1 })
    );
    assert_eq!(
        validate_account_nonce_and_code(&None, 3, 2, false, false),
        Err(InvalidTransaction::NonceTooLow { tx: 2, state: 3 })
    );
}

#[test]
fn nonce_ceiling_is_rejected() {
    assert_eq!(
        validate_account_nonce_and_code(&None, u64::MAX, u64::MAX, false, false),
        Err(InvalidTransaction::NonceOverflowInTransaction)
    );
}

#[test]
fn callers_with_code_are_rejected_unless_delegated() {
    assert_eq!(
        validate_account_nonce_and_code(&Some(vec![0x60, 0x00]), 0, 0, false, false),
        Err(InvalidTransaction::RejectCallerWithCode)
    );
    // An EIP-7702 delegation designation may keep originating.
    let mut delegation = vec![0xefu8, 0x01, 0x00];
    delegation.extend_from_slice(&[0x11; 20]);
    assert!(validate_account_nonce_and_code(&Some(delegation), 0, 0, false, false).is_ok());
    // With the check disabled, any code passes.
    assert!(validate_account_nonce_and_code(&Some(vec![0x60, 0x00]), 0, 0, true, false).is_ok());
    // An empty code string is no code.
    assert!(validate_account_nonce_and_code(&Some(Vec::new()), 0, 0, false, false).is_ok());
}

#[test]
fn disabled_nonce_check_accepts_any_nonce() {
    assert!(validate_account_nonce_and_code(&None, 1, 9, false, true).is_ok());
}

#[test]
fn worst_case_spending_overflow_is_an_error() {
    let tx = ZKsyncTx::new(TxEnv {
        tx_type: 0,
        caller: addr(1),
        gas_limit: u64::MAX,
        gas_price: u128::MAX,
        max_priority_fee_per_gas: None,
        value: U256::zero(),
        input: Vec::new(),
        nonce: 0,
        chain_id: None,
        kind: TxKind::Create,
    });
    assert_eq!(
        tx.max_balance_spending(),
        Err(InvalidTransaction::OverflowPaymentInTransaction)
    );
    let small = ZKsyncTx::new(TxEnv {
        tx_type: 0,
        caller: addr(1),
        gas_limit: 100,
        gas_price: 3,
        max_priority_fee_per_gas: None,
        value: U256::from_u64(7),
        input: Vec::new(),
        nonce: 0,
        chain_id: None,
        kind: TxKind::Create,
    });
    assert_eq!(small.max_balance_spending(), Ok(U256::from_u64(307)));
    assert_eq!(small.effective_balance_spending(1, 0), Ok(U256::from_u64(307)));
}
