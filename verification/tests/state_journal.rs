//! The journaled state: account ops, transfers, and the all-or-nothing
//! checkpoint.

use zksync_os::address::Address;
use zksync_os::state::{JournalState, LogEntry, TransferError};
use zksync_os::u256::U256;

fn addr(last: u8) -> Address {
    let mut bytes = vec![0u8; 19];
    bytes.push(last);
    Address { bytes }
}

fn log_at(a: &Address) -> LogEntry {
    LogEntry {
        address: Address { bytes: a.bytes.clone() },
        topics: vec![vec![1u8; 32]],
        data: vec![9, 9],
    }
}

#[test]
fn load_creates_an_empty_account_once() {
    let mut state = JournalState::new();
    let a = addr(1);
    assert!(!state.contains_account(&a));
    state.load_account(&a);
    assert!(state.contains_account(&a));
    assert_eq!(state.balance_of(&a), U256::zero());
    assert_eq!(state.nonce_of(&a), 0);
    state.set_balance(&a, U256::from_u64(5));
    state.load_account(&a);
    assert_eq!(state.balance_of(&a), U256::from_u64(5));
}

#[test]
fn bump_nonce_clamps_at_the_ceiling() {
    let mut state = JournalState::new();
    let a = addr(1);
    state.load_account(&a);
    state.bump_nonce(&a);
    assert_eq!(state.nonce_of(&a), 1);
}

#[test]
fn transfer_moves_value_and_reports_shortfalls() {
    let mut state = JournalState::new();
    let a = addr(1);
    let b = addr(2);
    state.load_account(&a);
    state.set_balance(&a, U256::from_u64(100));
    assert_eq!(state.transfer(&a, &b, &U256::from_u64(30)), Ok(()));
    assert_eq!(state.balance_of(&a), U256::from_u64(70));
    assert_eq!(state.balance_of(&b), U256::from_u64(30));
    assert_eq!(
        state.transfer(&a, &b, &U256::from_u64(71)),
        Err(TransferError::OutOfFunds)
    );
    assert_eq!(state.balance_of(&a), U256::from_u64(70));
}

#[test]
fn transfer_to_self_keeps_the_balance() {
    let mut state = JournalState::new();
    let a = addr(1);
    state.load_account(&a);
    state.set_balance(&a, U256::from_u64(100));
    assert_eq!(state.transfer(&a, &a, &U256::from_u64(60)), Ok(()));
    assert_eq!(state.balance_of(&a), U256::from_u64(100));
}

#[test]
fn transfer_rejects_destination_overflow() {
    let mut state = JournalState::new();
    let a = addr(1);
    let b = addr(2);
    let max = U256 { l0: u64::MAX, l1: u64::MAX, l2: u64::MAX, l3: u64::MAX };
    state.load_account(&a);
    state.set_balance(&a, U256::from_u64(10));
    state.load_account(&b);
    state.set_balance(&b, max);
    assert_eq!(
        state.transfer(&a, &b, &U256::from_u64(1)),
        Err(TransferError::OverflowPayment)
    );
    assert_eq!(state.balance_of(&a), U256::from_u64(10));
    assert_eq!(state.balance_of(&b), max);
}

#[test]
fn discard_restores_the_checkpoint() {
    let mut state = JournalState::new();
    let a = addr(1);
    state.load_account(&a);
    state.set_balance(&a, U256::from_u64(100));
    state.log(log_at(&a));

    state.checkpoint();
    state.set_balance(&a, U256::from_u64(1));
    state.bump_nonce(&a);
    state.load_account(&addr(2));
    state.log(log_at(&a));
    state.log(log_at(&a));

    state.discard_tx();
    assert_eq!(state.balance_of(&a), U256::from_u64(100));
    assert_eq!(state.nonce_of(&a), 0);
    assert_eq!(state.logs.len(), 1);
}

#[test]
fn commit_keeps_the_effects() {
    let mut state = JournalState::new();
    let a = addr(1);
    state.checkpoint();
    state.load_account(&a);
    state.set_balance(&a, U256::from_u64(42));
    state.commit_tx();
    assert_eq!(state.balance_of(&a), U256::from_u64(42));
}

#[test]
fn credit_balance_saturates() {
    let mut state = JournalState::new();
    let a = addr(1);
    let max = U256 { l0: u64::MAX, l1: u64::MAX, l2: u64::MAX, l3: u64::MAX };
    state.load_account(&a);
    state.set_balance(&a, max);
    state.credit_balance(&a, &U256::from_u64(7));
    assert_eq!(state.balance_of(&a), max);
}

#[test]
fn code_lookup_takes_the_earliest_entry() {
    let mut state = JournalState::new();
    state.preload_code(vec![1u8; 32], vec![0xAA, 0xBB]);
    state.preload_code(vec![1u8; 32], vec![0xCC]);
    state.preload_code(vec![2u8; 32], vec![0xDD]);
    assert_eq!(state.code_by_hash(&[1u8; 32]), Some(vec![0xAA, 0xBB]));
    assert_eq!(state.code_by_hash(&[2u8; 32]), Some(vec![0xDD]));
    assert_eq!(state.code_by_hash(&[3u8; 32]), None);
}
