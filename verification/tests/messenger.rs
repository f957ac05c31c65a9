//! The L1 messenger system contract: strict encoding, exact gas, log and
//! hash output.

use zksync_os::address::{Address, l1_messenger_address};
use zksync_os::precompiles::l1_messenger::l1_messenger_precompile_call;
use zksync_os::result::InstructionResult;
use zksync_os::state::JournalState;
use zksync_os::u256::U256;

fn caller() -> Address {
    let mut bytes = vec![0u8; 19];
    bytes.push(0xAA);
    Address { bytes }
}

/// Strictly encoded `sendToL1(bytes)` calldata for the given message.
fn send_to_l1_calldata(message: &[u8]) -> Vec<u8> {
    let mut data = vec![0x62u8, 0xf8, 0x4b, 0x24];
    let mut offset_word = vec![0u8; 31];
    offset_word.push(32);
    data.extend_from_slice(&offset_word);
    data.extend_from_slice(&U256::from_u64(message.len() as u64).to_be_bytes());
    data.extend_from_slice(message);
    let pad = (32 - message.len() % 32) % 32;
    data.extend_from_slice(&vec![0u8; pad]);
    data
}

/// The gas an acceptable message of `n` bytes is charged, including the
/// flat base charge.
fn message_gas(n: u64) -> u64 {
    10 + 30 + 6 * ((n + 31) / 32) + 375 + 3 * 375 + 8 * n
}

#[test]
fn empty_message_hashes_and_logs() {
    let mut state = JournalState::new();
    let data = send_to_l1_calldata(&[]);
    let r = l1_messenger_precompile_call(&mut state, &caller(), false, 100_000, &U256::zero(),
        &data);
    assert!(matches!(r.result, InstructionResult::Return));
    // Keccak-256 of the empty string.
    let expected = [
        0xc5u8, 0xd2, 0x46, 0x01, 0x86, 0xf7, 0x23, 0x3c, 0x92, 0x7e, 0x7d, 0xb2, 0xdc, 0xc7,
        0x03, 0xc0, 0xe5, 0x00, 0xb6, 0x53, 0xca, 0x82, 0x27, 0x3b, 0x7b, 0xfa, 0xd8, 0x04, 0x5d,
        0x85, 0xa4, 0x70,
    ];
    assert_eq!(r.output.as_slice(), &expected);
    assert_eq!(state.logs.len(), 1);
    let log = &state.logs[0];
    assert_eq!(log.address, l1_messenger_address());
    assert_eq!(log.topics.len(), 3);
    // Second topic: the caller, left-padded to 32 bytes.
    let mut padded = vec![0u8; 31];
    padded.push(0xAA);
    assert_eq!(log.topics[1], padded);
    // Third topic: the message hash.
    assert_eq!(log.topics[2].as_slice(), &expected);
    // The log payload is the ABI payload after the selector.
    assert_eq!(log.data.as_slice(), &data[4..]);
    // Gas charged: the flat charge plus hashing and logging.
    assert_eq!(r.gas.remaining, 100_000 - message_gas(0));
}

#[test]
fn declared_length_beyond_calldata_reverts_without_logging() {
    let mut state = JournalState::new();
    let mut data = send_to_l1_calldata(&[7u8; 32]);
    // Corrupt the declared length: it now points past the calldata.
    data[67] = 64;
    let r = l1_messenger_precompile_call(&mut state, &caller(), false, 100_000, &U256::zero(),
        &data);
    assert!(matches!(r.result, InstructionResult::Revert));
    assert!(state.logs.is_empty());
    assert!(r.output.is_empty());
}

#[test]
fn nonstandard_offset_reverts() {
    let mut state = JournalState::new();
    let mut data = send_to_l1_calldata(&[7u8; 32]);
    data[35] = 64;
    let r = l1_messenger_precompile_call(&mut state, &caller(), false, 100_000, &U256::zero(),
        &data);
    assert!(matches!(r.result, InstructionResult::Revert));
    assert!(state.logs.is_empty());
}

#[test]
fn unpadded_payload_reverts() {
    let mut state = JournalState::new();
    let mut data = send_to_l1_calldata(&[7u8; 8]);
    // Strip the zero padding: the total is no longer a multiple of 32.
    data.truncate(4 + 32 + 32 + 8);
    let r = l1_messenger_precompile_call(&mut state, &caller(), false, 100_000, &U256::zero(),
        &data);
    assert!(matches!(r.result, InstructionResult::Revert));
    assert!(state.logs.is_empty());
}

#[test]
fn value_or_static_call_reverts() {
    let mut state = JournalState::new();
    let data = send_to_l1_calldata(&[7u8; 32]);
    let r = l1_messenger_precompile_call(&mut state, &caller(), false, 100_000, &U256::from_u64(1),
        &data);
    assert!(matches!(r.result, InstructionResult::Revert));
    let r = l1_messenger_precompile_call(&mut state, &caller(), true, 100_000, &U256::zero(),
        &data);
    assert!(matches!(r.result, InstructionResult::Revert));
    assert!(state.logs.is_empty());
}

#[test]
fn exact_gas_succeeds_and_one_less_fails() {
    let message = [5u8; 40];
    let needed = message_gas(40);
    let data = send_to_l1_calldata(&message);

    let mut state = JournalState::new();
    let r = l1_messenger_precompile_call(&mut state, &caller(), false, needed, &U256::zero(),
        &data);
    assert!(matches!(r.result, InstructionResult::Return));
    assert_eq!(r.gas.remaining, 0);
    assert_eq!(state.logs.len(), 1);

    let mut state = JournalState::new();
    let r = l1_messenger_precompile_call(&mut state, &caller(), false, needed - 1, &U256::zero(),
        &data);
    assert!(matches!(r.result, InstructionResult::OutOfGas));
    assert!(state.logs.is_empty());
}

#[test]
fn wrong_selector_reverts() {
    let mut state = JournalState::new();
    let mut data = send_to_l1_calldata(&[]);
    data[0] = 0x00;
    let r = l1_messenger_precompile_call(&mut state, &caller(), false, 100_000, &U256::zero(),
        &data);
    assert!(matches!(r.result, InstructionResult::Revert));
    assert!(state.logs.is_empty());
}

#[test]
fn short_message_hashes_to_the_known_digest() {
    let mut state = JournalState::new();
    let data = send_to_l1_calldata(b"abc");
    let r = l1_messenger_precompile_call(&mut state, &caller(), false, 100_000, &U256::zero(),
        &data);
    assert!(matches!(r.result, InstructionResult::Return));
    // Keccak-256 of "abc".
    let expected = [
        0x4eu8, 0x03, 0x65, 0x7a, 0xea, 0x45, 0xa9, 0x4f, 0xc7, 0xd4, 0x7b, 0xa8, 0x26, 0xc8,
        0xd6, 0x67, 0xc0, 0xd1, 0xe6, 0xe3, 0x3a, 0x64, 0xa0, 0x36, 0xec, 0x44, 0xf5, 0x8f, 0xa1,
        0x2d, 0x6c, 0x45,
    ];
    assert_eq!(r.output.as_slice(), &expected);
}
