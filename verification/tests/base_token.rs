//! The base-token withdrawal bridge: debits, strict parsing, and the
//! outbound message round trip.

use zksync_os::address::{Address, l2_base_token_address};
use zksync_os::precompiles::l2_base_token::{decode_withdrawal_with_message,
    encode_withdrawal_message, encode_withdrawal_with_message, l2_base_token_precompile_call};
use zksync_os::result::InstructionResult;
use zksync_os::state::JournalState;
use zksync_os::u256::U256;

fn addr(last: u8) -> Address {
    let mut bytes = vec![0u8; 19];
    bytes.push(last);
    Address { bytes }
}

/// Calldata for `withdraw(address)`.
fn withdraw_calldata(receiver: &Address) -> Vec<u8> {
    let mut data = vec![0x51u8, 0xcf, 0xf8, 0xd9];
    data.extend_from_slice(&[0u8; 12]);
    data.extend_from_slice(&receiver.bytes);
    data
}

/// Calldata for `withdrawWithMessage(address,bytes)`.
fn withdraw_with_message_calldata(receiver: &Address, message: &[u8]) -> Vec<u8> {
    let mut data = vec![0x84u8, 0xbc, 0x3e, 0xb0];
    data.extend_from_slice(&[0u8; 12]);
    data.extend_from_slice(&receiver.bytes);
    // The nested bytes parameter: offset 64 from after the selector.
    data.extend_from_slice(&U256::from_u64(64).to_be_bytes());
    data.extend_from_slice(&U256::from_u64(message.len() as u64).to_be_bytes());
    data.extend_from_slice(message);
    data
}

fn funded_state(balance: u64) -> JournalState {
    let mut state = JournalState::new();
    let token = l2_base_token_address();
    state.load_account(&token);
    state.set_balance(&token, U256::from_u64(balance));
    state
}

#[test]
fn withdraw_debits_the_token_holder() {
    let mut state = funded_state(1000);
    let data = withdraw_calldata(&addr(0xBB));
    let r = l2_base_token_precompile_call(&mut state, &addr(0xCC), false, 50_000,
        &U256::from_u64(300), &data);
    assert!(matches!(r.result, InstructionResult::Return));
    assert_eq!(r.gas.remaining, 50_000);
    let token = l2_base_token_address();
    assert_eq!(state.balance_of(&token), U256::from_u64(700));
}

#[test]
fn withdraw_underflow_reverts() {
    let mut state = funded_state(100);
    let data = withdraw_calldata(&addr(0xBB));
    let r = l2_base_token_precompile_call(&mut state, &addr(0xCC), false, 50_000,
        &U256::from_u64(300), &data);
    assert!(matches!(r.result, InstructionResult::Revert));
    assert_eq!(r.gas.remaining, 50_000 - 10);
    let token = l2_base_token_address();
    assert_eq!(state.balance_of(&token), U256::from_u64(100));
}

#[test]
fn nonzero_address_padding_reverts() {
    let mut state = funded_state(1000);
    let mut data = withdraw_calldata(&addr(0xBB));
    data[5] = 1;
    let r = l2_base_token_precompile_call(&mut state, &addr(0xCC), false, 50_000,
        &U256::from_u64(300), &data);
    assert!(matches!(r.result, InstructionResult::Revert));
    let token = l2_base_token_address();
    assert_eq!(state.balance_of(&token), U256::from_u64(1000));
}

#[test]
fn static_withdraw_reverts() {
    let mut state = funded_state(1000);
    let data = withdraw_calldata(&addr(0xBB));
    let r = l2_base_token_precompile_call(&mut state, &addr(0xCC), true, 50_000,
        &U256::from_u64(300), &data);
    assert!(matches!(r.result, InstructionResult::Revert));
}

#[test]
fn withdraw_with_message_debits_and_returns() {
    let mut state = funded_state(1000);
    let data = withdraw_with_message_calldata(&addr(0xBB), b"hello from l2");
    let r = l2_base_token_precompile_call(&mut state, &addr(0xCC), false, 50_000,
        &U256::from_u64(41), &data);
    assert!(matches!(r.result, InstructionResult::Return));
    let token = l2_base_token_address();
    assert_eq!(state.balance_of(&token), U256::from_u64(959));
}

#[test]
fn withdraw_with_message_truncated_data_reverts() {
    let mut state = funded_state(1000);
    let mut data = withdraw_with_message_calldata(&addr(0xBB), b"hello from l2");
    data.truncate(data.len() - 1);
    let r = l2_base_token_precompile_call(&mut state, &addr(0xCC), false, 50_000,
        &U256::from_u64(41), &data);
    assert!(matches!(r.result, InstructionResult::Revert));
    let token = l2_base_token_address();
    assert_eq!(state.balance_of(&token), U256::from_u64(1000));
}

#[test]
fn plain_withdrawal_message_layout() {
    let receiver = addr(0xBB);
    let value = U256::from_u64(123_456);
    let m = encode_withdrawal_message(&receiver.bytes, &value);
    assert_eq!(m.len(), 128);
    assert_eq!(m[31], 32);
    assert_eq!(m[63], 56);
    assert_eq!(&m[64..68], &[0x6c, 0x09, 0x60, 0xf9]);
    assert_eq!(&m[68..88], receiver.bytes.as_slice());
    assert_eq!(&m[88..120], value.to_be_bytes().as_slice());
    assert_eq!(&m[120..128], &[0u8; 8]);
}

#[test]
fn withdrawal_with_message_round_trip() {
    let receiver = addr(0xBB);
    let sender = addr(0xCC);
    let value = U256::from_u128(0xDEAD_BEEF_0000_0001u128);
    let extra = b"withdrawal memo: anything at all";
    let m = encode_withdrawal_with_message(&receiver.bytes, &value, &sender, extra);
    assert_eq!(m.len() % 32, 0);
    let (d_receiver, d_value, d_sender, d_extra) =
        decode_withdrawal_with_message(&m).expect("the encoder's output must decode");
    assert_eq!(d_receiver, receiver.bytes);
    assert_eq!(d_value, value);
    assert_eq!(d_sender, sender.bytes);
    assert_eq!(d_extra.as_slice(), extra.as_slice());
}

#[test]
fn round_trip_with_empty_extra_data() {
    let receiver = addr(0x01);
    let sender = addr(0x02);
    let value = U256::zero();
    let m = encode_withdrawal_with_message(&receiver.bytes, &value, &sender, &[]);
    let (d_receiver, d_value, d_sender, d_extra) =
        decode_withdrawal_with_message(&m).expect("the encoder's output must decode");
    assert_eq!(d_receiver, receiver.bytes);
    assert_eq!(d_value, value);
    assert_eq!(d_sender, sender.bytes);
    assert!(d_extra.is_empty());
}

#[test]
fn short_payload_does_not_decode() {
    assert!(decode_withdrawal_with_message(&[0u8; 32]).is_none());
    // A declared inner length below the packed minimum is rejected.
    let mut m = encode_withdrawal_with_message(&addr(1).bytes, &U256::zero(), &addr(2), &[]);
    m[63] = 75;
    assert!(decode_withdrawal_with_message(&m).is_none());
}
