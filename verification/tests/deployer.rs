//! The contract deployer system contract: caller gating and the code-size
//! ceiling.

use zksync_os::address::{Address, l2_genesis_upgrade_address};
use zksync_os::precompiles::deployer::deployer_precompile_call;
use zksync_os::result::InstructionResult;
use zksync_os::state::JournalState;
use zksync_os::u256::U256;

fn addr(last: u8) -> Address {
    let mut bytes = vec![0u8; 19];
    bytes.push(last);
    Address { bytes }
}

/// Calldata for `setBytecodeDetailsEVM(address,bytes32,uint32,bytes32)`.
fn deploy_calldata(target: &Address, hash: &[u8; 32], code_len: u32) -> Vec<u8> {
    let mut data = vec![0xf6u8, 0xec, 0xa0, 0xb0];
    data.extend_from_slice(&[0u8; 12]);
    data.extend_from_slice(&target.bytes);
    data.extend_from_slice(hash);
    data.extend_from_slice(&U256::from_u64(code_len as u64).to_be_bytes());
    // The observable bytecode hash; not consulted.
    data.extend_from_slice(&[0u8; 32]);
    data
}

fn state_with_code(hash: &[u8; 32], code: Vec<u8>) -> JournalState {
    let mut state = JournalState::new();
    state.preload_code(hash.to_vec(), code);
    state
}

#[test]
fn genesis_upgrade_caller_installs_code() {
    let hash = [0x11u8; 32];
    let mut state = state_with_code(&hash, vec![0xFE; 100]);
    let target = addr(0x77);
    let data = deploy_calldata(&target, &hash, 60);
    let r = deployer_precompile_call(&mut state, &l2_genesis_upgrade_address(), false, 90_000,
        &U256::zero(), &data);
    assert!(matches!(r.result, InstructionResult::Return));
    assert_eq!(r.gas.remaining, 90_000 - 10);
    // The first 60 bytes of the preloaded code are installed.
    let installed = state.code_of(&target).expect("code was installed");
    assert_eq!(installed, vec![0xFE; 60]);
}

#[test]
fn any_other_caller_is_rejected_with_valid_calldata() {
    let hash = [0x11u8; 32];
    let mut state = state_with_code(&hash, vec![0xFE; 100]);
    let target = addr(0x77);
    let data = deploy_calldata(&target, &hash, 60);
    let r = deployer_precompile_call(&mut state, &addr(0x42), false, 90_000, &U256::zero(), &data);
    assert!(matches!(r.result, InstructionResult::Revert));
    assert!(!state.contains_account(&target));
}

#[test]
fn maximum_code_size_succeeds_one_more_reverts() {
    let hash = [0x22u8; 32];
    let target = addr(0x78);

    let mut state = state_with_code(&hash, vec![0xAB; 0x6000]);
    let data = deploy_calldata(&target, &hash, 0x6000);
    let r = deployer_precompile_call(&mut state, &l2_genesis_upgrade_address(), false, 90_000,
        &U256::zero(), &data);
    assert!(matches!(r.result, InstructionResult::Return));
    assert_eq!(state.code_of(&target).expect("installed").len(), 0x6000);

    let mut state = state_with_code(&hash, vec![0xAB; 0x6001]);
    let data = deploy_calldata(&target, &hash, 0x6001);
    let r = deployer_precompile_call(&mut state, &l2_genesis_upgrade_address(), false, 90_000,
        &U256::zero(), &data);
    assert!(matches!(r.result, InstructionResult::Revert));
    assert!(!state.contains_account(&target));
}

#[test]
fn value_and_static_calls_revert() {
    let hash = [0x11u8; 32];
    let mut state = state_with_code(&hash, vec![0xFE; 100]);
    let data = deploy_calldata(&addr(0x77), &hash, 60);
    let r = deployer_precompile_call(&mut state, &l2_genesis_upgrade_address(), false, 90_000,
        &U256::from_u64(1), &data);
    assert!(matches!(r.result, InstructionResult::Revert));
    let r = deployer_precompile_call(&mut state, &l2_genesis_upgrade_address(), true, 90_000,
        &U256::zero(), &data);
    assert!(matches!(r.result, InstructionResult::Revert));
}

#[test]
fn deploy_nonzero_address_padding_reverts() {
    let hash = [0x11u8; 32];
    let mut state = state_with_code(&hash, vec![0xFE; 100]);
    let mut data = deploy_calldata(&addr(0x77), &hash, 60);
    data[4] = 1;
    let r = deployer_precompile_call(&mut state, &l2_genesis_upgrade_address(), false, 90_000,
        &U256::zero(), &data);
    assert!(matches!(r.result, InstructionResult::Revert));
}

#[test]
fn short_parameter_block_reverts() {
    let hash = [0x11u8; 32];
    let mut state = state_with_code(&hash, vec![0xFE; 100]);
    let mut data = deploy_calldata(&addr(0x77), &hash, 60);
    data.truncate(100);
    let r = deployer_precompile_call(&mut state, &l2_genesis_upgrade_address(), false, 90_000,
        &U256::zero(), &data);
    assert!(matches!(r.result, InstructionResult::Revert));
}
