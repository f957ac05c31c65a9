//! The precompile dispatch, its warm-address set, and the transaction
//! builder.

use zksync_os::address::{Address, contract_deployer_address, l1_messenger_address,
    l2_base_token_address, l2_genesis_upgrade_address};
use zksync_os::precompiles::{PrecompileOutcome, ZKsyncPrecompiles};
use zksync_os::result::{HaltReason, InstructionResult, ZkHaltReason};
use zksync_os::spec_id::ZkSpecId;
use zksync_os::state::JournalState;
use zksync_os::transaction::abstraction::ZKsyncTx;
use zksync_os::u256::U256;

fn addr(last: u8) -> Address {
    let mut bytes = vec![0u8; 19];
    bytes.push(last);
    Address { bytes }
}

#[test]
fn membership_covers_standard_and_system_addresses() {
    let provider = ZKsyncPrecompiles::new_with_spec(ZkSpecId::Atlas);
    for b in 1u8..=8 {
        assert!(provider.contains(&addr(b)), "standard precompile {} missing", b);
    }
    assert!(!provider.contains(&addr(9)));
    assert!(provider.contains(&contract_deployer_address()));
    assert!(provider.contains(&l1_messenger_address()));
    assert!(provider.contains(&l2_base_token_address()));
    assert!(!provider.contains(&l2_genesis_upgrade_address()));
    assert_eq!(provider.precompiles().len(), 8);
}

#[test]
fn warm_addresses_include_the_three_system_contracts() {
    let provider = ZKsyncPrecompiles::new_with_spec(ZkSpecId::Atlas);
    let warm = provider.warm_addresses();
    assert_eq!(warm.len(), 11);
    assert!(warm.iter().any(|a| *a == contract_deployer_address()));
    assert!(warm.iter().any(|a| *a == l1_messenger_address()));
    assert!(warm.iter().any(|a| *a == l2_base_token_address()));
}

#[test]
fn set_spec_reports_changes() {
    let mut provider = ZKsyncPrecompiles::new_with_spec(ZkSpecId::Atlas);
    assert!(!provider.set_spec(ZkSpecId::Atlas));
}

#[test]
fn dispatch_routes_system_calls_and_delegates_the_rest() {
    let provider = ZKsyncPrecompiles::new_with_spec(ZkSpecId::Atlas);
    let mut state = JournalState::new();

    // An unknown address is left to the standard set.
    let r = provider.run(&mut state, &addr(0x42), &addr(0xAA), false, 10_000, &U256::zero(),
        &[1, 2, 3]);
    assert!(matches!(r, PrecompileOutcome::Delegate));

    // The messenger address is handled; garbage calldata reverts.
    let r = provider.run(&mut state, &l1_messenger_address(), &addr(0xAA), false, 10_000,
        &U256::zero(), &[1, 2, 3, 4]);
    match r {
        PrecompileOutcome::Handled(res) => {
            assert!(matches!(res.result, InstructionResult::Revert))
        },
        PrecompileOutcome::Delegate => panic!("the messenger must be handled"),
    }

    // The bridge address is handled too.
    let r = provider.run(&mut state, &l2_base_token_address(), &addr(0xAA), false, 10_000,
        &U256::zero(), &[]);
    assert!(matches!(r, PrecompileOutcome::Handled(_)));

    // So is the deployer, which rejects this caller outright.
    let r = provider.run(&mut state, &contract_deployer_address(), &addr(0xAA), false, 10_000,
        &U256::zero(), &[]);
    match r {
        PrecompileOutcome::Handled(res) => {
            assert!(matches!(res.result, InstructionResult::Revert))
        },
        PrecompileOutcome::Delegate => panic!("the deployer must be handled"),
    }
}

#[test]
fn builder_fills_the_envelope() {
    let recipient = addr(0x31);
    let tx = ZKsyncTx::builder()
        .mint(U256::from_u64(77))
        .refund_recipient(Some(recipient))
        .gas_used_override(Some(42))
        .force_fail(true)
        .build_fill();
    assert_eq!(tx.mint(), Some(U256::from_u64(77)));
    assert_eq!(tx.gas_used_override(), Some(42));
    assert!(tx.force_fail());
    assert!(tx.refund_recipient().is_some());
    assert_eq!(tx.tx_type(), 0);
    assert!(!tx.is_l1_to_l2_tx());
}

#[test]
fn envelope_reports_cross_layer_tags() {
    let mut tx = ZKsyncTx::builder().build_fill();
    tx.base.tx_type = 0x7E;
    assert!(tx.is_l1_to_l2_tx());
    tx.base.tx_type = 0x7F;
    assert!(tx.is_l1_to_l2_tx());
    tx.base.tx_type = 2;
    assert!(!tx.is_l1_to_l2_tx());
}

#[test]
fn effective_gas_price_caps_at_the_market() {
    let mut tx = ZKsyncTx::builder().build_fill();
    tx.base.tx_type = 2;
    tx.base.gas_price = 100;
    tx.base.max_priority_fee_per_gas = Some(5);
    assert_eq!(tx.effective_gas_price(90), 95);
    assert_eq!(tx.effective_gas_price(99), 100);
    // A cross-layer transaction pays its declared price directly.
    tx.base.tx_type = 0x7F;
    assert_eq!(tx.effective_gas_price(90), 100);
}

#[test]
fn base_halts_wrap_into_the_chain_taxonomy() {
    assert_eq!(
        ZkHaltReason::from(HaltReason::OutOfGas),
        ZkHaltReason::Base(HaltReason::OutOfGas)
    );
}
