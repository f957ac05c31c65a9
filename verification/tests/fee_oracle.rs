//! The L1 fee oracle: storage decoding, the two formulas, and memoization.

use zksync_os::l1block::{L1BlockInfo, L1BlockStorageWords};
use zksync_os::spec_id::ZkSpecId;
use zksync_os::u256::U256;

fn u(x: u64) -> U256 {
    U256::from_u64(x)
}

fn words(
    base_fee: u64,
    overhead: u64,
    scalar: u64,
    blob_base_fee: u64,
    fee_scalars: U256,
    operator: U256,
) -> L1BlockStorageWords {
    L1BlockStorageWords {
        l1_base_fee: u(base_fee),
        l1_fee_overhead: u(overhead),
        l1_fee_scalar: u(scalar),
        l1_blob_base_fee: u(blob_base_fee),
        l1_fee_scalars: fee_scalars,
        operator_fee_scalars: operator,
    }
}

#[test]
fn legacy_fetch_reads_overhead_and_scalar() {
    let w = words(1000, 188, 684_000, 0, U256::zero(), U256::zero());
    let info = L1BlockInfo::try_fetch(&w, u(7), ZkSpecId::Atlas);
    assert_eq!(info.l1_base_fee, u(1000));
    assert_eq!(info.l1_fee_overhead, Some(u(188)));
    assert_eq!(info.l1_base_fee_scalar, u(684_000));
    assert!(info.l1_blob_base_fee.is_none());
    assert!(info.tx_l1_cost.is_none());
    assert!(!info.empty_ecotone_scalars);
}

#[test]
fn ecotone_fetch_unpacks_the_scalar_words() {
    // Byte offsets 16..20 hold the base-fee scalar, 20..24 the blob
    // scalar; both sit in the second-highest limb.
    let base_scalar: u64 = 2_000_000;
    let blob_scalar: u64 = 1_000_000;
    let fee_scalars = U256 { l0: 0, l1: (base_scalar << 32) | blob_scalar, l2: 0, l3: 0 };
    // Offsets 20..24 hold the operator scalar, 24..32 the constant.
    let operator = U256 { l0: 4242, l1: 77, l2: 0, l3: 0 };
    let w = words(1000, 188, 0, 99, fee_scalars, operator);
    let info = L1BlockInfo::try_fetch_ecotone(&w, u(7));
    assert_eq!(info.l1_base_fee_scalar, u(base_scalar));
    assert_eq!(info.l1_blob_base_fee, Some(u(99)));
    assert_eq!(info.l1_blob_base_fee_scalar, Some(u(blob_scalar)));
    assert_eq!(info.operator_fee_scalar, Some(u(77)));
    assert_eq!(info.operator_fee_constant, Some(u(4242)));
    assert!(!info.empty_ecotone_scalars);
    // The overhead is dropped once the scalars are set.
    assert!(info.l1_fee_overhead.is_none());
    assert_eq!(info.l2_block, u(7));
}

#[test]
fn ecotone_fetch_detects_empty_scalars() {
    let w = words(1000, 188, 0, 0, U256::zero(), U256::zero());
    let info = L1BlockInfo::try_fetch_ecotone(&w, u(7));
    assert!(info.empty_ecotone_scalars);
    // The legacy overhead is kept for the transition block.
    assert_eq!(info.l1_fee_overhead, Some(u(188)));
}

#[test]
fn data_gas_weighs_nonzero_bytes_four_to_one() {
    let info = L1BlockInfo::try_fetch(
        &words(0, 0, 0, 0, U256::zero(), U256::zero()),
        u(0),
        ZkSpecId::Atlas,
    );
    // One zero byte and one non-zero byte: 5 tokens, 4 gas each.
    assert_eq!(info.data_gas(&[0u8, 1u8], ZkSpecId::Atlas), u(20));
    assert_eq!(info.data_gas(&[], ZkSpecId::Atlas), u(0));
    assert_eq!(info.data_gas(&[0u8; 10], ZkSpecId::Atlas), u(40));
}

fn current_era_info(base_fee: u64, base_scalar: u64, blob_fee: u64, blob_scalar: u64) -> L1BlockInfo {
    L1BlockInfo {
        l2_block: u(0),
        l1_base_fee: u(base_fee),
        l1_fee_overhead: None,
        l1_base_fee_scalar: u(base_scalar),
        l1_blob_base_fee: Some(u(blob_fee)),
        l1_blob_base_fee_scalar: Some(u(blob_scalar)),
        operator_fee_scalar: None,
        operator_fee_constant: None,
        empty_ecotone_scalars: false,
        tx_l1_cost: None,
    }
}

#[test]
fn current_era_formula_numeric_example() {
    // base_fee = 1000, base_fee_scalar = 2_000_000, no blob pricing,
    // 16 non-zero calldata bytes.
    let mut info = current_era_info(1000, 2_000_000, 0, 0);
    let input = [1u8; 16];
    // data_gas = 16 bytes * 4 tokens * 4 gas = 256.
    assert_eq!(info.data_gas(&input, ZkSpecId::Atlas), u(256));
    // cost = 256 * (1000 * 16 * 2_000_000 + 0) / 16_000_000 = 512_000.
    let cost = info.calculate_tx_l1_cost(&input, ZkSpecId::Atlas);
    assert_eq!(cost, u(512_000));
    assert_eq!(info.tx_l1_cost, Some(u(512_000)));
}

#[test]
fn cost_is_memoized_until_cleared() {
    let mut info = current_era_info(1000, 2_000_000, 0, 0);
    let first = info.calculate_tx_l1_cost(&[1u8; 16], ZkSpecId::Atlas);
    // A different input returns the cached cost until the memo is cleared.
    let second = info.calculate_tx_l1_cost(&[1u8; 32], ZkSpecId::Atlas);
    assert_eq!(first, second);
    info.clear_tx_l1_cost();
    assert!(info.tx_l1_cost.is_none());
    let third = info.calculate_tx_l1_cost(&[1u8; 32], ZkSpecId::Atlas);
    assert_eq!(third, u(1_024_000));
}

#[test]
fn empty_scalars_fall_back_to_the_legacy_formula() {
    let mut current = L1BlockInfo {
        l1_fee_overhead: Some(u(188)),
        empty_ecotone_scalars: true,
        ..current_era_info(1000, 684_000, 55, 7)
    };
    let mut legacy = L1BlockInfo {
        l2_block: u(0),
        l1_base_fee: u(1000),
        l1_fee_overhead: Some(u(188)),
        l1_base_fee_scalar: u(684_000),
        l1_blob_base_fee: None,
        l1_blob_base_fee_scalar: None,
        operator_fee_scalar: None,
        operator_fee_constant: None,
        empty_ecotone_scalars: false,
        tx_l1_cost: None,
    };
    let input = [7u8, 0, 1, 2, 0, 9];
    let a = current.calculate_tx_l1_cost(&input, ZkSpecId::Atlas);
    let b = legacy.calculate_tx_l1_cost(&input, ZkSpecId::Atlas);
    assert_eq!(a, b);
}

#[test]
fn legacy_formula_numeric_example() {
    let mut info = L1BlockInfo {
        l2_block: u(0),
        l1_base_fee: u(1000),
        l1_fee_overhead: Some(u(188)),
        l1_base_fee_scalar: u(1_000_000),
        l1_blob_base_fee: None,
        l1_blob_base_fee_scalar: None,
        operator_fee_scalar: None,
        operator_fee_constant: None,
        empty_ecotone_scalars: false,
        tx_l1_cost: None,
    };
    // data_gas for 4 non-zero bytes = 4*4*4 = 64;
    // (64 + 188) * 1000 * 1_000_000 / 1_000_000 = 252_000.
    let cost = info.calculate_tx_l1_cost(&[3u8; 4], ZkSpecId::Atlas);
    assert_eq!(cost, u(252_000));
}

#[test]
fn operator_fee_is_zero_for_cross_layer_input() {
    let info = current_era_info(1000, 2_000_000, 0, 0);
    assert_eq!(info.operator_fee_charge(&[0x7E, 1, 2], u(1_000_000)), u(0));
    assert_eq!(info.operator_fee_charge(&[1, 2], u(1_000_000)), u(0));
}

#[test]
fn spec_id_schedule() {
    assert!(ZkSpecId::Atlas.is_enabled_in(ZkSpecId::Atlas));
}
