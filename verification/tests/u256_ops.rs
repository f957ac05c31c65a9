//! The 256-bit word's arithmetic and byte conversions on concrete values.

use zksync_os::u256::U256;

fn u(x: u64) -> U256 {
    U256::from_u64(x)
}

#[test]
fn small_arithmetic_is_exact() {
    let a = u(1000);
    let b = u(24);
    assert_eq!(a.saturating_add(&b), u(1024));
    assert_eq!(a.saturating_sub(&b), u(976));
    assert_eq!(a.saturating_mul(&b), u(24_000));
    assert_eq!(a.div_by_u64(24), u(41));
    assert_eq!(a.checked_sub(&b), Some(u(976)));
    assert_eq!(b.checked_sub(&a), None);
    assert!(b.lt(&a));
    assert!(!a.lt(&b));
    assert!(U256::zero().is_zero());
    assert!(!a.is_zero());
}

#[test]
fn addition_carries_across_limbs() {
    let a = U256 { l0: u64::MAX, l1: 0, l2: 0, l3: 0 };
    let r = a.saturating_add(&u(1));
    assert_eq!(r, U256 { l0: 0, l1: 1, l2: 0, l3: 0 });
}

#[test]
fn addition_saturates_at_the_top() {
    let max = U256 { l0: u64::MAX, l1: u64::MAX, l2: u64::MAX, l3: u64::MAX };
    assert_eq!(max.saturating_add(&u(1)), max);
    assert_eq!(max.checked_add(&u(1)), None);
    assert_eq!(max.checked_add(&U256::zero()), Some(max));
}

#[test]
fn multiplication_crosses_limbs_and_saturates() {
    // 2^64 * 2^64 == 2^128.
    let two64 = U256 { l0: 0, l1: 1, l2: 0, l3: 0 };
    assert_eq!(two64.saturating_mul(&two64), U256 { l0: 0, l1: 0, l2: 1, l3: 0 });
    // 2^128 * 2^128 overflows and clamps.
    let two128 = U256 { l0: 0, l1: 0, l2: 1, l3: 0 };
    let max = U256 { l0: u64::MAX, l1: u64::MAX, l2: u64::MAX, l3: u64::MAX };
    assert_eq!(two128.saturating_mul(&two128), max);
}

#[test]
fn division_works_on_wide_values() {
    // (7 * 2^128 + 9) / 7 == 2^128 + 1 remainder 2, truncated.
    let v = U256 { l0: 9, l1: 0, l2: 7, l3: 0 };
    assert_eq!(v.div_by_u64(7), U256 { l0: 1, l1: 0, l2: 1, l3: 0 });
    assert_eq!(u(1_000_000).div_by_u64(1_000_000), u(1));
    assert_eq!(u(999_999).div_by_u64(1_000_000), u(0));
}

#[test]
fn from_u128_splits_limbs() {
    let v = U256::from_u128(0x1_0000_0000_0000_0005u128);
    assert_eq!(v, U256 { l0: 5, l1: 1, l2: 0, l3: 0 });
}

#[test]
fn byte_round_trip() {
    let v = U256 { l0: 0x0123_4567_89ab_cdef, l1: 77, l2: 1, l3: u64::MAX };
    let bytes = v.to_be_bytes();
    assert_eq!(bytes.len(), 32);
    assert_eq!(U256::from_be_bytes32(bytes.as_slice()), v);
    // The most significant limb leads.
    assert_eq!(bytes[0], 0xff);
    assert_eq!(bytes[31], 0xef);
}

#[test]
fn to_be_bytes_of_small_value() {
    let bytes = u(56).to_be_bytes();
    assert_eq!(&bytes[..31], &[0u8; 31]);
    assert_eq!(bytes[31], 56);
}
