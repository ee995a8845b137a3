use tinypow::u256::U256;

#[test]
fn lt_orders_small_values() {
    let a = U256::from_u64(3);
    let b = U256::from_u64(5);
    assert!(a.lt(&b));
    assert!(!b.lt(&a));
    assert!(!a.lt(&a));
}

#[test]
fn lt_orders_across_limbs() {
    // 2^192 is larger than 2^192 - 1 even though its low limbs are zero.
    let high = U256::from_limbs(0, 0, 0, 1);
    let low = U256::from_limbs(u64::MAX, u64::MAX, u64::MAX, 0);
    assert!(low.lt(&high));
    assert!(!high.lt(&low));
}

#[test]
fn is_zero_only_on_zero() {
    assert!(U256::from_u64(0).is_zero());
    assert!(!U256::from_u64(1).is_zero());
    assert!(!U256::from_limbs(0, 0, 0, 1).is_zero());
}

#[test]
fn mul_div_exact_small_values() {
    let a = U256::from_u64(100);
    assert_eq!(a.mul_div_u64(3, 2), U256::from_u64(150));
    assert_eq!(a.mul_div_u64(20, 5), U256::from_u64(400));
}

#[test]
fn mul_div_rounds_down() {
    let a = U256::from_u64(7);
    assert_eq!(a.mul_div_u64(1, 2), U256::from_u64(3));
}

#[test]
fn mul_div_saturates_on_overflow() {
    let max = U256::max_value();
    assert_eq!(max.mul_div_u64(4, 1), max);
    // No saturation when the quotient fits again.
    assert_eq!(max.mul_div_u64(2, 2), max);
}

#[test]
fn mul_div_wide_value() {
    // (2^254 - 1) * 20 / 5 == 2^256 - 4, just inside the range.
    let t0 = U256::from_limbs(u64::MAX, u64::MAX, u64::MAX, 0x3fff_ffff_ffff_ffff);
    let four_t0 = U256::from_limbs(0xffff_ffff_ffff_fffc, u64::MAX, u64::MAX, u64::MAX);
    assert_eq!(t0.mul_div_u64(20, 5), four_t0);
}

#[test]
fn le_bytes_round_trip() {
    let a = U256::from_limbs(1, 2, 3, 4);
    let bytes = a.to_le_bytes();
    assert_eq!(bytes.len(), 32);
    assert_eq!(U256::from_le_bytes(&bytes), a);
    assert_eq!(bytes[0], 1);
    assert_eq!(bytes[8], 2);
    assert_eq!(bytes[16], 3);
    assert_eq!(bytes[24], 4);
}
