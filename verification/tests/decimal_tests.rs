//! Exact-value tests of the fixed-point decimal arithmetic.

use token_lending::decimal::Decimal;

#[test]
fn from_u64_scales_by_ten_pow_18() {
    assert_eq!(Decimal::from_u64(1).to_scaled_val(), 1_000_000_000_000_000_000);
    assert_eq!(Decimal::from(1u64).to_scaled_val(), 1_000_000_000_000_000_000);
    assert_eq!(Decimal::from_u64(0).to_scaled_val(), 0);
    assert_eq!(
        Decimal::from_u64(2204).to_scaled_val(),
        2204_000_000_000_000_000_000
    );
}

#[test]
fn new_applies_the_scale() {
    assert_eq!(Decimal::new(80, 2).to_scaled_val(), 800_000_000_000_000_000);
    assert_eq!(Decimal::new(4, 2).to_scaled_val(), 40_000_000_000_000_000);
    assert_eq!(Decimal::new(0, 2).to_scaled_val(), 0);
    assert_eq!(Decimal::new(30, 2).to_scaled_val(), 300_000_000_000_000_000);
    assert_eq!(Decimal::new(7, 0).to_scaled_val(), 7_000_000_000_000_000_000);
    assert_eq!(Decimal::new(123, 18).to_scaled_val(), 123);
}

#[test]
fn add_and_sub_are_exact() {
    let a = Decimal::from_u64(5);
    let b = Decimal::from_u64(3);
    assert_eq!(a.add(b).round_u64(), 8);
    assert_eq!(a.sub(b).round_u64(), 2);
}

#[test]
fn mul_truncates_toward_zero() {
    assert_eq!(Decimal::from_u64(6).mul(Decimal::from_u64(7)).round_u64(), 42);
    // 0.1 * 0.1 == 0.01
    let tenth = Decimal::new(1, 1);
    assert_eq!(tenth.mul(tenth).to_scaled_val(), 10_000_000_000_000_000);
}

#[test]
fn div_truncates_toward_zero() {
    let third = Decimal::from_u64(1).div(Decimal::from_u64(3));
    assert_eq!(third.to_scaled_val(), 333_333_333_333_333_333);
    assert_eq!(Decimal::from_u64(10).div(Decimal::from_u64(4)).to_scaled_val(),
        2_500_000_000_000_000_000);
}

#[test]
fn round_u64_truncates() {
    let v = Decimal::from_u64(7).div(Decimal::from_u64(2));
    assert_eq!(v.round_u64(), 3);
    assert_eq!(v.try_round_u64(), Some(3));
}

#[test]
fn scaled_val_round_trip() {
    let raw: u128 = 123_456_789_000_000_000_000_000;
    let d = Decimal::from_scaled_val(raw);
    assert_eq!(d.to_scaled_val(), raw);
}

#[test]
fn comparisons_follow_values() {
    let small = Decimal::new(1, 2);
    let big = Decimal::from_u64(1);
    assert!(small.lt(&big));
    assert!(!big.lt(&small));
    assert!(big.eq_val(&Decimal::from_u64(1)));
    assert!(!big.eq_val(&small));
    assert!(big.fits_u128());
}

#[test]
fn large_division_through_u256() {
    // (2^100 as a scaled value) / 2^50 exercises the wide division
    let a = Decimal::from_scaled_val(1u128 << 100);
    let b = Decimal::from_scaled_val(1u128 << 50);
    // a/b = 2^50, with the result scaled back to raw units
    assert_eq!(
        a.div(b).to_scaled_val(),
        (1u128 << 50) * 1_000_000_000_000_000_000
    );
}
