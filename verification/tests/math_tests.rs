use dex::amount::{
    u128_widening_mul, u256_checked_add, u256_checked_mul, u256_checked_sub, u256_div,
    u256_integer_sqrt, u256_overflowing_add, u256_overflowing_mul, Amount,
};
use dex::error::Error;
use dex::math::{calculate_in_amount, calculate_out_amount, quote, quote_reserve_unchecked};

#[test]
fn widening_mul_crosses_the_128_bit_boundary() {
    let p = u128_widening_mul(u128::MAX, u128::MAX);
    // (2^128 - 1)^2 = 2^256 - 2^129 + 1
    assert_eq!(p.lo, 1);
    assert_eq!(p.hi, u128::MAX - 1);
    let small = u128_widening_mul(1_000_000, 1_000_000);
    assert_eq!(small.lo, 1_000_000_000_000);
    assert_eq!(small.hi, 0);
}

#[test]
fn checked_add_carries_and_overflows() {
    let a = Amount { lo: u128::MAX, hi: 0 };
    let one = Amount::from_u128(1);
    let s = u256_checked_add(a, one).unwrap();
    assert_eq!(s.lo, 0);
    assert_eq!(s.hi, 1);
    let top = Amount { lo: u128::MAX, hi: u128::MAX };
    assert!(u256_checked_add(top, one).is_none());
}

#[test]
fn checked_sub_borrows_and_underflows() {
    let a = Amount { lo: 0, hi: 1 };
    let one = Amount::from_u128(1);
    let d = u256_checked_sub(a, one).unwrap();
    assert_eq!(d.lo, u128::MAX);
    assert_eq!(d.hi, 0);
    assert!(u256_checked_sub(Amount::zero(), one).is_none());
}

#[test]
fn checked_mul_detects_256_bit_overflow() {
    let big = Amount { lo: 0, hi: 1 }; // 2^128
    assert!(u256_checked_mul(big, big).is_none());
    let p = u256_checked_mul(Amount::from_u128(1 << 100), Amount::from_u128(1 << 100)).unwrap();
    // 2^200 = 2^128 * 2^72
    assert_eq!(p.lo, 0);
    assert_eq!(p.hi, 1 << 72);
}

#[test]
fn division_floors() {
    let n = Amount { lo: 5, hi: 7 }; // 7 * 2^128 + 5
    let q = u256_div(n, Amount::from_u128(2));
    // floor((7 * 2^128 + 5) / 2) = 3 * 2^128 + 2^127 + 2
    assert_eq!(q.hi, 3);
    assert_eq!(q.lo, (1u128 << 127) + 2);
}

#[test]
fn integer_sqrt_is_the_floor_root() {
    let s = u256_integer_sqrt(Amount::from_u128(4_000_000));
    assert_eq!(s.lo, 2000);
    assert_eq!(s.hi, 0);
    let s2 = u256_integer_sqrt(Amount::from_u128(4_000_001));
    assert_eq!(s2.lo, 2000);
    let s3 = u256_integer_sqrt(Amount { lo: 0, hi: 1 }); // sqrt(2^128) = 2^64
    assert_eq!(s3.lo, 1u128 << 64);
    assert_eq!(s3.hi, 0);
}

#[test]
fn wrapping_operations_wrap_at_2_pow_256() {
    let top = Amount { lo: u128::MAX, hi: u128::MAX };
    let one = Amount::from_u128(1);
    let w = u256_overflowing_add(top, one);
    assert_eq!(w.lo, 0);
    assert_eq!(w.hi, 0);
    let big = Amount { lo: 0, hi: 1 << 64 }; // 2^192
    let w2 = u256_overflowing_mul(big, big); // 2^384 mod 2^256 == 0
    assert_eq!(w2.lo, 0);
    assert_eq!(w2.hi, 0);
    let w3 = u256_overflowing_mul(Amount::from_u128(3), Amount::from_u128(5));
    assert_eq!(w3.lo, 15);
    assert_eq!(w3.hi, 0);
}

#[test]
fn quote_is_proportional() {
    assert_eq!(quote(250, (1000, 4000)), Ok(1000));
    assert_eq!(quote(3, (7, 5)), Ok(2)); // floor(15 / 7)
    assert_eq!(quote_reserve_unchecked(1000, (4000, 1000)), Ok(250));
}

#[test]
fn quote_rejects_zero_reserve_and_overflow() {
    assert_eq!(quote(250, (0, 4000)), Err(Error::InsufficientAmount));
    assert_eq!(quote(u128::MAX, (1, u128::MAX)), Err(Error::Overflow));
}

#[test]
fn out_amount_applies_the_fee_formula() {
    // floor(100 * 997 * 1000 / (1000 * 1000 + 100 * 997)) = 90
    assert_eq!(calculate_out_amount(100, (1000, 1000)), Ok(90));
    assert_eq!(calculate_out_amount(0, (1000, 1000)), Ok(0));
}

#[test]
fn out_amount_rejects_empty_reserves_and_overflow() {
    assert_eq!(calculate_out_amount(100, (0, 1000)), Err(Error::InsufficientLiquidity));
    assert_eq!(calculate_out_amount(100, (1000, 0)), Err(Error::InsufficientLiquidity));
    assert_eq!(calculate_out_amount(u128::MAX, (1, u128::MAX)), Err(Error::Overflow));
}

#[test]
fn in_amount_rounds_up() {
    // floor(1000 * 1000 * 90 / (997 * 910)) + 1 = 99 + 1 = 100
    assert_eq!(calculate_in_amount(90, (1000, 1000)), Ok(100));
}

#[test]
fn in_amount_rejects_draining_the_reserve() {
    assert_eq!(calculate_in_amount(1000, (1000, 1000)), Err(Error::InsufficientLiquidity));
    assert_eq!(calculate_in_amount(1001, (1000, 1000)), Err(Error::InsufficientLiquidity));
    assert_eq!(calculate_in_amount(90, (0, 1000)), Err(Error::InsufficientLiquidity));
}

#[test]
fn out_then_in_recovers_at_most_the_input() {
    for (amount_in, r0, r1) in [
        (100u128, 1000u128, 1000u128),
        (3, 1000, 1000),
        (12345, 99999, 54321),
        (1_000_000, 1000, 1000),
    ] {
        let out = calculate_out_amount(amount_in, (r0, r1)).unwrap();
        if out > 0 {
            let back = calculate_in_amount(out, (r0, r1)).unwrap();
            assert!(back <= amount_in, "{} > {}", back, amount_in);
        }
    }
}

#[test]
fn exact_division_boundary_needs_one_extra_unit() {
    // With reserves (997, 2) and input 1000 the exact-in division is
    // exact (output 1), and the backward quote then demands 1001.
    let out = calculate_out_amount(1000, (997, 2)).unwrap();
    assert_eq!(out, 1);
    let back = calculate_in_amount(out, (997, 2)).unwrap();
    assert_eq!(back, 1001);
}

#[test]
fn swap_quotes_never_shrink_the_product() {
    for (amount_in, r0, r1) in [(100u128, 1000u128, 1000u128), (7, 13, 29), (500, 12, 9999)] {
        let out = calculate_out_amount(amount_in, (r0, r1)).unwrap();
        assert!((r0 + amount_in) * (r1 - out) >= r0 * r1);
    }
    for (amount_out, r0, r1) in [(90u128, 1000u128, 1000u128), (5, 13, 29), (500, 12, 9999)] {
        let inp = calculate_in_amount(amount_out, (r0, r1)).unwrap();
        assert!((r0 + inp) * (r1 - amount_out) >= r0 * r1);
    }
}

#[test]
fn in_amount_that_cannot_fit_is_an_overflow() {
    // The exact-out input against a huge input reserve exceeds 128 bits.
    assert_eq!(calculate_in_amount(1, (u128::MAX, 2)), Err(Error::Overflow));
}
