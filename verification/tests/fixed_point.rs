//! Exact values of the fixed-point primitives.

use mandelscope::fixed::{fix_mul, fix_mag2, mul_div, div_trunc_i64, FixVec, FIX_ONE};
use mandelscope::log2fix::{log2_fix16, log2_floor_u128, pow2_u128};
use mandelscope::text::to_decimal;

const ONE: i64 = FIX_ONE;

#[test]
fn fix_mul_scales_products_back() {
    // 1.5 * 2 == 3
    assert_eq!(fix_mul(3 * ONE / 2, 2 * ONE), 3 * ONE);
    // 0.5 * 0.5 == 0.25
    assert_eq!(fix_mul(ONE / 2, ONE / 2), ONE / 4);
    // signs follow the operands, truncation goes toward zero
    assert_eq!(fix_mul(-ONE / 2, ONE / 2), -(ONE / 4));
    assert_eq!(fix_mul(-3, 3), 0);
    assert_eq!(fix_mul(3, 3), 0);
}

#[test]
fn truncated_division_rounds_toward_zero() {
    assert_eq!(div_trunc_i64(7, 2), 3);
    assert_eq!(div_trunc_i64(-7, 2), -3);
    assert_eq!(div_trunc_i64(8, 2), 4);
    assert_eq!(div_trunc_i64(-8, 2), -4);
}

#[test]
fn mul_div_uses_wide_intermediates() {
    // (2^40 * 2^30) / 2^32 needs 70-bit intermediate math
    assert_eq!(mul_div(1 << 40, 1 << 30, 1 << 32), 1 << 38);
    assert_eq!(mul_div(-(1 << 40), 1 << 30, 1 << 32), -(1 << 38));
}

#[test]
fn magnitude_squares_match() {
    // |(1, 2)|^2 == 5
    assert_eq!(fix_mag2(ONE, 2 * ONE), 5 * (ONE as u128));
    assert_eq!(fix_mag2(-ONE, 2 * ONE), 5 * (ONE as u128));
    assert_eq!(fix_mag2(0, 0), 0);
}

#[test]
fn log2_of_powers_is_exact() {
    assert_eq!(log2_floor_u128(1), 0);
    assert_eq!(log2_floor_u128(2), 1);
    assert_eq!(log2_floor_u128(3), 1);
    assert_eq!(log2_floor_u128(16), 4);
    assert_eq!(log2_floor_u128(u128::MAX), 127);
    // on an exact power of two the fractional bits vanish
    assert_eq!(log2_fix16(16), 4 * 0x1_0000);
    assert_eq!(log2_fix16(1 << 34), 34 * 0x1_0000);
    // between powers the floor part is exact and the fraction is below one
    let l3 = log2_fix16(3);
    assert!(l3 > 0x1_0000 && l3 < 2 * 0x1_0000);
    // log2(3) ~ 1.585; with sixteen fractional bits that is ~103872
    assert_eq!(l3, 103872);
}

#[test]
fn pow2_matches_shifts() {
    assert_eq!(pow2_u128(0), 1);
    assert_eq!(pow2_u128(10), 1024);
    assert_eq!(pow2_u128(127), 1u128 << 127);
}

#[test]
fn decimal_rendering() {
    assert_eq!(to_decimal(0), "0");
    assert_eq!(to_decimal(7), "7");
    assert_eq!(to_decimal(100), "100");
    assert_eq!(to_decimal(98765), "98765");
    assert_eq!(to_decimal(u64::MAX), "18446744073709551615");
}

#[test]
fn fixvec_holds_coordinates() {
    let v = FixVec::new(-5, 7);
    assert_eq!(v.x, -5);
    assert_eq!(v.y, 7);
}
