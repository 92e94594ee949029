use bitray::fixed::{
    fp_add, fp_clamp, fp_div, fp_mul, fp_neg, fp_sqrt, fp_sub, isqrt64, FP_LIM, SCALE,
};

#[test]
fn add_and_sub_are_exact_in_range() {
    assert_eq!(fp_add(65536, 65536), 131072);
    assert_eq!(fp_sub(65536, 131072), -65536);
    assert_eq!(fp_neg(-65536), 65536);
}

#[test]
fn add_saturates_at_the_limit() {
    assert_eq!(fp_add(FP_LIM, FP_LIM), FP_LIM);
    assert_eq!(fp_sub(-FP_LIM, FP_LIM), -FP_LIM);
}

#[test]
fn mul_truncates_toward_zero() {
    // 1.5 * 1.5 = 2.25
    assert_eq!(fp_mul(98304, 98304), 147456);
    // (-1.5) * 1.5 = -2.25, truncated toward zero on the magnitude
    assert_eq!(fp_mul(-98304, 98304), -147456);
    // 1/3-ish truncation: 21845 * 3 = 65535 in fixed point
    assert_eq!(fp_mul(21845, 196608), 65535);
}

#[test]
fn div_is_exact_on_powers_of_two_and_zero_divisor_gives_zero() {
    assert_eq!(fp_div(131072, 65536), 131072);
    assert_eq!(fp_div(65536, 131072), 32768);
    assert_eq!(fp_div(12345, 0), 0);
    assert_eq!(fp_div(-131072, 65536), -131072);
}

#[test]
fn div_saturates_when_the_quotient_leaves_range() {
    assert_eq!(fp_div(FP_LIM, 1), FP_LIM);
    assert_eq!(fp_div(-FP_LIM, 1), -FP_LIM);
}

#[test]
fn sqrt_matches_known_squares() {
    assert_eq!(fp_sqrt(65536), 65536);
    assert_eq!(fp_sqrt(4 * 65536), 2 * 65536);
    assert_eq!(fp_sqrt(0), 0);
    assert_eq!(fp_sqrt(-65536), 0);
    assert_eq!(isqrt64(0), 0);
    assert_eq!(isqrt64(17), 4);
    assert_eq!(isqrt64(u64::MAX), 0xFFFF_FFFF);
}

#[test]
fn clamp_pins_into_range() {
    assert_eq!(fp_clamp(5, 0, SCALE), 5);
    assert_eq!(fp_clamp(-5, 0, SCALE), 0);
    assert_eq!(fp_clamp(SCALE + 1, 0, SCALE), SCALE);
}
