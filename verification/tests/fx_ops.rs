use xpbd::fx::{
    fx_abs, fx_add, fx_clamp, fx_div, fx_from_int, fx_mul, fx_neg, fx_sqrt, fx_sub, FX_FOUR,
    FX_HALF, FX_ONE, FX_SCALE, FX_TWO,
};

#[test]
fn scale_constants_are_consistent() {
    assert_eq!(FX_SCALE, 4294967296);
    assert_eq!(FX_ONE, FX_SCALE);
    assert_eq!(FX_HALF * 2, FX_ONE);
    assert_eq!(FX_TWO, 2 * FX_ONE);
    assert_eq!(FX_FOUR, 4 * FX_ONE);
}

#[test]
fn add_and_sub_are_exact_in_range() {
    assert_eq!(fx_add(FX_ONE, FX_TWO), 3 * FX_ONE);
    assert_eq!(fx_sub(FX_ONE, FX_TWO), -FX_ONE);
    assert_eq!(fx_neg(FX_ONE), -FX_ONE);
}

#[test]
fn add_saturates_at_the_bounds() {
    assert_eq!(fx_add(i64::MAX, 1), i64::MAX);
    assert_eq!(fx_add(i64::MIN, -1), i64::MIN);
    assert_eq!(fx_sub(i64::MIN, 1), i64::MIN);
    assert_eq!(fx_neg(i64::MIN), i64::MAX);
}

#[test]
fn mul_matches_hand_computed_products() {
    assert_eq!(fx_mul(3 * FX_ONE, FX_HALF), 6442450944); // 1.5
    assert_eq!(fx_mul(FX_ONE, FX_ONE), FX_ONE);
    assert_eq!(fx_mul(-3 * FX_ONE, FX_HALF), -6442450944);
    assert_eq!(fx_mul(0, 123456), 0);
}

#[test]
fn mul_truncates_toward_zero() {
    // 1/scale * 1/scale underflows to zero from either sign
    assert_eq!(fx_mul(1, 1), 0);
    assert_eq!(fx_mul(-1, 1), 0);
}

#[test]
fn div_truncates_toward_zero() {
    assert_eq!(fx_div(7 * FX_ONE, 2 * FX_ONE), 15032385536); // 3.5
    assert_eq!(fx_div(-7 * FX_ONE, 2 * FX_ONE), -15032385536);
    assert_eq!(fx_div(FX_ONE, 3 * FX_ONE), 1431655765);
}

#[test]
fn sqrt_matches_hand_computed_roots() {
    assert_eq!(fx_sqrt(4 * FX_ONE), 2 * FX_ONE);
    assert_eq!(fx_sqrt(0), 0);
    assert_eq!(fx_sqrt(FX_ONE), FX_ONE);
    assert_eq!(fx_sqrt(2 * FX_ONE), 6074000999);
}

#[test]
fn abs_clamp_and_from_int() {
    assert_eq!(fx_abs(-5), 5);
    assert_eq!(fx_abs(5), 5);
    assert_eq!(fx_abs(i64::MIN), i64::MAX);
    assert_eq!(fx_clamp(7, 0, 5), 5);
    assert_eq!(fx_clamp(-7, 0, 5), 0);
    assert_eq!(fx_clamp(3, 0, 5), 3);
    assert_eq!(fx_from_int(3), 3 * FX_ONE);
    assert_eq!(fx_from_int(-2), -2 * FX_ONE);
}
