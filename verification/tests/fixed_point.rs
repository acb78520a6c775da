use woids::fixed::{isqrt, mul_scaled, widening_product, SCALE};

#[test]
fn scale_is_one_million() {
    assert_eq!(SCALE, 1_000_000);
}

#[test]
fn product_of_one_and_a_half_by_four_tenths() {
    assert_eq!(mul_scaled(1_500_000, 400_000), 600_000);
}

#[test]
fn product_rounds_toward_zero_on_both_sides() {
    assert_eq!(mul_scaled(7, 500_000), 3);
    assert_eq!(mul_scaled(-7, 500_000), -3);
    assert_eq!(mul_scaled(7, -500_000), -3);
    assert_eq!(mul_scaled(-1_500_001, 333_333), -499_999);
}

#[test]
fn product_by_zero_is_zero() {
    assert_eq!(mul_scaled(123_456_789, 0), 0);
    assert_eq!(mul_scaled(0, -5), 0);
}

#[test]
fn product_by_one_is_identity() {
    assert_eq!(mul_scaled(-987_654_321, SCALE), -987_654_321);
}

#[test]
fn widening_product_does_not_wrap() {
    assert_eq!(widening_product(i64::MAX, i64::MAX), (i64::MAX as i128) * (i64::MAX as i128));
    assert_eq!(widening_product(i64::MIN, i64::MIN), (i64::MIN as i128) * (i64::MIN as i128));
    assert_eq!(widening_product(-3, 4), -12);
}

#[test]
fn integer_square_roots_of_small_numbers() {
    assert_eq!(isqrt(0), 0);
    assert_eq!(isqrt(1), 1);
    assert_eq!(isqrt(2), 1);
    assert_eq!(isqrt(3), 1);
    assert_eq!(isqrt(4), 2);
    assert_eq!(isqrt(24), 4);
    assert_eq!(isqrt(25), 5);
    assert_eq!(isqrt(26), 5);
}

#[test]
fn integer_square_root_of_the_initial_speed_squared() {
    assert_eq!(isqrt(101_000_000_000_000), 10_049_875);
}

#[test]
fn integer_square_root_of_the_largest_argument() {
    assert_eq!(isqrt(u128::MAX), u64::MAX);
    assert_eq!(isqrt(u128::MAX - 1), u64::MAX);
}

#[test]
fn integer_square_root_around_a_large_square() {
    let r: u128 = 0xffff_ffff_ffff_ffff;
    assert_eq!(isqrt(r * r), u64::MAX);
    assert_eq!(isqrt(r * r - 1), u64::MAX - 1);
    let s: u128 = 9_223_372_036_854_775_807;
    assert_eq!(isqrt(s * s + 2 * s), 9_223_372_036_854_775_807);
    assert_eq!(isqrt(s * s + 2 * s + 1), 9_223_372_036_854_775_808);
}

#[test]
fn product_at_the_ends_of_the_range() {
    assert_eq!(mul_scaled(i64::MAX, SCALE), i64::MAX);
    assert_eq!(mul_scaled(i64::MIN, SCALE), i64::MIN);
    assert_eq!(mul_scaled(i64::MIN, -1), 9_223_372_036_854);
}

#[test]
fn integer_square_root_brackets_its_argument() {
    let mut n: u128 = 1;
    while n < 1_000_000_000_000_000_000_000_000 {
        let r = isqrt(n) as u128;
        assert!(r * r <= n);
        assert!(n < (r + 1) * (r + 1));
        n = n * 7 + 3;
    }
}
