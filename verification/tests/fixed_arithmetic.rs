use racing_physics::fixed::{Fixed, HALF_PI, PI, SCALE, TWO_PI};

#[test]
fn product_is_rounded_toward_zero() {
    let a = Fixed::from_raw(1_500_000_001);
    let b = Fixed::from_raw(-500_000_000);
    assert_eq!(a.times(b).raw, -750_000_000);
    assert_eq!(b.times(a).raw, -750_000_000);
    assert_eq!(a.times(a).raw, 2_250_000_003);
    assert_eq!(Fixed::from_raw(1).times(Fixed::from_raw(999_999_999)).raw, 0);
    assert_eq!(Fixed::from_raw(-1).times(Fixed::from_raw(999_999_999)).raw, 0);
}

#[test]
fn whole_numbers_are_scaled() {
    assert_eq!(Fixed::from_int(0).raw, 0);
    assert_eq!(Fixed::from_int(7).raw, 7 * SCALE);
    assert_eq!(Fixed::from_int(-7).raw, -7 * SCALE);
    assert_eq!(Fixed::from_int(i32::MAX).raw, 2_147_483_647_000_000_000);
    assert_eq!(Fixed::from_int(i32::MIN).raw, -2_147_483_648_000_000_000);
    assert_eq!(Fixed::one().raw, SCALE);
    assert_eq!(Fixed::zero().raw, 0);
    assert_eq!(Fixed::from_raw(42).raw(), 42);
    assert!(Fixed::zero().is_zero());
    assert!(!Fixed::from_raw(1).is_zero());
}

#[test]
fn sums_and_differences_saturate() {
    let top = Fixed::from_raw(i64::MAX);
    let bottom = Fixed::from_raw(i64::MIN);
    let one = Fixed::from_raw(1);
    assert_eq!(top.plus(one).raw, i64::MAX);
    assert_eq!(bottom.minus(one).raw, i64::MIN);
    assert_eq!(bottom.plus(bottom).raw, i64::MIN);
    assert_eq!(top.minus(bottom).raw, i64::MAX);
    assert_eq!(bottom.neg().raw, i64::MAX);
    assert_eq!(top.neg().raw, -i64::MAX);
    assert_eq!(Fixed::from_int(2).plus(Fixed::from_int(3)).raw, 5 * SCALE);
    assert_eq!(Fixed::from_int(2).minus(Fixed::from_int(3)).raw, -SCALE);
}

#[test]
fn products_and_quotients_saturate() {
    let big = Fixed::from_int(2_000_000_000);
    assert_eq!(big.times(big).raw, i64::MAX);
    assert_eq!(big.times(big.neg()).raw, i64::MIN);
    assert_eq!(big.over(Fixed::from_raw(1)).raw, i64::MAX);
    assert_eq!(big.over(Fixed::from_raw(-1)).raw, i64::MIN);
    assert_eq!(Fixed::from_raw(i64::MIN).times(Fixed::from_raw(i64::MIN)).raw, i64::MAX);
}

#[test]
fn quotient_is_rounded_toward_zero() {
    let one = Fixed::from_int(1);
    let three = Fixed::from_int(3);
    assert_eq!(one.over(three).raw, 333_333_333);
    assert_eq!(one.neg().over(three).raw, -333_333_333);
    assert_eq!(one.over(three.neg()).raw, -333_333_333);
    assert_eq!(one.neg().over(three.neg()).raw, 333_333_333);
    assert_eq!(Fixed::from_int(10).over(Fixed::from_int(4)).raw, 2_500_000_000);
    assert_eq!(Fixed::from_raw(0).over(three).raw, 0);
}

#[test]
fn remainder_has_the_sign_of_the_dividend() {
    let two = Fixed::from_int(2);
    assert_eq!(Fixed::from_raw(7_500_000_000).rem(two).raw, 1_500_000_000);
    assert_eq!(Fixed::from_raw(-7_500_000_000).rem(two).raw, -1_500_000_000);
    assert_eq!(Fixed::from_raw(7_500_000_000).rem(two.neg()).raw, 1_500_000_000);
    assert_eq!(Fixed::from_raw(TWO_PI + 5).rem(Fixed::from_raw(TWO_PI)).raw, 5);
    assert_eq!(Fixed::from_raw(TWO_PI).rem(Fixed::from_raw(TWO_PI)).raw, 0);
}

#[test]
fn half_is_rounded_toward_zero() {
    assert_eq!(Fixed::from_raw(3).half().raw, 1);
    assert_eq!(Fixed::from_raw(-3).half().raw, -1);
    assert_eq!(Fixed::from_int(5).half().raw, 2_500_000_000);
}

#[test]
fn distance_from_zero_and_sign() {
    assert_eq!(Fixed::from_int(-4).abs().raw, 4 * SCALE);
    assert_eq!(Fixed::from_int(4).abs().raw, 4 * SCALE);
    assert_eq!(Fixed::from_raw(i64::MIN).abs().raw, i64::MAX);
    assert_eq!(Fixed::from_raw(0).signum().raw, SCALE);
    assert_eq!(Fixed::from_raw(1).signum().raw, SCALE);
    assert_eq!(Fixed::from_raw(-1).signum().raw, -SCALE);
}

#[test]
fn order_of_numbers() {
    let a = Fixed::from_int(-2);
    let b = Fixed::from_int(3);
    assert!(a.lt(b) && a.le(b) && !a.gt(b) && !a.ge(b));
    assert!(b.gt(a) && b.ge(a) && !b.lt(a) && !b.le(a));
    assert!(a.le(a) && a.ge(a) && !a.lt(a) && !a.gt(a));
    assert_eq!(a.min(b), a);
    assert_eq!(b.min(a), a);
    assert_eq!(a.max(b), b);
    assert_eq!(b.max(a), b);
}

#[test]
fn square_root_is_rounded_down() {
    assert_eq!(Fixed::from_int(0).sqrt().raw, 0);
    assert_eq!(Fixed::from_int(4).sqrt().raw, 2 * SCALE);
    assert_eq!(Fixed::from_int(2).sqrt().raw, 1_414_213_562);
    assert_eq!(Fixed::from_raw(1).sqrt().raw, 31_622);
    assert_eq!(Fixed::from_raw(i64::MAX).sqrt().raw, 96038388349944);
    assert_eq!(Fixed::from_int(25).sqrt().raw, 5 * SCALE);
}

#[test]
fn whole_part_is_truncated_and_saturated() {
    assert_eq!(Fixed::from_raw(3_900_000_000).to_int(), 3);
    assert_eq!(Fixed::from_raw(-3_900_000_000).to_int(), -3);
    assert_eq!(Fixed::from_raw(999_999_999).to_int(), 0);
    assert_eq!(Fixed::from_raw(i64::MAX).to_int(), i32::MAX);
    assert_eq!(Fixed::from_raw(i64::MIN).to_int(), i32::MIN);
    assert_eq!(Fixed::from_int(240).to_int(), 240);
}

#[test]
fn degrees_become_radians() {
    assert_eq!(Fixed::from_int(0).to_radians().raw, 0);
    assert_eq!(Fixed::from_int(90).to_radians().raw, 1570796327);
    assert_eq!(Fixed::from_int(180).to_radians().raw, 3141592654);
    assert_eq!(Fixed::from_int(270).to_radians().raw, 4712388981);
    assert_eq!(Fixed::from_int(-90).to_radians().raw, -1570796327);
    assert_eq!(Fixed::from_int(180).to_radians().raw, PI);
    assert_eq!(Fixed::from_int(90).to_radians().raw, HALF_PI);
}
