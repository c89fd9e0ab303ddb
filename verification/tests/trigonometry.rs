use racing_physics::fixed::{Fixed, HALF_PI, PI, SCALE};

#[test]
fn sine_and_cosine_of_zero() {
    assert_eq!(Fixed::from_raw(0).sin().raw, 0);
    assert_eq!(Fixed::from_raw(0).cos().raw, SCALE);
}

#[test]
fn sine_and_cosine_at_the_quarter_turns() {
    assert_eq!(Fixed::from_raw(HALF_PI).sin().raw, SCALE);
    assert_eq!(Fixed::from_raw(HALF_PI).cos().raw, 0);
    assert_eq!(Fixed::from_raw(PI).sin().raw, 0);
    assert_eq!(Fixed::from_raw(PI).cos().raw, -SCALE);
    assert_eq!(Fixed::from_raw(-HALF_PI).sin().raw, -SCALE);
    assert_eq!(Fixed::from_raw(-HALF_PI).cos().raw, 0);
}

#[test]
fn sine_and_cosine_of_chosen_angles() {
    assert_eq!(Fixed::from_raw(1).sin().raw, 1);
    assert_eq!(Fixed::from_raw(1).cos().raw, 1000000000);
    assert_eq!(Fixed::from_raw(-1).sin().raw, -1);
    assert_eq!(Fixed::from_raw(-1).cos().raw, 1000000000);
    assert_eq!(Fixed::from_raw(123456789).sin().raw, 123143415);
    assert_eq!(Fixed::from_raw(123456789).cos().raw, 992388886);
    assert_eq!(Fixed::from_raw(1000000000).sin().raw, 841470986);
    assert_eq!(Fixed::from_raw(1000000000).cos().raw, 540302305);
    assert_eq!(Fixed::from_raw(3000000000).sin().raw, 141120007);
    assert_eq!(Fixed::from_raw(3000000000).cos().raw, -989992498);
    assert_eq!(Fixed::from_raw(785398163).sin().raw, 707106783);
    assert_eq!(Fixed::from_raw(785398163).cos().raw, 707106782);
    assert_eq!(Fixed::from_raw(785398164).sin().raw, 707106783);
    assert_eq!(Fixed::from_raw(785398164).cos().raw, 707106782);
    assert_eq!(Fixed::from_raw(785398165).sin().raw, 707106784);
    assert_eq!(Fixed::from_raw(785398165).cos().raw, 707106782);
    assert_eq!(Fixed::from_raw(1570796327).sin().raw, 1000000000);
    assert_eq!(Fixed::from_raw(1570796327).cos().raw, 0);
    assert_eq!(Fixed::from_raw(3141592654).sin().raw, 0);
    assert_eq!(Fixed::from_raw(3141592654).cos().raw, -1000000000);
    assert_eq!(Fixed::from_raw(6283185307).sin().raw, 0);
    assert_eq!(Fixed::from_raw(6283185307).cos().raw, 1000000000);
    assert_eq!(Fixed::from_raw(100000000000).sin().raw, -506365641);
    assert_eq!(Fixed::from_raw(100000000000).cos().raw, 862318874);
    assert_eq!(Fixed::from_raw(-1000000000000).sin().raw, -826879541);
    assert_eq!(Fixed::from_raw(-1000000000000).cos().raw, 562379077);
    assert_eq!(Fixed::from_raw(2356194490).sin().raw, 707106782);
    assert_eq!(Fixed::from_raw(2356194490).cos().raw, -707106783);
    assert_eq!(Fixed::from_raw(9223372036854775807).sin().raw, -774505500);
    assert_eq!(Fixed::from_raw(9223372036854775807).cos().raw, -632567177);
    assert_eq!(Fixed::from_raw(-9223372036854775808).sin().raw, 774505500);
    assert_eq!(Fixed::from_raw(-9223372036854775808).cos().raw, -632567176);
}

#[test]
fn sine_and_cosine_follow_the_circle() {
    let mut raw: i64 = -50_000_000_000;
    while raw <= 50_000_000_000 {
        let angle = raw as f64 / 1e9;
        let s = Fixed::from_raw(raw).sin().raw as f64 / 1e9;
        let c = Fixed::from_raw(raw).cos().raw as f64 / 1e9;
        assert!((s - angle.sin()).abs() < 1e-8, "sine of {}", angle);
        assert!((c - angle.cos()).abs() < 1e-8, "cosine of {}", angle);
        raw += 37_000_001;
    }
}

#[test]
fn sine_is_odd_and_cosine_is_even() {
    let mut raw: i64 = 0;
    while raw <= 20_000_000_000 {
        let x = Fixed::from_raw(raw);
        assert_eq!(x.neg().sin(), x.sin().neg());
        assert_eq!(x.neg().cos(), x.cos());
        raw += 123_456_789;
    }
}

#[test]
fn arctangent_on_the_axes() {
    let zero = Fixed::from_raw(0);
    let one = Fixed::from_raw(SCALE);
    assert_eq!(zero.atan2(zero).raw, 0);
    assert_eq!(zero.atan2(one).raw, 0);
    assert_eq!(one.atan2(zero).raw, HALF_PI);
    assert_eq!(zero.atan2(one.neg()).raw, PI);
    assert_eq!(one.neg().atan2(zero).raw, -HALF_PI);
}

#[test]
fn arctangent_of_chosen_points() {
    assert_eq!(Fixed::from_raw(0).atan2(Fixed::from_raw(1000000000)).raw, 0);
    assert_eq!(Fixed::from_raw(1000000000).atan2(Fixed::from_raw(0)).raw, 1570796327);
    assert_eq!(Fixed::from_raw(0).atan2(Fixed::from_raw(-1000000000)).raw, 3141592654);
    assert_eq!(Fixed::from_raw(-1000000000).atan2(Fixed::from_raw(0)).raw, -1570796327);
    assert_eq!(Fixed::from_raw(1000000000).atan2(Fixed::from_raw(1000000000)).raw, 785398161);
    assert_eq!(Fixed::from_raw(-1000000000).atan2(Fixed::from_raw(1000000000)).raw, -785398161);
    assert_eq!(Fixed::from_raw(1000000000).atan2(Fixed::from_raw(-1000000000)).raw, 2356194493);
    assert_eq!(Fixed::from_raw(-1000000000).atan2(Fixed::from_raw(-1000000000)).raw, -2356194493);
    assert_eq!(Fixed::from_raw(1).atan2(Fixed::from_raw(9223372036854775807)).raw, 0);
    assert_eq!(Fixed::from_raw(9223372036854775807).atan2(Fixed::from_raw(1)).raw, 1570796327);
    assert_eq!(Fixed::from_raw(-9223372036854775808).atan2(Fixed::from_raw(-9223372036854775808)).raw, -2356194493);
    assert_eq!(Fixed::from_raw(3000000000).atan2(Fixed::from_raw(4000000000)).raw, 643501109);
    assert_eq!(Fixed::from_raw(-5000000000).atan2(Fixed::from_raw(12000000000)).raw, -394791120);
    assert_eq!(Fixed::from_raw(1).atan2(Fixed::from_raw(1)).raw, 785398161);
    assert_eq!(Fixed::from_raw(500000000).atan2(Fixed::from_raw(2000000000)).raw, 244978663);
    assert_eq!(Fixed::from_raw(0).atan2(Fixed::from_raw(1)).raw, 0);
    assert_eq!(Fixed::from_raw(1).atan2(Fixed::from_raw(0)).raw, 1570796327);
    assert_eq!(Fixed::from_raw(-9223372036854775808).atan2(Fixed::from_raw(0)).raw, -1570796327);
    assert_eq!(Fixed::from_raw(0).atan2(Fixed::from_raw(-9223372036854775808)).raw, 3141592654);
}

#[test]
fn arctangent_follows_the_circle() {
    let mut y: i64 = -100_000_000_000;
    while y <= 100_000_000_000 {
        let mut x: i64 = -100_000_000_000;
        while x <= 100_000_000_000 {
            let got = Fixed::from_raw(y).atan2(Fixed::from_raw(x)).raw as f64 / 1e9;
            let want = (y as f64).atan2(x as f64);
            if x != 0 || y != 0 {
                assert!((got - want).abs() < 2e-8, "arctangent of {} over {}", y, x);
            }
            x += 7_300_000_001;
        }
        y += 6_100_000_003;
    }
}

#[test]
fn sine_and_cosine_stay_within_one() {
    let mut angles = vec![i64::MIN, i64::MIN + 1, -1, 0, 1, i64::MAX - 1, i64::MAX];
    let mut raw: i64 = -9_000_000_000_000_000_000;
    while raw < 9_000_000_000_000_000_000 {
        angles.push(raw);
        raw += 173_205_080_756_887_729;
    }
    for raw in angles {
        let s = Fixed::from_raw(raw).sin().raw;
        let c = Fixed::from_raw(raw).cos().raw;
        assert!(-SCALE <= s && s <= SCALE, "sine of {}", raw);
        assert!(-SCALE <= c && c <= SCALE, "cosine of {}", raw);
    }
}

#[test]
fn arctangent_stays_within_a_half_turn() {
    let ends = [i64::MIN, i64::MIN + 1, -SCALE, -1, 0, 1, SCALE, i64::MAX - 1, i64::MAX];
    for y in ends {
        for x in ends {
            let angle = Fixed::from_raw(y).atan2(Fixed::from_raw(x)).raw;
            assert!(-PI <= angle && angle <= PI, "arctangent of {} over {}", y, x);
            if y >= 0 {
                assert!(angle >= 0, "arctangent of {} over {}", y, x);
            } else {
                assert!(angle <= 0, "arctangent of {} over {}", y, x);
            }
        }
    }
}

#[test]
fn arctangent_along_the_positive_axis_is_zero() {
    for x in [1, 2, SCALE, 5 * SCALE, i64::MAX] {
        assert_eq!(Fixed::from_raw(0).atan2(Fixed::from_raw(x)).raw, 0);
    }
}
