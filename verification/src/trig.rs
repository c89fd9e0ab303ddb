//! Sine, cosine and the two-argument arctangent on [`Fixed`] angles in
//! radians.
//!
//! Sine and cosine take the nearest whole number of quarter turns off the
//! angle and evaluate a Taylor polynomial on what is left, which lies within
//! an eighth of a turn of zero. The arctangent evaluates an odd polynomial on
//! the ratio of the smaller to the larger coordinate and unfolds the result
//! by octant.

use vstd::prelude::*;
use crate::fixed::{
    Fixed, magnitude, trunc_div, lemma_over_whole, lemma_plus_zero, lemma_ratio_within_one,
    lemma_share_of, lemma_square_not_negative, lemma_times_fraction, lemma_times_zero,
    lemma_zero_over, SCALE, PI, HALF_PI,
};

verus! {

/// Number of fine units in a raw unit. Angles are reduced in fine units,
/// each a billionth of a billionth.
pub const FINE: i128 = 1_000_000_000;

/// A quarter turn in fine units.
pub const QUARTER_TURN_FINE: i128 = 1_570_796_326_794_896_619;

/// Coefficients of the arctangent polynomial, from the first power of the
/// ratio to the nineteenth, as raw counts. The polynomial is fitted to the
/// arctangent between zero and one.
pub const ATAN_1: i64 = 999_999_997;

pub const ATAN_3: i64 = -333_332_763;

pub const ATAN_5: i64 = 199_980_753;

pub const ATAN_7: i64 = -142_600_161;

pub const ATAN_9: i64 = 109_323_415;

pub const ATAN_11: i64 = -83_497_250;

pub const ATAN_13: i64 = 57_089_556;

pub const ATAN_15: i64 = -30_351_865;

pub const ATAN_17: i64 = 10_487_649;

pub const ATAN_19: i64 = -1_701_170;

/// The whole number of quarter turns nearest to an angle of `m` raw units,
/// for `m >= 0`.
pub open spec fn quarter_turns(m: int) -> int
    recommends
        m >= 0,
{
    (m * FINE + QUARTER_TURN_FINE / 2) / (QUARTER_TURN_FINE as int)
}

/// What is left of an angle of `m` raw units once its quarter turns are taken
/// off, rounded toward zero to a raw unit.
pub open spec fn within_quarter(m: int) -> Fixed
    recommends
        m >= 0,
{
    Fixed::of(trunc_div(m * FINE - quarter_turns(m) * QUARTER_TURN_FINE, FINE as int))
}

/// The Taylor polynomial of the sine up to the ninth power, in nested form:
/// `r (1 - r^2/6 (1 - r^2/20 (1 - r^2/42 (1 - r^2/72))))`.
pub open spec fn sin_series(r: Fixed) -> Fixed {
    let r2 = r.times(r);
    let t4 = Fixed { raw: SCALE }.minus(r2.over(Fixed::from_int(72)));
    let t3 = Fixed { raw: SCALE }.minus(r2.over(Fixed::from_int(42)).times(t4));
    let t2 = Fixed { raw: SCALE }.minus(r2.over(Fixed::from_int(20)).times(t3));
    let t1 = Fixed { raw: SCALE }.minus(r2.over(Fixed::from_int(6)).times(t2));
    r.times(t1)
}

/// The Taylor polynomial of the cosine up to the tenth power, in nested
/// form: `1 - r^2/2 (1 - r^2/12 (1 - r^2/30 (1 - r^2/56 (1 - r^2/90))))`.
pub open spec fn cos_series(r: Fixed) -> Fixed {
    let r2 = r.times(r);
    let t5 = Fixed { raw: SCALE }.minus(r2.over(Fixed::from_int(90)));
    let t4 = Fixed { raw: SCALE }.minus(r2.over(Fixed::from_int(56)).times(t5));
    let t3 = Fixed { raw: SCALE }.minus(r2.over(Fixed::from_int(30)).times(t4));
    let t2 = Fixed { raw: SCALE }.minus(r2.over(Fixed::from_int(12)).times(t3));
    Fixed { raw: SCALE }.minus(r2.over(Fixed::from_int(2)).times(t2))
}

/// The factor of the arctangent polynomial: a polynomial in `a^2`, in nested
/// form.
pub open spec fn atan_factor(a: Fixed) -> Fixed {
    let u = a.times(a);
    let t9 = Fixed { raw: ATAN_19 };
    let t8 = Fixed { raw: ATAN_17 }.plus(u.times(t9));
    let t7 = Fixed { raw: ATAN_15 }.plus(u.times(t8));
    let t6 = Fixed { raw: ATAN_13 }.plus(u.times(t7));
    let t5 = Fixed { raw: ATAN_11 }.plus(u.times(t6));
    let t4 = Fixed { raw: ATAN_9 }.plus(u.times(t5));
    let t3 = Fixed { raw: ATAN_7 }.plus(u.times(t4));
    let t2 = Fixed { raw: ATAN_5 }.plus(u.times(t3));
    let t1 = Fixed { raw: ATAN_3 }.plus(u.times(t2));
    Fixed { raw: ATAN_1 }.plus(u.times(t1))
}

/// The arctangent polynomial, for a ratio `a` between zero and one: `a`
/// times its factor.
pub open spec fn atan_series(a: Fixed) -> Fixed {
    a.times(atan_factor(a))
}

/// The sine of an angle of `m >= 0` raw units.
pub open spec fn sin_of_magnitude(m: int) -> Fixed {
    let q = quarter_turns(m) % 4;
    let r = within_quarter(m);
    if q == 0 {
        sin_series(r)
    } else if q == 1 {
        cos_series(r)
    } else if q == 2 {
        sin_series(r).neg()
    } else {
        cos_series(r).neg()
    }
}

/// The cosine of an angle of `m >= 0` raw units.
pub open spec fn cos_of_magnitude(m: int) -> Fixed {
    let q = quarter_turns(m) % 4;
    let r = within_quarter(m);
    if q == 0 {
        cos_series(r)
    } else if q == 1 {
        sin_series(r).neg()
    } else if q == 2 {
        cos_series(r).neg()
    } else {
        sin_series(r)
    }
}

/// The angle in the first quadrant of the point `(ax, ay)`, whose
/// coordinates are not negative and not both zero.
pub open spec fn first_quadrant_angle(ay: Fixed, ax: Fixed) -> Fixed {
    if ax@ >= ay@ {
        atan_series(ay.over(ax))
    } else {
        Fixed { raw: HALF_PI }.minus(atan_series(ax.over(ay)))
    }
}

/// The Taylor polynomial of the sine.
fn sin_poly(r: Fixed) -> (s: Fixed)
    ensures
        s == sin_series(r),
{
    let one = Fixed { raw: SCALE };
    let r2 = r.times(r);
    let t4 = one.minus(r2.over(Fixed::from_int(72)));
    let t3 = one.minus(r2.over(Fixed::from_int(42)).times(t4));
    let t2 = one.minus(r2.over(Fixed::from_int(20)).times(t3));
    let t1 = one.minus(r2.over(Fixed::from_int(6)).times(t2));
    r.times(t1)
}

/// The Taylor polynomial of the cosine.
fn cos_poly(r: Fixed) -> (c: Fixed)
    ensures
        c == cos_series(r),
{
    let one = Fixed { raw: SCALE };
    let r2 = r.times(r);
    let t5 = one.minus(r2.over(Fixed::from_int(90)));
    let t4 = one.minus(r2.over(Fixed::from_int(56)).times(t5));
    let t3 = one.minus(r2.over(Fixed::from_int(30)).times(t4));
    let t2 = one.minus(r2.over(Fixed::from_int(12)).times(t3));
    one.minus(r2.over(Fixed::from_int(2)).times(t2))
}

/// The arctangent polynomial.
fn atan_poly(a: Fixed) -> (t: Fixed)
    ensures
        t == atan_series(a),
{
    let u = a.times(a);
    let t9 = Fixed { raw: ATAN_19 };
    let t8 = Fixed { raw: ATAN_17 }.plus(u.times(t9));
    let t7 = Fixed { raw: ATAN_15 }.plus(u.times(t8));
    let t6 = Fixed { raw: ATAN_13 }.plus(u.times(t7));
    let t5 = Fixed { raw: ATAN_11 }.plus(u.times(t6));
    let t4 = Fixed { raw: ATAN_9 }.plus(u.times(t5));
    let t3 = Fixed { raw: ATAN_7 }.plus(u.times(t4));
    let t2 = Fixed { raw: ATAN_5 }.plus(u.times(t3));
    let t1 = Fixed { raw: ATAN_3 }.plus(u.times(t2));
    let t0 = Fixed { raw: ATAN_1 }.plus(u.times(t1));
    a.times(t0)
}

/// Splits an angle of `m` raw units into its quarter turns, counted modulo
/// four, and the rest.
fn reduce(m: i128) -> (res: (u8, Fixed))
    requires
        0 <= m <= 0x8000_0000_0000_0000,
    ensures
        res.0 == quarter_turns(m as int) % 4,
        res.1 == within_quarter(m as int),
{
    let x: i128 = m * FINE;
    let k: i128 = (x + QUARTER_TURN_FINE / 2) / QUARTER_TURN_FINE;
    let rest: i128 = x - k * QUARTER_TURN_FINE;
    let q: i128 = k % 4;
    assert(-QUARTER_TURN_FINE <= rest <= QUARTER_TURN_FINE);
    (q as u8, Fixed { raw: (rest / FINE) as i64 })
}

impl Fixed {
    /// What `sin` returns.
    #[verifier::opaque]
    pub open spec fn spec_sin(self) -> Fixed {
        let v = sin_of_magnitude(magnitude(self@));
        if self@ < 0 {
            v.neg()
        } else {
            v
        }
    }

    /// What `cos` returns.
    #[verifier::opaque]
    pub open spec fn spec_cos(self) -> Fixed {
        cos_of_magnitude(magnitude(self@))
    }

    /// What `atan2` returns.
    #[verifier::opaque]
    pub open spec fn spec_atan2(self, x: Fixed) -> Fixed {
        if self@ == 0 && x@ == 0 {
            Fixed { raw: 0 }
        } else {
            let t = first_quadrant_angle(self.abs(), x.abs());
            let half = if x@ < 0 {
                Fixed { raw: PI }.minus(t)
            } else {
                t
            };
            if self@ < 0 {
                half.neg()
            } else {
                half
            }
        }
    }

    /// The sine of an angle in radians.
    #[verifier::when_used_as_spec(spec_sin)]
    pub fn sin(self) -> (r: Fixed)
        ensures
            r == self.spec_sin(),
    {
        proof {
            reveal(Fixed::spec_sin);
        }
        let p: i128 = self.raw as i128;
        let (q, rest) = reduce(
            if p < 0 {
                -p
            } else {
                p
            },
        );
        let v = if q == 0 {
            sin_poly(rest)
        } else if q == 1 {
            cos_poly(rest)
        } else if q == 2 {
            sin_poly(rest).neg()
        } else {
            cos_poly(rest).neg()
        };
        if p < 0 {
            v.neg()
        } else {
            v
        }
    }

    /// The cosine of an angle in radians.
    #[verifier::when_used_as_spec(spec_cos)]
    pub fn cos(self) -> (r: Fixed)
        ensures
            r == self.spec_cos(),
    {
        proof {
            reveal(Fixed::spec_cos);
        }
        let p: i128 = self.raw as i128;
        let (q, rest) = reduce(
            if p < 0 {
                -p
            } else {
                p
            },
        );
        if q == 0 {
            cos_poly(rest)
        } else if q == 1 {
            sin_poly(rest).neg()
        } else if q == 2 {
            cos_poly(rest).neg()
        } else {
            sin_poly(rest)
        }
    }

    /// The angle in radians, between minus a half turn and a half turn, of
    /// the point whose second coordinate is `self` and whose first
    /// coordinate is `x`. The angle of the origin is zero.
    #[verifier::when_used_as_spec(spec_atan2)]
    pub fn atan2(self, x: Fixed) -> (r: Fixed)
        ensures
            r == self.spec_atan2(x),
    {
        proof {
            reveal(Fixed::spec_atan2);
        }
        if self.raw == 0 && x.raw == 0 {
            return Fixed { raw: 0 };
        }
        let ay = self.abs();
        let ax = x.abs();
        proof {
            reveal(Fixed::spec_abs);
        }
        let t = if ax.raw >= ay.raw {
            atan_poly(ay.over(ax))
        } else {
            Fixed { raw: HALF_PI }.minus(atan_poly(ax.over(ay)))
        };
        let half = if x.raw < 0 {
            Fixed { raw: PI }.minus(t)
        } else {
            t
        };
        if self.raw < 0 {
            half.neg()
        } else {
            half
        }
    }
}

/// The sine of zero is zero and its cosine is one.
pub proof fn lemma_sin_cos_of_zero()
    ensures
        Fixed::from_raw(0).sin() == Fixed::from_raw(0),
        Fixed::from_raw(0).cos() == Fixed::from_raw(SCALE),
{
    reveal(Fixed::spec_sin);
    reveal(Fixed::spec_cos);
    let z = Fixed::from_raw(0);
    assert(quarter_turns(0) == 0);
    assert(within_quarter(0) == z);
    lemma_times_zero(z);
    lemma_times_zero(Fixed::from_raw(SCALE));
    lemma_plus_zero(Fixed::from_raw(SCALE));
    lemma_zero_over(Fixed::from_int(72));
    lemma_zero_over(Fixed::from_int(90));
    lemma_zero_over(Fixed::from_int(56));
    lemma_zero_over(Fixed::from_int(42));
    lemma_zero_over(Fixed::from_int(30));
    lemma_zero_over(Fixed::from_int(20));
    lemma_zero_over(Fixed::from_int(12));
    lemma_zero_over(Fixed::from_int(6));
    lemma_zero_over(Fixed::from_int(2));
}

/// What is left of an angle once its quarter turns are taken off lies
/// within an eighth of a turn of zero.
pub proof fn lemma_within_quarter_is_small(m: int)
    requires
        0 <= m,
    ensures
        -785_398_164 <= within_quarter(m)@ <= 785_398_164,
{
    let q = QUARTER_TURN_FINE as int;
    let y = m * FINE + QUARTER_TURN_FINE / 2;
    let k = y / q;
    let e = y % q;
    assert(k == quarter_turns(m));
    vstd::arithmetic::div_mod::lemma_fundamental_div_mod(y, q);
    assert(y == q * k + e);
    assert(0 <= e < q) by {
        vstd::arithmetic::div_mod::lemma_mod_pos_bound(y, q);
    }
    assert(q * k == k * q) by (nonlinear_arith);
    let rest = m * FINE - quarter_turns(m) * QUARTER_TURN_FINE;
    assert(rest == e - QUARTER_TURN_FINE / 2);
    lemma_small_quotient(rest);
}

/// The whole part, in billionths, of a count of fine units that is within
/// an eighth of a turn of zero.
proof fn lemma_small_quotient(rest: int)
    requires
        -785_398_163_397_448_310 <= rest <= 785_398_163_397_448_310,
    ensures
        -785_398_164 <= trunc_div(rest, FINE as int) <= 785_398_164,
{
    let a = magnitude(rest);
    assert(0 <= a / 1_000_000_000 <= 785_398_164) by {
        vstd::arithmetic::div_mod::lemma_div_pos_is_pos(a, 1_000_000_000);
        vstd::arithmetic::div_mod::lemma_div_is_ordered(
            a,
            785_398_163_397_448_310,
            1_000_000_000,
        );
    }
}

/// The sine polynomial of a small angle lies between minus one and one,
/// and the cosine polynomial between zero and one.
pub proof fn lemma_series_within_one(r: Fixed)
    requires
        -SCALE <= r@ <= SCALE,
    ensures
        -SCALE <= sin_series(r)@ <= SCALE,
        0 <= cos_series(r)@ <= SCALE,
{
    let one = Fixed::from_raw(SCALE);
    let r2 = r.times(r);
    lemma_times_fraction(r, r);
    lemma_square_not_negative(r);
    assert(0 <= r2@ <= SCALE);
    // The sine.
    lemma_over_whole(r2, 72);
    lemma_one_minus(r2.over(Fixed::from_int(72)));
    let s4 = one.minus(r2.over(Fixed::from_int(72)));
    lemma_over_whole(r2, 42);
    lemma_times_fraction(r2.over(Fixed::from_int(42)), s4);
    lemma_one_minus(r2.over(Fixed::from_int(42)).times(s4));
    let s3 = one.minus(r2.over(Fixed::from_int(42)).times(s4));
    lemma_over_whole(r2, 20);
    lemma_times_fraction(r2.over(Fixed::from_int(20)), s3);
    lemma_one_minus(r2.over(Fixed::from_int(20)).times(s3));
    let s2 = one.minus(r2.over(Fixed::from_int(20)).times(s3));
    lemma_over_whole(r2, 6);
    lemma_times_fraction(r2.over(Fixed::from_int(6)), s2);
    lemma_one_minus(r2.over(Fixed::from_int(6)).times(s2));
    let s1 = one.minus(r2.over(Fixed::from_int(6)).times(s2));
    lemma_times_fraction(r, s1);
    // The cosine.
    lemma_over_whole(r2, 90);
    lemma_one_minus(r2.over(Fixed::from_int(90)));
    let c5 = one.minus(r2.over(Fixed::from_int(90)));
    lemma_over_whole(r2, 56);
    lemma_times_fraction(r2.over(Fixed::from_int(56)), c5);
    lemma_one_minus(r2.over(Fixed::from_int(56)).times(c5));
    let c4 = one.minus(r2.over(Fixed::from_int(56)).times(c5));
    lemma_over_whole(r2, 30);
    lemma_times_fraction(r2.over(Fixed::from_int(30)), c4);
    lemma_one_minus(r2.over(Fixed::from_int(30)).times(c4));
    let c3 = one.minus(r2.over(Fixed::from_int(30)).times(c4));
    lemma_over_whole(r2, 12);
    lemma_times_fraction(r2.over(Fixed::from_int(12)), c3);
    lemma_one_minus(r2.over(Fixed::from_int(12)).times(c3));
    let c2 = one.minus(r2.over(Fixed::from_int(12)).times(c3));
    lemma_over_whole(r2, 2);
    lemma_times_fraction(r2.over(Fixed::from_int(2)), c2);
    lemma_one_minus(r2.over(Fixed::from_int(2)).times(c2));
}

/// One less a share of one is a share of one.
proof fn lemma_one_minus(x: Fixed)
    requires
        0 <= x@ <= SCALE,
    ensures
        0 <= Fixed::from_raw(SCALE).minus(x)@ <= SCALE,
        Fixed::from_raw(SCALE).minus(x)@ == SCALE - x@,
{
    reveal(Fixed::spec_minus);
}

/// Sine and cosine never leave the range from minus one to one.
pub proof fn lemma_sin_cos_within_one(x: Fixed)
    ensures
        -SCALE <= x.sin()@ <= SCALE,
        -SCALE <= x.cos()@ <= SCALE,
{
    reveal(Fixed::spec_sin);
    reveal(Fixed::spec_cos);
    reveal(Fixed::spec_neg);
    let m = magnitude(x@);
    lemma_within_quarter_is_small(m);
    lemma_series_within_one(within_quarter(m));
}

/// The sine is odd and the cosine is even: the sine of the opposite angle
/// is the opposite of the sine, and its cosine is the cosine. The least
/// number that can be held is left out, for it has no opposite.
pub proof fn lemma_sin_is_odd_and_cos_is_even(x: Fixed)
    requires
        x@ > i64::MIN,
    ensures
        x.neg().sin() == x.sin().neg(),
        x.neg().cos() == x.cos(),
{
    reveal(Fixed::spec_sin);
    reveal(Fixed::spec_cos);
    reveal(Fixed::spec_neg);
    let m = magnitude(x@);
    lemma_within_quarter_is_small(m);
    lemma_series_within_one(within_quarter(m));
    assert(x.neg()@ == -x@);
    assert(magnitude(x.neg()@) == m);
    if x@ == 0 {
        lemma_sin_cos_of_zero();
        assert(x == Fixed::from_raw(0));
    }
    let v = sin_of_magnitude(m);
    assert(-SCALE <= v@ <= SCALE);
    assert(v.neg().neg() == v);
}

/// The arctangent polynomial of a ratio between zero and one lies between
/// zero and one.
pub proof fn lemma_atan_series_within_one(a: Fixed)
    requires
        0 <= a@ <= SCALE,
    ensures
        0 <= atan_series(a)@ <= SCALE,
{
    reveal(Fixed::spec_plus);
    let u = a.times(a);
    lemma_share_of(a, a);
    assert(0 <= u@ <= SCALE);
    let t9 = Fixed::from_raw(ATAN_19);
    lemma_share_of(u, t9);
    let t8 = Fixed::from_raw(ATAN_17).plus(u.times(t9));
    assert(0 <= t8@ <= ATAN_17);
    lemma_share_of(u, t8);
    let t7 = Fixed::from_raw(ATAN_15).plus(u.times(t8));
    assert(ATAN_15 <= t7@ <= 0);
    lemma_share_of(u, t7);
    let t6 = Fixed::from_raw(ATAN_13).plus(u.times(t7));
    assert(0 <= t6@ <= ATAN_13);
    lemma_share_of(u, t6);
    let t5 = Fixed::from_raw(ATAN_11).plus(u.times(t6));
    assert(ATAN_11 <= t5@ <= 0);
    lemma_share_of(u, t5);
    let t4 = Fixed::from_raw(ATAN_9).plus(u.times(t5));
    assert(0 <= t4@ <= ATAN_9);
    lemma_share_of(u, t4);
    let t3 = Fixed::from_raw(ATAN_7).plus(u.times(t4));
    assert(ATAN_7 <= t3@ <= 0);
    lemma_share_of(u, t3);
    let t2 = Fixed::from_raw(ATAN_5).plus(u.times(t3));
    assert(0 <= t2@ <= ATAN_5);
    lemma_share_of(u, t2);
    let t1 = Fixed::from_raw(ATAN_3).plus(u.times(t2));
    assert(ATAN_3 <= t1@ <= 0);
    lemma_share_of(u, t1);
    let t0 = Fixed::from_raw(ATAN_1).plus(u.times(t1));
    assert(0 <= t0@ <= ATAN_1);
    lemma_share_of(a, t0);
}

/// The arctangent lies between minus a half turn and a half turn, and has
/// the sign of the second coordinate.
pub proof fn lemma_atan2_within_half_turn(y: Fixed, x: Fixed)
    ensures
        -PI <= y.atan2(x)@ <= PI,
        y@ >= 0 ==> y.atan2(x)@ >= 0,
        y@ < 0 ==> y.atan2(x)@ <= 0,
{
    reveal(Fixed::spec_atan2);
    if !(y@ == 0 && x@ == 0) {
        reveal(Fixed::spec_abs);
        reveal(Fixed::spec_minus);
        reveal(Fixed::spec_neg);
        let ay = y.abs();
        let ax = x.abs();
        if ax@ >= ay@ {
            lemma_ratio_within_one(ay, ax);
            lemma_atan_series_within_one(ay.over(ax));
        } else {
            lemma_ratio_within_one(ax, ay);
            lemma_atan_series_within_one(ax.over(ay));
        }
        let t = first_quadrant_angle(ay, ax);
        assert(0 <= t@ <= HALF_PI);
    }
}

/// A point on the positive half of the first axis has the angle zero.
pub proof fn lemma_atan2_along_the_axis(x: Fixed)
    requires
        x@ > 0,
    ensures
        Fixed::from_raw(0).atan2(x) == Fixed::from_raw(0),
{
    reveal(Fixed::spec_atan2);
    reveal(Fixed::spec_abs);
    let zero = Fixed::from_raw(0);
    assert(zero.abs() == zero);
    assert(x.abs() == x);
    lemma_zero_over(x);
    lemma_times_zero(atan_factor(zero));
}

} // verus!
