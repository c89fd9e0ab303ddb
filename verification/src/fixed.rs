//! Saturating decimal fixed-point numbers.
//!
//! Every quantity of the simulation (lengths, speeds, forces, angles in
//! radians, time steps) is a [`Fixed`]: a signed count of billionths.

use vstd::prelude::*;

verus! {

/// Number of raw units in one whole: a raw unit is a billionth.
pub const SCALE: i64 = 1_000_000_000;

/// Raw count of one half.
pub const HALF: i64 = 500_000_000;

/// Raw count of the circle constant, rounded to the nearest billionth.
pub const PI: i64 = 3_141_592_654;

/// Raw count of half the circle constant.
pub const HALF_PI: i64 = 1_570_796_327;

/// Raw count of twice the circle constant.
pub const TWO_PI: i64 = 6_283_185_307;

/// The nearest value to `x` that a raw count can hold.
pub open spec fn saturate(x: int) -> int {
    if x < i64::MIN as int {
        i64::MIN as int
    } else if x > i64::MAX as int {
        i64::MAX as int
    } else {
        x
    }
}

/// The distance of `x` from zero.
pub open spec fn magnitude(x: int) -> int {
    if x < 0 {
        -x
    } else {
        x
    }
}

/// The quotient of `a` by `b`, rounded toward zero.
pub open spec fn trunc_div(a: int, b: int) -> int
    recommends
        b != 0,
{
    let q = magnitude(a) / magnitude(b);
    if (a < 0) != (b < 0) {
        -q
    } else {
        q
    }
}

/// What is left of `a` after taking `trunc_div(a, b)` times `b` away. It
/// has the sign of `a`.
pub open spec fn trunc_rem(a: int, b: int) -> int
    recommends
        b != 0,
{
    let r = magnitude(a) % magnitude(b);
    if a < 0 {
        -r
    } else {
        r
    }
}

/// `r` is the largest whole number whose square does not exceed `n`.
pub open spec fn is_floor_sqrt(n: int, r: int) -> bool {
    r >= 0 && r * r <= n < (r + 1) * (r + 1)
}

/// The largest whole number whose square does not exceed `n`, for `n >= 0`.
pub open spec fn floor_sqrt(n: int) -> int
    recommends
        n >= 0,
{
    choose|r: int| is_floor_sqrt(n, r)
}

/// A number held as a signed count of billionths. Arithmetic never wraps:
/// a result outside the range of the count is replaced by the nearest bound.
#[derive(Clone, Copy, Debug, PartialEq, Eq, Structural, Hash)]
pub struct Fixed {
    pub raw: i64,
}

impl View for Fixed {
    type V = int;

    open spec fn view(&self) -> int {
        self.raw as int
    }
}

/// A product of two numbers within `m` of zero is within `m * m` of zero.
proof fn lemma_product_bound(a: int, b: int, m: int)
    by (nonlinear_arith)
    requires
        -m <= a <= m,
        -m <= b <= m,
    ensures
        -(m * m) <= a * b <= m * m,
{
}

/// Squaring keeps the order of numbers that are not negative.
proof fn lemma_square_monotonic(a: int, b: int)
    by (nonlinear_arith)
    requires
        0 <= a <= b,
    ensures
        a * a <= b * b,
{
}

/// At most one number is the floor of the square root of `n`.
pub proof fn lemma_floor_sqrt_unique(n: int, r: int, s: int)
    requires
        is_floor_sqrt(n, r),
        is_floor_sqrt(n, s),
    ensures
        r == s,
{
    if r < s {
        lemma_square_monotonic(r + 1, s);
    } else if s < r {
        lemma_square_monotonic(s + 1, r);
    }
}

/// The number whose raw count is the nearest to `x` that can be held.
fn narrow(x: i128) -> (r: Fixed)
    ensures
        r@ == saturate(x as int),
{
    if x > i64::MAX as i128 {
        Fixed { raw: i64::MAX }
    } else if x < i64::MIN as i128 {
        Fixed { raw: i64::MIN }
    } else {
        Fixed { raw: x as i64 }
    }
}

impl Fixed {
    /// The value whose raw count is `x`, saturated.
    pub open spec fn of(x: int) -> Fixed {
        Fixed { raw: saturate(x) as i64 }
    }

    /// What `from_raw` returns.
    pub open spec fn spec_from_raw(raw: i64) -> Fixed {
        Fixed { raw }
    }

    /// What `from_int` returns.
    pub open spec fn spec_from_int(n: i32) -> Fixed {
        Fixed { raw: (n * SCALE) as i64 }
    }

    /// What `plus` returns.
    #[verifier::opaque]
    pub open spec fn spec_plus(self, rhs: Fixed) -> Fixed {
        Fixed::of(self@ + rhs@)
    }

    /// What `minus` returns.
    #[verifier::opaque]
    pub open spec fn spec_minus(self, rhs: Fixed) -> Fixed {
        Fixed::of(self@ - rhs@)
    }

    /// What `neg` returns.
    #[verifier::opaque]
    pub open spec fn spec_neg(self) -> Fixed {
        Fixed::of(-self@)
    }

    /// What `times` returns.
    #[verifier::opaque]
    pub open spec fn spec_times(self, rhs: Fixed) -> Fixed {
        Fixed::of(trunc_div(self@ * rhs@, SCALE as int))
    }

    /// What `over` returns.
    #[verifier::opaque]
    pub open spec fn spec_over(self, rhs: Fixed) -> Fixed {
        Fixed::of(trunc_div(self@ * SCALE, rhs@))
    }

    /// What `rem` returns.
    #[verifier::opaque]
    pub open spec fn spec_rem(self, rhs: Fixed) -> Fixed {
        Fixed::of(trunc_rem(self@, rhs@))
    }

    /// What `half` returns.
    pub open spec fn spec_half(self) -> Fixed {
        self.spec_times(Fixed { raw: HALF })
    }

    /// What `abs` returns.
    #[verifier::opaque]
    pub open spec fn spec_abs(self) -> Fixed {
        Fixed::of(magnitude(self@))
    }

    /// What `signum` returns.
    pub open spec fn spec_signum(self) -> Fixed {
        if self@ >= 0 {
            Fixed { raw: SCALE }
        } else {
            Fixed { raw: (-SCALE) as i64 }
        }
    }

    /// What `min` returns.
    pub open spec fn spec_min(self, rhs: Fixed) -> Fixed {
        if rhs@ < self@ {
            rhs
        } else {
            self
        }
    }

    /// What `max` returns.
    pub open spec fn spec_max(self, rhs: Fixed) -> Fixed {
        if rhs@ > self@ {
            rhs
        } else {
            self
        }
    }

    /// What `sqrt` returns.
    #[verifier::opaque]
    pub open spec fn spec_sqrt(self) -> Fixed {
        Fixed::of(floor_sqrt(self@ * SCALE))
    }

    /// What `to_int` returns.
    pub open spec fn spec_to_int(self) -> i32 {
        let whole = trunc_div(self@, SCALE as int);
        if whole > i32::MAX {
            i32::MAX
        } else if whole < i32::MIN {
            i32::MIN
        } else {
            whole as i32
        }
    }

    /// What `to_radians` returns.
    pub open spec fn spec_to_radians(self) -> Fixed {
        self.spec_times(Fixed { raw: PI }).spec_over(Fixed::spec_from_int(180))
    }

    /// The number with the given raw count.
    #[verifier::when_used_as_spec(spec_from_raw)]
    pub fn from_raw(raw: i64) -> (r: Fixed)
        ensures
            r == Fixed::spec_from_raw(raw),
            r@ == raw,
    {
        Fixed { raw }
    }

    /// The whole number `n`.
    #[verifier::when_used_as_spec(spec_from_int)]
    pub fn from_int(n: i32) -> (r: Fixed)
        ensures
            r == Fixed::spec_from_int(n),
            r@ == n * SCALE,
    {
        Fixed { raw: (n as i64) * SCALE }
    }

    /// Zero.
    pub fn zero() -> (r: Fixed)
        ensures
            r@ == 0,
    {
        Fixed { raw: 0 }
    }

    /// One.
    pub fn one() -> (r: Fixed)
        ensures
            r@ == SCALE,
    {
        Fixed { raw: SCALE }
    }

    /// The raw count.
    pub fn raw(self) -> (r: i64)
        ensures
            r == self@,
    {
        self.raw
    }

    /// Whether the number is zero.
    pub fn is_zero(self) -> (r: bool)
        ensures
            r == (self@ == 0),
    {
        self.raw == 0
    }

    /// Whether `self` is below `rhs`.
    pub fn lt(self, rhs: Fixed) -> (r: bool)
        ensures
            r == (self@ < rhs@),
    {
        self.raw < rhs.raw
    }

    /// Whether `self` is at most `rhs`.
    pub fn le(self, rhs: Fixed) -> (r: bool)
        ensures
            r == (self@ <= rhs@),
    {
        self.raw <= rhs.raw
    }

    /// Whether `self` is above `rhs`.
    pub fn gt(self, rhs: Fixed) -> (r: bool)
        ensures
            r == (self@ > rhs@),
    {
        self.raw > rhs.raw
    }

    /// Whether `self` is at least `rhs`.
    pub fn ge(self, rhs: Fixed) -> (r: bool)
        ensures
            r == (self@ >= rhs@),
    {
        self.raw >= rhs.raw
    }

    /// The sum, saturated.
    #[verifier::when_used_as_spec(spec_plus)]
    pub fn plus(self, rhs: Fixed) -> (r: Fixed)
        ensures
            r == self.spec_plus(rhs),
            r@ == saturate(self@ + rhs@),
    {
        proof {
            reveal(Fixed::spec_plus);
        }
        narrow(self.raw as i128 + rhs.raw as i128)
    }

    /// The difference, saturated.
    #[verifier::when_used_as_spec(spec_minus)]
    pub fn minus(self, rhs: Fixed) -> (r: Fixed)
        ensures
            r == self.spec_minus(rhs),
            r@ == saturate(self@ - rhs@),
    {
        proof {
            reveal(Fixed::spec_minus);
        }
        narrow(self.raw as i128 - rhs.raw as i128)
    }

    /// The opposite number, saturated.
    #[verifier::when_used_as_spec(spec_neg)]
    pub fn neg(self) -> (r: Fixed)
        ensures
            r == self.spec_neg(),
            r@ == saturate(-self@),
    {
        proof {
            reveal(Fixed::spec_neg);
        }
        narrow(-(self.raw as i128))
    }

    /// The product, rounded toward zero and saturated.
    #[verifier::when_used_as_spec(spec_times)]
    pub fn times(self, rhs: Fixed) -> (r: Fixed)
        ensures
            r == self.spec_times(rhs),
            r@ == saturate(trunc_div(self@ * rhs@, SCALE as int)),
    {
        proof {
            reveal(Fixed::spec_times);
            lemma_product_bound(self@, rhs@, 0x8000_0000_0000_0000);
            assert(0x8000_0000_0000_0000int * 0x8000_0000_0000_0000int
                == 0x4000_0000_0000_0000_0000_0000_0000_0000int) by (nonlinear_arith);
        }
        let p: i128 = (self.raw as i128) * (rhs.raw as i128);
        narrow(p / (SCALE as i128))
    }

    /// The quotient, rounded toward zero and saturated.
    #[verifier::when_used_as_spec(spec_over)]
    pub fn over(self, rhs: Fixed) -> (r: Fixed)
        requires
            rhs@ != 0,
        ensures
            r == self.spec_over(rhs),
            r@ == saturate(trunc_div(self@ * SCALE, rhs@)),
    {
        proof {
            reveal(Fixed::spec_over);
        }
        let p: i128 = (self.raw as i128) * (SCALE as i128);
        let d: i128 = rhs.raw as i128;
        assert(p == self@ * 1_000_000_000);
        let q: i128 = (if p < 0 {
            -p
        } else {
            p
        }) / (if d < 0 {
            -d
        } else {
            d
        });
        if (p < 0) != (d < 0) {
            narrow(-q)
        } else {
            narrow(q)
        }
    }

    /// What is left after taking away the whole multiples of `rhs`. It has
    /// the sign of `self`.
    #[verifier::when_used_as_spec(spec_rem)]
    pub fn rem(self, rhs: Fixed) -> (r: Fixed)
        requires
            rhs@ != 0,
        ensures
            r == self.spec_rem(rhs),
            r@ == saturate(trunc_rem(self@, rhs@)),
    {
        proof {
            reveal(Fixed::spec_rem);
        }
        let p: i128 = self.raw as i128;
        let d: i128 = rhs.raw as i128;
        let m: i128 = (if p < 0 {
            -p
        } else {
            p
        }) % (if d < 0 {
            -d
        } else {
            d
        });
        if p < 0 {
            narrow(-m)
        } else {
            narrow(m)
        }
    }

    /// Half of the number, rounded toward zero.
    #[verifier::when_used_as_spec(spec_half)]
    pub fn half(self) -> (r: Fixed)
        ensures
            r == self.spec_half(),
            r@ == saturate(trunc_div(self@ * HALF, SCALE as int)),
    {
        self.times(Fixed { raw: HALF })
    }

    /// The distance from zero, saturated.
    #[verifier::when_used_as_spec(spec_abs)]
    pub fn abs(self) -> (r: Fixed)
        ensures
            r == self.spec_abs(),
            r@ == saturate(magnitude(self@)),
    {
        proof {
            reveal(Fixed::spec_abs);
        }
        let p: i128 = self.raw as i128;
        narrow(
            if p < 0 {
                -p
            } else {
                p
            },
        )
    }

    /// One for a number that is zero or above, minus one for a number below
    /// zero.
    #[verifier::when_used_as_spec(spec_signum)]
    pub fn signum(self) -> (r: Fixed)
        ensures
            r == self.spec_signum(),
    {
        if self.raw >= 0 {
            Fixed { raw: SCALE }
        } else {
            Fixed { raw: -SCALE }
        }
    }

    /// The smaller of the two numbers.
    #[verifier::when_used_as_spec(spec_min)]
    pub fn min(self, rhs: Fixed) -> (r: Fixed)
        ensures
            r == self.spec_min(rhs),
    {
        if rhs.raw < self.raw {
            rhs
        } else {
            self
        }
    }

    /// The larger of the two numbers.
    #[verifier::when_used_as_spec(spec_max)]
    pub fn max(self, rhs: Fixed) -> (r: Fixed)
        ensures
            r == self.spec_max(rhs),
    {
        if rhs.raw > self.raw {
            rhs
        } else {
            self
        }
    }

    /// The square root, rounded down to a billionth.
    #[verifier::when_used_as_spec(spec_sqrt)]
    pub fn sqrt(self) -> (r: Fixed)
        requires
            self@ >= 0,
        ensures
            r == self.spec_sqrt(),
            is_floor_sqrt(self@ * SCALE, r@),
            r@ == floor_sqrt(self@ * SCALE),
    {
        let n: u128 = (self.raw as u128) * (SCALE as u128);
        let mut lo: u128 = 0;
        let mut hi: u128 = 0x8000_0000_0000;
        proof {
            assert(0x8000_0000_0000int * 0x8000_0000_0000int
                == 0x4000_0000_0000_0000_0000_0000int) by (nonlinear_arith);
        }
        while hi - lo > 1
            invariant
                n == self@ * SCALE,
                0 <= lo < hi <= 0x8000_0000_0000,
                lo * lo <= n < hi * hi,
            decreases hi - lo,
        {
            let mid: u128 = lo + (hi - lo) / 2;
            proof {
                lemma_square_monotonic(mid as int, 0x8000_0000_0000);
                assert(0x8000_0000_0000int * 0x8000_0000_0000int
                    == 0x4000_0000_0000_0000_0000_0000int) by (nonlinear_arith);
            }
            if mid * mid <= n {
                lo = mid;
            } else {
                hi = mid;
            }
        }
        proof {
            reveal(Fixed::spec_sqrt);
            assert(hi == lo + 1);
            assert(is_floor_sqrt(n as int, lo as int));
            lemma_floor_sqrt_unique(n as int, lo as int, floor_sqrt(n as int));
        }
        Fixed { raw: lo as i64 }
    }

    /// The whole part of the number, rounded toward zero, or the nearest
    /// bound of the result where the whole part is beyond it.
    #[verifier::when_used_as_spec(spec_to_int)]
    pub fn to_int(self) -> (r: i32)
        ensures
            r == self.spec_to_int(),
    {
        let whole: i64 = self.raw / SCALE;
        if whole > i32::MAX as i64 {
            i32::MAX
        } else if whole < i32::MIN as i64 {
            i32::MIN
        } else {
            whole as i32
        }
    }

    /// A number of degrees as radians.
    #[verifier::when_used_as_spec(spec_to_radians)]
    pub fn to_radians(self) -> (r: Fixed)
        ensures
            r == self.spec_to_radians(),
    {
        self.times(Fixed { raw: PI }).over(Fixed::from_int(180))
    }
}

/// A multiple of `d` divided by `d` is the other factor.
proof fn lemma_exact_quotient(a: int, d: int)
    by (nonlinear_arith)
    requires
        a >= 0,
        d > 0,
    ensures
        (a * d) / d == a,
        (d * a) / d == a,
{
}

/// The distance of a product from zero is the product of the distances of
/// its factors, and a product is negative where just one factor is.
proof fn lemma_product_signs(a: int, b: int)
    by (nonlinear_arith)
    ensures
        magnitude(a * b) == magnitude(a) * magnitude(b),
        a * b < 0 <==> (a < 0 && b > 0) || (a > 0 && b < 0),
        a * a >= 0,
{
}

/// A product with zero is zero.
pub proof fn lemma_times_zero(x: Fixed)
    ensures
        x.times(Fixed::from_raw(0)) == Fixed::from_raw(0),
        Fixed::from_raw(0).times(x) == Fixed::from_raw(0),
{
    reveal(Fixed::spec_times);
    lemma_product_signs(x@, 0);
    lemma_product_signs(0, x@);
}

/// A product with one is the other factor.
pub proof fn lemma_times_one(x: Fixed)
    ensures
        x.times(Fixed::from_raw(SCALE)) == x,
        Fixed::from_raw(SCALE).times(x) == x,
{
    reveal(Fixed::spec_times);
    lemma_product_signs(x@, SCALE as int);
    lemma_product_signs(SCALE as int, x@);
    lemma_exact_quotient(magnitude(x@), SCALE as int);
}

/// Zero divided by anything but zero is zero.
pub proof fn lemma_zero_over(d: Fixed)
    requires
        d@ != 0,
    ensures
        Fixed::from_raw(0).over(d) == Fixed::from_raw(0),
{
    reveal(Fixed::spec_over);
    assert(0int * (SCALE as int) == 0) by (nonlinear_arith);
    assert(0int / magnitude(d@) == 0) by (nonlinear_arith)
        requires
            magnitude(d@) > 0,
    ;
}

/// A number divided by one is the number.
pub proof fn lemma_over_one(x: Fixed)
    ensures
        x.over(Fixed::from_raw(SCALE)) == x,
{
    reveal(Fixed::spec_over);
    lemma_product_signs(x@, SCALE as int);
    lemma_exact_quotient(magnitude(x@), SCALE as int);
}

/// Two times a number is its double, where the double can be held.
pub proof fn lemma_twice(x: Fixed)
    requires
        i64::MIN <= 2 * x@ <= i64::MAX,
    ensures
        Fixed::from_int(2).times(x)@ == 2 * x@,
{
    reveal(Fixed::spec_times);
    lemma_product_signs(2 * SCALE, x@);
    assert((2 * SCALE) * x@ == (2 * x@) * SCALE) by (nonlinear_arith);
    lemma_product_signs(2 * x@, SCALE as int);
    lemma_exact_quotient(magnitude(2 * x@), SCALE as int);
}

/// A number times a fraction, a factor between minus one and one, is no
/// further from zero than the number, and is not negative where neither
/// factor is.
pub proof fn lemma_times_fraction(a: Fixed, t: Fixed)
    requires
        -SCALE <= t@ <= SCALE,
    ensures
        magnitude(a.times(t)@) <= magnitude(a@),
        a@ >= 0 && t@ >= 0 ==> a.times(t)@ >= 0,
        a@ == 0 || t@ == 0 ==> a.times(t)@ == 0,
{
    reveal(Fixed::spec_times);
    lemma_product_signs(a@, t@);
    let p = magnitude(a@) * magnitude(t@);
    assert(p <= magnitude(a@) * SCALE) by (nonlinear_arith)
        requires
            p == magnitude(a@) * magnitude(t@),
            0 <= magnitude(t@) <= SCALE,
            0 <= magnitude(a@),
    ;
    assert(0 <= p) by (nonlinear_arith)
        requires
            p == magnitude(a@) * magnitude(t@),
            0 <= magnitude(t@),
            0 <= magnitude(a@),
    ;
    lemma_exact_quotient(magnitude(a@), SCALE as int);
    vstd::arithmetic::div_mod::lemma_div_is_ordered(p, magnitude(a@) * SCALE, SCALE as int);
    vstd::arithmetic::div_mod::lemma_div_pos_is_pos(p, SCALE as int);
    if a@ == 0 || t@ == 0 {
        assert(p == 0) by (nonlinear_arith)
            requires
                p == magnitude(a@) * magnitude(t@),
                magnitude(a@) == 0 || magnitude(t@) == 0,
        ;
    }
}

/// A product is no further from zero than the product of the bounds of its
/// factors.
pub proof fn lemma_times_within(a: Fixed, b: Fixed, bound_a: int, bound_b: int)
    requires
        magnitude(a@) <= bound_a,
        magnitude(b@) <= bound_b,
    ensures
        magnitude(a.times(b)@) <= (bound_a * bound_b) / (SCALE as int),
{
    reveal(Fixed::spec_times);
    lemma_product_signs(a@, b@);
    let p = magnitude(a@) * magnitude(b@);
    assert(0 <= p <= bound_a * bound_b) by (nonlinear_arith)
        requires
            p == magnitude(a@) * magnitude(b@),
            0 <= magnitude(a@) <= bound_a,
            0 <= magnitude(b@) <= bound_b,
    ;
    vstd::arithmetic::div_mod::lemma_div_is_ordered(p, bound_a * bound_b, SCALE as int);
    vstd::arithmetic::div_mod::lemma_div_pos_is_pos(p, SCALE as int);
}

/// A number divided by a whole number that is at least one is no further
/// from zero than the bound of the number divided by that whole number.
pub proof fn lemma_over_whole_within(a: Fixed, k: i32, bound: int)
    requires
        k >= 1,
        magnitude(a@) <= bound,
    ensures
        magnitude(a.over(Fixed::from_int(k))@) <= bound / (k as int),
{
    reveal(Fixed::spec_over);
    lemma_product_signs(a@, SCALE as int);
    let n = magnitude(a@) * SCALE;
    let d = k * SCALE;
    assert(0 <= n <= bound * SCALE) by (nonlinear_arith)
        requires
            n == magnitude(a@) * SCALE,
            0 <= magnitude(a@) <= bound,
    ;
    vstd::arithmetic::div_mod::lemma_div_is_ordered(n, bound * SCALE, d);
    vstd::arithmetic::div_mod::lemma_div_pos_is_pos(n, d);
    assert(bound * SCALE == SCALE * bound) by (nonlinear_arith);
    assert(d == SCALE * k) by (nonlinear_arith)
        requires
            d == k * SCALE,
    ;
    vstd::arithmetic::div_mod::lemma_div_denominator(SCALE * bound, SCALE as int, k as int);
    vstd::arithmetic::div_mod::lemma_div_multiples_vanish(bound, SCALE as int);
}

/// A share of a number, a factor between zero and one, has the sign of the
/// number: it lies between the number and zero.
pub proof fn lemma_share_of(u: Fixed, t: Fixed)
    requires
        0 <= u@ <= SCALE,
    ensures
        t@ >= 0 ==> 0 <= u.times(t)@ <= t@,
        t@ <= 0 ==> t@ <= u.times(t)@ <= 0,
{
    lemma_times_fraction(t, u);
    reveal(Fixed::spec_times);
    lemma_product_signs(u@, t@);
    lemma_product_signs(t@, u@);
    assert(u@ * t@ == t@ * u@) by (nonlinear_arith);
    vstd::arithmetic::div_mod::lemma_div_pos_is_pos(magnitude(u@ * t@), SCALE as int);
}

/// The ratio of a number that is not negative to one that is at least as
/// large lies between zero and one.
pub proof fn lemma_ratio_within_one(a: Fixed, b: Fixed)
    requires
        0 <= a@ <= b@,
        b@ > 0,
    ensures
        0 <= a.over(b)@ <= SCALE,
{
    reveal(Fixed::spec_over);
    lemma_product_signs(a@, SCALE as int);
    let n = a@ * SCALE;
    assert(0 <= n <= b@ * SCALE) by (nonlinear_arith)
        requires
            n == a@ * SCALE,
            0 <= a@ <= b@,
    ;
    assert(b@ * SCALE == SCALE * b@) by (nonlinear_arith);
    vstd::arithmetic::div_mod::lemma_div_multiples_vanish(SCALE as int, b@);
    assert(b@ * SCALE / b@ == SCALE) by (nonlinear_arith)
        requires
            b@ > 0,
            (b@ * SCALE) / b@ == SCALE,
    ;
    vstd::arithmetic::div_mod::lemma_div_is_ordered(n, b@ * SCALE, b@);
    vstd::arithmetic::div_mod::lemma_div_pos_is_pos(n, b@);
}

/// A number divided by a whole number that is at least one is no further
/// from zero than the number, and is not negative where the number is not.
pub proof fn lemma_over_whole(a: Fixed, k: i32)
    requires
        k >= 1,
    ensures
        magnitude(a.over(Fixed::from_int(k))@) <= magnitude(a@),
        a@ >= 0 ==> a.over(Fixed::from_int(k))@ >= 0,
{
    reveal(Fixed::spec_over);
    lemma_product_signs(a@, SCALE as int);
    let n = magnitude(a@) * SCALE;
    let d = k * SCALE;
    assert(0 <= n) by (nonlinear_arith)
        requires
            n == magnitude(a@) * SCALE,
            0 <= magnitude(a@),
    ;
    lemma_exact_quotient(magnitude(a@), SCALE as int);
    vstd::arithmetic::div_mod::lemma_div_is_ordered_by_denominator(n, SCALE as int, d);
    vstd::arithmetic::div_mod::lemma_div_pos_is_pos(n, d);
}

/// A square is not negative.
pub proof fn lemma_square_not_negative(x: Fixed)
    ensures
        x.times(x)@ >= 0,
{
    reveal(Fixed::spec_times);
    lemma_product_signs(x@, x@);
    assert(magnitude(x@ * x@) / (SCALE as int) >= 0) by (nonlinear_arith)
        requires
            magnitude(x@ * x@) >= 0,
    ;
}

/// Adding zero, or taking zero away, changes nothing; taking a number
/// away from zero gives its opposite.
pub proof fn lemma_plus_zero(x: Fixed)
    ensures
        x.plus(Fixed::from_raw(0)) == x,
        Fixed::from_raw(0).plus(x) == x,
        x.minus(Fixed::from_raw(0)) == x,
        Fixed::from_raw(0).minus(x) == x.neg(),
        Fixed::from_raw(0).neg() == Fixed::from_raw(0),
{
    reveal(Fixed::spec_plus);
    reveal(Fixed::spec_minus);
    reveal(Fixed::spec_neg);
}

/// What rounding toward zero leaves behind is less than the divisor: the
/// quotient times the divisor is within the divisor of the dividend.
pub proof fn lemma_trunc_div_remainder(a: int, b: int)
    requires
        b != 0,
    ensures
        magnitude(a - trunc_div(a, b) * b) < magnitude(b),
        magnitude(trunc_div(a, b)) * magnitude(b) <= magnitude(a),
{
    let ma = magnitude(a);
    let mb = magnitude(b);
    let q = ma / mb;
    let r = ma % mb;
    vstd::arithmetic::div_mod::lemma_fundamental_div_mod(ma, mb);
    vstd::arithmetic::div_mod::lemma_mod_pos_bound(ma, mb);
    vstd::arithmetic::div_mod::lemma_div_pos_is_pos(ma, mb);
    assert(ma == mb * q + r);
    let t = trunc_div(a, b);
    let whole = q * mb;
    assert(mb * q == whole) by (nonlinear_arith)
        requires
            whole == q * mb,
    ;
    if (a < 0) != (b < 0) {
        assert(t == -q);
        if b < 0 {
            assert(t * b == whole) by (nonlinear_arith)
                requires
                    t == -q,
                    b == -mb,
                    whole == q * mb,
            ;
        } else {
            assert(t * b == -whole) by (nonlinear_arith)
                requires
                    t == -q,
                    b == mb,
                    whole == q * mb,
            ;
        }
    } else {
        assert(t == q);
        if b < 0 {
            assert(t * b == -whole) by (nonlinear_arith)
                requires
                    t == q,
                    b == -mb,
                    whole == q * mb,
            ;
        } else {
            assert(t * b == whole) by (nonlinear_arith)
                requires
                    t == q,
                    b == mb,
                    whole == q * mb,
            ;
        }
    }
    assert(magnitude(t) == q);
    assert(magnitude(t) * mb == whole);
}

/// A product of numbers within bounds that leave room for it is the exact
/// product rounded toward zero: nothing is lost to saturation.
pub proof fn lemma_times_exact(a: Fixed, b: Fixed, bound_a: int, bound_b: int)
    requires
        magnitude(a@) <= bound_a,
        magnitude(b@) <= bound_b,
        (bound_a * bound_b) / (SCALE as int) <= i64::MAX,
    ensures
        a.times(b)@ == trunc_div(a@ * b@, SCALE as int),
        magnitude(a.times(b)@) <= (bound_a * bound_b) / (SCALE as int),
{
    lemma_times_within(a, b, bound_a, bound_b);
    reveal(Fixed::spec_times);
    lemma_product_signs(a@, b@);
    let p = magnitude(a@) * magnitude(b@);
    assert(0 <= p <= bound_a * bound_b) by (nonlinear_arith)
        requires
            p == magnitude(a@) * magnitude(b@),
            0 <= magnitude(a@) <= bound_a,
            0 <= magnitude(b@) <= bound_b,
    ;
    vstd::arithmetic::div_mod::lemma_div_is_ordered(p, bound_a * bound_b, SCALE as int);
    vstd::arithmetic::div_mod::lemma_div_pos_is_pos(p, SCALE as int);
}

} // verus!
