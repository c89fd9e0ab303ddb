//! How close the mirror image of a velocity at a wall comes to the true
//! one: what rounding to billionths can take from it.

use vstd::prelude::*;
use crate::fixed::{
    Fixed, magnitude, trunc_div, lemma_times_exact, lemma_trunc_div_remainder, lemma_twice, SCALE,
};
use crate::vector::Vector2;
use crate::car::Car;

verus! {

/// The rounding of a mirror image along the normal of the wall.
///
/// The numbers are raw counts. `q1 + q2` is what the velocity `(cx, cy)`
/// has along the normal `(nx, ny)`, `r1 + r2` the squared length of the
/// normal, `k` the mirror factor, `(kx, ky)` the normal times that factor,
/// and `t1 + t2` what the mirror image `(cx - kx, cy - ky)` has along the
/// normal; each is a quotient that is less than its divisor away from
/// exact. Then what the mirror image has along the normal is the opposite
/// of what the velocity had, within the bound stated.
pub proof fn lemma_mirror_along_normal(
    cx: int,
    cy: int,
    nx: int,
    ny: int,
    q1: int,
    q2: int,
    r1: int,
    r2: int,
    k: int,
    kx: int,
    ky: int,
    t1: int,
    t2: int,
)
    requires
        magnitude(cx * nx - q1 * SCALE) < SCALE,
        magnitude(cy * ny - q2 * SCALE) < SCALE,
        magnitude(nx * nx - r1 * SCALE) < SCALE,
        magnitude(ny * ny - r2 * SCALE) < SCALE,
        r1 + r2 > 0,
        magnitude(2 * (q1 + q2) * SCALE - k * (r1 + r2)) < r1 + r2,
        magnitude(nx * k - kx * SCALE) < SCALE,
        magnitude(ny * k - ky * SCALE) < SCALE,
        magnitude((cx - kx) * nx - t1 * SCALE) < SCALE,
        magnitude((cy - ky) * ny - t2 * SCALE) < SCALE,
    ensures
        SCALE * magnitude(t1 + t2 + q1 + q2) <= 4 * SCALE + (r1 + r2) + 2 * magnitude(k)
            + magnitude(nx) + magnitude(ny),
{
    let s = SCALE as int;
    let d = q1 + q2;
    let nn = r1 + r2;
    let g1 = cx * nx - q1 * s;
    let g2 = cy * ny - q2 * s;
    let m1 = nx * nx - r1 * s;
    let m2 = ny * ny - r2 * s;
    let u = 2 * d * s - k * nn;
    let h1 = nx * k - kx * s;
    let h2 = ny * k - ky * s;
    let f1 = (cx - kx) * nx - t1 * s;
    let f2 = (cy - ky) * ny - t2 * s;
    let x = t1 + t2 + d;
    let e1 = s * (g1 + g2 - f1 - f2);
    let e2 = s * u;
    let e3 = (m1 + m2) * k;
    let e4 = h1 * nx;
    let e5 = h2 * ny;
    // The products of two unknowns, taken one at a time.
    let kxnx = kx * nx;
    let kyny = ky * ny;
    let knn = k * nn;
    let sqx = (nx * nx) * k;
    let sqy = (ny * ny) * k;
    assert((cx - kx) * nx == cx * nx - kxnx) by (nonlinear_arith)
        requires
            kxnx == kx * nx,
    ;
    assert((cy - ky) * ny == cy * ny - kyny) by (nonlinear_arith)
        requires
            kyny == ky * ny,
    ;
    assert(e3 == sqx + sqy - s * knn) by (nonlinear_arith)
        requires
            e3 == (m1 + m2) * k,
            m1 + m2 == nx * nx + ny * ny - nn * s,
            sqx == (nx * nx) * k,
            sqy == (ny * ny) * k,
            knn == k * nn,
    ;
    assert(e4 == sqx - s * kxnx) by (nonlinear_arith)
        requires
            e4 == h1 * nx,
            h1 == nx * k - kx * s,
            sqx == (nx * nx) * k,
            kxnx == kx * nx,
    ;
    assert(e5 == sqy - s * kyny) by (nonlinear_arith)
        requires
            e5 == h2 * ny,
            h2 == ny * k - ky * s,
            sqy == (ny * ny) * k,
            kyny == ky * ny,
    ;
    let sum = g1 + g2 - f1 - f2;
    let w = t1 + t2 - d;
    assert(sum == kxnx + kyny + w * s);
    assert(e1 == s * kxnx + s * kyny + s * s * w) by (nonlinear_arith)
        requires
            e1 == s * sum,
            sum == kxnx + kyny + w * s,
    ;
    assert(e2 == 2 * (s * s * d) - s * knn) by (nonlinear_arith)
        requires
            e2 == s * u,
            u == 2 * d * s - knn,
    ;
    assert(s * s * x == s * s * w + 2 * (s * s * d)) by (nonlinear_arith)
        requires
            x == w + 2 * d,
    ;
    assert(s * s * x == e1 + e2 - e3 + e4 + e5);
    lemma_product_within(s, g1 + g2 - f1 - f2, s, 4 * s);
    lemma_product_within(s, u, s, nn);
    lemma_product_within(m1 + m2, k, 2 * s, magnitude(k));
    lemma_product_within(h1, nx, s, magnitude(nx));
    lemma_product_within(h2, ny, s, magnitude(ny));
    let y = 4 * s + nn + 2 * magnitude(k) + magnitude(nx) + magnitude(ny);
    assert(s * (4 * s) + s * nn + (2 * s) * magnitude(k) + s * magnitude(nx) + s * magnitude(ny)
        == s * y) by (nonlinear_arith)
        requires
            y == 4 * s + nn + 2 * magnitude(k) + magnitude(nx) + magnitude(ny),
    ;
    assert(magnitude(s * s * x) <= s * y);
    lemma_scaled_bound(s, x, y);
}

/// The rounding of a mirror image along the wall.
///
/// The numbers are raw counts. The wall runs along `(ny, -nx)`. `q1 + q2`
/// is what the velocity `(cx, cy)` has along the wall, `(kx, ky)` the
/// normal `(nx, ny)` times the mirror factor `k`, and `t1 + t2` what the
/// mirror image `(cx - kx, cy - ky)` has along the wall. Then the mirror
/// image has along the wall what the velocity had, within the bound stated.
pub proof fn lemma_mirror_along_wall(
    cx: int,
    cy: int,
    nx: int,
    ny: int,
    q1: int,
    q2: int,
    k: int,
    kx: int,
    ky: int,
    t1: int,
    t2: int,
)
    requires
        magnitude(cx * ny - q1 * SCALE) < SCALE,
        magnitude(cy * (-nx) - q2 * SCALE) < SCALE,
        magnitude(nx * k - kx * SCALE) < SCALE,
        magnitude(ny * k - ky * SCALE) < SCALE,
        magnitude((cx - kx) * ny - t1 * SCALE) < SCALE,
        magnitude((cy - ky) * (-nx) - t2 * SCALE) < SCALE,
    ensures
        SCALE * magnitude(t1 + t2 - (q1 + q2)) <= 4 * SCALE + magnitude(nx) + magnitude(ny),
{
    let s = SCALE as int;
    let g1 = cx * ny - q1 * s;
    let g2 = cy * (-nx) - q2 * s;
    let h1 = nx * k - kx * s;
    let h2 = ny * k - ky * s;
    let f1 = (cx - kx) * ny - t1 * s;
    let f2 = (cy - ky) * (-nx) - t2 * s;
    let x = t1 + t2 - (q1 + q2);
    let e1 = s * (g1 + g2 - f1 - f2);
    let e4 = h1 * ny;
    let e5 = h2 * nx;
    // The products of two unknowns, taken one at a time.
    let kxny = kx * ny;
    let kynx = ky * nx;
    let cynx = cy * nx;
    let mixed = (nx * ny) * k;
    assert((cx - kx) * ny == cx * ny - kxny) by (nonlinear_arith)
        requires
            kxny == kx * ny,
    ;
    assert(cy * (-nx) == -cynx) by (nonlinear_arith)
        requires
            cynx == cy * nx,
    ;
    assert((cy - ky) * (-nx) == -cynx + kynx) by (nonlinear_arith)
        requires
            cynx == cy * nx,
            kynx == ky * nx,
    ;
    assert(e4 == mixed - s * kxny) by (nonlinear_arith)
        requires
            e4 == h1 * ny,
            h1 == nx * k - kx * s,
            mixed == (nx * ny) * k,
            kxny == kx * ny,
    ;
    assert(e5 == mixed - s * kynx) by (nonlinear_arith)
        requires
            e5 == h2 * nx,
            h2 == ny * k - ky * s,
            mixed == (nx * ny) * k,
            kynx == ky * nx,
    ;
    let sum = g1 + g2 - f1 - f2;
    assert(sum == kxny - kynx + x * s);
    assert(e1 == s * kxny - s * kynx + s * s * x) by (nonlinear_arith)
        requires
            e1 == s * sum,
            sum == kxny - kynx + x * s,
    ;
    assert(s * s * x == e1 + e4 - e5);
    lemma_product_within(s, g1 + g2 - f1 - f2, s, 4 * s);
    lemma_product_within(h1, ny, s, magnitude(ny));
    lemma_product_within(h2, nx, s, magnitude(nx));
    let y = 4 * s + magnitude(nx) + magnitude(ny);
    assert(s * (4 * s) + s * magnitude(ny) + s * magnitude(nx) == s * y) by (nonlinear_arith)
        requires
            y == 4 * s + magnitude(nx) + magnitude(ny),
    ;
    assert(magnitude(s * s * x) <= s * y);
    lemma_scaled_bound(s, x, y);
}

/// A product is no further from zero than the product of the bounds of its
/// factors.
proof fn lemma_product_within(a: int, b: int, bound_a: int, bound_b: int)
    by (nonlinear_arith)
    requires
        magnitude(a) <= bound_a,
        magnitude(b) <= bound_b,
    ensures
        magnitude(a * b) <= bound_a * bound_b,
{
}

/// What bounds a number times the square of a positive scale bounds the
/// number times the scale.
proof fn lemma_scaled_bound(s: int, x: int, y: int)
    by (nonlinear_arith)
    requires
        s > 0,
        magnitude(s * s * x) <= s * y,
    ensures
        s * magnitude(x) <= y,
{
}

/// The mirror factor of the velocity `c` at a wall with the normal `n`:
/// twice what the velocity has along the normal, over the squared length of
/// the normal.
pub open spec fn mirror_factor(c: Vector2, n: Vector2) -> Fixed {
    Fixed::from_int(2).times(c.dot(n)).over(n.dot(n))
}

/// Whether the velocity `c` and the normal `n` leave room for the mirror
/// image: their coordinates are within a thousand units of zero, the
/// normal has a length to speak of, and the mirror factor is within a
/// thousand.
pub open spec fn mirror_in_range(c: Vector2, n: Vector2) -> bool {
    &&& magnitude(c.x@) <= 1000 * SCALE
    &&& magnitude(c.y@) <= 1000 * SCALE
    &&& magnitude(n.x@) <= 1000 * SCALE
    &&& magnitude(n.y@) <= 1000 * SCALE
    &&& n.dot(n)@ != 0
    &&& magnitude(trunc_div(2 * c.dot(n)@ * SCALE, n.dot(n)@)) <= 1000 * SCALE
}

/// A wall turns back what comes at it and keeps what runs along it, for
/// every wall: the mirror image of a velocity has along the normal of the
/// wall the opposite of what the velocity had, and along the wall what the
/// velocity had, each as closely as rounding to billionths allows. Along the
/// normal the two differ by no more than four billionths and a billionth of
/// the squared length of the normal, of twice the mirror factor and of the
/// coordinates of the normal; along the wall by no more than four
/// billionths and a billionth of the coordinates of the normal.
pub proof fn lemma_mirror_turns_back(c: Vector2, n: Vector2)
    requires
        mirror_in_range(c, n),
    ensures
        SCALE * magnitude(Car::mirrored(c, n).dot(n)@ + c.dot(n)@) <= 4 * SCALE + n.dot(n)@ + 2
            * magnitude(mirror_factor(c, n)@) + magnitude(n.x@) + magnitude(n.y@),
        SCALE * magnitude(
            Car::mirrored(c, n).dot(Vector2::new(n.y, n.x.neg()))@ - c.dot(
                Vector2::new(n.y, n.x.neg()),
            )@,
        ) <= 4 * SCALE + magnitude(n.x@) + magnitude(n.y@),
{
    reveal(Fixed::spec_plus);
    reveal(Fixed::spec_minus);
    reveal(Fixed::spec_neg);
    let s = SCALE as int;
    let b = 1000 * s;
    let big = 1_001_000 * s;
    let (cx, cy, nx, ny) = (c.x@, c.y@, n.x@, n.y@);
    assert((b * b) / s == 1_000_000 * s && (big * b) / s == 1_001_000_000 * s) by (nonlinear_arith)
        requires
            s == 1_000_000_000,
            b == 1000 * s,
            big == 1_001_000 * s,
    ;
    // What the velocity has along the normal, and the squared length of
    // the normal.
    lemma_times_exact(c.x, n.x, b, b);
    lemma_times_exact(c.y, n.y, b, b);
    lemma_times_exact(n.x, n.x, b, b);
    lemma_times_exact(n.y, n.y, b, b);
    let q1 = c.x.times(n.x)@;
    let q2 = c.y.times(n.y)@;
    let r1 = n.x.times(n.x)@;
    let r2 = n.y.times(n.y)@;
    let d = c.dot(n);
    let nn = n.dot(n);
    assert(d@ == q1 + q2);
    assert(nn@ == r1 + r2);
    crate::fixed::lemma_square_not_negative(n.x);
    crate::fixed::lemma_square_not_negative(n.y);
    lemma_trunc_div_remainder(cx * nx, s);
    lemma_trunc_div_remainder(cy * ny, s);
    lemma_trunc_div_remainder(nx * nx, s);
    lemma_trunc_div_remainder(ny * ny, s);
    // The mirror factor.
    lemma_twice(d);
    let two = Fixed::from_int(2).times(d);
    let factor = mirror_factor(c, n);
    assert(factor@ == trunc_div(two@ * s, nn@)) by {
        reveal(Fixed::spec_over);
    }
    let k = factor@;
    lemma_trunc_div_remainder(two@ * s, nn@);
    assert(two@ * s == 2 * (q1 + q2) * s) by (nonlinear_arith)
        requires
            two@ == 2 * (q1 + q2),
    ;
    // The normal times the factor, and the mirror image.
    lemma_times_exact(n.x, factor, b, b);
    lemma_times_exact(n.y, factor, b, b);
    let kx = n.x.times(factor)@;
    let ky = n.y.times(factor)@;
    lemma_trunc_div_remainder(nx * k, s);
    lemma_trunc_div_remainder(ny * k, s);
    let v = Car::mirrored(c, n);
    assert(v.x@ == cx - kx && v.y@ == cy - ky);
    // What the mirror image has along the normal.
    lemma_times_exact(v.x, n.x, big, b);
    lemma_times_exact(v.y, n.y, big, b);
    let m1 = v.x.times(n.x)@;
    let m2 = v.y.times(n.y)@;
    assert(v.dot(n)@ == m1 + m2);
    lemma_trunc_div_remainder((cx - kx) * nx, s);
    lemma_trunc_div_remainder((cy - ky) * ny, s);
    lemma_mirror_along_normal(cx, cy, nx, ny, q1, q2, r1, r2, k, kx, ky, m1, m2);
    // What the velocity and its mirror image have along the wall.
    let w = Vector2::new(n.y, n.x.neg());
    assert(w.x@ == ny && w.y@ == -nx);
    lemma_times_exact(c.x, w.x, b, b);
    lemma_times_exact(c.y, w.y, b, b);
    lemma_times_exact(v.x, w.x, big, b);
    lemma_times_exact(v.y, w.y, big, b);
    let a1 = c.x.times(w.x)@;
    let a2 = c.y.times(w.y)@;
    let t1 = v.x.times(w.x)@;
    let t2 = v.y.times(w.y)@;
    assert(c.dot(w)@ == a1 + a2);
    assert(v.dot(w)@ == t1 + t2);
    lemma_trunc_div_remainder(cx * ny, s);
    lemma_trunc_div_remainder(cy * (-nx), s);
    lemma_trunc_div_remainder((cx - kx) * ny, s);
    lemma_trunc_div_remainder((cy - ky) * (-nx), s);
    lemma_mirror_along_wall(cx, cy, nx, ny, a1, a2, k, kx, ky, t1, t2);
}

} // verus!
