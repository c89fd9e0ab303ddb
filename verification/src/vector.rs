//! Vectors of two, three and four [`Fixed`] coordinates.

use vstd::prelude::*;
use crate::fixed::{Fixed, lemma_square_not_negative};

verus! {

/// A point or a direction in a plane.
#[derive(Clone, Copy, Debug, PartialEq, Eq, Structural)]
pub struct Vector2 {
    pub x: Fixed,
    pub y: Fixed,
}

/// A point or a direction in space. The second coordinate is the height.
#[derive(Clone, Copy, Debug, PartialEq, Eq, Structural)]
pub struct Vector3 {
    pub x: Fixed,
    pub y: Fixed,
    pub z: Fixed,
}

/// A point in space with its homogeneous coordinate.
#[derive(Clone, Copy, Debug, PartialEq, Eq, Structural)]
pub struct Vector4 {
    pub x: Fixed,
    pub y: Fixed,
    pub z: Fixed,
    pub w: Fixed,
}

impl Vector2 {
    /// What `new` returns.
    pub open spec fn spec_new(x: Fixed, y: Fixed) -> Vector2 {
        Vector2 { x, y }
    }

    /// What `plus` returns.
    pub open spec fn spec_plus(self, rhs: Vector2) -> Vector2 {
        Vector2 { x: self.x.plus(rhs.x), y: self.y.plus(rhs.y) }
    }

    /// What `minus` returns.
    pub open spec fn spec_minus(self, rhs: Vector2) -> Vector2 {
        Vector2 { x: self.x.minus(rhs.x), y: self.y.minus(rhs.y) }
    }

    /// What `scaled` returns.
    pub open spec fn spec_scaled(self, k: Fixed) -> Vector2 {
        Vector2 { x: self.x.times(k), y: self.y.times(k) }
    }

    /// What `over` returns.
    pub open spec fn spec_over(self, k: Fixed) -> Vector2 {
        Vector2 { x: self.x.over(k), y: self.y.over(k) }
    }

    /// What `dot` returns.
    pub open spec fn spec_dot(self, rhs: Vector2) -> Fixed {
        self.x.times(rhs.x).plus(self.y.times(rhs.y))
    }

    /// The vector with the given coordinates.
    #[verifier::when_used_as_spec(spec_new)]
    pub fn new(x: Fixed, y: Fixed) -> (r: Vector2)
        ensures
            r == Vector2::spec_new(x, y),
    {
        Vector2 { x, y }
    }

    /// The sum, coordinate by coordinate.
    #[verifier::when_used_as_spec(spec_plus)]
    pub fn plus(self, rhs: Vector2) -> (r: Vector2)
        ensures
            r == self.spec_plus(rhs),
    {
        Vector2 { x: self.x.plus(rhs.x), y: self.y.plus(rhs.y) }
    }

    /// The difference, coordinate by coordinate.
    #[verifier::when_used_as_spec(spec_minus)]
    pub fn minus(self, rhs: Vector2) -> (r: Vector2)
        ensures
            r == self.spec_minus(rhs),
    {
        Vector2 { x: self.x.minus(rhs.x), y: self.y.minus(rhs.y) }
    }

    /// Each coordinate times `k`.
    #[verifier::when_used_as_spec(spec_scaled)]
    pub fn scaled(self, k: Fixed) -> (r: Vector2)
        ensures
            r == self.spec_scaled(k),
    {
        Vector2 { x: self.x.times(k), y: self.y.times(k) }
    }

    /// Each coordinate divided by `k`.
    #[verifier::when_used_as_spec(spec_over)]
    pub fn over(self, k: Fixed) -> (r: Vector2)
        requires
            k@ != 0,
        ensures
            r == self.spec_over(k),
    {
        Vector2 { x: self.x.over(k), y: self.y.over(k) }
    }

    /// The sum of the products of the coordinates.
    #[verifier::when_used_as_spec(spec_dot)]
    pub fn dot(self, rhs: Vector2) -> (r: Fixed)
        ensures
            r == self.spec_dot(rhs),
    {
        self.x.times(rhs.x).plus(self.y.times(rhs.y))
    }
}

impl Vector3 {
    /// What `new` returns.
    pub open spec fn spec_new(x: Fixed, y: Fixed, z: Fixed) -> Vector3 {
        Vector3 { x, y, z }
    }

    /// What `zeros` returns.
    pub open spec fn spec_zeros() -> Vector3 {
        Vector3 { x: Fixed::from_raw(0), y: Fixed::from_raw(0), z: Fixed::from_raw(0) }
    }

    /// What `plus` returns.
    pub open spec fn spec_plus(self, rhs: Vector3) -> Vector3 {
        Vector3 { x: self.x.plus(rhs.x), y: self.y.plus(rhs.y), z: self.z.plus(rhs.z) }
    }

    /// What `minus` returns.
    pub open spec fn spec_minus(self, rhs: Vector3) -> Vector3 {
        Vector3 { x: self.x.minus(rhs.x), y: self.y.minus(rhs.y), z: self.z.minus(rhs.z) }
    }

    /// What `neg` returns.
    pub open spec fn spec_neg(self) -> Vector3 {
        Vector3 { x: self.x.neg(), y: self.y.neg(), z: self.z.neg() }
    }

    /// What `scaled` returns.
    pub open spec fn spec_scaled(self, k: Fixed) -> Vector3 {
        Vector3 { x: self.x.times(k), y: self.y.times(k), z: self.z.times(k) }
    }

    /// What `over` returns.
    pub open spec fn spec_over(self, k: Fixed) -> Vector3 {
        Vector3 { x: self.x.over(k), y: self.y.over(k), z: self.z.over(k) }
    }

    /// What `squared_norm` returns.
    pub open spec fn spec_squared_norm(self) -> Fixed {
        self.x.times(self.x).plus(self.y.times(self.y)).plus(self.z.times(self.z))
    }

    /// What `norm` returns.
    pub open spec fn spec_norm(self) -> Fixed {
        self.spec_squared_norm().sqrt()
    }

    /// What `xz` returns.
    pub open spec fn spec_xz(self) -> Vector2 {
        Vector2 { x: self.x, y: self.z }
    }

    /// The vector with the given coordinates.
    #[verifier::when_used_as_spec(spec_new)]
    pub fn new(x: Fixed, y: Fixed, z: Fixed) -> (r: Vector3)
        ensures
            r == Vector3::spec_new(x, y, z),
    {
        Vector3 { x, y, z }
    }

    /// The origin.
    #[verifier::when_used_as_spec(spec_zeros)]
    pub fn zeros() -> (r: Vector3)
        ensures
            r == Vector3::spec_zeros(),
    {
        Vector3 { x: Fixed::from_raw(0), y: Fixed::from_raw(0), z: Fixed::from_raw(0) }
    }

    /// The sum, coordinate by coordinate.
    #[verifier::when_used_as_spec(spec_plus)]
    pub fn plus(self, rhs: Vector3) -> (r: Vector3)
        ensures
            r == self.spec_plus(rhs),
    {
        Vector3 { x: self.x.plus(rhs.x), y: self.y.plus(rhs.y), z: self.z.plus(rhs.z) }
    }

    /// The difference, coordinate by coordinate.
    #[verifier::when_used_as_spec(spec_minus)]
    pub fn minus(self, rhs: Vector3) -> (r: Vector3)
        ensures
            r == self.spec_minus(rhs),
    {
        Vector3 { x: self.x.minus(rhs.x), y: self.y.minus(rhs.y), z: self.z.minus(rhs.z) }
    }

    /// The opposite vector.
    #[verifier::when_used_as_spec(spec_neg)]
    pub fn neg(self) -> (r: Vector3)
        ensures
            r == self.spec_neg(),
    {
        Vector3 { x: self.x.neg(), y: self.y.neg(), z: self.z.neg() }
    }

    /// Each coordinate times `k`.
    #[verifier::when_used_as_spec(spec_scaled)]
    pub fn scaled(self, k: Fixed) -> (r: Vector3)
        ensures
            r == self.spec_scaled(k),
    {
        Vector3 { x: self.x.times(k), y: self.y.times(k), z: self.z.times(k) }
    }

    /// Each coordinate divided by `k`.
    #[verifier::when_used_as_spec(spec_over)]
    pub fn over(self, k: Fixed) -> (r: Vector3)
        requires
            k@ != 0,
        ensures
            r == self.spec_over(k),
    {
        Vector3 { x: self.x.over(k), y: self.y.over(k), z: self.z.over(k) }
    }

    /// The length: the square root of the sum of the squared coordinates.
    #[verifier::when_used_as_spec(spec_norm)]
    pub fn norm(self) -> (r: Fixed)
        ensures
            r == self.spec_norm(),
    {
        proof {
            reveal(Fixed::spec_plus);
            lemma_square_not_negative(self.x);
            lemma_square_not_negative(self.y);
            lemma_square_not_negative(self.z);
        }
        self.x.times(self.x).plus(self.y.times(self.y)).plus(self.z.times(self.z)).sqrt()
    }

    /// The footprint on the ground: the first and the third coordinate.
    #[verifier::when_used_as_spec(spec_xz)]
    pub fn xz(self) -> (r: Vector2)
        ensures
            r == self.spec_xz(),
    {
        Vector2 { x: self.x, y: self.z }
    }
}

impl Vector4 {
    /// What `new` returns.
    pub open spec fn spec_new(x: Fixed, y: Fixed, z: Fixed, w: Fixed) -> Vector4 {
        Vector4 { x, y, z, w }
    }

    /// What `xyz` returns.
    pub open spec fn spec_xyz(self) -> Vector3 {
        Vector3 { x: self.x, y: self.y, z: self.z }
    }

    /// What `dot` returns.
    pub open spec fn spec_dot(self, rhs: Vector4) -> Fixed {
        self.x.times(rhs.x).plus(self.y.times(rhs.y)).plus(self.z.times(rhs.z)).plus(
            self.w.times(rhs.w),
        )
    }

    /// The vector with the given coordinates.
    #[verifier::when_used_as_spec(spec_new)]
    pub fn new(x: Fixed, y: Fixed, z: Fixed, w: Fixed) -> (r: Vector4)
        ensures
            r == Vector4::spec_new(x, y, z, w),
    {
        Vector4 { x, y, z, w }
    }

    /// The first three coordinates.
    #[verifier::when_used_as_spec(spec_xyz)]
    pub fn xyz(self) -> (r: Vector3)
        ensures
            r == self.spec_xyz(),
    {
        Vector3 { x: self.x, y: self.y, z: self.z }
    }

    /// The sum of the products of the coordinates.
    #[verifier::when_used_as_spec(spec_dot)]
    pub fn dot(self, rhs: Vector4) -> (r: Fixed)
        ensures
            r == self.spec_dot(rhs),
    {
        self.x.times(rhs.x).plus(self.y.times(rhs.y)).plus(self.z.times(rhs.z)).plus(
            self.w.times(rhs.w),
        )
    }
}

} // verus!
