//! Homogeneous transforms and the stack of model transforms.

use vstd::prelude::*;
use crate::fixed::{Fixed, lemma_plus_zero, lemma_times_one, lemma_times_zero, SCALE};
use crate::trig::lemma_sin_cos_of_zero;
use crate::vector::Vector4;

verus! {

/// A four by four matrix, held row by row.
#[derive(Clone, Copy, Debug, PartialEq, Eq, Structural)]
pub struct Matrix4 {
    pub r0: Vector4,
    pub r1: Vector4,
    pub r2: Vector4,
    pub r3: Vector4,
}

impl Matrix4 {
    /// What `identity` returns.
    pub open spec fn spec_identity() -> Matrix4 {
        let o = Fixed::from_raw(0);
        let i = Fixed::from_raw(SCALE);
        Matrix4 {
            r0: Vector4::new(i, o, o, o),
            r1: Vector4::new(o, i, o, o),
            r2: Vector4::new(o, o, i, o),
            r3: Vector4::new(o, o, o, i),
        }
    }

    /// What `translation` returns.
    pub open spec fn spec_translation(x: Fixed, y: Fixed, z: Fixed) -> Matrix4 {
        let o = Fixed::from_raw(0);
        let i = Fixed::from_raw(SCALE);
        Matrix4 {
            r0: Vector4::new(i, o, o, x),
            r1: Vector4::new(o, i, o, y),
            r2: Vector4::new(o, o, i, z),
            r3: Vector4::new(o, o, o, i),
        }
    }

    /// What `scaling` returns.
    pub open spec fn spec_scaling(x: Fixed, y: Fixed, z: Fixed) -> Matrix4 {
        let o = Fixed::from_raw(0);
        let i = Fixed::from_raw(SCALE);
        Matrix4 {
            r0: Vector4::new(x, o, o, o),
            r1: Vector4::new(o, y, o, o),
            r2: Vector4::new(o, o, z, o),
            r3: Vector4::new(o, o, o, i),
        }
    }

    /// What `rotation_x` returns.
    pub open spec fn spec_rotation_x(angle: Fixed) -> Matrix4 {
        let o = Fixed::from_raw(0);
        let i = Fixed::from_raw(SCALE);
        Matrix4 {
            r0: Vector4::new(i, o, o, o),
            r1: Vector4::new(o, angle.cos(), angle.sin().neg(), o),
            r2: Vector4::new(o, angle.sin(), angle.cos(), o),
            r3: Vector4::new(o, o, o, i),
        }
    }

    /// What `rotation_y` returns.
    pub open spec fn spec_rotation_y(angle: Fixed) -> Matrix4 {
        let o = Fixed::from_raw(0);
        let i = Fixed::from_raw(SCALE);
        Matrix4 {
            r0: Vector4::new(angle.cos(), o, angle.sin(), o),
            r1: Vector4::new(o, i, o, o),
            r2: Vector4::new(angle.sin().neg(), o, angle.cos(), o),
            r3: Vector4::new(o, o, o, i),
        }
    }

    /// What `rotation_z` returns.
    pub open spec fn spec_rotation_z(angle: Fixed) -> Matrix4 {
        let o = Fixed::from_raw(0);
        let i = Fixed::from_raw(SCALE);
        Matrix4 {
            r0: Vector4::new(angle.cos(), angle.sin().neg(), o, o),
            r1: Vector4::new(angle.sin(), angle.cos(), o, o),
            r2: Vector4::new(o, o, i, o),
            r3: Vector4::new(o, o, o, i),
        }
    }

    /// The first column.
    pub open spec fn c0(self) -> Vector4 {
        Vector4::new(self.r0.x, self.r1.x, self.r2.x, self.r3.x)
    }

    /// The second column.
    pub open spec fn c1(self) -> Vector4 {
        Vector4::new(self.r0.y, self.r1.y, self.r2.y, self.r3.y)
    }

    /// The third column.
    pub open spec fn c2(self) -> Vector4 {
        Vector4::new(self.r0.z, self.r1.z, self.r2.z, self.r3.z)
    }

    /// The fourth column.
    pub open spec fn c3(self) -> Vector4 {
        Vector4::new(self.r0.w, self.r1.w, self.r2.w, self.r3.w)
    }

    /// The row `row` times the matrix `m`.
    pub open spec fn row_times(row: Vector4, m: Matrix4) -> Vector4 {
        Vector4::new(row.dot(m.c0()), row.dot(m.c1()), row.dot(m.c2()), row.dot(m.c3()))
    }

    /// What `times` returns.
    pub open spec fn spec_times(self, rhs: Matrix4) -> Matrix4 {
        Matrix4 {
            r0: Matrix4::row_times(self.r0, rhs),
            r1: Matrix4::row_times(self.r1, rhs),
            r2: Matrix4::row_times(self.r2, rhs),
            r3: Matrix4::row_times(self.r3, rhs),
        }
    }

    /// The matrix with a turn about the first axis, then one about the
    /// second, then one about the third applied before it.
    pub open spec fn turned(self, x: Fixed, y: Fixed, z: Fixed) -> Matrix4 {
        self.times(Matrix4::rotation_x(x)).times(Matrix4::rotation_y(y)).times(
            Matrix4::rotation_z(z),
        )
    }

    /// What `apply` returns.
    pub open spec fn spec_apply(self, v: Vector4) -> Vector4 {
        Vector4::new(self.r0.dot(v), self.r1.dot(v), self.r2.dot(v), self.r3.dot(v))
    }

    /// The matrix that changes nothing.
    #[verifier::when_used_as_spec(spec_identity)]
    pub fn identity() -> (r: Matrix4)
        ensures
            r == Matrix4::spec_identity(),
    {
        let o = Fixed::from_raw(0);
        let i = Fixed::from_raw(SCALE);
        Matrix4 {
            r0: Vector4::new(i, o, o, o),
            r1: Vector4::new(o, i, o, o),
            r2: Vector4::new(o, o, i, o),
            r3: Vector4::new(o, o, o, i),
        }
    }

    /// The matrix that moves a point by `(x, y, z)`.
    #[verifier::when_used_as_spec(spec_translation)]
    pub fn translation(x: Fixed, y: Fixed, z: Fixed) -> (r: Matrix4)
        ensures
            r == Matrix4::spec_translation(x, y, z),
    {
        let o = Fixed::from_raw(0);
        let i = Fixed::from_raw(SCALE);
        Matrix4 {
            r0: Vector4::new(i, o, o, x),
            r1: Vector4::new(o, i, o, y),
            r2: Vector4::new(o, o, i, z),
            r3: Vector4::new(o, o, o, i),
        }
    }

    /// The matrix that stretches each axis by its factor.
    #[verifier::when_used_as_spec(spec_scaling)]
    pub fn scaling(x: Fixed, y: Fixed, z: Fixed) -> (r: Matrix4)
        ensures
            r == Matrix4::spec_scaling(x, y, z),
    {
        let o = Fixed::from_raw(0);
        let i = Fixed::from_raw(SCALE);
        Matrix4 {
            r0: Vector4::new(x, o, o, o),
            r1: Vector4::new(o, y, o, o),
            r2: Vector4::new(o, o, z, o),
            r3: Vector4::new(o, o, o, i),
        }
    }

    /// The matrix that turns by `angle` radians about the first axis.
    #[verifier::when_used_as_spec(spec_rotation_x)]
    pub fn rotation_x(angle: Fixed) -> (r: Matrix4)
        ensures
            r == Matrix4::spec_rotation_x(angle),
    {
        let o = Fixed::from_raw(0);
        let i = Fixed::from_raw(SCALE);
        let s = angle.sin();
        let c = angle.cos();
        Matrix4 {
            r0: Vector4::new(i, o, o, o),
            r1: Vector4::new(o, c, s.neg(), o),
            r2: Vector4::new(o, s, c, o),
            r3: Vector4::new(o, o, o, i),
        }
    }

    /// The matrix that turns by `angle` radians about the second axis, the
    /// vertical.
    #[verifier::when_used_as_spec(spec_rotation_y)]
    pub fn rotation_y(angle: Fixed) -> (r: Matrix4)
        ensures
            r == Matrix4::spec_rotation_y(angle),
    {
        let o = Fixed::from_raw(0);
        let i = Fixed::from_raw(SCALE);
        let s = angle.sin();
        let c = angle.cos();
        Matrix4 {
            r0: Vector4::new(c, o, s, o),
            r1: Vector4::new(o, i, o, o),
            r2: Vector4::new(s.neg(), o, c, o),
            r3: Vector4::new(o, o, o, i),
        }
    }

    /// The matrix that turns by `angle` radians about the third axis.
    #[verifier::when_used_as_spec(spec_rotation_z)]
    pub fn rotation_z(angle: Fixed) -> (r: Matrix4)
        ensures
            r == Matrix4::spec_rotation_z(angle),
    {
        let o = Fixed::from_raw(0);
        let i = Fixed::from_raw(SCALE);
        let s = angle.sin();
        let c = angle.cos();
        Matrix4 {
            r0: Vector4::new(c, s.neg(), o, o),
            r1: Vector4::new(s, c, o, o),
            r2: Vector4::new(o, o, i, o),
            r3: Vector4::new(o, o, o, i),
        }
    }

    /// A row times a matrix.
    fn row_by(row: Vector4, m: &Matrix4) -> (r: Vector4)
        ensures
            r == Matrix4::row_times(row, *m),
    {
        Vector4::new(
            row.dot(Vector4::new(m.r0.x, m.r1.x, m.r2.x, m.r3.x)),
            row.dot(Vector4::new(m.r0.y, m.r1.y, m.r2.y, m.r3.y)),
            row.dot(Vector4::new(m.r0.z, m.r1.z, m.r2.z, m.r3.z)),
            row.dot(Vector4::new(m.r0.w, m.r1.w, m.r2.w, m.r3.w)),
        )
    }

    /// The matrix product: each entry is a row of `self` times a column of
    /// `rhs`.
    #[verifier::when_used_as_spec(spec_times)]
    pub fn times(self, rhs: Matrix4) -> (r: Matrix4)
        ensures
            r == self.spec_times(rhs),
    {
        Matrix4 {
            r0: Matrix4::row_by(self.r0, &rhs),
            r1: Matrix4::row_by(self.r1, &rhs),
            r2: Matrix4::row_by(self.r2, &rhs),
            r3: Matrix4::row_by(self.r3, &rhs),
        }
    }

    /// The matrix times the column `v`.
    #[verifier::when_used_as_spec(spec_apply)]
    pub fn apply(self, v: Vector4) -> (r: Vector4)
        ensures
            r == self.spec_apply(v),
    {
        Vector4::new(self.r0.dot(v), self.r1.dot(v), self.r2.dot(v), self.r3.dot(v))
    }
}

/// The transform under which the next object is placed, with the transforms
/// that were saved to come back to.
pub struct ModelMatrix {
    pub matrix: Matrix4,
    pub stack: Vec<Matrix4>,
}

impl ModelMatrix {
    /// The identity, with nothing saved.
    pub fn new() -> (r: ModelMatrix)
        ensures
            r.matrix == Matrix4::identity(),
            r.stack@.len() == 0,
    {
        ModelMatrix { matrix: Matrix4::identity(), stack: Vec::new() }
    }

    /// Replaces the current transform by the identity.
    pub fn load_identity(&mut self)
        ensures
            final(self).matrix == Matrix4::identity(),
            final(self).stack@ == old(self).stack@,
    {
        self.matrix = Matrix4::identity();
    }

    /// Applies `transform_mat` before the current transform.
    pub fn add_transformation(&mut self, transform_mat: &Matrix4)
        ensures
            final(self).matrix == old(self).matrix.times(*transform_mat),
            final(self).stack@ == old(self).stack@,
    {
        self.matrix = self.matrix.times(*transform_mat);
    }

    /// Applies the identity before the current transform.
    pub fn add_nothing(&mut self)
        ensures
            final(self).matrix == old(self).matrix.times(Matrix4::identity()),
            final(self).stack@ == old(self).stack@,
    {
        self.add_transformation(&Matrix4::identity());
    }

    /// Applies a move by `(x, y, z)` before the current transform.
    pub fn add_translate(&mut self, x: Fixed, y: Fixed, z: Fixed)
        ensures
            final(self).matrix == old(self).matrix.times(Matrix4::translation(x, y, z)),
            final(self).stack@ == old(self).stack@,
    {
        self.add_transformation(&Matrix4::translation(x, y, z));
    }

    /// Applies a stretch by `(x, y, z)` before the current transform.
    pub fn add_scale(&mut self, x: Fixed, y: Fixed, z: Fixed)
        ensures
            final(self).matrix == old(self).matrix.times(Matrix4::scaling(x, y, z)),
            final(self).stack@ == old(self).stack@,
    {
        self.add_transformation(&Matrix4::scaling(x, y, z));
    }

    /// Applies a turn about the first axis, then one about the second, then
    /// one about the third, each before what was there.
    pub fn add_rotation(&mut self, x: Fixed, y: Fixed, z: Fixed)
        ensures
            final(self).matrix == old(self).matrix.turned(x, y, z),
            final(self).stack@ == old(self).stack@,
    {
        self.add_transformation(&Matrix4::rotation_x(x));
        self.add_transformation(&Matrix4::rotation_y(y));
        self.add_transformation(&Matrix4::rotation_z(z));
    }

    /// Saves the current transform.
    pub fn push_stack(&mut self)
        ensures
            final(self).matrix == old(self).matrix,
            final(self).stack@ == old(self).stack@.push(old(self).matrix),
    {
        self.stack.push(self.matrix);
    }

    /// Comes back to the transform saved last, and forgets it. With nothing
    /// saved, nothing changes.
    pub fn pop_stack(&mut self)
        ensures
            old(self).stack@.len() == 0 ==> final(self).matrix == old(self).matrix,
            old(self).stack@.len() == 0 ==> final(self).stack@ == old(self).stack@,
            old(self).stack@.len() > 0 ==> final(self).matrix == old(self).stack@.last()
                && final(self).stack@ == old(self).stack@.drop_last(),
    {
        match self.stack.pop() {
            Some(m) => {
                self.matrix = m;
            },
            None => {},
        }
    }
}

/// Applying the identity, before or after, changes no matrix.
pub proof fn lemma_identity_is_neutral(m: Matrix4)
    ensures
        m.times(Matrix4::identity()) == m,
        Matrix4::identity().times(m) == m,
{
    lemma_unit_sums(m.r0);
    lemma_unit_sums(m.r1);
    lemma_unit_sums(m.r2);
    lemma_unit_sums(m.r3);
    lemma_unit_sums(m.c0());
    lemma_unit_sums(m.c1());
    lemma_unit_sums(m.c2());
    lemma_unit_sums(m.c3());
}

/// A turn by no angle is no turn.
pub proof fn lemma_no_turn_is_identity()
    ensures
        Matrix4::rotation_x(Fixed::from_raw(0)) == Matrix4::identity(),
        Matrix4::rotation_y(Fixed::from_raw(0)) == Matrix4::identity(),
        Matrix4::rotation_z(Fixed::from_raw(0)) == Matrix4::identity(),
{
    lemma_sin_cos_of_zero();
    lemma_plus_zero(Fixed::from_raw(0));
}

/// A turn about the vertical alone is one rotation: the turns by no angle
/// about the other two axes change nothing.
pub proof fn lemma_turn_about_the_vertical(m: Matrix4, angle: Fixed)
    ensures
        m.turned(Fixed::from_raw(0), angle, Fixed::from_raw(0)) == m.times(
            Matrix4::rotation_y(angle),
        ),
{
    lemma_no_turn_is_identity();
    lemma_identity_is_neutral(m);
    lemma_identity_is_neutral(m.times(Matrix4::rotation_y(angle)));
}

/// What a row of zeros and a single one makes of the coordinates of `v`,
/// from either side.
proof fn lemma_unit_sums(v: Vector4)
    ensures
        Matrix4::row_times(v, Matrix4::identity()) == v,
        Vector4::new(Fixed::from_raw(SCALE), Fixed::from_raw(0), Fixed::from_raw(0), Fixed::from_raw(0)).dot(v) == v.x,
        Vector4::new(Fixed::from_raw(0), Fixed::from_raw(SCALE), Fixed::from_raw(0), Fixed::from_raw(0)).dot(v) == v.y,
        Vector4::new(Fixed::from_raw(0), Fixed::from_raw(0), Fixed::from_raw(SCALE), Fixed::from_raw(0)).dot(v) == v.z,
        Vector4::new(Fixed::from_raw(0), Fixed::from_raw(0), Fixed::from_raw(0), Fixed::from_raw(SCALE)).dot(v) == v.w,
{
    lemma_times_one(v.x);
    lemma_times_one(v.y);
    lemma_times_one(v.z);
    lemma_times_one(v.w);
    lemma_times_zero(v.x);
    lemma_times_zero(v.y);
    lemma_times_zero(v.z);
    lemma_times_zero(v.w);
    lemma_plus_zero(v.x);
    lemma_plus_zero(v.y);
    lemma_plus_zero(v.z);
    lemma_plus_zero(v.w);
    lemma_plus_zero(Fixed::from_raw(0));
}

} // verus!
