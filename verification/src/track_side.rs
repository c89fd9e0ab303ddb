//! The rails along the sides of a piece of track, as walls that a car
//! cannot cross.
//!
//! A straight piece has a rail on either side, cut into slices of equal
//! length. A corner has an outer and an inner rail that each follow a Bezier
//! curve, cut into chords. Every wall is stored in world coordinates.

use vstd::prelude::*;
use itertools::Itertools;
use crate::fixed::{Fixed, lemma_plus_zero, lemma_times_one, lemma_times_zero, HALF, SCALE};
use crate::vector::{Vector3, Vector4};
use crate::matrices::{Matrix4, ModelMatrix};
use crate::collider::{Collider, ColliderView};

verus! {

/// The side of the track that a rail is on.
#[derive(Clone, Copy, Debug, PartialEq, Eq, Structural)]
pub enum Side {
    Left,
    Right,
}

/// The shape of a piece of track.
#[derive(Clone, Copy, Debug, PartialEq, Eq, Structural)]
pub enum TrackSegmentSideType {
    Straight,
    RightCorner,
    UTurn,
}

/// Number of points at which a curve is sampled.
pub const POINTS: i32 = 70;

/// Raw count of the factor from the coordinates of a curve to those of the
/// world.
pub const CURVE_SCALE: i64 = 200_000_000_000;

/// Raw count of the factor from the distance between two samples of a curve
/// to the length of the wall between them.
pub const CHORD_SCALE: i64 = 400_000_000_000;

/// Raw count of the distance of a rail from the middle of a straight piece.
pub const RAIL_OFFSET: i64 = 10_500_000_000;

/// Length of a slice of the rail of a straight piece, in whole units.
pub const SLICE_LENGTH: i32 = 4;

/// Raw count of how far the inner rail of a right corner is moved along the
/// first and the third axis, toward the negative side.
pub const INNER_SHIFT: i64 = 20_000_000_000;

/// The rails of one piece of track.
pub struct TrackSide {
    pub pos: Vector3,
    pub rot: Fixed,
    pub length: Fixed,
    pub segment_type: TrackSegmentSideType,
    /// The frames of the blocks that the rails are made of: each takes the
    /// unit cube about the origin onto its block.
    pub frames: Vec<Matrix4>,
    /// The wall along the face of each block that looks onto the track.
    pub colliders: Vec<Collider>,
}

/// The pairs `(0, 1)`, `(1, 2)` and so on of neighbours among the whole
/// numbers below `points`, as `Itertools::tuple_windows` takes them: every
/// number with the next, in order. Fewer than two numbers have no pair.
#[verifier::external_body]
fn sample_pairs(points: i32) -> (r: Vec<(i32, i32)>)
    ensures
        points <= 1 ==> r@.len() == 0,
        points > 1 ==> r@.len() == points - 1,
        forall|j: int| 0 <= j < r@.len() ==> r@[j] == (j as i32, (j + 1) as i32),
{
    (0..points).tuple_windows().collect()
}

impl TrackSide {
    /// The point at `t` of the quadratic Bezier curve from `p0` to `p2` with
    /// the control point `p1`.
    pub open spec fn quadratic(p0: Vector3, p1: Vector3, p2: Vector3, t: Fixed) -> Vector3 {
        let u = Fixed::from_int(1).minus(t);
        p0.scaled(u.times(u)).plus(p1.scaled(Fixed::from_int(2).times(u).times(t))).plus(
            p2.scaled(t.times(t)),
        )
    }

    /// The point at `t` of the cubic Bezier curve from `p0` to `p3` with the
    /// control points `p1` and `p2`.
    pub open spec fn cubic(
        p0: Vector3,
        p1: Vector3,
        p2: Vector3,
        p3: Vector3,
        t: Fixed,
    ) -> Vector3 {
        let u = Fixed::from_int(1).minus(t);
        p0.scaled(u.times(u).times(u)).plus(
            p1.scaled(Fixed::from_int(3).times(u.times(u)).times(t)),
        ).plus(p2.scaled(Fixed::from_int(3).times(u).times(t.times(t)))).plus(
            p3.scaled(t.times(t).times(t)),
        )
    }

    /// The parameter of the sample `i` of a curve.
    pub open spec fn parameter(i: i32) -> Fixed {
        Fixed::from_int(i).over(Fixed::from_int(POINTS))
    }

    /// The point on the ground with the given coordinates in thousandths.
    pub open spec fn ground_point(x: int, z: int) -> Vector3 {
        Vector3::new(
            Fixed::from_int(x as i32).over(Fixed::from_int(1000)),
            Fixed::from_raw(0),
            Fixed::from_int(z as i32).over(Fixed::from_int(1000)),
        )
    }

    /// The sample `i` of the outer rail of a U-turn.
    pub open spec fn u_outer(i: i32) -> Vector3 {
        TrackSide::quadratic(
            TrackSide::ground_point(-250, 0),
            TrackSide::ground_point(0, 500),
            TrackSide::ground_point(250, 0),
            TrackSide::parameter(i),
        )
    }

    /// The sample `i` of the inner rail of a U-turn.
    pub open spec fn u_inner(i: i32) -> Vector3 {
        TrackSide::cubic(
            TrackSide::ground_point(-145, 0),
            TrackSide::ground_point(-30, 200),
            TrackSide::ground_point(30, 200),
            TrackSide::ground_point(145, 0),
            TrackSide::parameter(i),
        )
    }

    /// The sample `i` of the outer rail of a right corner.
    pub open spec fn corner_outer(i: i32) -> Vector3 {
        TrackSide::quadratic(
            TrackSide::ground_point(-500, 0),
            TrackSide::ground_point(0, 0),
            TrackSide::ground_point(0, -500),
            TrackSide::parameter(i),
        )
    }

    /// The sample `i` of the inner rail of a right corner.
    pub open spec fn corner_inner(i: i32) -> Vector3 {
        TrackSide::quadratic(
            TrackSide::ground_point(-400, 0),
            TrackSide::ground_point(0, 20),
            TrackSide::ground_point(0, -400),
            TrackSide::parameter(i),
        )
    }

    /// The transform `m` with the frame of the chord between the samples
    /// `a` and `b` of a curve applied before it: the origin goes to the
    /// middle of the chord in world scale, the third axis runs along the
    /// chord, and the unit along it is the length of the chord times the
    /// chord scale.
    pub open spec fn along_chord(m: Matrix4, a: Vector3, b: Vector3) -> Matrix4 {
        let p = a.scaled(Fixed::from_raw(HALF)).plus(b.scaled(Fixed::from_raw(HALF))).scaled(
            Fixed::from_raw(CURVE_SCALE),
        );
        let v = a.minus(b);
        m.times(Matrix4::translation(p.x, Fixed::from_raw(0), p.z)).turned(
            Fixed::from_raw(0),
            v.x.atan2(v.z),
            Fixed::from_raw(0),
        ).times(
            Matrix4::scaling(
                Fixed::from_int(1),
                Fixed::from_int(1),
                v.norm().times(Fixed::from_raw(CHORD_SCALE)),
            ),
        )
    }

    /// The wall that runs, in the frame `m`, along the third axis from half
    /// a unit before the origin to half a unit behind it, at `x` on the
    /// first axis.
    pub open spec fn wall_at(m: Matrix4, x: Fixed) -> Collider {
        Collider::InfiniteYPlaneCollider(
            m.apply(
                Vector4::new(x, Fixed::from_raw(0), Fixed::from_raw(HALF), Fixed::from_raw(SCALE)),
            ).xyz(),
            m.apply(
                Vector4::new(
                    x,
                    Fixed::from_raw(0),
                    Fixed::from_raw(HALF).neg(),
                    Fixed::from_raw(SCALE),
                ),
            ).xyz(),
        )
    }

    /// The frame of a piece of track at `position`, turned by `rotation`
    /// about the vertical, under the transform `base`.
    pub open spec fn piece_frame(base: Matrix4, position: Vector3, rotation: Fixed) -> Matrix4 {
        base.times(Matrix4::translation(position.x, position.y, position.z)).turned(
            Fixed::from_raw(0),
            rotation,
            Fixed::from_raw(0),
        )
    }

    /// The face of the block `k` that looks onto the track, as its place on
    /// the first axis of the block: blocks with an even number show their
    /// negative face and blocks with an odd number their positive one.
    pub open spec fn face_of(k: int) -> Fixed {
        if k % 2 == 0 {
            Fixed::from_raw(HALF).neg()
        } else {
            Fixed::from_raw(HALF)
        }
    }

    /// The walls along the track faces of the blocks with the given frames.
    pub open spec fn walls_along(frames: Seq<Matrix4>) -> Seq<Collider> {
        Seq::new(frames.len(), |k: int| TrackSide::wall_at(frames[k], TrackSide::face_of(k)))
    }

    /// The frame of the block `k` of a U-turn. The blocks with an even
    /// number are on the outer rail and those with an odd number on the
    /// inner rail; the blocks `2j` and `2j + 1` span the chord between the
    /// neighbouring samples `j` and `j + 1`.
    pub open spec fn u_frame(base: Matrix4, position: Vector3, rotation: Fixed, k: int) -> Matrix4 {
        let frame = TrackSide::piece_frame(base, position, rotation);
        let i1 = (k / 2) as i32;
        let i2 = (k / 2 + 1) as i32;
        if k % 2 == 0 {
            TrackSide::along_chord(frame, TrackSide::u_outer(i1), TrackSide::u_outer(i2))
        } else {
            TrackSide::along_chord(frame, TrackSide::u_inner(i1), TrackSide::u_inner(i2))
        }
    }

    /// The frames of the blocks of a U-turn: one on each rail for every
    /// chord between two neighbouring samples.
    pub open spec fn u_frames(base: Matrix4, position: Vector3, rotation: Fixed) -> Seq<Matrix4> {
        Seq::new(
            (2 * (POINTS - 1)) as nat,
            |k: int| TrackSide::u_frame(base, position, rotation, k),
        )
    }

    /// The walls of a U-turn.
    pub open spec fn u_walls(base: Matrix4, position: Vector3, rotation: Fixed) -> Seq<Collider> {
        TrackSide::walls_along(TrackSide::u_frames(base, position, rotation))
    }

    /// The frame of the block `k` of a right corner, numbered as those of a
    /// U-turn. The corner is turned by three quarter turns, and its inner
    /// rail is moved toward the inside.
    pub open spec fn corner_frame(base: Matrix4, position: Vector3, k: int) -> Matrix4 {
        let frame = TrackSide::piece_frame(base, position, Fixed::from_int(270).to_radians());
        let i1 = (k / 2) as i32;
        let i2 = (k / 2 + 1) as i32;
        if k % 2 == 0 {
            TrackSide::along_chord(
                frame,
                TrackSide::corner_outer(i1),
                TrackSide::corner_outer(i2),
            )
        } else {
            TrackSide::along_chord(
                frame.times(
                    Matrix4::translation(
                        Fixed::from_raw(INNER_SHIFT).neg(),
                        Fixed::from_raw(0),
                        Fixed::from_raw(INNER_SHIFT).neg(),
                    ),
                ),
                TrackSide::corner_inner(i1),
                TrackSide::corner_inner(i2),
            )
        }
    }

    /// The frames of the blocks of a right corner.
    pub open spec fn corner_frames(base: Matrix4, position: Vector3) -> Seq<Matrix4> {
        Seq::new((2 * (POINTS - 1)) as nat, |k: int| TrackSide::corner_frame(base, position, k))
    }

    /// The walls of a right corner.
    pub open spec fn corner_walls(base: Matrix4, position: Vector3) -> Seq<Collider> {
        TrackSide::walls_along(TrackSide::corner_frames(base, position))
    }

    /// The number of slices of the rails of a straight piece of the given
    /// length: one for every four whole units.
    pub open spec fn slices(length: Fixed) -> int {
        if length.to_int() < SLICE_LENGTH {
            0
        } else {
            length.to_int() as int / SLICE_LENGTH as int
        }
    }

    /// The frame of the block `k` of a straight piece. The blocks `2i` and
    /// `2i + 1` are the slice `i` of the rail on the positive and on the
    /// negative side of the first axis.
    pub open spec fn straight_frame(
        base: Matrix4,
        position: Vector3,
        rotation: Fixed,
        length: Fixed,
        k: int,
    ) -> Matrix4 {
        let start = TrackSide::piece_frame(base, position, rotation).times(
            Matrix4::translation(Fixed::from_raw(0), Fixed::from_raw(0), length.half().neg()),
        );
        let along = Fixed::from_int(SLICE_LENGTH).times(Fixed::from_int((k / 2) as i32));
        let slice = Matrix4::scaling(
            Fixed::from_int(1),
            Fixed::from_int(1),
            Fixed::from_int(SLICE_LENGTH),
        );
        if k % 2 == 0 {
            start.times(
                Matrix4::translation(Fixed::from_raw(RAIL_OFFSET), Fixed::from_raw(0), along),
            ).times(slice)
        } else {
            start.times(
                Matrix4::translation(
                    Fixed::from_raw(RAIL_OFFSET).neg(),
                    Fixed::from_raw(0),
                    along,
                ),
            ).times(slice)
        }
    }

    /// The frames of the blocks of a straight piece.
    pub open spec fn straight_frames(
        base: Matrix4,
        position: Vector3,
        rotation: Fixed,
        length: Fixed,
    ) -> Seq<Matrix4> {
        Seq::new(
            (2 * TrackSide::slices(length)) as nat,
            |k: int| TrackSide::straight_frame(base, position, rotation, length, k),
        )
    }

    /// The walls of a straight piece. Each faces the track.
    pub open spec fn straight_walls(
        base: Matrix4,
        position: Vector3,
        rotation: Fixed,
        length: Fixed,
    ) -> Seq<Collider> {
        TrackSide::walls_along(TrackSide::straight_frames(base, position, rotation, length))
    }

    /// The frames of the blocks of a piece of the given shape.
    pub open spec fn frames_of(
        base: Matrix4,
        pos: Vector3,
        rot: Fixed,
        length: Fixed,
        segment_type: TrackSegmentSideType,
    ) -> Seq<Matrix4> {
        match segment_type {
            TrackSegmentSideType::UTurn => TrackSide::u_frames(base, pos, rot),
            TrackSegmentSideType::Straight => TrackSide::straight_frames(base, pos, rot, length),
            TrackSegmentSideType::RightCorner => TrackSide::corner_frames(base, pos),
        }
    }

    /// The walls of a piece of the given shape.
    pub open spec fn walls(
        base: Matrix4,
        pos: Vector3,
        rot: Fixed,
        length: Fixed,
        segment_type: TrackSegmentSideType,
    ) -> Seq<Collider> {
        TrackSide::walls_along(TrackSide::frames_of(base, pos, rot, length, segment_type))
    }

    /// The point at `t` of the quadratic Bezier curve from `p0` to `p2` with
    /// the control point `p1`:
    /// `(1 - t)^2 p0 + 2 (1 - t) t p1 + t^2 p2`.
    pub fn bezier_curve(p0: &Vector3, p1: &Vector3, p2: &Vector3, t: Fixed) -> (r: Vector3)
        ensures
            r == TrackSide::quadratic(*p0, *p1, *p2, t),
    {
        let u = Fixed::from_int(1).minus(t);
        p0.scaled(u.times(u)).plus(p1.scaled(Fixed::from_int(2).times(u).times(t))).plus(
            p2.scaled(t.times(t)),
        )
    }

    /// The point at `t` of the cubic Bezier curve from `p0` to `p3` with the
    /// control points `p1` and `p2`:
    /// `(1 - t)^3 p0 + 3 (1 - t)^2 t p1 + 3 (1 - t) t^2 p2 + t^3 p3`.
    pub fn bezier_curve_3(p0: &Vector3, p1: &Vector3, p2: &Vector3, p3: &Vector3, t: Fixed) -> (r:
        Vector3)
        ensures
            r == TrackSide::cubic(*p0, *p1, *p2, *p3, t),
    {
        let u = Fixed::from_int(1).minus(t);
        p0.scaled(u.times(u).times(u)).plus(
            p1.scaled(Fixed::from_int(3).times(u.times(u)).times(t)),
        ).plus(p2.scaled(Fixed::from_int(3).times(u).times(t.times(t)))).plus(
            p3.scaled(t.times(t).times(t)),
        )
    }

    /// The parameter of the sample `i` of a curve.
    fn sample_parameter(i: i32) -> (r: Fixed)
        ensures
            r == TrackSide::parameter(i),
    {
        Fixed::from_int(i).over(Fixed::from_int(POINTS))
    }

    /// The point on the ground with the given coordinates in thousandths.
    fn point(x: i32, z: i32) -> (r: Vector3)
        ensures
            r == TrackSide::ground_point(x as int, z as int),
    {
        Vector3::new(
            Fixed::from_int(x).over(Fixed::from_int(1000)),
            Fixed::from_raw(0),
            Fixed::from_int(z).over(Fixed::from_int(1000)),
        )
    }

    /// Applies the frame of the chord between two samples before the current transform.
    fn add_chord(model_matrix: &mut ModelMatrix, a: Vector3, b: Vector3)
        ensures
            final(model_matrix).matrix == TrackSide::along_chord(old(model_matrix).matrix, a, b),
            final(model_matrix).stack@ == old(model_matrix).stack@,
    {
        let p = a.scaled(Fixed::from_raw(HALF)).plus(b.scaled(Fixed::from_raw(HALF))).scaled(
            Fixed::from_raw(CURVE_SCALE),
        );
        let v = a.minus(b);
        let rot = v.x.atan2(v.z);
        model_matrix.add_translate(p.x, Fixed::from_raw(0), p.z);
        model_matrix.add_rotation(Fixed::from_raw(0), rot, Fixed::from_raw(0));
        model_matrix.add_scale(
            Fixed::from_int(1),
            Fixed::from_int(1),
            v.norm().times(Fixed::from_raw(CHORD_SCALE)),
        );
    }

    /// The wall along the third axis of the frame `m`, at `x` on its first axis.
    fn wall(m: &Matrix4, x: Fixed) -> (r: Collider)
        ensures
            r == TrackSide::wall_at(*m, x),
    {
        let p0 = m.apply(
            Vector4::new(x, Fixed::from_raw(0), Fixed::from_raw(HALF), Fixed::from_raw(SCALE)),
        );
        let p1 = m.apply(
            Vector4::new(x, Fixed::from_raw(0), Fixed::from_raw(HALF).neg(), Fixed::from_raw(SCALE)),
        );
        Collider::InfiniteYPlaneCollider(p0.xyz(), p1.xyz())
    }

    /// The walls along the track faces of the blocks with the given frames.
    fn walls_of(frames: &Vec<Matrix4>) -> (colliders: Vec<Collider>)
        ensures
            colliders@ == TrackSide::walls_along(frames@),
    {
        let mut colliders: Vec<Collider> = Vec::new();
        let mut k: usize = 0;
        while k < frames.len()
            invariant
                k <= frames@.len(),
                colliders@.len() == k,
                forall|n: int|
                    0 <= n < k ==> colliders@[n] == TrackSide::wall_at(
                        frames@[n],
                        TrackSide::face_of(n),
                    ),
            decreases frames.len() - k,
        {
            let face = if k % 2 == 0 {
                Fixed::from_raw(HALF).neg()
            } else {
                Fixed::from_raw(HALF)
            };
            colliders.push(TrackSide::wall(&frames[k], face));
            k += 1;
        }
        assert(colliders@ =~= TrackSide::walls_along(frames@));
        colliders
    }

    /// The frames of the blocks of a U-turn.
    fn create_u_frames(model_matrix: &mut ModelMatrix, position: &Vector3, rotation: Fixed) -> (frames:
        Vec<Matrix4>)
        ensures
            frames@ == TrackSide::u_frames(old(model_matrix).matrix, *position, rotation),
            final(model_matrix).matrix == old(model_matrix).matrix,
            final(model_matrix).stack@ == old(model_matrix).stack@,
    {
        let enter = TrackSide::point(-250, 0);
        let control = TrackSide::point(0, 500);
        let exit = TrackSide::point(250, 0);
        let inner_enter = TrackSide::point(-145, 0);
        let inner_control1 = TrackSide::point(-30, 200);
        let inner_control2 = TrackSide::point(30, 200);
        let inner_exit = TrackSide::point(145, 0);

        let ghost base = model_matrix.matrix;
        let ghost saved = model_matrix.stack@;
        let mut frames: Vec<Matrix4> = Vec::new();
        let pairs = sample_pairs(POINTS);
        let mut j: usize = 0;
        while j < pairs.len()
            invariant
                j <= pairs@.len(),
                pairs@.len() == POINTS - 1,
                forall|n: int|
                    0 <= n < pairs@.len() ==> pairs@[n] == (n as i32, (n + 1) as i32),
                enter == TrackSide::ground_point(-250, 0),
                control == TrackSide::ground_point(0, 500),
                exit == TrackSide::ground_point(250, 0),
                inner_enter == TrackSide::ground_point(-145, 0),
                inner_control1 == TrackSide::ground_point(-30, 200),
                inner_control2 == TrackSide::ground_point(30, 200),
                inner_exit == TrackSide::ground_point(145, 0),
                model_matrix.matrix == base,
                model_matrix.stack@ == saved,
                frames@.len() == 2 * j,
                forall|k: int|
                    0 <= k < 2 * j ==> frames@[k] == TrackSide::u_frame(
                        base,
                        *position,
                        rotation,
                        k,
                    ),
            decreases pairs.len() - j,
        {
            let (i1, i2) = pairs[j];
            let p1 = TrackSide::bezier_curve(
                &enter,
                &control,
                &exit,
                TrackSide::sample_parameter(i1),
            );
            let p2 = TrackSide::bezier_curve(
                &enter,
                &control,
                &exit,
                TrackSide::sample_parameter(i2),
            );

            model_matrix.push_stack();
            model_matrix.add_translate(position.x, position.y, position.z);
            model_matrix.add_rotation(Fixed::from_raw(0), rotation, Fixed::from_raw(0));

            // Outer
            model_matrix.push_stack();
            TrackSide::add_chord(model_matrix, p1, p2);
            frames.push(model_matrix.matrix);
            model_matrix.pop_stack();

            // Inner
            let q1 = TrackSide::bezier_curve_3(
                &inner_enter,
                &inner_control1,
                &inner_control2,
                &inner_exit,
                TrackSide::sample_parameter(i1),
            );
            let q2 = TrackSide::bezier_curve_3(
                &inner_enter,
                &inner_control1,
                &inner_control2,
                &inner_exit,
                TrackSide::sample_parameter(i2),
            );
            TrackSide::add_chord(model_matrix, q1, q2);
            frames.push(model_matrix.matrix);
            model_matrix.pop_stack();

            proof {
                let frame = TrackSide::piece_frame(base, *position, rotation);
                assert(saved.push(base).push(frame).drop_last() == saved.push(base));
                assert(saved.push(base).drop_last() == saved);
                assert((2 * j) as int / 2 == j && (2 * j) as int % 2 == 0);
                assert((2 * j + 1) as int / 2 == j && (2 * j + 1) as int % 2 == 1);
            }
            j += 1;
        }
        assert(frames@ =~= TrackSide::u_frames(base, *position, rotation));
        frames
    }

    /// The walls of a U-turn at `position`, turned by `rotation`, under the
    /// current transform of `model_matrix`, which is left as it was.
    pub fn create_u_colliders(
        model_matrix: &mut ModelMatrix,
        position: &Vector3,
        rotation: Fixed,
    ) -> (colliders: Vec<Collider>)
        ensures
            colliders@ == TrackSide::u_walls(old(model_matrix).matrix, *position, rotation),
            final(model_matrix).matrix == old(model_matrix).matrix,
            final(model_matrix).stack@ == old(model_matrix).stack@,
    {
        let frames = TrackSide::create_u_frames(model_matrix, position, rotation);
        TrackSide::walls_of(&frames)
    }
}

impl TrackSide {
    /// The frames of the blocks of a straight piece.
    fn create_straight_frames(
        model_matrix: &mut ModelMatrix,
        position: &Vector3,
        rotation: Fixed,
        length: Fixed,
    ) -> (frames: Vec<Matrix4>)
        ensures
            frames@ == TrackSide::straight_frames(
                old(model_matrix).matrix,
                *position,
                rotation,
                length,
            ),
            final(model_matrix).matrix == old(model_matrix).matrix,
            final(model_matrix).stack@ == old(model_matrix).stack@,
    {
        let ghost base = model_matrix.matrix;
        let ghost saved = model_matrix.stack@;
        let mut frames: Vec<Matrix4> = Vec::new();

        model_matrix.push_stack();
        model_matrix.add_translate(position.x, position.y, position.z);
        model_matrix.add_rotation(Fixed::from_raw(0), rotation, Fixed::from_raw(0));
        model_matrix.add_translate(Fixed::from_raw(0), Fixed::from_raw(0), length.half().neg());
        let ghost start = model_matrix.matrix;

        let whole: i32 = length.to_int();
        let count: i32 = if whole < SLICE_LENGTH {
            0
        } else {
            whole / SLICE_LENGTH
        };
        let mut i: i32 = 0;
        while i < count
            invariant
                0 <= i <= count,
                count == TrackSide::slices(length),
                start == TrackSide::piece_frame(base, *position, rotation).times(
                    Matrix4::translation(
                        Fixed::from_raw(0),
                        Fixed::from_raw(0),
                        length.half().neg(),
                    ),
                ),
                model_matrix.matrix == start,
                model_matrix.stack@ == saved.push(base),
                frames@.len() == 2 * i,
                forall|k: int|
                    0 <= k < 2 * i ==> frames@[k] == TrackSide::straight_frame(
                        base,
                        *position,
                        rotation,
                        length,
                        k,
                    ),
            decreases count - i,
        {
            let along = Fixed::from_int(SLICE_LENGTH).times(Fixed::from_int(i));

            model_matrix.push_stack();
            model_matrix.add_translate(Fixed::from_raw(RAIL_OFFSET), Fixed::from_raw(0), along);
            model_matrix.add_scale(
                Fixed::from_int(1),
                Fixed::from_int(1),
                Fixed::from_int(SLICE_LENGTH),
            );
            frames.push(model_matrix.matrix);
            model_matrix.pop_stack();

            model_matrix.push_stack();
            model_matrix.add_translate(
                Fixed::from_raw(RAIL_OFFSET).neg(),
                Fixed::from_raw(0),
                along,
            );
            model_matrix.add_scale(
                Fixed::from_int(1),
                Fixed::from_int(1),
                Fixed::from_int(SLICE_LENGTH),
            );
            frames.push(model_matrix.matrix);
            model_matrix.pop_stack();

            proof {
                assert(saved.push(base).push(start).drop_last() == saved.push(base));
                assert((2 * i) as int / 2 == i && (2 * i) as int % 2 == 0);
                assert((2 * i + 1) as int / 2 == i && (2 * i + 1) as int % 2 == 1);
            }
            i += 1;
        }
        model_matrix.pop_stack();
        proof {
            assert(saved.push(base).drop_last() == saved);
        }
        assert(frames@ =~= TrackSide::straight_frames(base, *position, rotation, length));
        frames
    }

    /// The frames of the blocks of a right corner.
    fn create_right_corner_frames(model_matrix: &mut ModelMatrix, position: &Vector3) -> (frames:
        Vec<Matrix4>)
        ensures
            frames@ == TrackSide::corner_frames(old(model_matrix).matrix, *position),
            final(model_matrix).matrix == old(model_matrix).matrix,
            final(model_matrix).stack@ == old(model_matrix).stack@,
    {
        let enter = TrackSide::point(-500, 0);
        let control = TrackSide::point(0, 0);
        let exit = TrackSide::point(0, -500);
        let inner_enter = TrackSide::point(-400, 0);
        let inner_control = TrackSide::point(0, 20);
        let inner_exit = TrackSide::point(0, -400);

        let ghost base = model_matrix.matrix;
        let ghost saved = model_matrix.stack@;
        model_matrix.push_stack();
        model_matrix.add_translate(position.x, position.y, position.z);
        model_matrix.add_rotation(
            Fixed::from_raw(0),
            Fixed::from_int(270).to_radians(),
            Fixed::from_raw(0),
        );
        let ghost frame = model_matrix.matrix;

        let mut frames: Vec<Matrix4> = Vec::new();
        let pairs = sample_pairs(POINTS);
        let mut j: usize = 0;
        while j < pairs.len()
            invariant
                j <= pairs@.len(),
                pairs@.len() == POINTS - 1,
                forall|n: int|
                    0 <= n < pairs@.len() ==> pairs@[n] == (n as i32, (n + 1) as i32),
                enter == TrackSide::ground_point(-500, 0),
                control == TrackSide::ground_point(0, 0),
                exit == TrackSide::ground_point(0, -500),
                inner_enter == TrackSide::ground_point(-400, 0),
                inner_control == TrackSide::ground_point(0, 20),
                inner_exit == TrackSide::ground_point(0, -400),
                frame == TrackSide::piece_frame(
                    base,
                    *position,
                    Fixed::from_int(270).to_radians(),
                ),
                model_matrix.matrix == frame,
                model_matrix.stack@ == saved.push(base),
                frames@.len() == 2 * j,
                forall|k: int|
                    0 <= k < 2 * j ==> frames@[k] == TrackSide::corner_frame(base, *position, k),
            decreases pairs.len() - j,
        {
            let (i1, i2) = pairs[j];

            // Outer
            let p1 = TrackSide::bezier_curve(
                &enter,
                &control,
                &exit,
                TrackSide::sample_parameter(i1),
            );
            let p2 = TrackSide::bezier_curve(
                &enter,
                &control,
                &exit,
                TrackSide::sample_parameter(i2),
            );
            model_matrix.push_stack();
            TrackSide::add_chord(model_matrix, p1, p2);
            frames.push(model_matrix.matrix);
            model_matrix.pop_stack();

            // Inner
            let q1 = TrackSide::bezier_curve(
                &inner_enter,
                &inner_control,
                &inner_exit,
                TrackSide::sample_parameter(i1),
            );
            let q2 = TrackSide::bezier_curve(
                &inner_enter,
                &inner_control,
                &inner_exit,
                TrackSide::sample_parameter(i2),
            );
            model_matrix.push_stack();
            model_matrix.add_translate(
                Fixed::from_raw(INNER_SHIFT).neg(),
                Fixed::from_raw(0),
                Fixed::from_raw(INNER_SHIFT).neg(),
            );
            TrackSide::add_chord(model_matrix, q1, q2);
            frames.push(model_matrix.matrix);
            model_matrix.pop_stack();

            proof {
                assert(saved.push(base).push(frame).drop_last() == saved.push(base));
                assert((2 * j) as int / 2 == j && (2 * j) as int % 2 == 0);
                assert((2 * j + 1) as int / 2 == j && (2 * j + 1) as int % 2 == 1);
            }
            j += 1;
        }
        model_matrix.pop_stack();
        proof {
            assert(saved.push(base).drop_last() == saved);
        }
        assert(frames@ =~= TrackSide::corner_frames(base, *position));
        frames
    }

    /// The walls of a straight piece at `position`, turned by `rotation` and
    /// of the given length, under the current transform of `model_matrix`,
    /// which is left as it was.
    pub fn create_straight_colliders(
        model_matrix: &mut ModelMatrix,
        position: &Vector3,
        rotation: Fixed,
        length: Fixed,
    ) -> (colliders: Vec<Collider>)
        ensures
            colliders@ == TrackSide::straight_walls(
                old(model_matrix).matrix,
                *position,
                rotation,
                length,
            ),
            final(model_matrix).matrix == old(model_matrix).matrix,
            final(model_matrix).stack@ == old(model_matrix).stack@,
    {
        let frames = TrackSide::create_straight_frames(model_matrix, position, rotation, length);
        TrackSide::walls_of(&frames)
    }

    /// The walls of a right corner at `position`, under the current
    /// transform of `model_matrix`, which is left as it was.
    pub fn create_right_corner_colliders(model_matrix: &mut ModelMatrix, position: &Vector3) -> (colliders:
        Vec<Collider>)
        ensures
            colliders@ == TrackSide::corner_walls(old(model_matrix).matrix, *position),
            final(model_matrix).matrix == old(model_matrix).matrix,
            final(model_matrix).stack@ == old(model_matrix).stack@,
    {
        let frames = TrackSide::create_right_corner_frames(model_matrix, position);
        TrackSide::walls_of(&frames)
    }

    /// The rails of a piece of track of the given shape at `pos`, under the
    /// current transform of `model_matrix`, which is left as it was. A
    /// straight piece is turned by `rot` and has the given length; a U-turn
    /// is turned by `rot`; a right corner is laid one way only.
    pub fn new(
        pos: Vector3,
        rot: Fixed,
        length: Fixed,
        segment_type: TrackSegmentSideType,
        model_matrix: &mut ModelMatrix,
    ) -> (r: TrackSide)
        ensures
            r.pos == pos,
            r.rot == rot,
            r.length == length,
            r.segment_type == segment_type,
            r.frames@ == TrackSide::frames_of(
                old(model_matrix).matrix,
                pos,
                rot,
                length,
                segment_type,
            ),
            r.colliders@ == TrackSide::walls(
                old(model_matrix).matrix,
                pos,
                rot,
                length,
                segment_type,
            ),
            final(model_matrix).matrix == old(model_matrix).matrix,
            final(model_matrix).stack@ == old(model_matrix).stack@,
    {
        let frames = match segment_type {
            TrackSegmentSideType::UTurn => TrackSide::create_u_frames(model_matrix, &pos, rot),
            TrackSegmentSideType::Straight => TrackSide::create_straight_frames(
                model_matrix,
                &pos,
                rot,
                length,
            ),
            TrackSegmentSideType::RightCorner => TrackSide::create_right_corner_frames(
                model_matrix,
                &pos,
            ),
        };
        let colliders = TrackSide::walls_of(&frames);
        TrackSide { pos, rot, length, segment_type, frames, colliders }
    }

    /// What the rails present to run into: all their walls, in order.
    pub fn collision_info(&self) -> (r: Collider)
        ensures
            r@ == ColliderView::MultiCollider(Collider::views(self.colliders)),
    {
        Collider::MultiCollider(Collider::clone_list(&self.colliders))
    }
}

/// A corner has a wall on either rail for every pair of neighbouring
/// samples: twice one less than the number of samples, whatever the place
/// and the turn.
pub proof fn lemma_corner_walls_are_two_for_every_chord(
    base: Matrix4,
    position: Vector3,
    rotation: Fixed,
)
    ensures
        TrackSide::u_walls(base, position, rotation).len() == 2 * (POINTS - 1),
        TrackSide::corner_walls(base, position).len() == 2 * (POINTS - 1),
        TrackSide::u_walls(base, position, rotation).len() == 138,
{
}

/// A Bezier curve starts at its first point and ends at its last: the
/// quadratic curve is at `p0` for the parameter zero and at `p2` for the
/// parameter one, whatever the control point.
pub proof fn lemma_quadratic_ends(p0: Vector3, p1: Vector3, p2: Vector3)
    ensures
        TrackSide::quadratic(p0, p1, p2, Fixed::from_raw(0)) == p0,
        TrackSide::quadratic(p0, p1, p2, Fixed::from_raw(SCALE)) == p2,
{
    lemma_weights();
    lemma_unit_and_zero_scale(p0);
    lemma_unit_and_zero_scale(p1);
    lemma_unit_and_zero_scale(p2);
    lemma_unit_and_zero_scale(Vector3::zeros());
}

/// The cubic curve is at `p0` for the parameter zero and at `p3` for the
/// parameter one, whatever the control points.
pub proof fn lemma_cubic_ends(p0: Vector3, p1: Vector3, p2: Vector3, p3: Vector3)
    ensures
        TrackSide::cubic(p0, p1, p2, p3, Fixed::from_raw(0)) == p0,
        TrackSide::cubic(p0, p1, p2, p3, Fixed::from_raw(SCALE)) == p3,
{
    lemma_weights();
    lemma_unit_and_zero_scale(p0);
    lemma_unit_and_zero_scale(p1);
    lemma_unit_and_zero_scale(p2);
    lemma_unit_and_zero_scale(p3);
    lemma_unit_and_zero_scale(Vector3::zeros());
}

/// The products of zero and one that make the weights of a curve at its
/// ends.
proof fn lemma_weights()
    ensures
        Fixed::from_int(1) == Fixed::from_raw(SCALE),
        Fixed::from_int(1).minus(Fixed::from_raw(0)) == Fixed::from_raw(SCALE),
        Fixed::from_int(1).minus(Fixed::from_raw(SCALE)) == Fixed::from_raw(0),
        Fixed::from_raw(SCALE).times(Fixed::from_raw(SCALE)) == Fixed::from_raw(SCALE),
        Fixed::from_raw(0).times(Fixed::from_raw(0)) == Fixed::from_raw(0),
        Fixed::from_int(2).times(Fixed::from_raw(0)) == Fixed::from_raw(0),
        Fixed::from_int(2).times(Fixed::from_raw(SCALE)) == Fixed::from_int(2),
        Fixed::from_int(2).times(Fixed::from_raw(SCALE)).times(Fixed::from_raw(0))
            == Fixed::from_raw(0),
        Fixed::from_int(3).times(Fixed::from_raw(0)) == Fixed::from_raw(0),
        Fixed::from_int(3).times(Fixed::from_raw(SCALE)) == Fixed::from_int(3),
        Fixed::from_int(3).times(Fixed::from_raw(SCALE)).times(Fixed::from_raw(0))
            == Fixed::from_raw(0),
{
    reveal(Fixed::spec_minus);
    lemma_times_one(Fixed::from_raw(SCALE));
    lemma_times_one(Fixed::from_int(2));
    lemma_times_one(Fixed::from_int(3));
    lemma_times_zero(Fixed::from_raw(0));
    lemma_times_zero(Fixed::from_raw(SCALE));
    lemma_times_zero(Fixed::from_int(2));
    lemma_times_zero(Fixed::from_int(3));
}

/// A vector scaled by one is itself, and scaled by zero it is the origin,
/// which adds nothing.
proof fn lemma_unit_and_zero_scale(p: Vector3)
    ensures
        p.scaled(Fixed::from_raw(SCALE)) == p,
        p.scaled(Fixed::from_raw(0)) == Vector3::zeros(),
        p.plus(Vector3::zeros()) == p,
        Vector3::zeros().plus(p) == p,
{
    lemma_times_one(p.x);
    lemma_times_one(p.y);
    lemma_times_one(p.z);
    lemma_times_zero(p.x);
    lemma_times_zero(p.y);
    lemma_times_zero(p.z);
    lemma_plus_zero(p.x);
    lemma_plus_zero(p.y);
    lemma_plus_zero(p.z);
}

} // verus!
