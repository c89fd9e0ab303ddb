//! A car in the scene: its motion, its box, and what happens when the box
//! meets the colliders of the other objects.

use vstd::prelude::*;
use crate::fixed::{
    Fixed, lemma_over_one, lemma_plus_zero, lemma_times_exact, lemma_times_one, lemma_times_zero,
    lemma_twice, HALF, SCALE, TWO_PI,
};
use crate::vector::{Vector2, Vector3, Vector4};
use crate::matrices::{Matrix4, ModelMatrix};
use crate::collider::{Collider, ColliderView, PrimitiveCollider};
use crate::car_state::{CarParams, CarState};
use crate::utils::{in_span, line_contains_point};

verus! {

/// Raw count of the height at which a car is put into the scene.
pub const SPAWN_HEIGHT: i64 = 40_000_000_000;

/// Raw counts of the width, height and length of the box of a car.
pub const BODY_WIDTH: i64 = 5_000_000_000;

pub const BODY_HEIGHT: i64 = 3_000_000_000;

pub const BODY_LENGTH: i64 = 10_000_000_000;

/// Raw count of how far above a surface the centre of a car is put when
/// the car is set down on it, and how far below when it hits it from
/// underneath.
pub const CLEARANCE_Y: i64 = 1_500_000_000;

/// Raw count of how far from a side face of a box, along the first axis,
/// the centre of a car is put.
pub const MARGIN_X: i64 = 2_500_000_000;

/// Raw count of how far from an end face of a box, along the third axis,
/// the centre of a car is put.
pub const MARGIN_Z: i64 = 5_000_000_000;

/// Raw count of the factor by which the fall of a car is faster than free
/// fall.
pub const GRAVITY_FACTOR: i64 = 1_700_000_000;

/// From where the car is looked at.
#[derive(Clone, Copy, Debug, PartialEq, Eq, Structural)]
pub enum ViewState {
    ThirdPerson,
    FirstPerson,
}

/// A car of the scene.
#[derive(Clone, Copy, Debug, PartialEq, Eq, Structural)]
pub struct Car {
    pub car_state: CarState,
    pub params: CarParams,
    /// Speed along the height, kept here because the motion on the ground
    /// does not touch it.
    pub y_velocity: Fixed,
    pub handbrake: bool,
    /// How far the wheels have turned, in radians, within one turn.
    pub wheel_rotation: Fixed,
    pub view_state: ViewState,
    pub enable_collision_check: bool,
}

impl Car {
    /// The constants of the car can be divided by.
    pub open spec fn wf(self) -> bool {
        self.params.wf()
    }

    /// What `new` returns.
    pub open spec fn spec_new(enable_collision_check: bool) -> Car {
        Car {
            car_state: CarState {
                position_wc: Vector3::new(
                    Fixed::from_raw(0),
                    Fixed::from_raw(SPAWN_HEIGHT),
                    Fixed::from_raw(0),
                ),
                ..CarState::new()
            },
            params: CarParams::standard(),
            y_velocity: Fixed::from_raw(0),
            handbrake: false,
            wheel_rotation: Fixed::from_raw(0),
            view_state: ViewState::ThirdPerson,
            enable_collision_check,
        }
    }

    /// The transform that takes the unit cube about the origin onto the box
    /// of a car in `state`, under the transform `base`: a stretch to the size
    /// of the body, then a turn by the heading, then a move to the position.
    pub open spec fn body_transform(base: Matrix4, state: CarState) -> Matrix4 {
        base.times(
            Matrix4::translation(state.position_wc.x, state.position_wc.y, state.position_wc.z),
        ).turned(Fixed::from_raw(0), state.angle, Fixed::from_raw(0)).times(
            Matrix4::scaling(
                Fixed::from_raw(BODY_WIDTH),
                Fixed::from_raw(BODY_HEIGHT),
                Fixed::from_raw(BODY_LENGTH),
            ),
        )
    }

    /// The corner of the unit cube about the origin with the given signs,
    /// `true` for the positive side.
    pub open spec fn unit_corner(x: bool, y: bool, z: bool) -> Vector4 {
        Vector4::new(
            if x {
                Fixed::from_raw(HALF)
            } else {
                Fixed::from_raw(HALF).neg()
            },
            if y {
                Fixed::from_raw(HALF)
            } else {
                Fixed::from_raw(HALF).neg()
            },
            if z {
                Fixed::from_raw(HALF)
            } else {
                Fixed::from_raw(HALF).neg()
            },
            Fixed::from_raw(SCALE),
        )
    }

    /// The box along the axes around the first `n` points of `points`, for
    /// `n` at least one: the least of their x, y and z, then the greatest of
    /// their x, y and z.
    pub open spec fn bounds(points: Seq<Vector3>, n: nat) -> (
        Fixed,
        Fixed,
        Fixed,
        Fixed,
        Fixed,
        Fixed,
    )
        decreases n,
    {
        if n <= 1 {
            (points[0].x, points[0].y, points[0].z, points[0].x, points[0].y, points[0].z)
        } else {
            let b = Car::bounds(points, (n - 1) as nat);
            let p = points[n - 1];
            (b.0.min(p.x), b.1.min(p.y), b.2.min(p.z), b.3.max(p.x), b.4.max(p.y), b.5.max(p.z))
        }
    }

    /// The bounding box of a car in `state`: the box along the axes around
    /// the eight corners of its body. It is given by its least x, y and z,
    /// then its greatest x, y and z.
    pub open spec fn cube(base: Matrix4, state: CarState) -> (
        Fixed,
        Fixed,
        Fixed,
        Fixed,
        Fixed,
        Fixed,
    ) {
        Car::bounds(Car::corners(base, state), 8)
    }

    /// The eight corners of the body of a car in `state`: the four of the
    /// bottom face first.
    pub open spec fn corners(base: Matrix4, state: CarState) -> Seq<Vector3> {
        let m = Car::body_transform(base, state);
        seq![
            m.apply(Car::unit_corner(false, false, false)).xyz(),
            m.apply(Car::unit_corner(true, false, false)).xyz(),
            m.apply(Car::unit_corner(false, false, true)).xyz(),
            m.apply(Car::unit_corner(true, false, true)).xyz(),
            m.apply(Car::unit_corner(false, true, false)).xyz(),
            m.apply(Car::unit_corner(true, true, false)).xyz(),
            m.apply(Car::unit_corner(false, true, true)).xyz(),
            m.apply(Car::unit_corner(true, true, true)).xyz(),
        ]
    }

    /// A car at rest at the spawn height, with the constants of the game.
    #[verifier::when_used_as_spec(spec_new)]
    pub fn new(enable_collision_check: bool) -> (r: Car)
        ensures
            r == Car::spec_new(enable_collision_check),
            r.wf(),
    {
        let mut car_state = CarState::new();
        car_state.position_wc.y = Fixed::from_raw(SPAWN_HEIGHT);
        Car {
            car_state,
            params: CarParams::standard(),
            y_velocity: Fixed::from_raw(0),
            handbrake: false,
            wheel_rotation: Fixed::from_raw(0),
            view_state: ViewState::ThirdPerson,
            enable_collision_check,
        }
    }

    /// Saves the transform and puts the body of a car in `state` under it.
    fn place_body(state: &CarState, model_matrix: &mut ModelMatrix)
        ensures
            final(model_matrix).matrix == Car::body_transform(old(model_matrix).matrix, *state),
            final(model_matrix).stack@ == old(model_matrix).stack@.push(old(model_matrix).matrix),
    {
        model_matrix.push_stack();
        model_matrix.add_translate(
            state.position_wc.x,
            state.position_wc.y,
            state.position_wc.z,
        );
        model_matrix.add_rotation(Fixed::from_raw(0), state.angle, Fixed::from_raw(0));
        model_matrix.add_scale(
            Fixed::from_raw(BODY_WIDTH),
            Fixed::from_raw(BODY_HEIGHT),
            Fixed::from_raw(BODY_LENGTH),
        );
    }

    /// The corner of the unit cube with the given signs.
    fn corner(x: bool, y: bool, z: bool) -> (r: Vector4)
        ensures
            r == Car::unit_corner(x, y, z),
    {
        let h = Fixed::from_raw(HALF);
        Vector4::new(
            if x {
                h
            } else {
                h.neg()
            },
            if y {
                h
            } else {
                h.neg()
            },
            if z {
                h
            } else {
                h.neg()
            },
            Fixed::from_raw(SCALE),
        )
    }

    /// The bounding box of the car, under the current transform of
    /// `model_matrix`, which is left as it was: the least x, y and z of the
    /// eight corners of the body, then their greatest x, y and z.
    pub fn car_cube(&self, model_matrix: &mut ModelMatrix) -> (r: (
        Fixed,
        Fixed,
        Fixed,
        Fixed,
        Fixed,
        Fixed,
    ))
        ensures
            r == Car::cube(old(model_matrix).matrix, self.car_state),
            final(model_matrix).matrix == old(model_matrix).matrix,
            final(model_matrix).stack@ == old(model_matrix).stack@,
    {
        let corners = self.full_car_cube(model_matrix, None);
        let first = corners[0];
        let mut bounds = (first.x, first.y, first.z, first.x, first.y, first.z);
        let mut i: usize = 1;
        while i < 8
            invariant
                1 <= i <= 8,
                corners@.len() == 8,
                bounds == Car::bounds(corners@, i as nat),
            decreases 8 - i,
        {
            let p = corners[i];
            bounds = (
                bounds.0.min(p.x),
                bounds.1.min(p.y),
                bounds.2.min(p.z),
                bounds.3.max(p.x),
                bounds.4.max(p.y),
                bounds.5.max(p.z),
            );
            i += 1;
        }
        bounds
    }

    /// The eight corners of the body, the four of the bottom face first,
    /// for the car as it is or, with `custom_car_state`, as it would be in
    /// that state. `model_matrix` is left as it was.
    pub fn full_car_cube(
        &self,
        model_matrix: &mut ModelMatrix,
        custom_car_state: Option<&CarState>,
    ) -> (r: [Vector3; 8])
        ensures
            r@ == Car::corners(
                old(model_matrix).matrix,
                match custom_car_state {
                    Some(s) => *s,
                    None => self.car_state,
                },
            ),
            final(model_matrix).matrix == old(model_matrix).matrix,
            final(model_matrix).stack@ == old(model_matrix).stack@,
    {
        let car_state = match custom_car_state {
            Some(s) => s,
            None => &self.car_state,
        };
        Car::place_body(car_state, model_matrix);
        let m = model_matrix.matrix;
        let bottom_left_inner = m.apply(Car::corner(false, false, false)).xyz();
        let bottom_right_inner = m.apply(Car::corner(true, false, false)).xyz();
        let bottom_left_outer = m.apply(Car::corner(false, false, true)).xyz();
        let bottom_right_outer = m.apply(Car::corner(true, false, true)).xyz();
        let top_left_inner = m.apply(Car::corner(false, true, false)).xyz();
        let top_right_inner = m.apply(Car::corner(true, true, false)).xyz();
        let top_left_outer = m.apply(Car::corner(false, true, true)).xyz();
        let top_right_outer = m.apply(Car::corner(true, true, true)).xyz();
        model_matrix.pop_stack();
        proof {
            assert(old(model_matrix).stack@.push(old(model_matrix).matrix).drop_last()
                == old(model_matrix).stack@);
        }
        let r = [
            bottom_left_inner,
            bottom_right_inner,
            bottom_left_outer,
            bottom_right_outer,
            top_left_inner,
            top_right_inner,
            top_left_outer,
            top_right_outer,
        ];
        assert(r@ =~= Car::corners(old(model_matrix).matrix, *car_state));
        r
    }
}

/// An object of the scene as a car meets it: what it is known by, and what it
/// presents to run into.
pub struct SceneObject {
    /// The identity of the object. No two objects of a scene share one.
    pub id: u32,
    pub collider: Collider,
}

impl Car {
    /// The car set down on ground at height `y` if the bottom of its box is
    /// at or below it: the centre goes to the clearance above the ground,
    /// and the car stops falling.
    pub open spec fn after_height(self, y: Fixed, base: Matrix4) -> Car {
        if Car::cube(base, self.car_state).1@ <= y@ {
            Car {
                car_state: CarState {
                    position_wc: Vector3::new(
                        self.car_state.position_wc.x,
                        y.plus(Fixed::from_raw(CLEARANCE_Y)),
                        self.car_state.position_wc.z,
                    ),
                    ..self.car_state
                },
                y_velocity: Fixed::from_raw(0),
                ..self
            }
        } else {
            self
        }
    }

    /// Whether the box `c` and the box `b` overlap on all three axes. Each
    /// is given by its least x, y and z, then its greatest x, y and z.
    pub open spec fn overlaps(
        c: (Fixed, Fixed, Fixed, Fixed, Fixed, Fixed),
        b: (Fixed, Fixed, Fixed, Fixed, Fixed, Fixed),
    ) -> bool {
        c.0@ <= b.3@ && c.3@ >= b.0@ && c.1@ <= b.4@ && c.4@ >= b.1@ && c.2@ <= b.5@ && c.5@
            >= b.2@
    }

    /// Where the coordinate `p` of the centre goes against the interval from
    /// `lo` to `hi`: the margin beyond the nearer end if it is outside, and
    /// nowhere if it is inside.
    pub open spec fn pushed_out(p: Fixed, lo: Fixed, hi: Fixed, margin: Fixed) -> Fixed {
        if p@ > hi@ {
            hi.plus(margin)
        } else if p@ < lo@ {
            lo.minus(margin)
        } else {
            p
        }
    }

    /// The car pushed out of the box `b` if its own box overlaps it: each
    /// coordinate by itself, first x, then y, then z. A car above the box
    /// stops falling; a car below it is sent down at unit speed.
    pub open spec fn after_box(
        self,
        b: (Fixed, Fixed, Fixed, Fixed, Fixed, Fixed),
        base: Matrix4,
    ) -> Car {
        let p = self.car_state.position_wc;
        if Car::overlaps(Car::cube(base, self.car_state), b) {
            Car {
                car_state: CarState {
                    position_wc: Vector3::new(
                        Car::pushed_out(p.x, b.0, b.3, Fixed::from_raw(MARGIN_X)),
                        Car::pushed_out(p.y, b.1, b.4, Fixed::from_raw(CLEARANCE_Y)),
                        Car::pushed_out(p.z, b.2, b.5, Fixed::from_raw(MARGIN_Z)),
                    ),
                    ..self.car_state
                },
                y_velocity: if p.y@ > b.4@ {
                    Fixed::from_raw(0)
                } else if p.y@ < b.1@ {
                    Fixed::from_int(1).neg()
                } else {
                    self.y_velocity
                },
                ..self
            }
        } else {
            self
        }
    }

    /// The velocity `c` mirrored at a wall with the normal `n`:
    /// `c - (2 (c.n) / (n.n)) n`.
    pub open spec fn mirrored(c: Vector2, n: Vector2) -> Vector2 {
        c.minus(n.scaled(Fixed::from_int(2).times(c.dot(n)).over(n.dot(n))))
    }

    /// The velocity on the ground of a corner that goes from `corner` to
    /// `f_corner` in the time `dt`, turned back by the wall from `p0` to
    /// `p1`, if the corner crosses the wall in that time; `None` if it does
    /// not.
    ///
    /// With `c` the velocity of the corner, `v` the direction of the wall
    /// and `n = (-v.y, v.x)` its normal, the corner meets the line of the
    /// wall at the time `t = n.(p0 - corner) / n.c`. It crosses the wall if
    /// `0 < t <= dt` and the meeting point lies within the span of the
    /// wall on both axes. The velocity is then mirrored:
    /// `c - (2 (c.n) / (n.n)) n`. Nothing is crossed in no time, by a corner
    /// that moves along the wall (`n.c` is zero), nor where the wall has no
    /// length to speak of (`n.n` is zero).
    pub open spec fn wall_hit(
        corner: Vector3,
        f_corner: Vector3,
        p0: Vector3,
        p1: Vector3,
        dt: Fixed,
    ) -> Option<Vector2> {
        let v = p1.minus(p0).xz();
        let a = corner.xz();
        let b = p0.xz();
        let c = f_corner.xz().minus(a).over(dt);
        let n = Vector2::new(v.y.neg(), v.x);
        if dt@ == 0 || n.dot(c)@ == 0 || n.dot(n)@ == 0 {
            None
        } else {
            let t_hit = n.dot(b.minus(a)).over(n.dot(c));
            let p_hit = a.plus(c.scaled(t_hit));
            if in_span(p0.xz(), p1.xz(), p_hit) && t_hit@ <= dt@ && t_hit@ > 0 {
                Some(Car::mirrored(c, n))
            } else {
                None
            }
        }
    }

    /// The velocity of the car once the first `n` corners of the bottom of
    /// its box have been swept against the wall, each from where it is in
    /// `corners` to where it will be in `future`. A corner that crosses the
    /// wall sets the velocity on the ground; the last one to do so has the
    /// last word.
    pub open spec fn velocity_after_corners(
        velocity: Vector3,
        corners: Seq<Vector3>,
        future: Seq<Vector3>,
        p0: Vector3,
        p1: Vector3,
        dt: Fixed,
        n: nat,
    ) -> Vector3
        decreases n,
    {
        if n == 0 {
            velocity
        } else {
            let before = Car::velocity_after_corners(
                velocity,
                corners,
                future,
                p0,
                p1,
                dt,
                (n - 1) as nat,
            );
            match Car::wall_hit(corners[n - 1], future[n - 1], p0, p1, dt) {
                Some(reflected) => Vector3::new(reflected.x, before.y, reflected.y),
                None => before,
            }
        }
    }

    /// The car turned back by the wall from `p0` to `p1`: the four corners
    /// of the bottom of its box are swept from where they are to where one
    /// more time step would take them.
    pub open spec fn after_wall(self, p0: Vector3, p1: Vector3, dt: Fixed, base: Matrix4) -> Car {
        let predicted = self.car_state.after_step(self.params, dt, self.handbrake, self.handbrake);
        Car {
            car_state: CarState {
                velocity_wc: Car::velocity_after_corners(
                    self.car_state.velocity_wc,
                    Car::corners(base, self.car_state),
                    Car::corners(base, predicted),
                    p0,
                    p1,
                    dt,
                    4,
                ),
                ..self.car_state
            },
            ..self
        }
    }

    /// The car after it has met one primitive collider.
    pub open spec fn after_primitive(self, p: PrimitiveCollider, dt: Fixed, base: Matrix4) -> Car {
        match p {
            PrimitiveCollider::HeightCollider(y) => self.after_height(y, base),
            PrimitiveCollider::BoxCollider(x0, y0, z0, x1, y1, z1) => self.after_box(
                (x0, y0, z0, x1, y1, z1),
                base,
            ),
            PrimitiveCollider::InfiniteYPlaneCollider(p0, p1) => self.after_wall(p0, p1, dt, base),
        }
    }

    /// The car after it has met the first `n` colliders of `ps`, one after
    /// the other, each as the one before has left it.
    pub open spec fn after_primitives(
        self,
        ps: Seq<PrimitiveCollider>,
        n: nat,
        dt: Fixed,
        base: Matrix4,
    ) -> Car
        decreases n,
    {
        if n == 0 || n > ps.len() {
            self
        } else {
            self.after_primitives(ps, (n - 1) as nat, dt, base).after_primitive(ps[n - 1], dt, base)
        }
    }

    /// The car after it has met the collider `c`: its primitive colliders in
    /// depth-first order, one after the other.
    pub open spec fn after_collision(self, c: ColliderView, dt: Fixed, base: Matrix4) -> Car {
        self.after_primitives(c.flat(), c.flat().len(), dt, base)
    }

    /// The car after it has met the first `n` objects of the scene, but for
    /// the object with its own identity.
    pub open spec fn after_objects(
        self,
        own_id: u32,
        objects: Seq<SceneObject>,
        n: nat,
        dt: Fixed,
        base: Matrix4,
    ) -> Car
        decreases n,
    {
        if n == 0 || n > objects.len() {
            self
        } else {
            let before = self.after_objects(own_id, objects, (n - 1) as nat, dt, base);
            if objects[n - 1].id == own_id {
                before
            } else {
                before.after_collision(objects[n - 1].collider@, dt, base)
            }
        }
    }

    /// Meeting primitive colliders changes neither the constants of the car
    /// nor its handbrake.
    pub proof fn lemma_primitives_keep_params(
        self,
        ps: Seq<PrimitiveCollider>,
        n: nat,
        dt: Fixed,
        base: Matrix4,
    )
        ensures
            self.after_primitives(ps, n, dt, base).params == self.params,
            self.after_primitives(ps, n, dt, base).handbrake == self.handbrake,
        decreases n,
    {
        if n > 0 && n <= ps.len() {
            self.lemma_primitives_keep_params(ps, (n - 1) as nat, dt, base);
        }
    }

    /// Meeting a list of one collider is meeting that collider.
    pub proof fn lemma_single_primitive(self, p: PrimitiveCollider, dt: Fixed, base: Matrix4)
        ensures
            self.after_primitives(seq![p], 1, dt, base) == self.after_primitive(p, dt, base),
    {
        reveal_with_fuel(Car::after_primitives, 2);
    }

    /// Meeting the first `n` colliders of a list depends on those `n` only.
    pub proof fn lemma_primitives_of_prefix(
        self,
        a: Seq<PrimitiveCollider>,
        b: Seq<PrimitiveCollider>,
        n: nat,
        dt: Fixed,
        base: Matrix4,
    )
        requires
            n <= a.len(),
            n <= b.len(),
            forall|i: int| 0 <= i < n ==> a[i] == b[i],
        ensures
            self.after_primitives(a, n, dt, base) == self.after_primitives(b, n, dt, base),
        decreases n,
    {
        if n > 0 {
            self.lemma_primitives_of_prefix(a, b, (n - 1) as nat, dt, base);
        }
    }

    /// Meeting one list of colliders and then another is meeting the two
    /// lists joined.
    pub proof fn lemma_primitives_joined(
        self,
        a: Seq<PrimitiveCollider>,
        b: Seq<PrimitiveCollider>,
        n: nat,
        dt: Fixed,
        base: Matrix4,
    )
        requires
            n <= b.len(),
        ensures
            self.after_primitives(a + b, a.len() + n, dt, base) == self.after_primitives(
                a,
                a.len(),
                dt,
                base,
            ).after_primitives(b, n, dt, base),
        decreases n,
    {
        if n == 0 {
            self.lemma_primitives_of_prefix(a + b, a, a.len(), dt, base);
        } else {
            self.lemma_primitives_joined(a, b, (n - 1) as nat, dt, base);
            assert((a + b)[a.len() + n - 1] == b[n - 1]);
        }
    }
}

impl Car {
    /// Sets the car down on ground at height `y` if it has sunk into it.
    fn resolve_height(&mut self, y: Fixed, model_matrix: &mut ModelMatrix)
        ensures
            *final(self) == old(self).after_height(y, old(model_matrix).matrix),
            final(model_matrix).matrix == old(model_matrix).matrix,
            final(model_matrix).stack@ == old(model_matrix).stack@,
    {
        let cube = self.car_cube(model_matrix);
        if cube.1.le(y) {
            self.car_state.position_wc.y = y.plus(Fixed::from_raw(CLEARANCE_Y));
            self.y_velocity = Fixed::from_raw(0);
        }
    }

    /// Where a coordinate of the centre goes against an interval.
    fn push_out(p: Fixed, lo: Fixed, hi: Fixed, margin: Fixed) -> (r: Fixed)
        ensures
            r == Car::pushed_out(p, lo, hi, margin),
    {
        if p.gt(hi) {
            hi.plus(margin)
        } else if p.lt(lo) {
            lo.minus(margin)
        } else {
            p
        }
    }

    /// Pushes the car out of the box `b` if its own box overlaps it.
    fn resolve_box(
        &mut self,
        b: (Fixed, Fixed, Fixed, Fixed, Fixed, Fixed),
        model_matrix: &mut ModelMatrix,
    )
        ensures
            *final(self) == old(self).after_box(b, old(model_matrix).matrix),
            final(model_matrix).matrix == old(model_matrix).matrix,
            final(model_matrix).stack@ == old(model_matrix).stack@,
    {
        let c = self.car_cube(model_matrix);
        let perform_collision_detect = c.0.le(b.3) && c.3.ge(b.0) && c.1.le(b.4) && c.4.ge(b.1)
            && c.2.le(b.5) && c.5.ge(b.2);
        if perform_collision_detect {
            let p = self.car_state.position_wc;
            let closest_x = Car::push_out(p.x, b.0, b.3, Fixed::from_raw(MARGIN_X));
            let closest_y = Car::push_out(p.y, b.1, b.4, Fixed::from_raw(CLEARANCE_Y));
            if p.y.gt(b.4) {
                self.y_velocity = Fixed::from_raw(0);
            } else if p.y.lt(b.1) {
                self.y_velocity = Fixed::from_int(1).neg();
            }
            let closest_z = Car::push_out(p.z, b.2, b.5, Fixed::from_raw(MARGIN_Z));
            self.car_state.position_wc.x = closest_x;
            self.car_state.position_wc.y = closest_y;
            self.car_state.position_wc.z = closest_z;
        }
    }

    /// Sweeps one corner against the wall from `p0` to `p1`.
    fn sweep(corner: &Vector3, f_corner: &Vector3, p0: &Vector3, p1: &Vector3, dt: Fixed) -> (r:
        Option<Vector2>)
        ensures
            r == Car::wall_hit(*corner, *f_corner, *p0, *p1, dt),
    {
        if dt.is_zero() {
            return None;
        }
        let v = p1.minus(*p0).xz();
        let a_mat = corner.xz();
        let b_mat = p0.xz();
        let c = f_corner.xz().minus(a_mat).over(dt);
        let n = Vector2::new(v.y.neg(), v.x);
        let approach = n.dot(c);
        let length = n.dot(n);
        if approach.is_zero() || length.is_zero() {
            return None;
        }
        let t_hit = n.dot(b_mat.minus(a_mat)).over(approach);
        let p_hit = a_mat.plus(c.scaled(t_hit));
        if line_contains_point(&p0.xz(), &p1.xz(), &p_hit) && t_hit.le(dt) && t_hit.gt(
            Fixed::from_raw(0),
        ) {
            Some(Car::mirror(c, n))
        } else {
            None
        }
    }

    /// The velocity `c` mirrored at a wall with the normal `n`. The normal
    /// must have a length to speak of: its squared length is not zero.
    pub fn mirror(c: Vector2, n: Vector2) -> (r: Vector2)
        requires
            n.dot(n)@ != 0,
        ensures
            r == Car::mirrored(c, n),
    {
        c.minus(n.scaled(Fixed::from_int(2).times(c.dot(n)).over(n.dot(n))))
    }

    /// Turns the car back at the wall from `p0` to `p1` if a bottom corner crosses it.
    fn resolve_wall(&mut self, p0: &Vector3, p1: &Vector3, dt: Fixed, model_matrix: &mut ModelMatrix)
        requires
            old(self).wf(),
        ensures
            *final(self) == old(self).after_wall(*p0, *p1, dt, old(model_matrix).matrix),
            final(model_matrix).matrix == old(model_matrix).matrix,
            final(model_matrix).stack@ == old(model_matrix).stack@,
    {
        let corners = self.full_car_cube(model_matrix, None);
        let mut car_state_predicted = self.car_state;
        car_state_predicted.perform_physics_time_step(
            &self.params,
            dt,
            self.handbrake,
            self.handbrake,
        );
        let future_corners = self.full_car_cube(model_matrix, Some(&car_state_predicted));
        let mut i: usize = 0;
        while i < 4
            invariant
                i <= 4,
                corners@.len() == 8,
                future_corners@.len() == 8,
                *self == (Car {
                    car_state: CarState {
                        velocity_wc: Car::velocity_after_corners(
                            old(self).car_state.velocity_wc,
                            corners@,
                            future_corners@,
                            *p0,
                            *p1,
                            dt,
                            i as nat,
                        ),
                        ..old(self).car_state
                    },
                    ..*old(self)
                }),
            decreases 4 - i,
        {
            match Car::sweep(&corners[i], &future_corners[i], p0, p1, dt) {
                Some(reflected) => {
                    self.car_state.velocity_wc.x = reflected.x;
                    self.car_state.velocity_wc.z = reflected.y;
                },
                None => {},
            }
            i += 1;
        }
    }

    /// Corrects the car against one primitive collider.
    fn resolve_primitive(&mut self, p: &PrimitiveCollider, dt: Fixed, model_matrix: &mut ModelMatrix)
        requires
            old(self).wf(),
        ensures
            *final(self) == old(self).after_primitive(*p, dt, old(model_matrix).matrix),
            final(self).wf(),
            final(model_matrix).matrix == old(model_matrix).matrix,
            final(model_matrix).stack@ == old(model_matrix).stack@,
    {
        match p {
            PrimitiveCollider::HeightCollider(y) => self.resolve_height(*y, model_matrix),
            PrimitiveCollider::BoxCollider(x0, y0, z0, x1, y1, z1) => self.resolve_box(
                (*x0, *y0, *z0, *x1, *y1, *z1),
                model_matrix,
            ),
            PrimitiveCollider::InfiniteYPlaneCollider(p0, p1) => self.resolve_wall(
                p0,
                p1,
                dt,
                model_matrix,
            ),
        }
    }

    /// Corrects the car against the collider `info`, for a time step of
    /// `dt`: ground sets it down, a box pushes it out, a wall turns it
    /// back, and a list does each of these in turn, every collider on the
    /// car as the one before has left it. `model_matrix` is left as it was.
    pub fn check_collision(&mut self, info: &Collider, dt: Fixed, model_matrix: &mut ModelMatrix)
        requires
            old(self).wf(),
        ensures
            *final(self) == old(self).after_collision(info@, dt, old(model_matrix).matrix),
            final(self).wf(),
            final(model_matrix).matrix == old(model_matrix).matrix,
            final(model_matrix).stack@ == old(model_matrix).stack@,
        decreases info,
    {
        let ghost base = model_matrix.matrix;
        match info {
            Collider::HeightCollider(y) => {
                proof {
                    self.lemma_single_primitive(PrimitiveCollider::HeightCollider(*y), dt, base);
                }
                self.resolve_primitive(&PrimitiveCollider::HeightCollider(*y), dt, model_matrix);
            },
            Collider::BoxCollider(x0, y0, z0, x1, y1, z1) => {
                proof {
                    self.lemma_single_primitive(
                        PrimitiveCollider::BoxCollider(*x0, *y0, *z0, *x1, *y1, *z1),
                        dt,
                        base,
                    );
                }
                self.resolve_primitive(
                    &PrimitiveCollider::BoxCollider(*x0, *y0, *z0, *x1, *y1, *z1),
                    dt,
                    model_matrix,
                );
            },
            Collider::InfiniteYPlaneCollider(p0, p1) => {
                proof {
                    self.lemma_single_primitive(
                        PrimitiveCollider::InfiniteYPlaneCollider(*p0, *p1),
                        dt,
                        base,
                    );
                }
                self.resolve_primitive(
                    &PrimitiveCollider::InfiniteYPlaneCollider(*p0, *p1),
                    dt,
                    model_matrix,
                );
            },
            Collider::MultiCollider(list) => {
                let ghost views = Collider::models(*list, list.len() as nat);
                proof {
                    Collider::lemma_models(*list, list.len() as nat);
                }
                let mut i: usize = 0;
                while i < list.len()
                    invariant
                        i <= list.len(),
                        *info == Collider::MultiCollider(*list),
                        views.len() == list.len(),
                        forall|k: int| 0 <= k < list.len() ==> views[k] == list[k].model(),
                        self.wf(),
                        *self == old(self).after_primitives(
                            ColliderView::flat_prefix(views, i as nat),
                            ColliderView::flat_prefix(views, i as nat).len(),
                            dt,
                            base,
                        ),
                        model_matrix.matrix == base,
                        model_matrix.stack@ == old(model_matrix).stack@,
                    decreases list.len() - i,
                {
                    proof {
                        assert(decreases_to!(*info => info->MultiCollider_0));
                        assert(decreases_to!(*list => list[i as int]));
                        old(self).lemma_primitives_joined(
                            ColliderView::flat_prefix(views, i as nat),
                            views[i as int].flat(),
                            views[i as int].flat().len(),
                            dt,
                            base,
                        );
                    }
                    self.check_collision(&list[i], dt, model_matrix);
                    i += 1;
                }
            },
            Collider::NoCollision => {},
        }
    }

    /// Corrects the car against every object of the scene but itself, in
    /// the order of the list. The car knows itself by `own_id`.
    pub fn check_all_collision(
        &mut self,
        own_id: u32,
        objects: &Vec<SceneObject>,
        dt: Fixed,
        model_matrix: &mut ModelMatrix,
    )
        requires
            old(self).wf(),
        ensures
            *final(self) == old(self).after_objects(
                own_id,
                objects@,
                objects@.len(),
                dt,
                old(model_matrix).matrix,
            ),
            final(self).wf(),
            final(model_matrix).matrix == old(model_matrix).matrix,
            final(model_matrix).stack@ == old(model_matrix).stack@,
    {
        let mut i: usize = 0;
        while i < objects.len()
            invariant
                i <= objects.len(),
                self.wf(),
                *self == old(self).after_objects(
                    own_id,
                    objects@,
                    i as nat,
                    dt,
                    old(model_matrix).matrix,
                ),
                model_matrix.matrix == old(model_matrix).matrix,
                model_matrix.stack@ == old(model_matrix).stack@,
            decreases objects.len() - i,
        {
            if objects[i].id != own_id {
                self.check_collision(&objects[i].collider, dt, model_matrix);
            }
            i += 1;
        }
    }
}

impl Car {
    /// The car after a fall of `dt`: the height moves by the speed along
    /// it, and that speed then drops by the pull of gravity.
    pub open spec fn after_gravity(self, dt: Fixed) -> Car {
        Car {
            car_state: CarState {
                position_wc: Vector3::new(
                    self.car_state.position_wc.x,
                    self.car_state.position_wc.y.plus(self.y_velocity.times(dt)),
                    self.car_state.position_wc.z,
                ),
                ..self.car_state
            },
            y_velocity: self.y_velocity.minus(
                self.params.gravity.times(Fixed::from_raw(GRAVITY_FACTOR)).times(dt),
            ),
            ..self
        }
    }

    /// The turn of the wheels with the turn of the last step added, and
    /// brought back within one turn once it has reached one.
    pub open spec fn turned_wheels(self) -> Fixed {
        let w = self.wheel_rotation.plus(self.car_state.wheel_rotation_speed);
        if w@ >= TWO_PI {
            w.rem(Fixed::from_raw(TWO_PI))
        } else {
            w
        }
    }

    /// The car one frame of `dt` later: corrected against the scene if it
    /// checks for collisions, moved on the ground, its wheels turned, and
    /// fallen.
    pub open spec fn after_update(
        self,
        own_id: u32,
        objects: Seq<SceneObject>,
        dt: Fixed,
        base: Matrix4,
    ) -> Car {
        let checked = if self.enable_collision_check {
            self.after_objects(own_id, objects, objects.len(), dt, base)
        } else {
            self
        };
        let moved = Car {
            car_state: checked.car_state.after_step(
                checked.params,
                dt,
                checked.handbrake,
                checked.handbrake,
            ),
            ..checked
        };
        let turned = Car { wheel_rotation: moved.turned_wheels(), ..moved };
        turned.after_gravity(dt)
    }

    /// Lets the car fall for a time of `dt`.
    fn update_gravity(&mut self, dt: Fixed)
        ensures
            *final(self) == old(self).after_gravity(dt),
    {
        self.car_state.position_wc.y = self.car_state.position_wc.y.plus(
            self.y_velocity.times(dt),
        );
        self.y_velocity = self.y_velocity.minus(
            self.params.gravity.times(Fixed::from_raw(GRAVITY_FACTOR)).times(dt),
        );
    }

    /// Takes the car through one frame of `delta_time`: the collision
    /// check against the objects of the scene, if the car makes one; the
    /// step of its motion on the ground; the turn of its wheels; its fall.
    pub fn update(
        &mut self,
        own_id: u32,
        objects: &Vec<SceneObject>,
        delta_time: Fixed,
        model_matrix: &mut ModelMatrix,
    )
        requires
            old(self).wf(),
        ensures
            *final(self) == old(self).after_update(
                own_id,
                objects@,
                delta_time,
                old(model_matrix).matrix,
            ),
            final(self).wf(),
            final(model_matrix).matrix == old(model_matrix).matrix,
            final(model_matrix).stack@ == old(model_matrix).stack@,
    {
        if self.enable_collision_check {
            self.check_all_collision(own_id, objects, delta_time, model_matrix);
        }
        let params = self.params;
        self.car_state.perform_physics_time_step(
            &params,
            delta_time,
            self.handbrake,
            self.handbrake,
        );
        self.wheel_rotation = self.wheel_rotation.plus(self.car_state.wheel_rotation_speed);
        if self.wheel_rotation.ge(Fixed::from_raw(TWO_PI)) {
            self.wheel_rotation = self.wheel_rotation.rem(Fixed::from_raw(TWO_PI));
        }
        self.update_gravity(delta_time);
    }
}

/// No corner crosses a wall in no time, nor one that it moves along, nor one
/// without length: in each of these cases the sweep gives nothing, and no
/// division is asked for.
pub proof fn lemma_wall_guards(
    corner: Vector3,
    f_corner: Vector3,
    p0: Vector3,
    p1: Vector3,
    dt: Fixed,
)
    ensures
        dt@ == 0 ==> Car::wall_hit(corner, f_corner, p0, p1, dt) is None,
        ({
            let v = p1.minus(p0).xz();
            let n = Vector2::new(v.y.neg(), v.x);
            let c = f_corner.xz().minus(corner.xz()).over(dt);
            n.dot(c)@ == 0 || n.dot(n)@ == 0 ==> Car::wall_hit(corner, f_corner, p0, p1, dt) is None
        }),
        p0.x == p1.x && p0.z == p1.z ==> Car::wall_hit(corner, f_corner, p0, p1, dt) is None,
{
    if p0.x == p1.x && p0.z == p1.z {
        let v = p1.minus(p0).xz();
        let zero = Fixed::from_raw(0);
        assert(v.x == zero && v.y == zero) by {
            reveal(Fixed::spec_minus);
        }
        lemma_plus_zero(zero);
        lemma_times_zero(zero);
        let n = Vector2::new(v.y.neg(), v.x);
        assert(n.dot(n) == zero);
    }
}

/// What a sweep gives is a mirror image: where a corner crosses the wall, the
/// velocity that it sets is the velocity of the corner mirrored at the
/// normal of the wall, and the corner did not move along the wall.
pub proof fn lemma_wall_hit_is_a_mirror_image(
    corner: Vector3,
    f_corner: Vector3,
    p0: Vector3,
    p1: Vector3,
    dt: Fixed,
)
    ensures
        ({
            let v = p1.minus(p0).xz();
            let n = Vector2::new(v.y.neg(), v.x);
            let c = f_corner.xz().minus(corner.xz()).over(dt);
            Car::wall_hit(corner, f_corner, p0, p1, dt) matches Some(r) ==> r == Car::mirrored(c, n)
                && n.dot(c)@ != 0 && n.dot(n)@ != 0 && dt@ > 0
        }),
{
}

/// A wall without length turns no car back, and no wall does in no time.
pub proof fn lemma_wall_without_length_changes_nothing(car: Car, p0: Vector3, p1: Vector3, dt: Fixed, base: Matrix4)
    requires
        (p0.x == p1.x && p0.z == p1.z) || dt@ == 0,
    ensures
        car.after_wall(p0, p1, dt, base) == car,
{
    let predicted = car.car_state.after_step(car.params, dt, car.handbrake, car.handbrake);
    let corners = Car::corners(base, car.car_state);
    let future = Car::corners(base, predicted);
    lemma_wall_guards(corners[0], future[0], p0, p1, dt);
    lemma_wall_guards(corners[1], future[1], p0, p1, dt);
    lemma_wall_guards(corners[2], future[2], p0, p1, dt);
    lemma_wall_guards(corners[3], future[3], p0, p1, dt);
    reveal_with_fuel(Car::velocity_after_corners, 5);
}

/// A wall turns back what comes at it and keeps what runs along it: at a
/// wall whose normal is the unit of the first axis, a velocity is mirrored
/// to the opposite of its first component and to its second component
/// itself. The first component must be such that twice it can be held.
pub proof fn lemma_mirror_at_unit_normal(c: Vector2)
    requires
        i64::MIN <= 2 * c.x@ <= i64::MAX,
    ensures
        Car::mirrored(c, Vector2::new(Fixed::from_raw(SCALE), Fixed::from_raw(0))) == Vector2::new(
            c.x.neg(),
            c.y,
        ),
{
    let one = Fixed::from_raw(SCALE);
    let zero = Fixed::from_raw(0);
    let n = Vector2::new(one, zero);
    lemma_times_one(c.x);
    lemma_times_one(one);
    lemma_times_zero(c.y);
    lemma_times_zero(zero);
    lemma_plus_zero(c.x);
    lemma_plus_zero(c.y);
    lemma_plus_zero(one);
    assert(c.dot(n) == c.x);
    assert(n.dot(n) == one);
    let twice = Fixed::from_int(2).times(c.x);
    lemma_twice(c.x);
    lemma_over_one(twice);
    lemma_times_one(twice);
    lemma_times_zero(twice);
    assert(n.scaled(twice) == Vector2::new(twice, zero));
    reveal(Fixed::spec_minus);
    reveal(Fixed::spec_neg);
}

/// Ground sets a car down: a car whose box reaches down to the ground at
/// height `y`, or below it, is afterwards centred at the clearance above `y`
/// and has stopped falling. Nothing else of it has changed.
pub proof fn lemma_height_collider_sets_down(car: Car, y: Fixed, dt: Fixed, base: Matrix4)
    requires
        Car::cube(base, car.car_state).1@ <= y@,
    ensures
        car.after_collision(ColliderView::HeightCollider(y), dt, base).car_state.position_wc.y
            == y.plus(Fixed::from_raw(CLEARANCE_Y)),
        car.after_collision(ColliderView::HeightCollider(y), dt, base).y_velocity
            == Fixed::from_raw(0),
        car.after_collision(ColliderView::HeightCollider(y), dt, base) == (Car {
            car_state: CarState {
                position_wc: Vector3::new(
                    car.car_state.position_wc.x,
                    y.plus(Fixed::from_raw(CLEARANCE_Y)),
                    car.car_state.position_wc.z,
                ),
                ..car.car_state
            },
            y_velocity: Fixed::from_raw(0),
            ..car
        }),
{
    car.lemma_single_primitive(PrimitiveCollider::HeightCollider(y), dt, base);
}

/// A car that stays clear of the ground is left alone by it.
pub proof fn lemma_height_collider_leaves_alone(car: Car, y: Fixed, dt: Fixed, base: Matrix4)
    requires
        Car::cube(base, car.car_state).1@ > y@,
    ensures
        car.after_collision(ColliderView::HeightCollider(y), dt, base) == car,
{
    car.lemma_single_primitive(PrimitiveCollider::HeightCollider(y), dt, base);
}

/// The bounding box holds the points that it is taken around: each of the
/// first `n` points lies within it on every axis, and every side of it
/// touches one of them.
pub proof fn lemma_bounds_hold(points: Seq<Vector3>, n: nat)
    requires
        1 <= n <= points.len(),
    ensures
        forall|i: int|
            0 <= i < n ==> {
                let b = Car::bounds(points, n);
                let p = #[trigger] points[i];
                b.0@ <= p.x@ <= b.3@ && b.1@ <= p.y@ <= b.4@ && b.2@ <= p.z@ <= b.5@
            },
        exists|i: int| 0 <= i < n && Car::bounds(points, n).0 == (#[trigger] points[i]).x,
        exists|i: int| 0 <= i < n && Car::bounds(points, n).1 == (#[trigger] points[i]).y,
        exists|i: int| 0 <= i < n && Car::bounds(points, n).2 == (#[trigger] points[i]).z,
        exists|i: int| 0 <= i < n && Car::bounds(points, n).3 == (#[trigger] points[i]).x,
        exists|i: int| 0 <= i < n && Car::bounds(points, n).4 == (#[trigger] points[i]).y,
        exists|i: int| 0 <= i < n && Car::bounds(points, n).5 == (#[trigger] points[i]).z,
    decreases n,
{
    if n > 1 {
        let m = (n - 1) as nat;
        lemma_bounds_hold(points, m);
        let before = Car::bounds(points, m);
        let b = Car::bounds(points, n);
        let last = points[n - 1];
        assert forall|i: int| 0 <= i < n implies {
            let p = #[trigger] points[i];
            b.0@ <= p.x@ <= b.3@ && b.1@ <= p.y@ <= b.4@ && b.2@ <= p.z@ <= b.5@
        } by {
            if i < m {
                let p = points[i];
                assert(before.0@ <= p.x@ <= before.3@);
            }
        }
        let i0 = choose|i: int| 0 <= i < m && before.0 == (#[trigger] points[i]).x;
        let i1 = choose|i: int| 0 <= i < m && before.1 == (#[trigger] points[i]).y;
        let i2 = choose|i: int| 0 <= i < m && before.2 == (#[trigger] points[i]).z;
        let i3 = choose|i: int| 0 <= i < m && before.3 == (#[trigger] points[i]).x;
        let i4 = choose|i: int| 0 <= i < m && before.4 == (#[trigger] points[i]).y;
        let i5 = choose|i: int| 0 <= i < m && before.5 == (#[trigger] points[i]).z;
        assert(b.0 == points[i0].x || b.0 == last.x);
        assert(b.1 == points[i1].y || b.1 == last.y);
        assert(b.2 == points[i2].z || b.2 == last.z);
        assert(b.3 == points[i3].x || b.3 == last.x);
        assert(b.4 == points[i4].y || b.4 == last.y);
        assert(b.5 == points[i5].z || b.5 == last.z);
    } else {
        assert(Car::bounds(points, n).0 == points[0].x);
    }
}

/// The bounding box of a car holds the car: each of the eight corners of
/// its body lies within the box on every axis, and the box is no larger than
/// that, for every side of it touches a corner.
pub proof fn lemma_cube_holds_the_car(base: Matrix4, state: CarState)
    ensures
        forall|i: int|
            0 <= i < 8 ==> {
                let b = Car::cube(base, state);
                let p = #[trigger] Car::corners(base, state)[i];
                b.0@ <= p.x@ <= b.3@ && b.1@ <= p.y@ <= b.4@ && b.2@ <= p.z@ <= b.5@
            },
        Car::cube(base, state).0@ <= Car::cube(base, state).3@,
        Car::cube(base, state).1@ <= Car::cube(base, state).4@,
        Car::cube(base, state).2@ <= Car::cube(base, state).5@,
{
    let corners = Car::corners(base, state);
    lemma_bounds_hold(corners, 8);
    let p = corners[0];
    let b = Car::cube(base, state);
    assert(b.0@ <= p.x@ <= b.3@);
}

/// The box of a car is as high as its body whichever way the car is
/// turned: under no transform but its own, the box reaches from one and a
/// half units below the centre to one and a half above it.
pub proof fn lemma_cube_heights(state: CarState)
    ensures
        Car::cube(Matrix4::identity(), state).1 == state.position_wc.y.minus(
            Fixed::from_raw(CLEARANCE_Y),
        ),
        Car::cube(Matrix4::identity(), state).4 == state.position_wc.y.plus(
            Fixed::from_raw(CLEARANCE_Y),
        ),
{
    let zero = Fixed::from_raw(0);
    let one = Fixed::from_raw(SCALE);
    let half = Fixed::from_raw(HALF);
    let y = state.position_wc.y;
    let a = state.angle;
    let t = Matrix4::translation(state.position_wc.x, y, state.position_wc.z);
    let stretch = Matrix4::scaling(
        Fixed::from_raw(BODY_WIDTH),
        Fixed::from_raw(BODY_HEIGHT),
        Fixed::from_raw(BODY_LENGTH),
    );
    crate::matrices::lemma_identity_is_neutral(t);
    crate::matrices::lemma_turn_about_the_vertical(t, a);
    let turned = t.times(Matrix4::rotation_y(a));
    let m = Car::body_transform(Matrix4::identity(), state);
    assert(m == turned.times(stretch));
    // The second row of the transform: it stretches the height and moves
    // it, and takes nothing from the other axes.
    lemma_times_zero(a.cos());
    lemma_times_zero(a.sin());
    lemma_times_zero(a.sin().neg());
    lemma_times_zero(one);
    lemma_times_zero(zero);
    lemma_times_zero(y);
    lemma_times_one(one);
    lemma_times_one(y);
    lemma_plus_zero(zero);
    lemma_plus_zero(one);
    lemma_plus_zero(y);
    assert(turned.r1 == Vector4::new(zero, one, zero, y));
    lemma_times_zero(Fixed::from_raw(BODY_WIDTH));
    lemma_times_zero(Fixed::from_raw(BODY_LENGTH));
    lemma_times_one(Fixed::from_raw(BODY_HEIGHT));
    lemma_plus_zero(Fixed::from_raw(BODY_HEIGHT));
    assert(m.r1 == Vector4::new(zero, Fixed::from_raw(BODY_HEIGHT), zero, y));
    // The heights of the corners.
    lemma_times_zero(half);
    lemma_times_zero(half.neg());
    let up = Fixed::from_raw(BODY_HEIGHT).times(half);
    let down = Fixed::from_raw(BODY_HEIGHT).times(half.neg());
    assert(half.neg()@ == -HALF) by {
        reveal(Fixed::spec_neg);
    }
    lemma_times_exact(Fixed::from_raw(BODY_HEIGHT), half, BODY_HEIGHT as int, HALF as int);
    lemma_times_exact(Fixed::from_raw(BODY_HEIGHT), half.neg(), BODY_HEIGHT as int, HALF as int);
    assert(3_000_000_000int * 500_000_000int == 1_500_000_000_000_000_000int) by (nonlinear_arith);
    assert(3_000_000_000int * -500_000_000int == -1_500_000_000_000_000_000int)
        by (nonlinear_arith);
    assert(up@ == 1_500_000_000 && down@ == -1_500_000_000);
    let high = y.plus(Fixed::from_raw(CLEARANCE_Y));
    let low = y.minus(Fixed::from_raw(CLEARANCE_Y));
    assert(zero.plus(up).plus(zero).plus(y) == high && zero.plus(down).plus(zero).plus(y) == low
        && low@ <= high@) by {
        reveal(Fixed::spec_plus);
        reveal(Fixed::spec_minus);
    }
    let c = Car::corners(Matrix4::identity(), state);
    assert(c[0].y == low && c[1].y == low && c[2].y == low && c[3].y == low);
    assert(c[4].y == high && c[5].y == high && c[6].y == high && c[7].y == high);
    reveal_with_fuel(Car::bounds, 9);
}

/// A box leaves alone a car that it does not touch, and a car whose centre
/// is inside it on every axis: such a car has nowhere to be pushed to.
pub proof fn lemma_box_leaves_alone(
    car: Car,
    b: (Fixed, Fixed, Fixed, Fixed, Fixed, Fixed),
    dt: Fixed,
    base: Matrix4,
)
    requires
        !Car::overlaps(Car::cube(base, car.car_state), b) || ({
            let p = car.car_state.position_wc;
            b.0@ <= p.x@ <= b.3@ && b.1@ <= p.y@ <= b.4@ && b.2@ <= p.z@ <= b.5@
        }),
    ensures
        car.after_collision(ColliderView::BoxCollider(b.0, b.1, b.2, b.3, b.4, b.5), dt, base)
            == car,
{
    car.lemma_single_primitive(
        PrimitiveCollider::BoxCollider(b.0, b.1, b.2, b.3, b.4, b.5),
        dt,
        base,
    );
}

/// A list of colliders is met in order: meeting a list with one more
/// collider at its end is meeting the list and then, as the list has left
/// the car, that collider.
pub proof fn lemma_multi_collider_in_order(
    car: Car,
    list: Seq<ColliderView>,
    last: ColliderView,
    dt: Fixed,
    base: Matrix4,
)
    ensures
        car.after_collision(ColliderView::MultiCollider(list.push(last)), dt, base)
            == car.after_collision(ColliderView::MultiCollider(list), dt, base).after_collision(
            last,
            dt,
            base,
        ),
{
    let longer = list.push(last);
    lemma_flat_of_prefix(longer, list, list.len());
    assert(longer[list.len() as int] == last);
    car.lemma_primitives_joined(
        ColliderView::flat_prefix(list, list.len()),
        last.flat(),
        last.flat().len(),
        dt,
        base,
    );
}

/// `NoCollision` counts for nothing, alone or at the head of a list: a car
/// that meets `NoCollision` and then `c` is left as by `c` alone.
pub proof fn lemma_no_collision_counts_for_nothing(car: Car, c: ColliderView, dt: Fixed, base: Matrix4)
    ensures
        car.after_collision(ColliderView::NoCollision, dt, base) == car,
        car.after_collision(
            ColliderView::MultiCollider(seq![ColliderView::NoCollision, c]),
            dt,
            base,
        ) == car.after_collision(c, dt, base),
{
    let list = seq![ColliderView::NoCollision, c];
    reveal_with_fuel(ColliderView::flat_prefix, 3);
    assert(list[0] == ColliderView::NoCollision);
    assert(list[1] == c);
    assert(ColliderView::flat_prefix(list, 2) =~= c.flat());
}

/// The primitive colliders of the first `n` trees of a list depend on those
/// `n` trees only.
pub proof fn lemma_flat_of_prefix(a: Seq<ColliderView>, b: Seq<ColliderView>, n: nat)
    requires
        n <= a.len(),
        n <= b.len(),
        forall|i: int| 0 <= i < n ==> a[i] == b[i],
    ensures
        ColliderView::flat_prefix(a, n) == ColliderView::flat_prefix(b, n),
    decreases n,
{
    if n > 0 {
        lemma_flat_of_prefix(a, b, (n - 1) as nat);
    }
}

impl Car {
    /// The throttle.
    pub fn throttle(&self) -> (r: Fixed)
        ensures
            r == self.car_state.throttle,
    {
        self.car_state.throttle
    }

    /// Sets the throttle.
    pub fn set_throttle(&mut self, value: Fixed)
        ensures
            *final(self) == (Car {
                car_state: CarState { throttle: value, ..old(self).car_state },
                ..*old(self)
            }),
    {
        self.car_state.throttle = value;
    }

    /// The brake.
    pub fn brake(&self) -> (r: Fixed)
        ensures
            r == self.car_state.brake,
    {
        self.car_state.brake
    }

    /// Sets the brake.
    pub fn set_brake(&mut self, value: Fixed)
        ensures
            *final(self) == (Car {
                car_state: CarState { brake: value, ..old(self).car_state },
                ..*old(self)
            }),
    {
        self.car_state.brake = value;
    }

    /// The angle of the front wheels.
    pub fn steering_angle(&self) -> (r: Fixed)
        ensures
            r == self.car_state.steering_angle,
    {
        self.car_state.steering_angle
    }

    /// Sets the angle of the front wheels.
    pub fn set_steering_angle(&mut self, value: Fixed)
        ensures
            *final(self) == (Car {
                car_state: CarState { steering_angle: value, ..old(self).car_state },
                ..*old(self)
            }),
    {
        self.car_state.steering_angle = value;
    }

    /// The speed along the height.
    pub fn y_velocity(&self) -> (r: Fixed)
        ensures
            r == self.y_velocity,
    {
        self.y_velocity
    }

    /// Sets the speed along the height.
    pub fn set_y_velocity(&mut self, value: Fixed)
        ensures
            *final(self) == (Car { y_velocity: value, ..*old(self) }),
    {
        self.y_velocity = value;
    }

    /// From where the car is looked at.
    pub fn view_state(&self) -> (r: &ViewState)
        ensures
            *r == self.view_state,
    {
        &self.view_state
    }

    /// Sets from where the car is looked at.
    pub fn set_view_state(&mut self, view_state: ViewState)
        ensures
            *final(self) == (Car { view_state, ..*old(self) }),
    {
        self.view_state = view_state;
    }

    /// Whether the handbrake is held.
    pub fn handbrake(&self) -> (r: bool)
        ensures
            r == self.handbrake,
    {
        self.handbrake
    }

    /// Holds or lets go the handbrake.
    pub fn set_handbrake(&mut self, value: bool)
        ensures
            *final(self) == (Car { handbrake: value, ..*old(self) }),
    {
        self.handbrake = value;
    }

    /// The position of the centre of the car.
    pub fn position(&self) -> (r: &Vector3)
        ensures
            *r == self.car_state.position_wc,
    {
        &self.car_state.position_wc
    }

    /// Puts the centre of the car at `position`.
    pub fn set_position(&mut self, position: Vector3)
        ensures
            *final(self) == (Car {
                car_state: CarState { position_wc: position, ..old(self).car_state },
                ..*old(self)
            }),
    {
        self.car_state.position_wc = position;
    }

    /// The heading.
    pub fn angle(&self) -> (r: Fixed)
        ensures
            r == self.car_state.angle,
    {
        self.car_state.angle
    }

    /// Sets the heading.
    pub fn set_angle(&mut self, value: Fixed)
        ensures
            *final(self) == (Car {
                car_state: CarState { angle: value, ..old(self).car_state },
                ..*old(self)
            }),
    {
        self.car_state.angle = value;
    }
}

} // verus!
