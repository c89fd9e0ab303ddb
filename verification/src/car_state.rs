//! The motion of one car on the ground plane, advanced one time step at a
//! time from the slip angles of its tyres.
//!
//! In the frame of the car the first axis runs along the car and the third
//! across it. The height is not touched here: what moves the car up and
//! down belongs to its owner.

use vstd::prelude::*;
use crate::fixed::{
    Fixed, magnitude, lemma_over_whole_within, lemma_plus_zero, lemma_times_fraction,
    lemma_times_one, lemma_times_within, lemma_times_zero, lemma_zero_over, HALF, PI, SCALE,
};
use crate::trig::{lemma_atan2_along_the_axis, lemma_sin_cos_of_zero, lemma_sin_cos_within_one};
use crate::vector::Vector3;
use crate::utils::limit;

verus! {

/// The tunable constants of the model.
#[derive(Clone, Copy, Debug, PartialEq, Eq, Structural)]
pub struct CarParams {
    /// Air drag per squared speed.
    pub drag: Fixed,
    /// Rolling resistance per speed.
    pub rolling_resistance: Fixed,
    /// Cornering stiffness of the front axle.
    pub corner_stiffness_front: Fixed,
    /// Cornering stiffness of the rear axle.
    pub corner_stiffness_rear: Fixed,
    /// The largest grip of an axle, as a share of the load on it.
    pub max_grip: Fixed,
    /// Distance from the centre of mass to the front axle.
    pub wheelbase_b: Fixed,
    /// Distance from the centre of mass to the rear axle.
    pub wheelbase_c: Fixed,
    /// The wheelbase used for the yaw speed at the axles.
    pub wheelbase: Fixed,
    /// Mass of the car.
    pub mass: Fixed,
    /// Moment of inertia about the vertical axis.
    pub inertia: Fixed,
    /// Circumference of a wheel.
    pub wheel_circumference: Fixed,
    /// Acceleration of gravity.
    pub gravity: Fixed,
    /// Traction force per unit of throttle.
    pub traction_gain: Fixed,
}

impl CarParams {
    /// The constants can be divided by where the model divides: mass, inertia
    /// and wheel circumference are not zero.
    pub open spec fn wf(self) -> bool {
        self.mass@ != 0 && self.inertia@ != 0 && self.wheel_circumference@ != 0
    }

    /// What `standard` returns.
    pub open spec fn spec_standard() -> CarParams {
        CarParams {
            drag: Fixed::from_int(5),
            rolling_resistance: Fixed::from_int(30),
            corner_stiffness_front: Fixed::from_int(5).neg(),
            corner_stiffness_rear: Fixed::from_raw(5_200_000_000).neg(),
            max_grip: Fixed::from_int(2),
            wheelbase_b: Fixed::from_int(1),
            wheelbase_c: Fixed::from_int(1),
            wheelbase: Fixed::from_int(1),
            mass: Fixed::from_int(600),
            inertia: Fixed::from_int(600),
            wheel_circumference: Fixed::from_raw(1_400_000_000),
            gravity: Fixed::from_raw(9_800_000_000),
            traction_gain: Fixed::from_int(100),
        }
    }

    /// The constants of the game's car.
    #[verifier::when_used_as_spec(spec_standard)]
    pub fn standard() -> (r: CarParams)
        ensures
            r == CarParams::spec_standard(),
            r.wf(),
    {
        CarParams {
            drag: Fixed::from_int(5),
            rolling_resistance: Fixed::from_int(30),
            corner_stiffness_front: Fixed::from_int(5).neg(),
            corner_stiffness_rear: Fixed::from_raw(5_200_000_000).neg(),
            max_grip: Fixed::from_int(2),
            wheelbase_b: Fixed::from_int(1),
            wheelbase_c: Fixed::from_int(1),
            wheelbase: Fixed::from_int(1),
            mass: Fixed::from_int(600),
            inertia: Fixed::from_int(600),
            wheel_circumference: Fixed::from_raw(1_400_000_000),
            gravity: Fixed::from_raw(9_800_000_000),
            traction_gain: Fixed::from_int(100),
        }
    }
}

/// Where a car is and how it moves.
#[derive(Clone, Copy, Debug, PartialEq, Eq, Structural)]
pub struct CarState {
    /// Position in the world.
    pub position_wc: Vector3,
    /// Velocity in the world. The height component belongs to the owner.
    pub velocity_wc: Vector3,
    /// Heading in radians. It is not wrapped.
    pub angle: Fixed,
    /// Rate of turn.
    pub angular_velocity: Fixed,
    /// Angle of the front wheels against the car, in radians.
    pub steering_angle: Fixed,
    /// Throttle, from 0 to 100 by convention. It is not clamped.
    pub throttle: Fixed,
    /// Brake, from 0 to 100 by convention. It is not clamped.
    pub brake: Fixed,
    /// Turn of the wheels over the last step, in radians, for display.
    pub wheel_rotation_speed: Fixed,
}

/// The forces on the car in its own frame, and what they make of it.
pub struct Forces {
    pub front_lateral: Fixed,
    pub rear_lateral: Fixed,
    pub traction: Fixed,
    pub wheel_rotation_speed: Fixed,
}

impl CarState {
    /// What `new` returns.
    pub open spec fn spec_new() -> CarState {
        CarState {
            position_wc: Vector3::zeros(),
            velocity_wc: Vector3::zeros(),
            angle: Fixed::from_raw(0),
            angular_velocity: Fixed::from_raw(0),
            steering_angle: Fixed::from_raw(0),
            throttle: Fixed::from_raw(0),
            brake: Fixed::from_raw(0),
            wheel_rotation_speed: Fixed::from_raw(0),
        }
    }

    /// The velocity in the frame of the car: the world velocity turned by
    /// the heading.
    pub open spec fn local_velocity(self) -> Vector3 {
        let s = self.angle.sin();
        let c = self.angle.cos();
        Vector3::new(
            c.times(self.velocity_wc.z).plus(s.times(self.velocity_wc.x)),
            Fixed::from_raw(0),
            s.neg().times(self.velocity_wc.z).plus(c.times(self.velocity_wc.x)),
        )
    }

    /// The speed that the turning of the car gives to its axles.
    pub open spec fn yaw_speed(self, params: CarParams) -> Fixed {
        params.wheelbase.times(Fixed::from_raw(HALF)).times(self.angular_velocity)
    }

    /// The angle that the yaw speed adds at the axles. It is zero when the
    /// car does not move along its own axis.
    pub open spec fn rot_angle(self, params: CarParams) -> Fixed {
        let v = self.local_velocity();
        if v.x@ == 0 {
            Fixed::from_raw(0)
        } else {
            self.yaw_speed(params).atan2(v.x)
        }
    }

    /// The angle between the axis of the car and its velocity. It is zero
    /// when the car does not move along its own axis.
    pub open spec fn sideslip(self) -> Fixed {
        let v = self.local_velocity();
        if v.x@ == 0 {
            Fixed::from_raw(0)
        } else {
            v.z.atan2(v.x)
        }
    }

    /// The slip angle of the front tyres.
    pub open spec fn slip_angle_front(self, params: CarParams) -> Fixed {
        self.sideslip().plus(self.rot_angle(params)).minus(self.steering_angle)
    }

    /// The slip angle of the rear tyres.
    pub open spec fn slip_angle_rear(self, params: CarParams) -> Fixed {
        self.sideslip().minus(self.rot_angle(params))
    }

    /// The sideways force of an axle: stiffness times slip angle, held
    /// within the grip, times the load on the axle, and half of that when
    /// the axle slips.
    pub open spec fn lateral_force(
        params: CarParams,
        stiffness: Fixed,
        slip_angle: Fixed,
        slipping: bool,
    ) -> Fixed {
        let weight = params.mass.times(params.gravity).times(Fixed::from_raw(HALF));
        let force = limit(stiffness.times(slip_angle), params.max_grip.neg(), params.max_grip).times(
            weight,
        );
        if slipping {
            force.half()
        } else {
            force
        }
    }

    /// The force of the engine and the brake along the car, before any
    /// slip: the brake works against the direction of travel.
    pub open spec fn full_traction(self, params: CarParams) -> Fixed {
        params.traction_gain.times(
            self.throttle.minus(self.brake.times(self.local_velocity().x.signum())),
        )
    }

    /// The force along the car: the full traction, and half of it when the
    /// rear axle slips.
    pub open spec fn traction(self, params: CarParams, rear_slip: bool) -> Fixed {
        if rear_slip {
            self.full_traction(params).half()
        } else {
            self.full_traction(params)
        }
    }

    /// Rolling resistance and drag along one axis of the car, for the
    /// speed `v` along that axis.
    pub open spec fn resistance(params: CarParams, v: Fixed) -> Fixed {
        params.rolling_resistance.times(v).plus(params.drag.times(v).times(v.abs())).neg()
    }

    /// The turn of the wheels over a step of `delta_time`.
    pub open spec fn wheel_turn(self, params: CarParams, delta_time: Fixed) -> Fixed {
        self.full_traction(params).times(delta_time).over(params.wheel_circumference).times(
            Fixed::from_int(2),
        ).times(Fixed::from_raw(PI))
    }

    /// The forces of one step.
    pub open spec fn forces(
        self,
        params: CarParams,
        delta_time: Fixed,
        front_slip: bool,
        rear_slip: bool,
    ) -> Forces {
        Forces {
            front_lateral: CarState::lateral_force(
                params,
                params.corner_stiffness_front,
                self.slip_angle_front(params),
                front_slip,
            ),
            rear_lateral: CarState::lateral_force(
                params,
                params.corner_stiffness_rear,
                self.slip_angle_rear(params),
                rear_slip,
            ),
            traction: self.traction(params, rear_slip),
            wheel_rotation_speed: self.wheel_turn(params, delta_time),
        }
    }

    /// The acceleration in the frame of the car under the forces `f`.
    pub open spec fn local_acceleration(self, params: CarParams, f: Forces) -> Vector3 {
        let v = self.local_velocity();
        let front = Vector3::new(
            Fixed::from_raw(0),
            Fixed::from_raw(0),
            self.steering_angle.cos().times(f.front_lateral),
        );
        let rear = Vector3::new(Fixed::from_raw(0), Fixed::from_raw(0), f.rear_lateral);
        let drive = Vector3::new(f.traction, Fixed::from_raw(0), Fixed::from_raw(0));
        let resist = Vector3::new(
            CarState::resistance(params, v.x),
            Fixed::from_raw(0),
            CarState::resistance(params, v.z),
        );
        drive.plus(front).plus(rear).plus(resist).over(params.mass)
    }

    /// The angular acceleration under the forces `f`.
    pub open spec fn angular_acceleration(params: CarParams, f: Forces) -> Fixed {
        params.wheelbase_b.times(f.front_lateral).minus(
            params.wheelbase_c.times(f.rear_lateral),
        ).over(params.inertia)
    }

    /// The state one step of `delta_time` later. The acceleration is turned
    /// back into the world by the heading before the step; the velocity is
    /// advanced first and the position by the new velocity, the rate of turn
    /// first and the heading by the new rate.
    pub open spec fn after_step(
        self,
        params: CarParams,
        delta_time: Fixed,
        front_slip: bool,
        rear_slip: bool,
    ) -> CarState {
        let s = self.angle.sin();
        let c = self.angle.cos();
        let f = self.forces(params, delta_time, front_slip, rear_slip);
        let a = self.local_acceleration(params, f);
        let ax = c.times(a.z).plus(s.times(a.x));
        let az = s.neg().times(a.z).plus(c.times(a.x));
        let vx = self.velocity_wc.x.plus(delta_time.times(ax));
        let vz = self.velocity_wc.z.plus(delta_time.times(az));
        let w = self.angular_velocity.plus(
            delta_time.times(CarState::angular_acceleration(params, f)),
        );
        CarState {
            position_wc: Vector3::new(
                self.position_wc.x.plus(delta_time.times(vx)),
                self.position_wc.y,
                self.position_wc.z.plus(delta_time.times(vz)),
            ),
            velocity_wc: Vector3::new(vx, self.velocity_wc.y, vz),
            angle: self.angle.plus(delta_time.times(w)),
            angular_velocity: w,
            steering_angle: self.steering_angle,
            throttle: self.throttle,
            brake: self.brake,
            wheel_rotation_speed: f.wheel_rotation_speed,
        }
    }

    /// A car at rest at the origin, heading along the third axis, with no
    /// input.
    #[verifier::when_used_as_spec(spec_new)]
    pub fn new() -> (r: CarState)
        ensures
            r == CarState::spec_new(),
    {
        CarState {
            position_wc: Vector3::zeros(),
            velocity_wc: Vector3::zeros(),
            angle: Fixed::from_raw(0),
            angular_velocity: Fixed::from_raw(0),
            steering_angle: Fixed::from_raw(0),
            throttle: Fixed::from_raw(0),
            brake: Fixed::from_raw(0),
            wheel_rotation_speed: Fixed::from_raw(0),
        }
    }

    /// The sideways force of an axle.
    fn lateral(params: &CarParams, stiffness: Fixed, slip_angle: Fixed, slipping: bool) -> (r:
        Fixed)
        ensures
            r == CarState::lateral_force(*params, stiffness, slip_angle, slipping),
    {
        let weight = params.mass.times(params.gravity).times(Fixed::from_raw(HALF));
        let force = limit(stiffness.times(slip_angle), params.max_grip.neg(), params.max_grip).times(
            weight,
        );
        if slipping {
            force.half()
        } else {
            force
        }
    }

    /// Rolling resistance and drag along one axis of the car.
    fn resist(params: &CarParams, v: Fixed) -> (r: Fixed)
        ensures
            r == CarState::resistance(*params, v),
    {
        params.rolling_resistance.times(v).plus(params.drag.times(v).times(v.abs())).neg()
    }

    /// Advances the state by one step of `delta_time`. `front_slip` and
    /// `rear_slip` say which axles have lost half their grip.
    pub fn perform_physics_time_step(
        &mut self,
        params: &CarParams,
        delta_time: Fixed,
        front_slip: bool,
        rear_slip: bool,
    )
        requires
            params.wf(),
        ensures
            *final(self) == old(self).after_step(*params, delta_time, front_slip, rear_slip),
    {
        let zero = Fixed::from_raw(0);
        let sin_ang = self.angle.sin();
        let cos_ang = self.angle.cos();

        let velocity = Vector3::new(
            cos_ang.times(self.velocity_wc.z).plus(sin_ang.times(self.velocity_wc.x)),
            zero,
            sin_ang.neg().times(self.velocity_wc.z).plus(cos_ang.times(self.velocity_wc.x)),
        );

        // Slip angles. At rest along the axis of the car both angles are
        // zero: the arctangent is not asked.
        let yaw_speed = params.wheelbase.times(Fixed::from_raw(HALF)).times(self.angular_velocity);
        let rot_angle = if velocity.x.is_zero() {
            zero
        } else {
            yaw_speed.atan2(velocity.x)
        };
        let sideslip = if velocity.x.is_zero() {
            zero
        } else {
            velocity.z.atan2(velocity.x)
        };
        let slip_angle_front = sideslip.plus(rot_angle).minus(self.steering_angle);
        let slip_angle_rear = sideslip.minus(rot_angle);

        // Forces of the tyres, the engine and the brake.
        let front_lateral = CarState::lateral(
            params,
            params.corner_stiffness_front,
            slip_angle_front,
            front_slip,
        );
        let rear_lateral = CarState::lateral(
            params,
            params.corner_stiffness_rear,
            slip_angle_rear,
            rear_slip,
        );
        let full_traction = params.traction_gain.times(
            self.throttle.minus(self.brake.times(velocity.x.signum())),
        );
        self.wheel_rotation_speed = full_traction.times(delta_time).over(
            params.wheel_circumference,
        ).times(Fixed::from_int(2)).times(Fixed::from_raw(PI));
        let traction = if rear_slip {
            full_traction.half()
        } else {
            full_traction
        };

        // Force and torque on the body.
        let front = Vector3::new(zero, zero, self.steering_angle.cos().times(front_lateral));
        let rear = Vector3::new(zero, zero, rear_lateral);
        let drive = Vector3::new(traction, zero, zero);
        let resistance = Vector3::new(
            CarState::resist(params, velocity.x),
            zero,
            CarState::resist(params, velocity.z),
        );
        let force = drive.plus(front).plus(rear).plus(resistance);
        let torque = params.wheelbase_b.times(front_lateral).minus(
            params.wheelbase_c.times(rear_lateral),
        );

        let acceleration = force.over(params.mass);
        let angular_acceleration = torque.over(params.inertia);

        // Back into the world, by the heading before the step.
        let ax = cos_ang.times(acceleration.z).plus(sin_ang.times(acceleration.x));
        let az = sin_ang.neg().times(acceleration.z).plus(cos_ang.times(acceleration.x));

        self.velocity_wc.x = self.velocity_wc.x.plus(delta_time.times(ax));
        self.velocity_wc.z = self.velocity_wc.z.plus(delta_time.times(az));

        self.position_wc.x = self.position_wc.x.plus(delta_time.times(self.velocity_wc.x));
        self.position_wc.z = self.position_wc.z.plus(delta_time.times(self.velocity_wc.z));

        self.angular_velocity = self.angular_velocity.plus(
            delta_time.times(angular_acceleration),
        );
        self.angle = self.angle.plus(delta_time.times(self.angular_velocity));
    }

    /// The state one step of `delta_time` later. `self` stays as it is.
    pub fn peek_time_step(
        &self,
        params: &CarParams,
        delta_time: Fixed,
        front_slip: bool,
        rear_slip: bool,
    ) -> (r: CarState)
        requires
            params.wf(),
        ensures
            r == self.after_step(*params, delta_time, front_slip, rear_slip),
    {
        let mut future_state = *self;
        future_state.perform_physics_time_step(params, delta_time, front_slip, rear_slip);
        future_state
    }
}

/// What the driver asks of the car over one time step.
#[derive(Clone, Copy, Debug, PartialEq, Eq, Structural)]
pub struct ControlInput {
    /// Length of the step.
    pub delta_time: Fixed,
    pub throttle: Fixed,
    pub brake: Fixed,
    pub steering_angle: Fixed,
    /// Whether the handbrake is held: both axles then slip.
    pub handbrake: bool,
}

impl CarState {
    /// The state with the controls of `input` set.
    pub open spec fn with_controls(self, input: ControlInput) -> CarState {
        CarState {
            steering_angle: input.steering_angle,
            throttle: input.throttle,
            brake: input.brake,
            ..self
        }
    }

    /// The state after the first `n` inputs of `inputs`, each set and then
    /// advanced by its own time step.
    pub open spec fn after_inputs(self, params: CarParams, inputs: Seq<ControlInput>, n: nat) -> CarState
        decreases n,
    {
        if n == 0 || n > inputs.len() {
            self
        } else {
            let input = inputs[n - 1];
            self.after_inputs(params, inputs, (n - 1) as nat).with_controls(input).after_step(
                params,
                input.delta_time,
                input.handbrake,
                input.handbrake,
            )
        }
    }

    /// Replays `inputs` from this state and returns the state after each of
    /// them: the trajectory. The same state, constants and inputs give the
    /// same trajectory.
    pub fn replay(&self, params: &CarParams, inputs: &Vec<ControlInput>) -> (r: Vec<CarState>)
        requires
            params.wf(),
        ensures
            r@.len() == inputs@.len(),
            forall|i: int|
                0 <= i < inputs@.len() ==> r@[i] == self.after_inputs(
                    *params,
                    inputs@,
                    (i + 1) as nat,
                ),
    {
        let mut trajectory: Vec<CarState> = Vec::new();
        let mut state = *self;
        let mut i: usize = 0;
        while i < inputs.len()
            invariant
                params.wf(),
                i <= inputs@.len(),
                trajectory@.len() == i,
                state == self.after_inputs(*params, inputs@, i as nat),
                forall|k: int|
                    0 <= k < i ==> trajectory@[k] == self.after_inputs(
                        *params,
                        inputs@,
                        (k + 1) as nat,
                    ),
            decreases inputs.len() - i,
        {
            let input = inputs[i];
            state.steering_angle = input.steering_angle;
            state.throttle = input.throttle;
            state.brake = input.brake;
            state.perform_physics_time_step(
                params,
                input.delta_time,
                input.handbrake,
                input.handbrake,
            );
            trajectory.push(state);
            i += 1;
        }
        trajectory
    }
}

/// The same start and the same inputs give the same trajectory: two runs
/// from one state that are given the same first `n` inputs are in the same
/// state after each of them, whatever they are given later.
pub proof fn lemma_same_inputs_same_trajectory(
    start: CarState,
    params: CarParams,
    first: Seq<ControlInput>,
    second: Seq<ControlInput>,
    n: nat,
)
    requires
        n <= first.len(),
        n <= second.len(),
        forall|i: int| 0 <= i < n ==> first[i] == second[i],
    ensures
        forall|k: nat|
            k <= n ==> #[trigger] start.after_inputs(params, first, k) == start.after_inputs(
                params,
                second,
                k,
            ),
    decreases n,
{
    if n > 0 {
        let before = (n - 1) as nat;
        lemma_same_inputs_same_trajectory(start, params, first, second, before);
        assert(start.after_inputs(params, first, before) == start.after_inputs(
            params,
            second,
            before,
        ));
        assert(first[n - 1] == second[n - 1]);
        assert(start.after_inputs(params, first, n) == start.after_inputs(params, second, n));
    }
}

/// What a look ahead shows is what the step brings: the state after one
/// input is the state that `peek_time_step` returns for the car with the
/// controls of that input set.
pub proof fn lemma_peek_foretells_the_step(state: CarState, params: CarParams, input: ControlInput)
    ensures
        state.after_inputs(params, seq![input], 1) == state.with_controls(input).after_step(
            params,
            input.delta_time,
            input.handbrake,
            input.handbrake,
        ),
{
    reveal_with_fuel(CarState::after_inputs, 2);
}

/// A step moves the car on the ground and nothing else: the height and the
/// speed along it stay, and so do the controls.
pub proof fn lemma_step_keeps_height_and_controls(
    state: CarState,
    params: CarParams,
    delta_time: Fixed,
    front_slip: bool,
    rear_slip: bool,
)
    ensures
        state.after_step(params, delta_time, front_slip, rear_slip).position_wc.y
            == state.position_wc.y,
        state.after_step(params, delta_time, front_slip, rear_slip).velocity_wc.y
            == state.velocity_wc.y,
        state.after_step(params, delta_time, front_slip, rear_slip).steering_angle
            == state.steering_angle,
        state.after_step(params, delta_time, front_slip, rear_slip).throttle == state.throttle,
        state.after_step(params, delta_time, front_slip, rear_slip).brake == state.brake,
{
}

/// At rest nothing is asked of the arctangent: a car whose velocity on the
/// ground is zero has no sideslip and no yaw angle at its axles, whatever
/// its heading, so that its front tyres slip by the steering angle alone and
/// its rear tyres not at all.
pub proof fn lemma_rest_guard(state: CarState, params: CarParams)
    requires
        state.velocity_wc.x@ == 0,
        state.velocity_wc.z@ == 0,
    ensures
        state.local_velocity() == Vector3::zeros(),
        state.rot_angle(params) == Fixed::from_raw(0),
        state.sideslip() == Fixed::from_raw(0),
        state.slip_angle_front(params) == state.steering_angle.neg(),
        state.slip_angle_rear(params) == Fixed::from_raw(0),
{
    lemma_times_zero(state.angle.sin());
    lemma_times_zero(state.angle.cos());
    lemma_times_zero(state.angle.sin().neg());
    lemma_plus_zero(Fixed::from_raw(0));
    lemma_plus_zero(state.steering_angle);
}

/// A car that rolls straight ahead goes on straight ahead: with its wheels
/// straight, no turning and no motion across its axis, a car that moves
/// forwards has no slip at its tyres, so that after a step it still does not
/// turn and has kept its heading.
pub proof fn lemma_straight_ahead_stays_straight(
    state: CarState,
    params: CarParams,
    delta_time: Fixed,
    front_slip: bool,
    rear_slip: bool,
)
    requires
        params.wf(),
        params.max_grip@ >= 0,
        state.local_velocity().x@ > 0,
        state.local_velocity().z@ == 0,
        state.angular_velocity@ == 0,
        state.steering_angle@ == 0,
    ensures
        state.slip_angle_front(params) == Fixed::from_raw(0),
        state.slip_angle_rear(params) == Fixed::from_raw(0),
        state.after_step(params, delta_time, front_slip, rear_slip).angular_velocity
            == Fixed::from_raw(0),
        state.after_step(params, delta_time, front_slip, rear_slip).angle == state.angle,
{
    let zero = Fixed::from_raw(0);
    let v = state.local_velocity();
    assert(state.angular_velocity == zero && state.steering_angle == zero && v.z == zero);
    lemma_no_slip_no_turn(state, params, delta_time, front_slip, rear_slip);
    lemma_times_zero(params.wheelbase.times(Fixed::from_raw(HALF)));
    lemma_atan2_along_the_axis(v.x);
    lemma_plus_zero(zero);
}

/// Tyres that do not slip turn nothing: where both slip angles are zero, a
/// car that does not turn still does not turn after a step, and has kept
/// its heading.
pub proof fn lemma_no_slip_no_turn(
    state: CarState,
    params: CarParams,
    delta_time: Fixed,
    front_slip: bool,
    rear_slip: bool,
)
    requires
        params.wf(),
        params.max_grip@ >= 0,
        state.angular_velocity@ == 0,
    ensures
        state.slip_angle_front(params) == Fixed::from_raw(0) && state.slip_angle_rear(params)
            == Fixed::from_raw(0) ==> state.after_step(
            params,
            delta_time,
            front_slip,
            rear_slip,
        ).angular_velocity == Fixed::from_raw(0) && state.after_step(
            params,
            delta_time,
            front_slip,
            rear_slip,
        ).angle == state.angle,
{
    let zero = Fixed::from_raw(0);
    if state.slip_angle_front(params) == zero && state.slip_angle_rear(params) == zero {
        assert(state.angular_velocity == zero);
        let weight = params.mass.times(params.gravity).times(Fixed::from_raw(HALF));
        lemma_times_zero(params.corner_stiffness_front);
        lemma_times_zero(params.corner_stiffness_rear);
        assert(params.max_grip.neg()@ <= 0) by {
            reveal(Fixed::spec_neg);
        }
        assert(limit(zero, params.max_grip.neg(), params.max_grip) == zero);
        lemma_times_zero(weight);
        lemma_times_zero(Fixed::from_raw(HALF));
        let f = state.forces(params, delta_time, front_slip, rear_slip);
        assert(f.front_lateral == zero && f.rear_lateral == zero);
        lemma_times_zero(params.wheelbase_b);
        lemma_times_zero(params.wheelbase_c);
        lemma_plus_zero(zero);
        lemma_zero_over(params.inertia);
        assert(CarState::angular_acceleration(params, f) == zero);
        lemma_times_zero(delta_time);
        lemma_plus_zero(state.angle);
    }
}

/// From rest a car gains speed along its heading and nowhere else: a car
/// at rest that faces along the third axis, with its wheels straight and
/// without turning, has after a step the speed that the engine and the
/// brake give its mass in that time, along the third axis, and none along
/// the first.
pub proof fn lemma_acceleration_from_rest(state: CarState, params: CarParams, delta_time: Fixed)
    requires
        params.wf(),
        params.max_grip@ >= 0,
        state.velocity_wc.x@ == 0,
        state.velocity_wc.z@ == 0,
        state.angle@ == 0,
        state.angular_velocity@ == 0,
        state.steering_angle@ == 0,
    ensures
        state.after_step(params, delta_time, false, false).velocity_wc.z == delta_time.times(
            params.traction_gain.times(state.throttle.minus(state.brake)).over(params.mass),
        ),
        state.after_step(params, delta_time, false, false).velocity_wc.x == Fixed::from_raw(0),
        state.after_step(params, delta_time, false, false).angle == Fixed::from_raw(0),
{
    let zero = Fixed::from_raw(0);
    let one = Fixed::from_raw(SCALE);
    assert(state.angle == zero && state.angular_velocity == zero && state.steering_angle == zero);
    assert(state.velocity_wc.x == zero && state.velocity_wc.z == zero);
    lemma_rest_guard(state, params);
    lemma_sin_cos_of_zero();
    lemma_plus_zero(zero);
    assert(state.slip_angle_front(params) == zero);
    lemma_no_slip_no_turn(state, params, delta_time, false, false);
    let f = state.forces(params, delta_time, false, false);
    let weight = params.mass.times(params.gravity).times(Fixed::from_raw(HALF));
    lemma_times_zero(params.corner_stiffness_front);
    lemma_times_zero(params.corner_stiffness_rear);
    assert(params.max_grip.neg()@ <= 0) by {
        reveal(Fixed::spec_neg);
    }
    lemma_times_zero(weight);
    assert(f.front_lateral == zero && f.rear_lateral == zero);
    // The brake of a car at rest works as on one that moves forwards.
    lemma_times_one(state.brake);
    let drive = params.traction_gain.times(state.throttle.minus(state.brake));
    assert(f.traction == drive);
    // Nothing resists a car at rest.
    lemma_times_zero(params.rolling_resistance);
    lemma_times_zero(params.drag);
    lemma_times_zero(zero.abs());
    assert(CarState::resistance(params, zero) == zero);
    lemma_times_zero(one);
    lemma_plus_zero(drive);
    lemma_zero_over(params.mass);
    let a = state.local_acceleration(params, f);
    assert(a.x == drive.over(params.mass));
    assert(a.z == zero);
    // Back into the world: the heading is along the third axis.
    lemma_times_one(a.x);
    lemma_times_zero(a.x);
    lemma_times_zero(zero.neg());
    lemma_plus_zero(a.x);
    lemma_times_zero(delta_time);
    lemma_plus_zero(delta_time.times(a.x));
}

/// Whether a car with the constants of the game is at rest on the ground,
/// within a million units of the origin and of its zero heading, with its
/// throttle and its brake between nothing and a hundred.
pub open spec fn at_rest_in_range(state: CarState) -> bool {
    &&& state.velocity_wc.x@ == 0
    &&& state.velocity_wc.z@ == 0
    &&& magnitude(state.position_wc.x@) <= 1_000_000 * SCALE
    &&& magnitude(state.position_wc.z@) <= 1_000_000 * SCALE
    &&& magnitude(state.angle@) <= 1_000_000 * SCALE
    &&& magnitude(state.angular_velocity@) <= 1_000_000 * SCALE
    &&& 0 <= state.throttle@ <= 100 * SCALE
    &&& 0 <= state.brake@ <= 100 * SCALE
}

/// A step from rest stays in range, whatever the steering and the heading:
/// over a step of at most a unit of time, a car at rest gains no more than
/// twenty-seven units of speed along either axis of the ground and ten of
/// rate of turn, moves no further than twenty-seven units along either axis,
/// and turns by no more than its rate of turn and ten. None of these numbers
/// has run into a bound of what can be held.
pub proof fn lemma_step_from_rest_stays_in_range(
    state: CarState,
    delta_time: Fixed,
    front_slip: bool,
    rear_slip: bool,
)
    requires
        at_rest_in_range(state),
        0 <= delta_time@ <= SCALE,
    ensures
        ({
            let next = state.after_step(CarParams::standard(), delta_time, front_slip, rear_slip);
            &&& magnitude(next.velocity_wc.x@) <= 27 * SCALE
            &&& magnitude(next.velocity_wc.z@) <= 27 * SCALE
            &&& magnitude(next.position_wc.x@ - state.position_wc.x@) <= 27 * SCALE
            &&& magnitude(next.position_wc.z@ - state.position_wc.z@) <= 27 * SCALE
            &&& magnitude(next.angular_velocity@ - state.angular_velocity@) <= 10 * SCALE
            &&& magnitude(next.angle@ - state.angle@) <= 1_000_010 * SCALE
        }),
{
    let params = CarParams::standard();
    let zero = Fixed::from_raw(0);
    let one = Fixed::from_raw(SCALE);
    let half = Fixed::from_raw(HALF);
    let s = state.angle.sin();
    let c = state.angle.cos();
    lemma_rest_guard(state, params);
    lemma_sin_cos_within_one(state.angle);
    lemma_sin_cos_within_one(state.steering_angle);
    lemma_plus_zero(zero);

    // The load on an axle.
    lemma_times_within(params.mass, params.gravity, 600 * SCALE, 9_800_000_000);
    lemma_times_within(params.mass.times(params.gravity), half, 5880 * SCALE, HALF as int);
    let weight = params.mass.times(params.gravity).times(half);
    assert(magnitude(weight@) <= 2940 * SCALE);

    // The tyres: the front ones hold within their grip, the rear ones do
    // not slip at all.
    let grip = params.max_grip;
    assert(grip.neg()@ == -2 * SCALE) by {
        reveal(Fixed::spec_neg);
    }
    let held_front = limit(
        params.corner_stiffness_front.times(state.slip_angle_front(params)),
        grip.neg(),
        grip,
    );
    assert(magnitude(held_front@) <= 2 * SCALE);
    lemma_times_within(held_front, weight, 2 * SCALE, 2940 * SCALE);
    lemma_times_fraction(held_front.times(weight), half);
    let front = CarState::lateral_force(
        params,
        params.corner_stiffness_front,
        state.slip_angle_front(params),
        front_slip,
    );
    assert(magnitude(front@) <= 5880 * SCALE);
    lemma_times_zero(params.corner_stiffness_rear);
    lemma_times_zero(weight);
    lemma_times_zero(half);
    let rear = CarState::lateral_force(
        params,
        params.corner_stiffness_rear,
        state.slip_angle_rear(params),
        rear_slip,
    );
    assert(rear == zero);

    // The engine and the brake.
    lemma_times_one(state.brake);
    assert(magnitude(state.throttle.minus(state.brake)@) <= 100 * SCALE) by {
        reveal(Fixed::spec_minus);
    }
    lemma_times_within(
        params.traction_gain,
        state.throttle.minus(state.brake),
        100 * SCALE,
        100 * SCALE,
    );
    let full = state.full_traction(params);
    assert(magnitude(full@) <= 10_000 * SCALE);
    lemma_times_fraction(full, half);
    let drive = state.traction(params, rear_slip);
    assert(magnitude(drive@) <= 10_000 * SCALE);

    // Nothing resists a car at rest.
    lemma_times_zero(params.rolling_resistance);
    lemma_times_zero(params.drag);
    lemma_times_zero(zero.abs());
    assert(CarState::resistance(params, zero) == zero) by {
        reveal(Fixed::spec_neg);
    }

    // The acceleration in the frame of the car.
    let f = state.forces(params, delta_time, front_slip, rear_slip);
    let turned = state.steering_angle.cos().times(front);
    lemma_times_within(state.steering_angle.cos(), front, SCALE as int, 5880 * SCALE);
    lemma_plus_zero(drive);
    lemma_plus_zero(turned);
    let a = state.local_acceleration(params, f);
    lemma_over_whole_within(drive, 600, 10_000 * SCALE);
    lemma_over_whole_within(turned, 600, 5880 * SCALE);
    assert(a.x == drive.over(Fixed::from_int(600)));
    assert(a.z == turned.over(Fixed::from_int(600)));
    assert(magnitude(a.x@) <= 16_666_666_666);
    assert(magnitude(a.z@) <= 9_800_000_000);

    // Back into the world.
    assert(magnitude(s.neg()@) <= SCALE) by {
        reveal(Fixed::spec_neg);
    }
    lemma_times_within(c, a.z, SCALE as int, 9_800_000_000);
    lemma_times_within(s, a.x, SCALE as int, 16_666_666_666);
    lemma_times_within(s.neg(), a.z, SCALE as int, 9_800_000_000);
    lemma_times_within(c, a.x, SCALE as int, 16_666_666_666);
    let ax = c.times(a.z).plus(s.times(a.x));
    let az = s.neg().times(a.z).plus(c.times(a.x));
    assert(magnitude(ax@) <= 27 * SCALE && magnitude(az@) <= 27 * SCALE) by {
        reveal(Fixed::spec_plus);
    }

    // The new velocity and the new position.
    lemma_times_within(delta_time, ax, SCALE as int, 27 * SCALE);
    lemma_times_within(delta_time, az, SCALE as int, 27 * SCALE);
    lemma_plus_zero(delta_time.times(ax));
    lemma_plus_zero(delta_time.times(az));
    let vx = state.velocity_wc.x.plus(delta_time.times(ax));
    let vz = state.velocity_wc.z.plus(delta_time.times(az));
    assert(state.velocity_wc.x == zero && state.velocity_wc.z == zero);
    assert(vx == delta_time.times(ax) && vz == delta_time.times(az));
    lemma_times_within(delta_time, vx, SCALE as int, 27 * SCALE);
    lemma_times_within(delta_time, vz, SCALE as int, 27 * SCALE);

    // The new rate of turn and the new heading.
    lemma_times_one(front);
    lemma_times_zero(params.wheelbase_c);
    lemma_plus_zero(front);
    lemma_over_whole_within(front, 600, 5880 * SCALE);
    let aa = CarState::angular_acceleration(params, f);
    assert(aa == front.over(Fixed::from_int(600)));
    lemma_times_within(delta_time, aa, SCALE as int, 9_800_000_000);
    let w = state.angular_velocity.plus(delta_time.times(aa));
    assert(magnitude(w@ - state.angular_velocity@) <= 10 * SCALE) by {
        reveal(Fixed::spec_plus);
    }
    lemma_times_within(delta_time, w, SCALE as int, 1_000_010 * SCALE);
    reveal(Fixed::spec_plus);
}

} // verus!
