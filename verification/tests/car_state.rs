use racing_physics::car_state::{CarParams, CarState, ControlInput};
use racing_physics::fixed::Fixed;
use racing_physics::vector::Vector3;

#[test]
fn new_state_is_at_rest_at_the_origin() {
    let state = CarState::new();
    assert_eq!(state.position_wc, Vector3::zeros());
    assert_eq!(state.velocity_wc, Vector3::zeros());
    assert_eq!(state.angle.raw, 0);
    assert_eq!(state.angular_velocity.raw, 0);
    assert_eq!(state.steering_angle.raw, 0);
    assert_eq!(state.throttle.raw, 0);
    assert_eq!(state.brake.raw, 0);
    assert_eq!(state.wheel_rotation_speed.raw, 0);
}

#[test]
fn standard_constants() {
    let p = CarParams::standard();
    assert_eq!(p.drag, Fixed::from_int(5));
    assert_eq!(p.rolling_resistance, Fixed::from_int(30));
    assert_eq!(p.corner_stiffness_front, Fixed::from_int(-5));
    assert_eq!(p.corner_stiffness_rear.raw, -5_200_000_000);
    assert_eq!(p.max_grip, Fixed::from_int(2));
    assert_eq!(p.wheelbase_b, Fixed::from_int(1));
    assert_eq!(p.wheelbase_c, Fixed::from_int(1));
    assert_eq!(p.wheelbase, Fixed::from_int(1));
    assert_eq!(p.mass, Fixed::from_int(600));
    assert_eq!(p.inertia, Fixed::from_int(600));
    assert_eq!(p.wheel_circumference.raw, 1_400_000_000);
    assert_eq!(p.gravity.raw, 9_800_000_000);
    assert_eq!(p.traction_gain, Fixed::from_int(100));
}

#[test]
fn acceleration_from_rest() {
    // Full throttle, no brake, wheels straight, a step of 0.016: the car
    // gains 0.016 * (100 * 100) / 600 along its heading and nothing else.
    let params = CarParams::standard();
    let mut state = CarState::new();
    state.throttle = Fixed::from_int(100);
    state.perform_physics_time_step(&params, Fixed::from_raw(16_000_000), false, false);
    assert_eq!(state.velocity_wc.z.raw, 266_666_666);
    assert_eq!(state.velocity_wc.x.raw, 0);
    assert_eq!(state.velocity_wc.y.raw, 0);
    assert_eq!(state.position_wc.z.raw, 4_266_666);
    assert_eq!(state.position_wc.x.raw, 0);
    assert_eq!(state.angle.raw, 0);
    assert_eq!(state.angular_velocity.raw, 0);
    assert_eq!(state, CarState {
        position_wc: Vector3::new(Fixed::from_raw(0), Fixed::from_raw(0), Fixed::from_raw(4266666)),
        velocity_wc: Vector3::new(Fixed::from_raw(0), Fixed::from_raw(0), Fixed::from_raw(266666666)),
        angle: Fixed::from_raw(0),
        angular_velocity: Fixed::from_raw(0),
        steering_angle: Fixed::from_raw(0),
        throttle: Fixed::from_raw(100000000000),
        brake: Fixed::from_raw(0),
        wheel_rotation_speed: Fixed::from_raw(718078320909),
    });
}

#[test]
fn step_from_rest_with_steering() {
    // At rest the slip angles are the steering angle alone: the front
    // tyres push sideways and the car begins to turn.
    let params = CarParams::standard();
    let mut state = CarState::new();
    state.steering_angle = Fixed::from_raw(196_349_541);
    state.perform_physics_time_step(&params, Fixed::from_raw(16_000_000), false, false);
    assert_eq!(state, CarState {
        position_wc: Vector3::new(Fixed::from_raw(1207841), Fixed::from_raw(0), Fixed::from_raw(0)),
        velocity_wc: Vector3::new(Fixed::from_raw(75490081), Fixed::from_raw(0), Fixed::from_raw(0)),
        angle: Fixed::from_raw(1231504),
        angular_velocity: Fixed::from_raw(76969020),
        steering_angle: Fixed::from_raw(196349541),
        throttle: Fixed::from_raw(0),
        brake: Fixed::from_raw(0),
        wheel_rotation_speed: Fixed::from_raw(0),
    });
}

#[test]
fn step_of_a_moving_car() {
    let params = CarParams::standard();
    let start = CarState {
        position_wc: Vector3::new(Fixed::from_raw(3000000000), Fixed::from_raw(31000000000), Fixed::from_raw(-7000000000)),
        velocity_wc: Vector3::new(Fixed::from_raw(1000000000), Fixed::from_raw(0), Fixed::from_raw(10000000000)),
        angle: Fixed::from_raw(300000000),
        angular_velocity: Fixed::from_raw(100000000),
        steering_angle: Fixed::from_raw(50000000),
        throttle: Fixed::from_raw(80000000000),
        brake: Fixed::from_raw(10000000000),
        wheel_rotation_speed: Fixed::from_raw(0),
    };
    let mut state = start;
    state.perform_physics_time_step(&params, Fixed::from_raw(16_000_000), false, false);
    assert_eq!(state, CarState {
        position_wc: Vector3::new(Fixed::from_raw(3019564525), Fixed::from_raw(31000000000), Fixed::from_raw(-6838324908)),
        velocity_wc: Vector3::new(Fixed::from_raw(1222782825), Fixed::from_raw(0), Fixed::from_raw(10104693297)),
        angle: Fixed::from_raw(301798385),
        angular_velocity: Fixed::from_raw(112399091),
        steering_angle: Fixed::from_raw(50000000),
        throttle: Fixed::from_raw(80000000000),
        brake: Fixed::from_raw(10000000000),
        wheel_rotation_speed: Fixed::from_raw(502654824640),
    });
    // The height is left alone, and so are the controls.
    assert_eq!(state.position_wc.y, start.position_wc.y);
    assert_eq!(state.velocity_wc.y, start.velocity_wc.y);
    assert_eq!(state.steering_angle, start.steering_angle);
    assert_eq!(state.throttle, start.throttle);
    assert_eq!(state.brake, start.brake);
}

#[test]
fn slipping_axles_lose_half_their_grip() {
    let params = CarParams::standard();
    let start = CarState {
        position_wc: Vector3::new(Fixed::from_raw(3000000000), Fixed::from_raw(31000000000), Fixed::from_raw(-7000000000)),
        velocity_wc: Vector3::new(Fixed::from_raw(1000000000), Fixed::from_raw(0), Fixed::from_raw(10000000000)),
        angle: Fixed::from_raw(300000000),
        angular_velocity: Fixed::from_raw(100000000),
        steering_angle: Fixed::from_raw(50000000),
        throttle: Fixed::from_raw(80000000000),
        brake: Fixed::from_raw(10000000000),
        wheel_rotation_speed: Fixed::from_raw(0),
    };
    let dt = Fixed::from_raw(16_000_000);
    assert_eq!(start.peek_time_step(&params, dt, true, false), CarState {
        position_wc: Vector3::new(Fixed::from_raw(3018830676), Fixed::from_raw(31000000000), Fixed::from_raw(-6838097902)),
        velocity_wc: Vector3::new(Fixed::from_raw(1176917272), Fixed::from_raw(0), Fixed::from_raw(10118881175)),
        angle: Fixed::from_raw(301029266),
        angular_velocity: Fixed::from_raw(64329176),
        steering_angle: Fixed::from_raw(50000000),
        throttle: Fixed::from_raw(80000000000),
        brake: Fixed::from_raw(10000000000),
        wheel_rotation_speed: Fixed::from_raw(502654824640),
    });
    assert_eq!(start.peek_time_step(&params, dt, false, true), CarState {
        position_wc: Vector3::new(Fixed::from_raw(3018483210), Fixed::from_raw(31000000000), Fixed::from_raw(-6839553567)),
        velocity_wc: Vector3::new(Fixed::from_raw(1155200646), Fixed::from_raw(0), Fixed::from_raw(10027902098)),
        angle: Fixed::from_raw(302468311),
        angular_velocity: Fixed::from_raw(154269461),
        steering_angle: Fixed::from_raw(50000000),
        throttle: Fixed::from_raw(80000000000),
        brake: Fixed::from_raw(10000000000),
        wheel_rotation_speed: Fixed::from_raw(502654824640),
    });
    assert_eq!(start.peek_time_step(&params, dt, true, true), CarState {
        position_wc: Vector3::new(Fixed::from_raw(3017749361), Fixed::from_raw(31000000000), Fixed::from_raw(-6839326561)),
        velocity_wc: Vector3::new(Fixed::from_raw(1109335093), Fixed::from_raw(0), Fixed::from_raw(10042089977)),
        angle: Fixed::from_raw(301699192),
        angular_velocity: Fixed::from_raw(106199545),
        steering_angle: Fixed::from_raw(50000000),
        throttle: Fixed::from_raw(80000000000),
        brake: Fixed::from_raw(10000000000),
        wheel_rotation_speed: Fixed::from_raw(502654824640),
    });
}

#[test]
fn brake_works_against_the_direction_of_travel() {
    // The car rolls backwards along its own axis: the brake pushes it
    // forwards.
    let params = CarParams::standard();
    let start = CarState {
        position_wc: Vector3::new(Fixed::from_raw(0), Fixed::from_raw(0), Fixed::from_raw(0)),
        velocity_wc: Vector3::new(Fixed::from_raw(0), Fixed::from_raw(0), Fixed::from_raw(-5000000000)),
        angle: Fixed::from_raw(0),
        angular_velocity: Fixed::from_raw(0),
        steering_angle: Fixed::from_raw(0),
        throttle: Fixed::from_raw(0),
        brake: Fixed::from_raw(50000000000),
        wheel_rotation_speed: Fixed::from_raw(0),
    };
    let next = start.peek_time_step(&params, Fixed::from_raw(16_000_000), false, false);
    assert_eq!(next, CarState {
        position_wc: Vector3::new(Fixed::from_raw(-2508800), Fixed::from_raw(0), Fixed::from_raw(-77749333)),
        velocity_wc: Vector3::new(Fixed::from_raw(-156800000), Fixed::from_raw(0), Fixed::from_raw(-4859333334)),
        angle: Fixed::from_raw(-2508800),
        angular_velocity: Fixed::from_raw(-156800000),
        steering_angle: Fixed::from_raw(0),
        throttle: Fixed::from_raw(0),
        brake: Fixed::from_raw(50000000000),
        wheel_rotation_speed: Fixed::from_raw(359039160451),
    });
    assert!(next.velocity_wc.z.gt(start.velocity_wc.z));
}

#[test]
fn peek_leaves_the_state_alone_and_repeats_itself() {
    let params = CarParams::standard();
    let start = CarState {
        position_wc: Vector3::new(Fixed::from_raw(3000000000), Fixed::from_raw(31000000000), Fixed::from_raw(-7000000000)),
        velocity_wc: Vector3::new(Fixed::from_raw(1000000000), Fixed::from_raw(0), Fixed::from_raw(10000000000)),
        angle: Fixed::from_raw(300000000),
        angular_velocity: Fixed::from_raw(100000000),
        steering_angle: Fixed::from_raw(50000000),
        throttle: Fixed::from_raw(80000000000),
        brake: Fixed::from_raw(10000000000),
        wheel_rotation_speed: Fixed::from_raw(0),
    };
    let kept = start;
    let dt = Fixed::from_raw(16_000_000);
    let first = start.peek_time_step(&params, dt, false, true);
    let second = start.peek_time_step(&params, dt, false, true);
    assert_eq!(start, kept);
    assert_eq!(first, second);
    let mut advanced = start;
    advanced.perform_physics_time_step(&params, dt, false, true);
    assert_eq!(advanced, first);
}

#[test]
fn step_of_no_length_changes_only_the_wheel_turn() {
    let params = CarParams::standard();
    let start = CarState {
        position_wc: Vector3::new(Fixed::from_raw(3000000000), Fixed::from_raw(31000000000), Fixed::from_raw(-7000000000)),
        velocity_wc: Vector3::new(Fixed::from_raw(1000000000), Fixed::from_raw(0), Fixed::from_raw(10000000000)),
        angle: Fixed::from_raw(300000000),
        angular_velocity: Fixed::from_raw(100000000),
        steering_angle: Fixed::from_raw(50000000),
        throttle: Fixed::from_raw(80000000000),
        brake: Fixed::from_raw(10000000000),
        wheel_rotation_speed: Fixed::from_raw(0),
    };
    let next = start.peek_time_step(&params, Fixed::zero(), false, false);
    assert_eq!(next.position_wc, start.position_wc);
    assert_eq!(next.velocity_wc, start.velocity_wc);
    assert_eq!(next.angle, start.angle);
    assert_eq!(next.angular_velocity, start.angular_velocity);
    assert_eq!(next.wheel_rotation_speed.raw, 0);
}

#[test]
fn replay_gives_the_same_trajectory_twice() {
    let params = CarParams::standard();
    let mut start = CarState::new();
    start.position_wc.y = Fixed::from_int(40);
    let inputs = vec![
        ControlInput {
            delta_time: Fixed::from_raw(16000000),
            throttle: Fixed::from_raw(100000000000),
            brake: Fixed::from_raw(0),
            steering_angle: Fixed::from_raw(0),
            handbrake: false,
        },
        ControlInput {
            delta_time: Fixed::from_raw(16000000),
            throttle: Fixed::from_raw(100000000000),
            brake: Fixed::from_raw(0),
            steering_angle: Fixed::from_raw(100000000),
            handbrake: false,
        },
        ControlInput {
            delta_time: Fixed::from_raw(20000000),
            throttle: Fixed::from_raw(50000000000),
            brake: Fixed::from_raw(20000000000),
            steering_angle: Fixed::from_raw(-100000000),
            handbrake: true,
        },
        ControlInput {
            delta_time: Fixed::from_raw(16000000),
            throttle: Fixed::from_raw(0),
            brake: Fixed::from_raw(100000000000),
            steering_angle: Fixed::from_raw(0),
            handbrake: false,
        },
    ];
    let first = start.replay(&params, &inputs);
    let second = start.replay(&params, &inputs);
    assert_eq!(first, second);
    assert_eq!(first.len(), 4);
    assert_eq!(first[0], CarState {
        position_wc: Vector3::new(Fixed::from_raw(0), Fixed::from_raw(40000000000), Fixed::from_raw(4266666)),
        velocity_wc: Vector3::new(Fixed::from_raw(0), Fixed::from_raw(0), Fixed::from_raw(266666666)),
        angle: Fixed::from_raw(0),
        angular_velocity: Fixed::from_raw(0),
        steering_angle: Fixed::from_raw(0),
        throttle: Fixed::from_raw(100000000000),
        brake: Fixed::from_raw(0),
        wheel_rotation_speed: Fixed::from_raw(718078320909),
    });
    assert_eq!(first[1], CarState {
        position_wc: Vector3::new(Fixed::from_raw(624066), Fixed::from_raw(40000000000), Fixed::from_raw(12796434)),
        velocity_wc: Vector3::new(Fixed::from_raw(39004163), Fixed::from_raw(0), Fixed::from_raw(533110517)),
        angle: Fixed::from_raw(627200),
        angular_velocity: Fixed::from_raw(39200000),
        steering_angle: Fixed::from_raw(100000000),
        throttle: Fixed::from_raw(100000000000),
        brake: Fixed::from_raw(0),
        wheel_rotation_speed: Fixed::from_raw(718078320909),
    });
    assert_eq!(first[2], CarState {
        position_wc: Vector3::new(Fixed::from_raw(202543), Fixed::from_raw(40000000000), Fixed::from_raw(24447788)),
        velocity_wc: Vector3::new(Fixed::from_raw(-21076168), Fixed::from_raw(0), Fixed::from_raw(582567702)),
        angle: Fixed::from_raw(568068),
        angular_velocity: Fixed::from_raw(-2956636),
        steering_angle: Fixed::from_raw(-100000000),
        throttle: Fixed::from_raw(50000000000),
        brake: Fixed::from_raw(20000000000),
        wheel_rotation_speed: Fixed::from_raw(269279370341),
    });
    assert_eq!(first[3], CarState {
        position_wc: Vector3::new(Fixed::from_raw(332494), Fixed::from_raw(40000000000), Fixed::from_raw(29493757)),
        velocity_wc: Vector3::new(Fixed::from_raw(8121976), Fixed::from_raw(0), Fixed::from_raw(315373112)),
        angle: Fixed::from_raw(544016),
        angular_velocity: Fixed::from_raw(-1503272),
        steering_angle: Fixed::from_raw(0),
        throttle: Fixed::from_raw(0),
        brake: Fixed::from_raw(100000000000),
        wheel_rotation_speed: Fixed::from_raw(-718078320909),
    });
    assert_eq!(start.replay(&params, &Vec::new()), Vec::new());
}

#[test]
fn step_from_rest_stays_in_range() {
    let params = CarParams::standard();
    let limit = 27_000_000_000i64;
    for steering in [-3_141_592_654i64, -196_349_541, 0, 196_349_541, 1_570_796_327, i64::MAX] {
        for angle in [-1_000_000_000_000_000i64, -1, 0, 785_398_163, 1_000_000_000_000_000] {
            for (throttle, brake) in [(0, 0), (100, 0), (0, 100), (100, 100)] {
                for slip in [false, true] {
                    let mut state = CarState::new();
                    state.steering_angle = Fixed::from_raw(steering);
                    state.angle = Fixed::from_raw(angle);
                    state.throttle = Fixed::from_int(throttle);
                    state.brake = Fixed::from_int(brake);
                    let next = state.peek_time_step(&params, Fixed::from_raw(1_000_000_000), slip, slip);
                    assert!(next.velocity_wc.x.raw.abs() <= limit);
                    assert!(next.velocity_wc.z.raw.abs() <= limit);
                    assert!(next.position_wc.x.raw.abs() <= limit);
                    assert!(next.position_wc.z.raw.abs() <= limit);
                    assert!(next.angular_velocity.raw.abs() <= 10_000_000_000);
                    assert!((next.angle.raw - angle).abs() <= 10_000_000_000);
                }
            }
        }
    }
}

#[test]
fn car_that_rolls_straight_ahead_keeps_its_heading() {
    let params = CarParams::standard();
    let dt = Fixed::from_raw(16_000_000);
    // Along the third axis, and along the first after a quarter turn.
    let starts = [
        (Fixed::zero(), Vector3::new(Fixed::zero(), Fixed::zero(), Fixed::from_int(10))),
        (Fixed::from_raw(1_570_796_327), Vector3::new(Fixed::from_int(10), Fixed::zero(), Fixed::zero())),
    ];
    for (angle, velocity) in starts {
        let mut state = CarState::new();
        state.angle = angle;
        state.velocity_wc = velocity;
        state.throttle = Fixed::from_int(60);
        for _ in 0..200 {
            state.perform_physics_time_step(&params, dt, false, false);
            assert_eq!(state.angle, angle);
            assert_eq!(state.angular_velocity, Fixed::zero());
        }
        // It has gone on along its heading and has not drifted aside.
        if angle.is_zero() {
            assert_eq!(state.position_wc.x, Fixed::zero());
            assert!(state.position_wc.z.gt(Fixed::from_int(30)));
        } else {
            assert_eq!(state.position_wc.z, Fixed::zero());
            assert!(state.position_wc.x.gt(Fixed::from_int(30)));
        }
    }
}

#[test]
fn speed_gained_from_rest_is_what_engine_and_brake_give_the_mass() {
    let params = CarParams::standard();
    for (throttle, brake, dt) in [(100, 0, 16_000_000i64), (40, 10, 20_000_000), (0, 100, 16_000_000), (7, 7, 1_000_000_000)] {
        let mut state = CarState::new();
        state.throttle = Fixed::from_int(throttle);
        state.brake = Fixed::from_int(brake);
        let dt = Fixed::from_raw(dt);
        let next = state.peek_time_step(&params, dt, false, false);
        let want = dt.times(
            params.traction_gain.times(state.throttle.minus(state.brake)).over(params.mass),
        );
        assert_eq!(next.velocity_wc.z, want);
        assert_eq!(next.velocity_wc.x, Fixed::zero());
        assert_eq!(next.angle, Fixed::zero());
    }
}
