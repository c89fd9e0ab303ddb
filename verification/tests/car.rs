use racing_physics::car::{Car, SceneObject, ViewState};
use racing_physics::car_state::{CarParams, CarState};
use racing_physics::collider::Collider;
use racing_physics::fixed::{Fixed, HALF_PI, PI};
use racing_physics::matrices::{Matrix4, ModelMatrix};
use racing_physics::vector::{Vector2, Vector3};

#[test]
fn new_car_waits_at_the_spawn_height() {
    let car = Car::new(true);
    assert_eq!(car.car_state.position_wc, Vector3::new(Fixed::zero(), Fixed::from_int(40), Fixed::zero()));
    assert_eq!(car.car_state.velocity_wc, Vector3::zeros());
    assert_eq!(car.params, CarParams::standard());
    assert_eq!(car.y_velocity.raw, 0);
    assert!(!car.handbrake);
    assert_eq!(car.wheel_rotation.raw, 0);
    assert_eq!(car.view_state, ViewState::ThirdPerson);
    assert!(car.enable_collision_check);
    assert!(!Car::new(false).enable_collision_check);
}

#[test]
fn box_of_a_car_that_heads_along_the_third_axis() {
    let car = Car::new(true);
    let mut stack = ModelMatrix::new();
    let cube = car.car_cube(&mut stack);
    assert_eq!(
        cube,
        (
            Fixed::from_raw(-2_500_000_000),
            Fixed::from_raw(38_500_000_000),
            Fixed::from_int(-5),
            Fixed::from_raw(2_500_000_000),
            Fixed::from_raw(41_500_000_000),
            Fixed::from_int(5),
        )
    );
    assert_eq!(stack.matrix, Matrix4::identity());
    assert_eq!(stack.stack.len(), 0);
}

#[test]
fn box_of_a_turned_car() {
    let mut car = Car::new(true);
    car.set_angle(Fixed::from_raw(300_000_000));
    car.set_position(Vector3::new(Fixed::from_int(10), Fixed::from_int(2), Fixed::from_int(-4)));
    let mut stack = ModelMatrix::new();
    assert_eq!(car.car_cube(&mut stack), (Fixed::from_raw(6134057745), Fixed::from_raw(500000000), Fixed::from_raw(-9515482965), Fixed::from_raw(13865942255), Fixed::from_raw(3500000000), Fixed::from_raw(1515482965)));
    // Under a transform that moves everything by a hundred along the first
    // axis.
    stack.add_translate(Fixed::from_int(100), Fixed::zero(), Fixed::zero());
    let moved = stack.matrix;
    stack.push_stack();
    assert_eq!(car.car_cube(&mut stack), (Fixed::from_raw(106134057745), Fixed::from_raw(500000000), Fixed::from_raw(-9515482965), Fixed::from_raw(113865942255), Fixed::from_raw(3500000000), Fixed::from_raw(1515482965)));
    assert_eq!(stack.matrix, moved);
    assert_eq!(stack.stack.len(), 1);
}

#[test]
fn corners_of_a_turned_car() {
    let mut car = Car::new(true);
    car.set_angle(Fixed::from_raw(300_000_000));
    car.set_position(Vector3::new(Fixed::from_int(10), Fixed::from_int(2), Fixed::from_int(-4)));
    let mut stack = ModelMatrix::new();
    let corners = car.full_car_cube(&mut stack, None);
    assert_eq!(
        corners,
        [
            Vector3::new(Fixed::from_raw(6134057745), Fixed::from_raw(500000000), Fixed::from_raw(-8037881935)),
            Vector3::new(Fixed::from_raw(10910740195), Fixed::from_raw(500000000), Fixed::from_raw(-9515482965)),
            Vector3::new(Fixed::from_raw(9089259805), Fixed::from_raw(500000000), Fixed::from_raw(1515482965)),
            Vector3::new(Fixed::from_raw(13865942255), Fixed::from_raw(500000000), Fixed::from_raw(37881935)),
            Vector3::new(Fixed::from_raw(6134057745), Fixed::from_raw(3500000000), Fixed::from_raw(-8037881935)),
            Vector3::new(Fixed::from_raw(10910740195), Fixed::from_raw(3500000000), Fixed::from_raw(-9515482965)),
            Vector3::new(Fixed::from_raw(9089259805), Fixed::from_raw(3500000000), Fixed::from_raw(1515482965)),
            Vector3::new(Fixed::from_raw(13865942255), Fixed::from_raw(3500000000), Fixed::from_raw(37881935)),
        ]
    );
    let mut other = CarState::new();
    other.position_wc = Vector3::new(Fixed::from_int(1), Fixed::from_int(1), Fixed::from_int(1));
    other.angle = Fixed::from_raw(HALF_PI);
    let corners = car.full_car_cube(&mut stack, Some(&other));
    assert_eq!(
        corners,
        [
            Vector3::new(Fixed::from_raw(-4000000000), Fixed::from_raw(-500000000), Fixed::from_raw(3500000000)),
            Vector3::new(Fixed::from_raw(-4000000000), Fixed::from_raw(-500000000), Fixed::from_raw(-1500000000)),
            Vector3::new(Fixed::from_raw(6000000000), Fixed::from_raw(-500000000), Fixed::from_raw(3500000000)),
            Vector3::new(Fixed::from_raw(6000000000), Fixed::from_raw(-500000000), Fixed::from_raw(-1500000000)),
            Vector3::new(Fixed::from_raw(-4000000000), Fixed::from_raw(2500000000), Fixed::from_raw(3500000000)),
            Vector3::new(Fixed::from_raw(-4000000000), Fixed::from_raw(2500000000), Fixed::from_raw(-1500000000)),
            Vector3::new(Fixed::from_raw(6000000000), Fixed::from_raw(2500000000), Fixed::from_raw(3500000000)),
            Vector3::new(Fixed::from_raw(6000000000), Fixed::from_raw(2500000000), Fixed::from_raw(-1500000000)),
        ]
    );
    assert_eq!(stack.matrix, Matrix4::identity());
    assert_eq!(stack.stack.len(), 0);
}

#[test]
fn ground_sets_a_sunken_car_down() {
    // The centre is at height one, so the bottom of the box is half a
    // unit under the ground at height zero.
    let mut car = Car::new(true);
    car.set_position(Vector3::new(Fixed::from_int(7), Fixed::from_int(1), Fixed::from_int(-3)));
    car.set_y_velocity(Fixed::from_int(-4));
    let before = car;
    let mut stack = ModelMatrix::new();
    car.check_collision(&Collider::HeightCollider(Fixed::zero()), Fixed::from_raw(16_000_000), &mut stack);
    assert_eq!(car.car_state.position_wc.y.raw, 1_500_000_000);
    assert_eq!(car.y_velocity.raw, 0);
    assert_eq!(car.car_state.position_wc.x, before.car_state.position_wc.x);
    assert_eq!(car.car_state.position_wc.z, before.car_state.position_wc.z);
    assert_eq!(car.car_state.velocity_wc, before.car_state.velocity_wc);
    assert_eq!(stack.matrix, Matrix4::identity());
}

#[test]
fn ground_sets_down_a_car_that_just_touches_it() {
    let mut car = Car::new(true);
    car.set_position(Vector3::new(Fixed::zero(), Fixed::from_raw(6_500_000_000), Fixed::zero()));
    car.set_y_velocity(Fixed::from_int(-4));
    let mut stack = ModelMatrix::new();
    car.check_collision(&Collider::HeightCollider(Fixed::from_int(5)), Fixed::from_raw(16_000_000), &mut stack);
    assert_eq!(car.car_state.position_wc.y.raw, 6_500_000_000);
    assert_eq!(car.y_velocity.raw, 0);
}

#[test]
fn ground_leaves_a_car_above_it_alone() {
    let mut car = Car::new(true);
    car.set_position(Vector3::new(Fixed::zero(), Fixed::from_raw(6_500_000_001), Fixed::zero()));
    car.set_y_velocity(Fixed::from_int(-4));
    let before = car;
    let mut stack = ModelMatrix::new();
    car.check_collision(&Collider::HeightCollider(Fixed::from_int(5)), Fixed::from_raw(16_000_000), &mut stack);
    assert_eq!(car, before);
}

#[test]
fn no_collision_changes_nothing() {
    let mut car = Car::new(true);
    car.set_position(Vector3::new(Fixed::zero(), Fixed::from_int(-100), Fixed::zero()));
    let before = car;
    let mut stack = ModelMatrix::new();
    car.check_collision(&Collider::NoCollision, Fixed::from_raw(16_000_000), &mut stack);
    assert_eq!(car, before);
    car.check_collision(&Collider::MultiCollider(vec![]), Fixed::from_raw(16_000_000), &mut stack);
    assert_eq!(car, before);
}

#[test]
fn list_with_no_collision_first_is_the_rest_alone() {
    let sunken = || {
        let mut car = Car::new(true);
        car.set_position(Vector3::new(Fixed::from_int(2), Fixed::from_int(3), Fixed::from_int(4)));
        car.set_y_velocity(Fixed::from_int(-9));
        car
    };
    let dt = Fixed::from_raw(16_000_000);
    let mut stack = ModelMatrix::new();
    let mut alone = sunken();
    alone.check_collision(&Collider::HeightCollider(Fixed::from_int(5)), dt, &mut stack);
    let mut listed = sunken();
    listed.check_collision(
        &Collider::MultiCollider(vec![Collider::NoCollision, Collider::HeightCollider(Fixed::from_int(5))]),
        dt,
        &mut stack,
    );
    assert_eq!(listed, alone);
    assert_eq!(listed.car_state.position_wc.y.raw, 6_500_000_000);
    assert_eq!(listed.y_velocity.raw, 0);
    assert_ne!(listed, sunken());
}

#[test]
fn box_leaves_alone_a_car_whose_centre_is_inside() {
    let mut car = Car::new(true);
    car.set_y_velocity(Fixed::from_int(-4));
    let before = car;
    let mut stack = ModelMatrix::new();
    let inside = Collider::BoxCollider(
        Fixed::from_int(-1),
        Fixed::from_int(38),
        Fixed::from_int(-1),
        Fixed::from_int(1),
        Fixed::from_int(42),
        Fixed::from_int(1),
    );
    car.check_collision(&inside, Fixed::from_raw(16_000_000), &mut stack);
    assert_eq!(car, before);
}

#[test]
fn box_leaves_alone_a_car_that_does_not_touch_it() {
    let mut car = Car::new(true);
    car.set_y_velocity(Fixed::from_int(-4));
    let before = car;
    let mut stack = ModelMatrix::new();
    // Apart along the first axis by a billionth.
    let apart = Collider::BoxCollider(
        Fixed::from_raw(2_500_000_001),
        Fixed::from_int(38),
        Fixed::from_int(-1),
        Fixed::from_int(9),
        Fixed::from_int(42),
        Fixed::from_int(1),
    );
    car.check_collision(&apart, Fixed::from_raw(16_000_000), &mut stack);
    assert_eq!(car, before);
}

#[test]
fn box_pushes_a_car_out_on_each_axis_by_itself() {
    // The centre is beyond the box on the first axis, above it, and before
    // it on the third axis.
    let mut car = Car::new(true);
    car.set_position(Vector3::new(Fixed::from_int(3), Fixed::from_int(36), Fixed::from_int(-7)));
    car.set_y_velocity(Fixed::from_int(-4));
    let mut stack = ModelMatrix::new();
    let b = Collider::BoxCollider(
        Fixed::from_int(-1),
        Fixed::from_int(30),
        Fixed::from_int(-3),
        Fixed::from_int(1),
        Fixed::from_int(35),
        Fixed::from_int(3),
    );
    car.check_collision(&b, Fixed::from_raw(16_000_000), &mut stack);
    assert_eq!(
        car.car_state.position_wc,
        Vector3::new(Fixed::from_raw(3_500_000_000), Fixed::from_raw(36_500_000_000), Fixed::from_int(-8))
    );
    assert_eq!(car.y_velocity.raw, 0);
}

#[test]
fn box_sends_down_a_car_that_hits_it_from_underneath() {
    let mut car = Car::new(true);
    car.set_position(Vector3::new(Fixed::from_int(-2), Fixed::from_int(29), Fixed::from_int(4)));
    car.set_y_velocity(Fixed::from_int(6));
    let mut stack = ModelMatrix::new();
    let b = Collider::BoxCollider(
        Fixed::from_int(-1),
        Fixed::from_int(30),
        Fixed::from_int(-3),
        Fixed::from_int(1),
        Fixed::from_int(35),
        Fixed::from_int(3),
    );
    car.check_collision(&b, Fixed::from_raw(16_000_000), &mut stack);
    assert_eq!(
        car.car_state.position_wc,
        Vector3::new(Fixed::from_raw(-3_500_000_000), Fixed::from_raw(28_500_000_000), Fixed::from_int(8))
    );
    assert_eq!(car.y_velocity, Fixed::from_int(-1));
}

#[test]
fn list_is_met_in_order() {
    // The ground lifts the car to 6.5; only then does its box reach the
    // box above, which sends it down again.
    let mut car = Car::new(true);
    car.set_position(Vector3::new(Fixed::zero(), Fixed::from_int(3), Fixed::zero()));
    let dt = Fixed::from_raw(16_000_000);
    let ground = || Collider::HeightCollider(Fixed::from_int(5));
    let roof = || {
        Collider::BoxCollider(
            Fixed::from_int(-1),
            Fixed::from_raw(7_500_000_000),
            Fixed::from_int(-1),
            Fixed::from_int(1),
            Fixed::from_int(9),
            Fixed::from_int(1),
        )
    };
    let mut stack = ModelMatrix::new();
    let mut one = car;
    one.check_collision(&Collider::MultiCollider(vec![ground(), roof()]), dt, &mut stack);
    assert_eq!(one.car_state.position_wc.y.raw, 6_000_000_000);
    assert_eq!(one.y_velocity, Fixed::from_int(-1));
    let mut two = car;
    two.check_collision(&ground(), dt, &mut stack);
    two.check_collision(&roof(), dt, &mut stack);
    assert_eq!(one, two);
    // The other way round the box is out of reach.
    let mut other = car;
    other.check_collision(&Collider::MultiCollider(vec![roof(), ground()]), dt, &mut stack);
    assert_eq!(other.car_state.position_wc.y.raw, 6_500_000_000);
    assert_eq!(other.y_velocity.raw, 0);
}

#[test]
fn wall_leaves_alone_a_car_that_moves_along_it() {
    // The wall runs along the third axis, so that its normal is along the
    // first. The car moves along the wall at five units a second: what it
    // has along the normal, nothing, is turned back to nothing, and what
    // it has along the wall is kept.
    let mut car = Car::new(true);
    car.set_angle(Fixed::from_raw(PI));
    car.car_state.velocity_wc = Vector3::new(Fixed::zero(), Fixed::zero(), Fixed::from_int(-5));
    let before = car;
    let wall = Collider::InfiniteYPlaneCollider(
        Vector3::new(Fixed::from_raw(2_500_000_000), Fixed::zero(), Fixed::from_int(10)),
        Vector3::new(Fixed::from_raw(2_500_000_000), Fixed::zero(), Fixed::from_int(-10)),
    );
    let mut stack = ModelMatrix::new();
    car.check_collision(&wall, Fixed::from_raw(16_000_000), &mut stack);
    assert_eq!(car.car_state.velocity_wc.x.raw, 0);
    assert_eq!(car.car_state.velocity_wc.z, Fixed::from_int(-5));
    assert_eq!(car, before);
}

#[test]
fn wall_turns_back_a_car_that_runs_into_it() {
    // The car heads along the first axis at five units a second; its
    // front corners are at five, and a slanted wall crosses their way four
    // hundredths ahead.
    let mut car = Car::new(true);
    car.set_angle(Fixed::from_raw(HALF_PI));
    car.car_state.velocity_wc = Vector3::new(Fixed::from_int(5), Fixed::zero(), Fixed::zero());
    let before = car;
    let wall = Collider::InfiniteYPlaneCollider(Vector3::new(Fixed::from_raw(3040000000), Fixed::from_raw(0), Fixed::from_raw(-7500000000)), Vector3::new(Fixed::from_raw(7040000000), Fixed::from_raw(0), Fixed::from_raw(12500000000)));
    let mut stack = ModelMatrix::new();
    car.check_collision(&wall, Fixed::from_raw(16_000_000), &mut stack);
    assert_eq!(car.car_state.velocity_wc, Vector3::new(Fixed::from_raw(-4608615335), Fixed::from_raw(0), Fixed::from_raw(1920256392)));
    assert!(car.car_state.velocity_wc.x.lt(Fixed::zero()));
    assert_eq!(car.car_state.position_wc, before.car_state.position_wc);
    assert_eq!(car.y_velocity, before.y_velocity);
    assert_eq!(stack.matrix, Matrix4::identity());
    assert_eq!(stack.stack.len(), 0);
}

#[test]
fn wall_out_of_reach_changes_nothing() {
    let mut car = Car::new(true);
    car.set_angle(Fixed::from_raw(HALF_PI));
    car.car_state.velocity_wc = Vector3::new(Fixed::from_int(5), Fixed::zero(), Fixed::zero());
    let before = car;
    let wall = Collider::InfiniteYPlaneCollider(
        Vector3::new(Fixed::from_int(50), Fixed::zero(), Fixed::from_int(-10)),
        Vector3::new(Fixed::from_int(54), Fixed::zero(), Fixed::from_int(10)),
    );
    let mut stack = ModelMatrix::new();
    car.check_collision(&wall, Fixed::from_raw(16_000_000), &mut stack);
    assert_eq!(car, before);
}

#[test]
fn wall_is_not_crossed_in_no_time() {
    let mut car = Car::new(true);
    car.set_angle(Fixed::from_raw(HALF_PI));
    car.car_state.velocity_wc = Vector3::new(Fixed::from_int(5), Fixed::zero(), Fixed::zero());
    let before = car;
    let wall = Collider::InfiniteYPlaneCollider(Vector3::new(Fixed::from_raw(3040000000), Fixed::from_raw(0), Fixed::from_raw(-7500000000)), Vector3::new(Fixed::from_raw(7040000000), Fixed::from_raw(0), Fixed::from_raw(12500000000)));
    let mut stack = ModelMatrix::new();
    car.check_collision(&wall, Fixed::zero(), &mut stack);
    assert_eq!(car, before);
}

#[test]
fn wall_without_length_changes_nothing() {
    let mut car = Car::new(true);
    car.set_angle(Fixed::from_raw(HALF_PI));
    car.car_state.velocity_wc = Vector3::new(Fixed::from_int(5), Fixed::zero(), Fixed::zero());
    let before = car;
    let point = Vector3::new(Fixed::from_raw(5_040_000_000), Fixed::zero(), Fixed::from_raw(2_500_000_000));
    let mut stack = ModelMatrix::new();
    car.check_collision(&Collider::InfiniteYPlaneCollider(point, point), Fixed::from_raw(16_000_000), &mut stack);
    assert_eq!(car, before);
}

#[test]
fn car_does_not_meet_itself() {
    let sunken = || {
        let mut car = Car::new(true);
        car.set_position(Vector3::new(Fixed::zero(), Fixed::from_int(3), Fixed::zero()));
        car
    };
    let dt = Fixed::from_raw(16_000_000);
    let mut stack = ModelMatrix::new();
    let objects = vec![
        SceneObject { id: 1, collider: Collider::NoCollision },
        SceneObject { id: 7, collider: Collider::HeightCollider(Fixed::from_int(5)) },
        SceneObject { id: 9, collider: Collider::HeightCollider(Fixed::from_int(-50)) },
    ];
    let mut own = sunken();
    own.check_all_collision(7, &objects, dt, &mut stack);
    assert_eq!(own, sunken());
    let mut other = sunken();
    other.check_all_collision(9, &objects, dt, &mut stack);
    assert_eq!(other.car_state.position_wc.y.raw, 6_500_000_000);
    let mut stranger = sunken();
    stranger.check_all_collision(2, &objects, dt, &mut stack);
    assert_eq!(stranger, other);
    let mut alone = sunken();
    alone.check_all_collision(2, &Vec::new(), dt, &mut stack);
    assert_eq!(alone, sunken());
}

#[test]
fn frame_of_a_falling_car() {
    let mut car = Car::new(true);
    car.set_throttle(Fixed::from_int(100));
    car.set_y_velocity(Fixed::from_int(-2));
    let objects = vec![SceneObject { id: 2, collider: Collider::HeightCollider(Fixed::from_int(30)) }];
    let mut stack = ModelMatrix::new();
    let dt = Fixed::from_raw(16_000_000);
    car.update(1, &objects, dt, &mut stack);
    assert_eq!(car.car_state, CarState {
        position_wc: Vector3::new(Fixed::from_raw(0), Fixed::from_raw(39968000000), Fixed::from_raw(4266666)),
        velocity_wc: Vector3::new(Fixed::from_raw(0), Fixed::from_raw(0), Fixed::from_raw(266666666)),
        angle: Fixed::from_raw(0),
        angular_velocity: Fixed::from_raw(0),
        steering_angle: Fixed::from_raw(0),
        throttle: Fixed::from_raw(100000000000),
        brake: Fixed::from_raw(0),
        wheel_rotation_speed: Fixed::from_raw(718078320909),
    });
    assert_eq!(car.y_velocity.raw, -2266560000);
    assert_eq!(car.wheel_rotation.raw, 1795195911);
    car.update(1, &objects, dt, &mut stack);
    assert_eq!(car.car_state, CarState {
        position_wc: Vector3::new(Fixed::from_raw(0), Fixed::from_raw(39931735040), Fixed::from_raw(12796434)),
        velocity_wc: Vector3::new(Fixed::from_raw(0), Fixed::from_raw(0), Fixed::from_raw(533110517)),
        angle: Fixed::from_raw(0),
        angular_velocity: Fixed::from_raw(0),
        steering_angle: Fixed::from_raw(0),
        throttle: Fixed::from_raw(100000000000),
        brake: Fixed::from_raw(0),
        wheel_rotation_speed: Fixed::from_raw(718078320909),
    });
    assert_eq!(car.y_velocity.raw, -2533120000);
    assert_eq!(car.wheel_rotation.raw, 3590391822);
    assert_eq!(stack.matrix, Matrix4::identity());
}

#[test]
fn frame_of_a_car_that_lands() {
    let mut car = Car::new(true);
    car.set_position(Vector3::new(Fixed::zero(), Fixed::from_int(31), Fixed::zero()));
    car.set_y_velocity(Fixed::from_int(-3));
    let objects = vec![SceneObject { id: 2, collider: Collider::HeightCollider(Fixed::from_int(30)) }];
    let mut stack = ModelMatrix::new();
    car.update(1, &objects, Fixed::from_raw(16_000_000), &mut stack);
    assert_eq!(car.car_state.position_wc.y.raw, 31500000000);
    assert_eq!(car.y_velocity.raw, -266560000);
    // Without the collision check the car falls through.
    let mut ghost = Car::new(false);
    ghost.set_position(Vector3::new(Fixed::zero(), Fixed::from_int(31), Fixed::zero()));
    ghost.set_y_velocity(Fixed::from_int(-3));
    ghost.update(1, &objects, Fixed::from_raw(16_000_000), &mut stack);
    assert_eq!(ghost.car_state.position_wc.y.raw, 30_952_000_000);
}

#[test]
fn wheels_stay_within_one_turn() {
    let mut car = Car::new(false);
    car.wheel_rotation = Fixed::from_raw(6_283_185_000);
    car.set_throttle(Fixed::from_int(100));
    let mut stack = ModelMatrix::new();
    car.update(1, &Vec::new(), Fixed::from_raw(16_000_000), &mut stack);
    assert_eq!(car.car_state.wheel_rotation_speed.raw, 718_078_320_909);
    assert_eq!(car.wheel_rotation.raw, 1795195604);
}

#[test]
fn controls_are_set_and_read_back() {
    let mut car = Car::new(true);
    car.set_throttle(Fixed::from_int(70));
    car.set_brake(Fixed::from_int(30));
    car.set_steering_angle(Fixed::from_raw(196_349_541));
    car.set_y_velocity(Fixed::from_int(20));
    car.set_view_state(ViewState::FirstPerson);
    car.set_handbrake(true);
    car.set_position(Vector3::new(Fixed::from_int(1), Fixed::from_int(2), Fixed::from_int(3)));
    car.set_angle(Fixed::from_raw(PI));
    assert_eq!(car.throttle(), Fixed::from_int(70));
    assert_eq!(car.brake(), Fixed::from_int(30));
    assert_eq!(car.steering_angle().raw, 196_349_541);
    assert_eq!(car.y_velocity(), Fixed::from_int(20));
    assert_eq!(*car.view_state(), ViewState::FirstPerson);
    assert!(car.handbrake());
    assert_eq!(*car.position(), Vector3::new(Fixed::from_int(1), Fixed::from_int(2), Fixed::from_int(3)));
    assert_eq!(car.angle().raw, PI);
    assert_eq!(car.car_state.throttle, Fixed::from_int(70));
    assert_eq!(car.car_state.brake, Fixed::from_int(30));
    assert_eq!(car.params, CarParams::standard());
}

#[test]
fn box_of_a_car_holds_all_its_corners() {
    let mut stack = ModelMatrix::new();
    for angle in [0i64, 300_000_000, 500_000_000, 785_398_163, 1_570_796_327, 2_000_000_000, -1_234_567_891, 3_141_592_654] {
        let mut car = Car::new(true);
        car.set_position(Vector3::zeros());
        car.set_angle(Fixed::from_raw(angle));
        let (min_x, min_y, min_z, max_x, max_y, max_z) = car.car_cube(&mut stack);
        let corners = car.full_car_cube(&mut stack, None);
        for corner in corners {
            assert!(min_x.le(corner.x) && corner.x.le(max_x), "x at {}", angle);
            assert!(min_y.le(corner.y) && corner.y.le(max_y), "y at {}", angle);
            assert!(min_z.le(corner.z) && corner.z.le(max_z), "z at {}", angle);
        }
        // Every side of the box touches a corner.
        assert!(corners.iter().any(|c| c.x == min_x) && corners.iter().any(|c| c.x == max_x));
        assert!(corners.iter().any(|c| c.z == min_z) && corners.iter().any(|c| c.z == max_z));
        // The body is three units high whichever way it is turned.
        assert_eq!(min_y.raw, -1_500_000_000);
        assert_eq!(max_y.raw, 1_500_000_000);
    }
}

#[test]
fn box_of_a_car_turned_by_half_a_radian() {
    // Two and a half to either side and five to the front and the back,
    // turned by half a radian: the corners at the front reach
    // 5 cos 0.5 + 2.5 sin 0.5 = 5.586 along the third axis.
    let mut car = Car::new(true);
    car.set_position(Vector3::zeros());
    car.set_angle(Fixed::from_raw(500_000_000));
    let mut stack = ModelMatrix::new();
    let cube = car.car_cube(&mut stack);
    assert_eq!(
        cube,
        (Fixed::from_raw(-4591084100), Fixed::from_raw(-1500000000), Fixed::from_raw(-5586476657), Fixed::from_raw(4591084100), Fixed::from_raw(1500000000), Fixed::from_raw(5586476657))
    );
    assert!((cube.5.raw - 5_586_476_656).abs() < 100);
    assert!((cube.3.raw - 4_591_084_098).abs() < 100);
    assert_eq!(cube.2.raw, -cube.5.raw);
    assert_eq!(cube.0.raw, -cube.3.raw);
}

#[test]
fn box_pushes_out_a_turned_car_that_reaches_it_with_a_corner() {
    // The car is turned by half a radian, so that a front corner reaches
    // beyond five along the third axis and into a box that begins at 5.5.
    let mut car = Car::new(true);
    car.set_position(Vector3::zeros());
    car.set_angle(Fixed::from_raw(500_000_000));
    let before = car;
    let mut stack = ModelMatrix::new();
    let ahead = Collider::BoxCollider(
        Fixed::from_int(-10),
        Fixed::from_int(-10),
        Fixed::from_raw(5_500_000_000),
        Fixed::from_int(10),
        Fixed::from_int(10),
        Fixed::from_int(20),
    );
    car.check_collision(&ahead, Fixed::from_raw(16_000_000), &mut stack);
    assert_eq!(car.car_state.position_wc, Vector3::new(Fixed::zero(), Fixed::zero(), Fixed::from_raw(500_000_000)));
    // Headed straight on, the same car stays clear of the box.
    let mut straight = before;
    straight.set_angle(Fixed::zero());
    let kept = straight;
    straight.check_collision(&ahead, Fixed::from_raw(16_000_000), &mut stack);
    assert_eq!(straight, kept);
}

#[test]
fn mirror_image_at_chosen_walls() {
    let at = |x: i64, y: i64| Vector2::new(Fixed::from_raw(x), Fixed::from_raw(y));
    // Head on, and along the wall.
    assert_eq!(Car::mirror(at(5_000_000_000, 0), at(1_000_000_000, 0)), at(-5_000_000_000, 0));
    assert_eq!(Car::mirror(at(0, -5_000_000_000), at(1_000_000_000, 0)), at(0, -5_000_000_000));
    assert_eq!(
        Car::mirror(at(3_000_000_000, -4_000_000_000), at(0, 2_000_000_000)),
        at(3_000_000_000, 4_000_000_000)
    );
    // At a slant.
    assert_eq!(
        Car::mirror(at(4_992_666_625, 0), at(-20_000_000_000, 4_000_000_000)),
        at(-4_608_615_335, 1_920_256_392)
    );
    assert_eq!(
        Car::mirror(at(-7_000_000_000, 11_000_000_000), at(1_500_000_000, -2_500_000_000)),
        at(6_411_764_705, -11_352_941_175)
    );
}

#[test]
fn mirror_image_turns_back_across_the_wall_and_keeps_on_along_it() {
    let scale: i128 = 1_000_000_000;
    // A fixed walk over velocities and normals.
    let mut seed: i64 = 12_345;
    let mut next = |span: i64| {
        seed = (seed.wrapping_mul(6_364_136_223_846_793_005).wrapping_add(1_442_695_040_888_963_407)) >> 1;
        (seed % span).abs() * 2 - span
    };
    let mut seen = 0;
    while seen < 2000 {
        let c = Vector2::new(Fixed::from_raw(next(100_000_000_000)), Fixed::from_raw(next(100_000_000_000)));
        let n = Vector2::new(Fixed::from_raw(next(30_000_000_000)), Fixed::from_raw(next(30_000_000_000)));
        let squared = n.dot(n);
        if squared.is_zero() {
            continue;
        }
        let factor = Fixed::from_int(2).times(c.dot(n)).over(squared);
        if factor.abs().gt(Fixed::from_int(1000)) {
            continue;
        }
        seen += 1;
        let v = Car::mirror(c, n);
        let wall = Vector2::new(n.y, n.x.neg());
        let across = (v.dot(n).raw as i128 + c.dot(n).raw as i128).abs();
        let along = (v.dot(wall).raw as i128 - c.dot(wall).raw as i128).abs();
        let room = 4 * scale + n.x.raw.abs() as i128 + n.y.raw.abs() as i128;
        assert!(scale * across <= room + squared.raw as i128 + 2 * factor.raw.abs() as i128);
        assert!(scale * along <= room);
    }
}
