use racing_physics::car_sim::accelerate_time_step;
use racing_physics::fixed::Fixed;
use racing_physics::vector::Vector3;

#[test]
fn engine_alone_moves_a_car_at_rest() {
    // 5000 / 800 = 6.25 per second squared, over a step of 0.016.
    let heading = Vector3::new(Fixed::zero(), Fixed::zero(), Fixed::from_int(1));
    let (position, velocity) = accelerate_time_step(
        &Vector3::zeros(),
        &Vector3::zeros(),
        &heading,
        Fixed::from_raw(16_000_000),
    );
    assert_eq!(velocity, Vector3::new(Fixed::from_raw(0), Fixed::from_raw(0), Fixed::from_raw(100000000)));
    assert_eq!(position, Vector3::new(Fixed::from_raw(0), Fixed::from_raw(0), Fixed::from_raw(1600000)));
    assert_eq!(velocity.z.raw, 100_000_000);
    assert_eq!(position.z.raw, 1_600_000);
}

#[test]
fn drag_and_rolling_resistance_hold_a_moving_car_back() {
    let position = Vector3::new(Fixed::from_int(1), Fixed::from_int(2), Fixed::from_int(3));
    let velocity = Vector3::new(Fixed::from_int(3), Fixed::zero(), Fixed::from_int(4));
    let heading = Vector3::new(Fixed::zero(), Fixed::zero(), Fixed::from_int(1));
    let (next_position, next_velocity) =
        accelerate_time_step(&position, &velocity, &heading, Fixed::from_raw(16_000_000));
    assert_eq!(next_velocity, Vector3::new(Fixed::from_raw(2999104290), Fixed::from_raw(0), Fixed::from_raw(4098805720)));
    assert_eq!(next_position, Vector3::new(Fixed::from_raw(1047985668), Fixed::from_raw(2000000000), Fixed::from_raw(3065580891)));
}
