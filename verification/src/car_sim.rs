//! A car that is pushed along its heading by its engine and held back by
//! drag and rolling resistance: the plain model of motion in a straight
//! line.

use vstd::prelude::*;
use crate::fixed::Fixed;
use crate::vector::Vector3;

verus! {

/// Raw count of the force of the engine.
pub const ENGINE_FORCE: i64 = 5_000_000_000_000;

/// Raw count of the air drag per squared speed.
pub const DRAG_FORCE: i64 = 425_700_000;

/// Raw count of the rolling resistance per speed.
pub const ROLLING_RESISTANCE: i64 = 12_800_000_000;

/// Raw count of the mass of the car.
pub const CAR_MASS: i64 = 800_000_000_000;

/// The force along the car: the engine along the heading, the drag
/// against the velocity and in proportion to the squared speed, the rolling
/// resistance against the velocity and in proportion to the speed.
pub open spec fn long_force(car_velocity: Vector3, car_heading: Vector3) -> Vector3 {
    let traction = car_heading.scaled(Fixed::from_raw(ENGINE_FORCE));
    let drag = car_velocity.scaled(Fixed::from_raw(DRAG_FORCE).neg()).scaled(car_velocity.norm());
    let rolling_resistance = car_velocity.scaled(Fixed::from_raw(ROLLING_RESISTANCE).neg());
    traction.plus(drag).plus(rolling_resistance)
}

/// The velocity after a step of `delta_time` under that force.
pub open spec fn next_velocity(
    car_velocity: Vector3,
    car_heading: Vector3,
    delta_time: Fixed,
) -> Vector3 {
    car_velocity.plus(
        long_force(car_velocity, car_heading).over(Fixed::from_raw(CAR_MASS)).scaled(delta_time),
    )
}

/// Advances a car by one step of `delta_time`: the velocity by the
/// acceleration, then the position by the new velocity. Returns the new
/// position and the new velocity.
pub fn accelerate_time_step(
    car_pos: &Vector3,
    car_velocity: &Vector3,
    car_heading: &Vector3,
    delta_time: Fixed,
) -> (r: (Vector3, Vector3))
    ensures
        r.1 == next_velocity(*car_velocity, *car_heading, delta_time),
        r.0 == car_pos.plus(r.1.scaled(delta_time)),
{
    let traction = car_heading.scaled(Fixed::from_raw(ENGINE_FORCE));
    let drag = car_velocity.scaled(Fixed::from_raw(DRAG_FORCE).neg()).scaled(car_velocity.norm());
    let rolling_resistance = car_velocity.scaled(Fixed::from_raw(ROLLING_RESISTANCE).neg());
    let long_force = traction.plus(drag).plus(rolling_resistance);

    let acceleration = long_force.over(Fixed::from_raw(CAR_MASS));
    let velocity = car_velocity.plus(acceleration.scaled(delta_time));
    let position = car_pos.plus(velocity.scaled(delta_time));

    (position, velocity)
}

} // verus!
