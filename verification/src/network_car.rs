//! The car of another player, moved by what the network tells of it.

use vstd::prelude::*;
use crate::fixed::Fixed;
use crate::vector::Vector3;
use crate::matrices::{Matrix4, ModelMatrix};
use crate::collider::{Collider, ColliderView};
use crate::car::{Car, SceneObject};
use crate::car_state::CarState;

verus! {

/// What a player has last told of their car.
#[derive(Clone, Copy, Debug, PartialEq, Eq, Structural)]
pub struct StatusUpdate {
    pub position: Vector3,
    pub rotation: Fixed,
    pub steering_angle: Fixed,
}

/// The car of another player. It presents its box to run into.
pub struct NetworkCar {
    pub player_id: u8,
    pub car: Car,
    /// The box of the car as of the last frame; nothing before the first.
    pub collider: Option<Collider>,
}

impl NetworkCar {
    /// The car put where `status` says.
    pub open spec fn placed(car: Car, status: StatusUpdate) -> Car {
        Car {
            car_state: CarState {
                position_wc: status.position,
                angle: status.rotation,
                steering_angle: status.steering_angle,
                ..car.car_state
            },
            ..car
        }
    }

    /// The box of `car` as a collider.
    pub open spec fn box_of(car: Car, base: Matrix4) -> ColliderView {
        let c = Car::cube(base, car.car_state);
        ColliderView::BoxCollider(c.0, c.1, c.2, c.3, c.4, c.5)
    }

    /// What the car presents to run into.
    pub open spec fn info(self) -> ColliderView {
        match self.collider {
            Some(c) => c@,
            None => ColliderView::NoCollision,
        }
    }

    /// The car of the player `player_id`, as yet unheard of: it waits
    /// beside the start, checks for no collisions and presents nothing to
    /// run into.
    pub fn new(player_id: u8) -> (r: NetworkCar)
        ensures
            r.player_id == player_id,
            r.car == (Car {
                car_state: CarState {
                    position_wc: Vector3::new(
                        Fixed::from_int(5),
                        Fixed::from_int(35),
                        Fixed::from_raw(0),
                    ),
                    ..Car::new(false).car_state
                },
                ..Car::new(false)
            }),
            r.car.wf(),
            r.collider is None,
    {
        let mut car = Car::new(false);
        car.set_position(Vector3::new(Fixed::from_int(5), Fixed::from_int(35), Fixed::from_raw(0)));
        NetworkCar { player_id, car, collider: None }
    }

    /// What the car presents to run into: its box as of the last frame.
    pub fn collision_info(&self) -> (r: Collider)
        ensures
            r@ == self.info(),
    {
        match &self.collider {
            Some(c) => c.clone(),
            None => Collider::NoCollision,
        }
    }

    /// Takes the car through one frame of `delta_time`: its own motion, the
    /// box that it presents from then on, and then, if the player has been
    /// heard of, the place and the angles that `status` tells.
    pub fn update(
        &mut self,
        own_id: u32,
        objects: &Vec<SceneObject>,
        delta_time: Fixed,
        model_matrix: &mut ModelMatrix,
        status: Option<StatusUpdate>,
    )
        requires
            old(self).car.wf(),
        ensures
            final(self).player_id == old(self).player_id,
            final(self).info() == NetworkCar::box_of(
                old(self).car.after_update(own_id, objects@, delta_time, old(model_matrix).matrix),
                old(model_matrix).matrix,
            ),
            final(self).car == match status {
                Some(s) => NetworkCar::placed(
                    old(self).car.after_update(
                        own_id,
                        objects@,
                        delta_time,
                        old(model_matrix).matrix,
                    ),
                    s,
                ),
                None => old(self).car.after_update(
                    own_id,
                    objects@,
                    delta_time,
                    old(model_matrix).matrix,
                ),
            },
            final(self).car.wf(),
            final(model_matrix).matrix == old(model_matrix).matrix,
            final(model_matrix).stack@ == old(model_matrix).stack@,
    {
        self.car.update(own_id, objects, delta_time, model_matrix);
        let (min_x, min_y, min_z, max_x, max_y, max_z) = self.car.car_cube(model_matrix);
        self.collider = Some(Collider::BoxCollider(min_x, min_y, min_z, max_x, max_y, max_z));
        match status {
            Some(s) => {
                self.car.set_position(s.position);
                self.car.set_angle(s.rotation);
                self.car.set_steering_angle(s.steering_angle);
            },
            None => {},
        }
    }
}

} // verus!
