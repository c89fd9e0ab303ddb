//! The car of the player: what the keys and the gamepad make of it, where
//! it starts, and when it has completed a lap.

use vstd::prelude::*;
use crate::fixed::Fixed;
use crate::vector::Vector3;
use crate::car::{Car, ViewState};
use crate::car_state::CarState;
use crate::track::TRACK_ELEVATION;

verus! {

/// Raw counts of the finish line: where it lies along the third axis, and
/// between which bounds on the first axis it is crossed.
pub const FINISH_LINE_Z: i64 = 130_000_000_000;

pub const FINISH_LINE_X_START: i64 = -10_000_000_000;

pub const FINISH_LINE_X_STOP: i64 = 20_000_000_000;

/// Raw counts of the line half way round the course.
pub const HALF_RING_LINE_Z: i64 = 158_000_000_000;

pub const HALF_RING_X_START: i64 = 230_000_000_000;

pub const HALF_RING_X_STOP: i64 = 270_000_000_000;

/// Raw count of the steering angle that a key gives: a sixteenth of a half
/// turn.
pub const KEY_STEERING: i64 = 196_349_541;

/// Raw count of the speed below which a braking car goes into reverse.
pub const REVERSE_SPEED: i64 = 300_000_000;

/// Raw count of the brake on the gamepad below which the brake counts as
/// let go, out of a hundred.
pub const BRAKE_DEAD_ZONE: i64 = 5_000_000_000;

/// Raw count of the share of the brake on the gamepad that becomes throttle
/// in reverse.
pub const REVERSE_THROTTLE_SHARE: i64 = 200_000_000;

/// What holding the brake has come to.
#[derive(Clone, Copy, Debug, PartialEq, Eq, Structural)]
pub enum BrakingState {
    Idle,
    Braking,
    Reversing,
}

/// The keys that the game answers to.
#[derive(Clone, Copy, Debug, PartialEq, Eq, Structural)]
pub enum Key {
    W,
    S,
    A,
    D,
    Space,
    V,
    L,
    P,
    Up,
    Down,
    Left,
    Right,
    Other,
}

/// A key that goes down or comes up.
#[derive(Clone, Copy, Debug, PartialEq, Eq, Structural)]
pub enum KeyEvent {
    Down(Key),
    Up(Key),
}

/// The axes of a gamepad that the car reads.
#[derive(Clone, Copy, Debug, PartialEq, Eq, Structural)]
pub struct JoystickAxes {
    /// The right trigger: the throttle.
    pub right_trigger: i16,
    /// The left trigger: the brake.
    pub left_trigger: i16,
    /// The left stick, from side to side: the steering.
    pub left_x: i16,
}

/// The car of the player.
#[derive(Clone, Copy, Debug, PartialEq, Eq, Structural)]
pub struct PlayerCar {
    pub car: Car,
    /// Whether the line half way round has been crossed since the last lap.
    pub lap_half_ring_complete: bool,
    pub braking_state: BrakingState,
    pub joystick_braking_state: BrakingState,
    /// Whether the car is in reverse gear.
    pub reverse: bool,
}

/// The state with its velocity turned round.
pub open spec fn turned_round(state: CarState) -> CarState {
    CarState { velocity_wc: state.velocity_wc.neg(), ..state }
}

/// Whether a car that holds its brake is slow enough to go into reverse.
pub open spec fn nearly_at_rest(state: CarState) -> bool {
    state.velocity_wc.norm()@ < REVERSE_SPEED
}

impl PlayerCar {
    /// What `new` returns.
    pub open spec fn spec_new() -> PlayerCar {
        PlayerCar {
            car: Car::new(true),
            lap_half_ring_complete: false,
            braking_state: BrakingState::Idle,
            joystick_braking_state: BrakingState::Idle,
            reverse: false,
        }
    }

    /// What `axis_position` returns.
    pub open spec fn spec_axis_position(value: i16) -> Fixed {
        Fixed::from_int((value - i16::MIN) as i32).over(Fixed::from_int(65535))
    }

    /// What `spawn_position` returns.
    pub open spec fn spec_spawn_position(player_id: u8) -> Vector3 {
        let x = if player_id == 2 || player_id == 4 || player_id == 6 {
            Fixed::from_int(5)
        } else {
            Fixed::from_raw(4_500_000_000).neg()
        };
        let z = if 1 <= player_id <= 6 {
            Fixed::from_int(((7 - player_id) * 20) as i32)
        } else {
            Fixed::from_raw(0)
        };
        Vector3::new(x, Fixed::from_raw(TRACK_ELEVATION), z)
    }

    /// The car after the key event.
    ///
    /// `W` is the throttle, full while the key is down. `S` is the brake: the
    /// first press arms it, a press while armed brakes fully and, once the
    /// car is nearly at rest, readies the reverse gear, and a press after
    /// that drives backwards; letting go ends all of it and gives a car that
    /// was reversing its velocity turned round. `A` and `D` steer while
    /// down. `Space` is the handbrake. `V` changes the view when pressed.
    /// `L`, let go, throws the car up.
    pub open spec fn after_event(self, event: KeyEvent) -> PlayerCar {
        let car = self.car;
        let state = car.car_state;
        match event {
            KeyEvent::Down(Key::W) => PlayerCar {
                car: Car { car_state: CarState { throttle: Fixed::from_int(100), ..state }, ..car },
                ..self
            },
            KeyEvent::Down(Key::S) => match self.braking_state {
                BrakingState::Braking => PlayerCar {
                    car: Car {
                        car_state: CarState {
                            throttle: Fixed::from_raw(0),
                            brake: Fixed::from_int(100),
                            ..state
                        },
                        ..car
                    },
                    braking_state: if nearly_at_rest(state) {
                        BrakingState::Reversing
                    } else {
                        BrakingState::Braking
                    },
                    ..self
                },
                BrakingState::Reversing => PlayerCar {
                    car: Car {
                        car_state: CarState {
                            throttle: Fixed::from_int(20),
                            brake: Fixed::from_raw(0),
                            ..state
                        },
                        ..car
                    },
                    reverse: true,
                    ..self
                },
                BrakingState::Idle => PlayerCar { braking_state: BrakingState::Braking, ..self },
            },
            KeyEvent::Down(Key::A) => PlayerCar {
                car: Car {
                    car_state: CarState { steering_angle: Fixed::from_raw(KEY_STEERING), ..state },
                    ..car
                },
                ..self
            },
            KeyEvent::Down(Key::D) => PlayerCar {
                car: Car {
                    car_state: CarState {
                        steering_angle: Fixed::from_raw(KEY_STEERING).neg(),
                        ..state
                    },
                    ..car
                },
                ..self
            },
            KeyEvent::Down(Key::Space) => PlayerCar { car: Car { handbrake: true, ..car }, ..self },
            KeyEvent::Down(Key::V) => PlayerCar {
                car: Car {
                    view_state: match car.view_state {
                        ViewState::ThirdPerson => ViewState::FirstPerson,
                        ViewState::FirstPerson => ViewState::ThirdPerson,
                    },
                    ..car
                },
                ..self
            },
            KeyEvent::Up(Key::W) => PlayerCar {
                car: Car { car_state: CarState { throttle: Fixed::from_raw(0), ..state }, ..car },
                ..self
            },
            KeyEvent::Up(Key::S) => {
                let moving = if self.braking_state == BrakingState::Reversing {
                    turned_round(state)
                } else {
                    state
                };
                PlayerCar {
                    car: Car {
                        car_state: CarState {
                            throttle: Fixed::from_raw(0),
                            brake: Fixed::from_raw(0),
                            ..moving
                        },
                        ..car
                    },
                    braking_state: BrakingState::Idle,
                    reverse: false,
                    ..self
                }
            },
            KeyEvent::Up(Key::A) | KeyEvent::Up(Key::D) => PlayerCar {
                car: Car {
                    car_state: CarState { steering_angle: Fixed::from_raw(0), ..state },
                    ..car
                },
                ..self
            },
            KeyEvent::Up(Key::Space) => PlayerCar { car: Car { handbrake: false, ..car }, ..self },
            KeyEvent::Up(Key::L) => PlayerCar {
                car: Car { y_velocity: Fixed::from_int(20), ..car },
                ..self
            },
            _ => self,
        }
    }

    /// The car after the gamepad has been read.
    ///
    /// The right trigger is the throttle, from nothing to a hundred. The
    /// left trigger is the brake, and goes through the same states as the
    /// brake key once it is pulled beyond the dead zone; in reverse a fifth
    /// of it is the throttle. The stick steers, from one key's angle to the
    /// left to one to the right.
    pub open spec fn after_joystick(self, axes: JoystickAxes) -> PlayerCar {
        let car = self.car;
        let throttle = PlayerCar::spec_axis_position(axes.right_trigger).times(
            Fixed::from_int(100),
        );
        let brake_value = PlayerCar::spec_axis_position(axes.left_trigger).times(
            Fixed::from_int(100),
        );
        let state = CarState { throttle, ..car.car_state };
        let steering = PlayerCar::spec_axis_position(axes.left_x).times(
            Fixed::from_int(2),
        ).times(Fixed::from_raw(KEY_STEERING)).minus(Fixed::from_raw(KEY_STEERING)).neg();
        let braked = if brake_value@ > BRAKE_DEAD_ZONE {
            match self.joystick_braking_state {
                BrakingState::Braking => PlayerCar {
                    car: Car { car_state: CarState { brake: brake_value, ..state }, ..car },
                    joystick_braking_state: if nearly_at_rest(state) {
                        BrakingState::Reversing
                    } else {
                        BrakingState::Braking
                    },
                    ..self
                },
                BrakingState::Reversing => PlayerCar {
                    car: Car {
                        car_state: CarState {
                            brake: Fixed::from_raw(0),
                            throttle: brake_value.times(Fixed::from_raw(REVERSE_THROTTLE_SHARE)),
                            ..state
                        },
                        ..car
                    },
                    reverse: true,
                    ..self
                },
                BrakingState::Idle => PlayerCar {
                    car: Car { car_state: state, ..car },
                    joystick_braking_state: BrakingState::Braking,
                    ..self
                },
            }
        } else if self.joystick_braking_state != BrakingState::Idle {
            let moving = if self.joystick_braking_state == BrakingState::Reversing {
                turned_round(state)
            } else {
                state
            };
            PlayerCar {
                car: Car { car_state: CarState { brake: Fixed::from_raw(0), ..moving }, ..car },
                joystick_braking_state: BrakingState::Idle,
                reverse: false,
                ..self
            }
        } else {
            PlayerCar { car: Car { car_state: state, ..car }, ..self }
        };
        PlayerCar {
            car: Car {
                car_state: CarState { steering_angle: steering, ..braked.car.car_state },
                ..braked.car
            },
            ..braked
        }
    }

    /// Whether a car at `current` that will be at `future` crosses the
    /// finish line, forwards.
    pub open spec fn crosses_finish(current: Vector3, future: Vector3) -> bool {
        current.x@ > FINISH_LINE_X_START && current.x@ < FINISH_LINE_X_STOP && FINISH_LINE_Z
            >= current.z@ && FINISH_LINE_Z <= future.z@
    }

    /// Whether a car at `current` that will be at `future` crosses the line
    /// half way round, in the direction of the course.
    pub open spec fn crosses_half_ring(current: Vector3, future: Vector3) -> bool {
        current.x@ > HALF_RING_X_START && current.x@ < HALF_RING_X_STOP && HALF_RING_LINE_Z
            <= current.z@ && HALF_RING_LINE_Z >= future.z@
    }

    /// Where the car will be one time step of `delta_time` from now, if
    /// nothing stands in its way.
    pub open spec fn future_position(self, delta_time: Fixed) -> Vector3 {
        self.car.car_state.after_step(
            self.car.params,
            delta_time,
            self.car.handbrake,
            self.car.handbrake,
        ).position_wc
    }

    /// Whether this time step completes a lap: the car crosses the finish
    /// line and has crossed the line half way round since the last lap.
    pub open spec fn completes_lap(self, delta_time: Fixed) -> bool {
        self.lap_half_ring_complete && PlayerCar::crosses_finish(
            self.car.car_state.position_wc,
            self.future_position(delta_time),
        )
    }

    /// A car that waits at the spawn height, with nothing held.
    #[verifier::when_used_as_spec(spec_new)]
    pub fn new() -> (r: PlayerCar)
        ensures
            r == PlayerCar::spec_new(),
            r.car.wf(),
    {
        PlayerCar {
            car: Car::new(true),
            lap_half_ring_complete: false,
            braking_state: BrakingState::Idle,
            joystick_braking_state: BrakingState::Idle,
            reverse: false,
        }
    }

    /// Where an axis of a gamepad stands, from zero at its least value to
    /// one at its greatest.
    #[verifier::when_used_as_spec(spec_axis_position)]
    pub fn axis_position(value: i16) -> (r: Fixed)
        ensures
            r == PlayerCar::spec_axis_position(value),
    {
        Fixed::from_int(value as i32 - i16::MIN as i32).over(Fixed::from_int(65535))
    }

    /// Where the player with the given number starts: the players stand
    /// two abreast, the first pair in front.
    #[verifier::when_used_as_spec(spec_spawn_position)]
    pub fn spawn_position(player_id: u8) -> (r: Vector3)
        ensures
            r == PlayerCar::spec_spawn_position(player_id),
    {
        let left = Fixed::from_raw(4_500_000_000).neg();
        let right = Fixed::from_int(5);
        let y = Fixed::from_raw(TRACK_ELEVATION);
        match player_id {
            1 => Vector3::new(left, y, Fixed::from_int(120)),
            2 => Vector3::new(right, y, Fixed::from_int(100)),
            3 => Vector3::new(left, y, Fixed::from_int(80)),
            4 => Vector3::new(right, y, Fixed::from_int(60)),
            5 => Vector3::new(left, y, Fixed::from_int(40)),
            6 => Vector3::new(right, y, Fixed::from_int(20)),
            _ => Vector3::new(left, y, Fixed::from_raw(0)),
        }
    }

    /// Whether the car is slow enough to go into reverse.
    fn slow(state: &CarState) -> (r: bool)
        ensures
            r == nearly_at_rest(*state),
    {
        state.velocity_wc.norm().lt(Fixed::from_raw(REVERSE_SPEED))
    }

    /// Takes a key event. Returns whether the position of the car is asked
    /// for: the key `P`, let go, asks for it.
    pub fn on_event(&mut self, event: &KeyEvent) -> (show_position: bool)
        ensures
            *final(self) == old(self).after_event(*event),
            show_position == (*event == KeyEvent::Up(Key::P)),
    {
        match event {
            KeyEvent::Down(key) => {
                match key {
                    Key::W => {
                        self.car.set_throttle(Fixed::from_int(100));
                    },
                    Key::S => {
                        match self.braking_state {
                            BrakingState::Braking => {
                                if PlayerCar::slow(&self.car.car_state) {
                                    self.braking_state = BrakingState::Reversing;
                                }
                                self.car.set_throttle(Fixed::from_raw(0));
                                self.car.set_brake(Fixed::from_int(100));
                            },
                            BrakingState::Reversing => {
                                self.car.set_brake(Fixed::from_raw(0));
                                self.car.set_throttle(Fixed::from_int(20));
                                self.reverse = true;
                            },
                            BrakingState::Idle => {
                                self.braking_state = BrakingState::Braking;
                            },
                        }
                    },
                    Key::A => {
                        self.car.set_steering_angle(Fixed::from_raw(KEY_STEERING));
                    },
                    Key::D => {
                        self.car.set_steering_angle(Fixed::from_raw(KEY_STEERING).neg());
                    },
                    Key::Space => {
                        self.car.set_handbrake(true);
                    },
                    Key::V => {
                        let view_state = match self.car.view_state {
                            ViewState::ThirdPerson => ViewState::FirstPerson,
                            ViewState::FirstPerson => ViewState::ThirdPerson,
                        };
                        self.car.set_view_state(view_state);
                    },
                    _ => {},
                }
                false
            },
            KeyEvent::Up(key) => {
                match key {
                    Key::W => {
                        self.car.set_throttle(Fixed::from_raw(0));
                        false
                    },
                    Key::S => {
                        if self.braking_state == BrakingState::Reversing {
                            self.car.car_state.velocity_wc = self.car.car_state.velocity_wc.neg();
                        }
                        self.braking_state = BrakingState::Idle;
                        self.car.set_brake(Fixed::from_raw(0));
                        self.car.set_throttle(Fixed::from_raw(0));
                        self.reverse = false;
                        false
                    },
                    Key::A | Key::D => {
                        self.car.set_steering_angle(Fixed::from_raw(0));
                        false
                    },
                    Key::Space => {
                        self.car.set_handbrake(false);
                        false
                    },
                    Key::L => {
                        self.car.set_y_velocity(Fixed::from_int(20));
                        false
                    },
                    Key::P => true,
                    _ => false,
                }
            },
        }
    }

    /// Takes what the gamepad shows. Without a gamepad, `None`, nothing
    /// changes.
    pub fn handle_joystick_controls(&mut self, joystick: Option<JoystickAxes>)
        ensures
            *final(self) == match joystick {
                Some(axes) => old(self).after_joystick(axes),
                None => *old(self),
            },
    {
        let axes = match joystick {
            Some(j) => j,
            None => {
                return ;
            },
        };
        self.car.set_throttle(
            PlayerCar::axis_position(axes.right_trigger).times(Fixed::from_int(100)),
        );

        // Braking
        let brake_value = PlayerCar::axis_position(axes.left_trigger).times(
            Fixed::from_int(100),
        );
        if brake_value.gt(Fixed::from_raw(BRAKE_DEAD_ZONE)) {
            match self.joystick_braking_state {
                BrakingState::Braking => {
                    if PlayerCar::slow(&self.car.car_state) {
                        self.joystick_braking_state = BrakingState::Reversing;
                    }
                    self.car.set_brake(brake_value);
                },
                BrakingState::Reversing => {
                    self.car.set_brake(Fixed::from_raw(0));
                    self.car.set_throttle(
                        brake_value.times(Fixed::from_raw(REVERSE_THROTTLE_SHARE)),
                    );
                    self.reverse = true;
                },
                BrakingState::Idle => {
                    self.joystick_braking_state = BrakingState::Braking;
                },
            }
        } else if self.joystick_braking_state != BrakingState::Idle {
            if self.joystick_braking_state == BrakingState::Reversing {
                self.car.car_state.velocity_wc = self.car.car_state.velocity_wc.neg();
            }
            self.car.set_brake(Fixed::from_raw(0));
            self.reverse = false;
            self.joystick_braking_state = BrakingState::Idle;
        }
        self.car.set_steering_angle(
            PlayerCar::axis_position(axes.left_x).times(Fixed::from_int(2)).times(
                Fixed::from_raw(KEY_STEERING),
            ).minus(Fixed::from_raw(KEY_STEERING)).neg(),
        );
    }

    /// Looks one time step of `delta_time` ahead for the lines of the
    /// course, and returns whether the step completes a lap. A completed lap
    /// asks for the line half way round to be crossed anew; crossing that
    /// line is remembered.
    pub fn check_lap(&mut self, delta_time: Fixed) -> (lap: bool)
        requires
            old(self).car.wf(),
        ensures
            lap == old(self).completes_lap(delta_time),
            final(self).lap_half_ring_complete == (PlayerCar::crosses_half_ring(
                old(self).car.car_state.position_wc,
                old(self).future_position(delta_time),
            ) || (old(self).lap_half_ring_complete && !lap)),
            *final(self) == (PlayerCar {
                lap_half_ring_complete: final(self).lap_half_ring_complete,
                ..*old(self)
            }),
    {
        let current_pos = self.car.car_state.position_wc;
        let future_pos = self.car.car_state.peek_time_step(
            &self.car.params,
            delta_time,
            self.car.handbrake,
            self.car.handbrake,
        ).position_wc;
        let mut lap = false;
        if self.lap_half_ring_complete && current_pos.x.gt(Fixed::from_raw(FINISH_LINE_X_START))
            && current_pos.x.lt(Fixed::from_raw(FINISH_LINE_X_STOP)) && Fixed::from_raw(
            FINISH_LINE_Z,
        ).ge(current_pos.z) && Fixed::from_raw(FINISH_LINE_Z).le(future_pos.z) {
            lap = true;
            self.lap_half_ring_complete = false;
        }
        if current_pos.x.gt(Fixed::from_raw(HALF_RING_X_START)) && current_pos.x.lt(
            Fixed::from_raw(HALF_RING_X_STOP),
        ) && Fixed::from_raw(HALF_RING_LINE_Z).le(current_pos.z) && Fixed::from_raw(
            HALF_RING_LINE_Z,
        ).ge(future_pos.z) {
            self.lap_half_ring_complete = true;
        }
        lap
    }
}

} // verus!
