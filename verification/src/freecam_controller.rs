//! A camera that is flown by hand: which keys are held, and what they ask
//! of the camera in a frame.

use vstd::prelude::*;
use crate::fixed::Fixed;
use crate::player_car::{Key, KeyEvent};

verus! {

/// Raw count of the speed at which the camera slides, in units a second.
pub const SLIDE_SPEED: i64 = 10_000_000_000;

/// Raw count of the speed at which the camera turns, in degrees a second.
pub const TURN_SPEED: i64 = 150_000_000_000;

/// The arrow key that is held, if any.
#[derive(Clone, Copy, Debug, PartialEq, Eq, Structural)]
pub enum ArrowDir {
    Up,
    Down,
    Left,
    Right,
    Neutral,
}

/// What the keys ask of the camera in a frame.
#[derive(Clone, Copy, Debug, PartialEq, Eq, Structural)]
pub struct CameraMove {
    /// How far to slide along the line of sight, backwards if positive.
    pub slide: Fixed,
    /// By how many degrees to tip the camera up.
    pub pitch: Fixed,
    /// By how many degrees to turn the camera to the left.
    pub yaw: Fixed,
}

/// The keys of the camera that are held.
#[derive(Clone, Copy, Debug, PartialEq, Eq, Structural)]
pub struct FreecamController {
    pub moving_forward: bool,
    pub moving_backward: bool,
    pub arrow_direction: ArrowDir,
}

impl FreecamController {
    /// The arrow that a key is, if it is one.
    pub open spec fn arrow_of(key: Key) -> Option<ArrowDir> {
        match key {
            Key::Up => Some(ArrowDir::Up),
            Key::Down => Some(ArrowDir::Down),
            Key::Left => Some(ArrowDir::Left),
            Key::Right => Some(ArrowDir::Right),
            _ => None,
        }
    }

    /// The keys that are held after the event. `W` and `S` are held from
    /// when they go down until they come up. Of the arrows the one that went
    /// down last is held, until any arrow comes up.
    pub open spec fn after_event(self, event: KeyEvent) -> FreecamController {
        match event {
            KeyEvent::Down(Key::W) => FreecamController { moving_forward: true, ..self },
            KeyEvent::Up(Key::W) => FreecamController { moving_forward: false, ..self },
            KeyEvent::Down(Key::S) => FreecamController { moving_backward: true, ..self },
            KeyEvent::Up(Key::S) => FreecamController { moving_backward: false, ..self },
            KeyEvent::Down(key) => match FreecamController::arrow_of(key) {
                Some(arrow) => FreecamController { arrow_direction: arrow, ..self },
                None => self,
            },
            KeyEvent::Up(key) => match FreecamController::arrow_of(key) {
                Some(_) => FreecamController { arrow_direction: ArrowDir::Neutral, ..self },
                None => self,
            },
        }
    }

    /// What the held keys ask of the camera over a frame of `delta_time`:
    /// forwards and backwards cancel, and the held arrow tips or turns the
    /// camera.
    pub open spec fn camera_move(self, delta_time: Fixed) -> CameraMove {
        let step = delta_time.times(Fixed::from_raw(SLIDE_SPEED));
        let turn = Fixed::from_raw(TURN_SPEED).times(delta_time);
        let forward = if self.moving_forward {
            step.neg()
        } else {
            Fixed::from_raw(0)
        };
        let backward = if self.moving_backward {
            step
        } else {
            Fixed::from_raw(0)
        };
        CameraMove {
            slide: forward.plus(backward),
            pitch: match self.arrow_direction {
                ArrowDir::Up => turn,
                ArrowDir::Down => turn.neg(),
                _ => Fixed::from_raw(0),
            },
            yaw: match self.arrow_direction {
                ArrowDir::Left => turn,
                ArrowDir::Right => turn.neg(),
                _ => Fixed::from_raw(0),
            },
        }
    }

    /// A camera with no key held.
    pub fn new() -> (r: FreecamController)
        ensures
            r == (FreecamController {
                moving_forward: false,
                moving_backward: false,
                arrow_direction: ArrowDir::Neutral,
            }),
    {
        FreecamController {
            moving_forward: false,
            moving_backward: false,
            arrow_direction: ArrowDir::Neutral,
        }
    }

    /// Takes a key event.
    pub fn on_event(&mut self, event: &KeyEvent)
        ensures
            *final(self) == old(self).after_event(*event),
    {
        match event {
            KeyEvent::Down(Key::W) => {
                self.moving_forward = true;
            },
            KeyEvent::Up(Key::W) => {
                self.moving_forward = false;
            },
            KeyEvent::Down(Key::S) => {
                self.moving_backward = true;
            },
            KeyEvent::Up(Key::S) => {
                self.moving_backward = false;
            },
            KeyEvent::Down(Key::Up) => {
                self.arrow_direction = ArrowDir::Up;
            },
            KeyEvent::Down(Key::Down) => {
                self.arrow_direction = ArrowDir::Down;
            },
            KeyEvent::Down(Key::Left) => {
                self.arrow_direction = ArrowDir::Left;
            },
            KeyEvent::Down(Key::Right) => {
                self.arrow_direction = ArrowDir::Right;
            },
            KeyEvent::Up(Key::Up) | KeyEvent::Up(Key::Down) | KeyEvent::Up(Key::Left) | KeyEvent::Up(
                Key::Right,
            ) => {
                self.arrow_direction = ArrowDir::Neutral;
            },
            _ => {},
        }
    }

    /// What the held keys ask of the camera over a frame of `delta_time`.
    pub fn update(&self, delta_time: Fixed) -> (r: CameraMove)
        ensures
            r == self.camera_move(delta_time),
    {
        let zero = Fixed::from_raw(0);
        let step = delta_time.times(Fixed::from_raw(SLIDE_SPEED));
        let turn = Fixed::from_raw(TURN_SPEED).times(delta_time);
        let forward = if self.moving_forward {
            step.neg()
        } else {
            zero
        };
        let backward = if self.moving_backward {
            step
        } else {
            zero
        };
        let pitch = match self.arrow_direction {
            ArrowDir::Up => turn,
            ArrowDir::Down => turn.neg(),
            _ => zero,
        };
        let yaw = match self.arrow_direction {
            ArrowDir::Left => turn,
            ArrowDir::Right => turn.neg(),
            _ => zero,
        };
        CameraMove { slide: forward.plus(backward), pitch, yaw }
    }
}

} // verus!
