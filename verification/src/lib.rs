//! Vehicle dynamics and track collision for a racing game, in fixed-point
//! arithmetic.
//!
//! A car is moved one time step at a time by a model of its tyres
//! ([`car_state`]), and kept on the course by colliders ([`collider`]): the
//! ground, boxes, and the walls that the rails of the track put up
//! ([`track_side`], [`track`]). What a car does when its box meets a collider
//! is in [`car`].
//!
//! Every quantity is a [`fixed::Fixed`], a count of billionths that
//! saturates instead of wrapping, so that a run of the simulation gives the
//! same numbers on every machine. Angles are in radians; [`trig`] holds the
//! sine, the cosine and the arctangent.
//!
//! What each function returns is stated as a formula over these numbers, and
//! the general facts that the game relies on are proved from the formulas:
//! that a curve ends where its control points say, that a list of colliders
//! is met in order, that ground sets a sunken car down, that a wall turns
//! back what comes at it and keeps what runs along it ([`mirror`]), that a
//! car at rest asks nothing of the arctangent.

pub mod fixed;
pub mod trig;
pub mod vector;
pub mod matrices;
pub mod utils;
pub mod collider;
pub mod mirror;
pub mod car_sim;
pub mod car_state;
pub mod car;
pub mod track_side;
pub mod track;
pub mod player_car;
pub mod network_car;
pub mod freecam_controller;
pub mod environment;
pub mod network;
pub mod obj_loader;
