//! Ground sensing and motor driving for a character controller on a
//! two-dimensional rigid-body backend.
//!
//! Every quantity is a fixed-point integer (see [`scalar`]), so each decision
//! the controller takes from physics data is reproducible tick by tick. The
//! physics backend itself stays outside: the caller performs the casts and
//! overlap queries this crate asks for and hands the answers back.
//!
//! - [`resolver`] runs a proximity sensor through one tick, seeing through
//!   ghost platforms; [`sensor`] and [`candidate`] hold what it works on.
//! - [`radar`] drives the obstacle radar through one tick.
//! - [`motor`] turns what the controller asks of the body into velocity and
//!   force.
//! - [`tracker`] captures where the body is and how it moves.
//! - [`animating`] tells when a stream of states changes its kind.

pub mod scalar;
pub mod vector;
pub mod transform;
pub mod entity;
pub mod toggle;
pub mod groups;
pub mod sensor;
pub mod candidate;
pub mod resolver;
pub mod radar;
pub mod motor;
pub mod tracker;
pub mod animating;
