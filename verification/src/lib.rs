//! Steering controller for autonomous racers on a closed-loop track.
//!
//! Every simulation tick, each bot turns one snapshot of world state into one
//! drive command, in three stages:
//!
//! 1. goal generation: kinematic state, track geometry and the obstacle probe
//!    become a non-empty list of weighted [`goal::Goal`]s;
//! 2. influence arbitration: the goals are blended into a single ideal target
//!    point by a weighted centroid ([`arbiter`]);
//! 3. steering decision: the bearing toward the ideal target is compared with
//!    the bot's facing and mapped to discrete drive commands ([`steering`]).
//!
//! All scalars are fixed-point integers: world coordinates and times carry
//! three fractional decimal digits (milli-units, [`num::MILLI`]), angles are
//! measured in binary angle units with [`angle::HALF_TURN`] units to a half
//! turn, and unit-interval quantities such as steering magnitude and
//! aggression are scaled by [`num::MILLI`] as well.

pub mod agent;
pub mod angle;
pub mod arbiter;
pub mod geom;
pub mod goal;
pub mod num;
pub mod rng;
pub mod steering;
pub mod track;
