//! Core simulation of a small arcade game: a chain of followers chases the
//! cursor and picks up coins that either raise the spawn rate or cost the
//! chain a segment.
//!
//! Positions are integers in micro-units (a millionth of a screen unit),
//! elapsed time is in microseconds and angles are in micro-radians, so every
//! step of the simulation is exact.

pub mod entity;
pub mod laws;
mod random;
pub mod state;
pub mod status;

pub use entity::{Coin, CoinKind, Segment};
pub use state::State;
pub use status::Status;
