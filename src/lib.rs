//! The simulation core of a two-paddle ball game: entities with fixed-point
//! positions and velocities, and the per-tick rules for input, motion,
//! collisions, spin and the end of a rally.
use vstd::prelude::*;

pub mod entity;
pub mod game;
pub mod geometry;
pub mod laws;

verus! {

} // verus!
