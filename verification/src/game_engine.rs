//! The constants that the embedding engine fixes for every vehicle.

use crate::scalar::Scalar;
use vstd::prelude::*;

verus! {

/// The constants of the physics of one world.
#[derive(Clone, Copy, Debug, PartialEq, Eq, Structural)]
pub struct PhysicsConstants {
    /// The pull of gravity on an equipment that touches no ground, per tick.
    pub gravity: Scalar,
    /// The part of its speed that a vehicle keeps from one tick to the next.
    pub air_resistance: Scalar,
    /// The further part of its rate of turning that a vehicle keeps from one
    /// tick to the next.
    pub turn_resistance: Scalar,
}

} // verus!
