//! What a vehicle is made of for the purposes of collision, and the
//! statistics of whoever drives it.

pub mod actions;
pub mod colliders;
pub mod stats;
