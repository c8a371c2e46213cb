//! Vehicle types that come with the simulation.

pub mod default_car;
