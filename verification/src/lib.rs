//! The physical core of a voxel-terrain vehicle simulation.
//!
//! A vehicle is a rigid body on equipment such as wheels. Each tick, every
//! equipment is activated by what the driver asks for and by the terrain it
//! touches, the contributions of all equipment are summed into the vehicle's
//! speed and rate of turning, and the vehicle is moved over the terrain, held
//! out of it by nudges. Every pass reads a snapshot and answers with events;
//! nothing is changed in place.
//!
//! - [`scalar`] and [`geometry`]: fixed-point numbers, vectors, rotations,
//!   triangles and spheres. All arithmetic is total: it rounds toward zero
//!   and stops at the ends of the range.
//! - [`game_map`]: the voxel terrain, read through point queries, and the
//!   marches along rays and curves that find where motion first touches it.
//! - [`driver`]: collision shapes in two levels, and what a driver asks of a
//!   vehicle.
//! - [`vehicle`]: pose, statistics, hull and locomotion of a vehicle, the two
//!   passes of a tick, and the default car.
//! - [`game_engine`] and [`server`]: the constants and the tasks that the
//!   embedding engine fixes.

pub mod driver;
pub mod game_engine;
pub mod game_map;
pub mod geometry;
pub mod scalar;
pub mod server;
pub mod vehicle;
