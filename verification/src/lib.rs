//! Simulation core of a top-down driving/chase arcade game: a cell-partitioned
//! world with per-cell road polygons, heights and scenery, a kinematic vehicle
//! with collision rollback, and autonomous agents that follow roads and chase
//! the vehicle.
//!
//! All quantities are fixed-point integers: lengths in milli-units (one world
//! unit is 1000), angles in degrees or milli-degrees, times in milliseconds.
pub mod car_main_player;
pub mod geom;
pub mod ground;
pub mod landscape;
pub mod motion;
pub mod passengers;
mod rng;
pub mod scenery;
pub mod sound;
pub mod trig;
