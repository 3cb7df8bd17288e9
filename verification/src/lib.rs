//! The flight model of a jet aircraft, in fixed-point arithmetic.
//!
//! The crate moves a body through the air and over the ground in ticks of
//! fixed length. A tick reads the controls, burns and moves fuel, spools the
//! engine, samples the weather at the position of the body, adds up thrust,
//! drag, lift and weight, and advances velocity, position and orientation.
//! A body on the ground is steered and braked by its wheels and takes off
//! with its first upward velocity.
//!
//! Every quantity is an `i64` that counts millionths of its unit: see
//! [`fixed`]. Arithmetic saturates instead of overflowing, so every
//! function is total and gives the same result on every machine. The
//! functions are verified with Verus against the `spec` functions beside
//! them, and the `law_` proofs state what follows from those for every
//! input.
pub mod control_surfaces;
pub mod controls;
pub mod cross_section;
pub mod drag;
pub mod elementary;
pub mod engine;
pub mod fixed;
pub mod geogrid;
pub mod ground;
pub mod instruments;
pub mod lift;
pub mod mass;
pub mod plugin;
pub mod projectile;
pub mod rotation;
pub mod series;
pub mod util;
pub mod vector;
pub mod weather;
pub mod world;
