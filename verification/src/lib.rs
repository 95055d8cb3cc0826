//! A 3D rigid-body physics engine in the style of extended position-based
//! dynamics: bodies advance under gravity by semi-implicit Euler integration,
//! and non-penetration and restitution constraints are resolved by direct
//! position projection followed by a velocity pass.
//!
//! All quantities are fixed-point numbers: an `i64` raw value denotes the
//! real number `raw / FX_SCALE`.  Every arithmetic step is therefore exact
//! integer computation, and the contracts below pin each result down to the
//! integer it must be.

pub mod body;
pub mod broad;
pub mod colliders;
pub mod components;
pub mod contacts;
pub mod fx;
pub mod integrate;
pub mod intersect;
pub mod prelude;
pub mod quat;
pub mod solve_positions;
pub mod solve_velocities;
pub mod update_velocities;
pub mod vec3;
pub mod world;
