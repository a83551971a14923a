//! Core logic of a small arcade space shooter: asteroids are spawned from an
//! immutable template forest, split into fragments when destroyed, and score
//! points; contacts reported by a physics engine are resolved into despawns,
//! fragmentation and game-state transitions.

pub mod asteroid;
pub mod boundary;
pub mod contacts;
pub mod game;
pub mod laws;
pub mod math;
pub mod points;
pub mod resolvers;
pub mod shapes;
pub mod spawner;
pub mod table;
pub mod templates;
pub mod util;
