//! A terminal snake game core: a segmented body that moves on a fixed
//! rectangular grid, eats randomly spawned food, grows, and dies on wall or
//! self collision. The per-tick state transition and the food-respawn rule
//! are verified; rendering and keyboard polling live outside this crate.

pub mod border;
pub mod laws;
pub mod map;
pub mod position;
pub mod rng;
pub mod segment;
pub mod snek;
