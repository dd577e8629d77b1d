//! Grid-aligned stepped movement of an actor, substep timing, and a cyclic
//! selector for discrete options such as zoom levels.

pub mod camera;
pub mod crossing;
pub mod cycle;
pub mod movement;
pub mod settings;
