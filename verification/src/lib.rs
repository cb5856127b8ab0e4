//! Game-rule core of the sbrx arena game: fighter progression, bunker wave
//! encounters, the task log and the overworld field map.

pub mod entities;
pub mod game;
pub mod map_system;
pub mod mechanics;
pub mod numfmt;
pub mod rng;
pub mod task;
