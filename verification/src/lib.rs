//! Deterministic combat and enemy-behaviour core for a third-person action game.
//!
//! Every quantity is a fixed-point integer in thousandths of its natural unit:
//! time in milliseconds, lengths in millimetres, speeds in millimetres per
//! second, health and stamina in thousandths of a point.

pub mod components;
pub mod resources;
pub mod states;
pub mod systems;
pub mod utils;
