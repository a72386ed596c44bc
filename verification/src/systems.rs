//! What happens to the actors in one tick of the simulation.

pub mod animation;
pub mod combat;
pub mod enemy_ai;
pub mod input;
pub mod player_movement;
pub mod ui;
