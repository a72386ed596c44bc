//! The state that each actor carries.

pub mod combat;
pub mod enemy;
pub mod player;
pub mod stats;
