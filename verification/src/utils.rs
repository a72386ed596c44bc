//! Arithmetic shared by the components and systems.

pub mod math;
pub mod timer;
