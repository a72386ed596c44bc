//! Settings shared by the systems.

pub mod input;
