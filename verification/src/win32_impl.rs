//! The platform layer: window messages, focus, cursor and frame timing.

pub mod events;
pub mod input;
pub mod state;
