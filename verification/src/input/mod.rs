//! Keyboard and mouse: what a viewer does, and how a system is told of it.

pub mod cursor_shape;
pub mod events;
pub mod inject;
pub mod keys;
pub mod nudge;
