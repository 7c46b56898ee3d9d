//! The agent: the process in a user's session that captures the screen,
//! encodes it and injects input.

pub mod capture_loop;
pub mod clipboard;
pub mod cursor_tracker;
pub mod desktop;
pub mod display_manager;
pub mod fallback;
pub mod gate;
pub mod round;
