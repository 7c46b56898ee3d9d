//! Screen capture: which display, and what its pixels are.

pub mod gdi;
pub mod pipewire;
pub mod rows;
pub mod scrap;
pub mod stats;
pub mod x11;
