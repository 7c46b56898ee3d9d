//! The decisions of a remote desktop server, verified.
//!
//! Everything here works on plain values. Reading pipes, pixels, clocks and
//! processes is left to the program around the library, which hands over what
//! it read and performs the actions that come back.

use vstd::prelude::*;

pub mod agent;
pub mod audio;
pub mod bytes;
pub mod capture;
pub mod clock;
pub mod commands;
pub mod config;
pub mod diagnostics;
pub mod display_ccd;
pub mod displays;
pub mod digest;
pub mod doorbell;
pub mod encode;
pub mod file_transfer;
pub mod input;
pub mod ipc;
pub mod media;
pub mod parse;
pub mod pipeline;
pub mod protocol;
pub mod service;
pub mod text;

verus! {

} // verus!
