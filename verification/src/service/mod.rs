//! The service: it owns the network connections and keeps an agent running in
//! whichever session is at the console.

pub mod control;
pub mod controls;
pub mod credential_provider;
pub mod desktop_kind;
pub mod install;
pub mod launch;
pub mod relay;
pub mod session_manager;
pub mod startup;
pub mod vdd;
