//! The link between the service and the agent: two one-way pipes.

pub mod client;
pub mod pipe;
pub mod server;
pub mod wire;
