//! Video and tile encoders.

pub mod h264;
pub mod zstd;
