//! A real-time shared sample buffer: a generator writes successive samples of a
//! periodic signal into a fixed-capacity ring, and readers take consistent
//! snapshots of it while the generation parameters are reconfigured live.

pub mod buffer;
pub mod config;
pub mod network;
pub mod shared;
