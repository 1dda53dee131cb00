//! The parts of the configuration that the daemon's rules read.

pub mod auth;
