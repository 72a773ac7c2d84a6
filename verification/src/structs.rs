//! The process-wide state of the two daemons.

pub mod client;
pub mod server;
