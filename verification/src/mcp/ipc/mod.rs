//! Talking to the popup daemon over a local TCP connection.

pub mod types;
pub mod client;
pub mod server;
