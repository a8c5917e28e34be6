//! The workflow guidance server.

pub mod server;
