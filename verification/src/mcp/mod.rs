//! The feedback popup and the daemon that serves it.

pub mod handlers;
pub mod ipc;
