//! Messages between a popup client and the daemon, and the daemon's
//! recorded whereabouts.

use vstd::prelude::*;
use crate::mcp::handlers::popup::PopupRequest;

verus! {

/// A message to the daemon.
#[derive(Debug)]
pub enum IpcRequest {
    /// Show a popup.
    Popup { request: PopupRequest },
    /// Stop the daemon.
    Shutdown,
    /// Liveness check.
    Ping,
}

/// The daemon's answer.
#[derive(Debug)]
pub enum IpcResponse {
    /// The user's answer to a popup.
    PopupResponse { response: String },
    Error { message: String },
    Pong,
    ShutdownAck,
}

/// What the daemon records about itself when it starts.
#[derive(Debug)]
pub struct DaemonState {
    pub pid: u32,
    pub port: u16,
    /// RFC 3339 start time.
    pub started_at: String,
}

} // verus!
