//! The client side of the daemon protocol: where to connect, whether the
//! daemon can be used, and what its replies mean.

use vstd::prelude::*;
use crate::text::{decimal, decimal_of};
use super::types::{DaemonState, IpcResponse};

verus! {

/// Why talking to the daemon failed.
#[derive(Debug)]
pub enum IpcError {
    /// No daemon state is recorded.
    NotRunning,
    /// The recorded daemon process is gone.
    Exited { pid: u32 },
    /// The daemon reported an error.
    Daemon { message: String },
    /// The daemon answered a popup with something else.
    UnexpectedResponse,
    /// The daemon answered a ping with something else.
    BadPong,
}

impl IpcError {
    /// The text of the error.
    pub fn message(&self) -> (r: String)
        ensures
            r@ == (match self {
                IpcError::NotRunning => "守护进程未运行"@,
                IpcError::Exited { pid } => "守护进程已退出（PID: "@ + decimal_of(*pid as nat) + "）"@,
                IpcError::Daemon { message } => "守护进程错误: "@ + message@,
                IpcError::UnexpectedResponse => "收到意外的 IPC 响应"@,
                IpcError::BadPong => "ping 响应异常"@,
            }),
    {
        match self {
            IpcError::NotRunning => String::from_str("守护进程未运行"),
            IpcError::Exited { pid } => {
                let mut r = String::from_str("守护进程已退出（PID: ");
                let digits = decimal(*pid as u64);
                r.append(digits.as_str());
                r.append("）");
                r
            },
            IpcError::Daemon { message } => {
                let mut r = String::from_str("守护进程错误: ");
                r.append(message.as_str());
                r
            },
            IpcError::UnexpectedResponse => String::from_str("收到意外的 IPC 响应"),
            IpcError::BadPong => String::from_str("ping 响应异常"),
        }
    }
}

/// The loopback address of the daemon's port.
pub fn daemon_address(port: u16) -> (r: String)
    ensures
        r@ == "127.0.0.1:"@ + decimal_of(port as nat),
{
    let mut r = String::from_str("127.0.0.1:");
    let digits = decimal(port as u64);
    r.append(digits.as_str());
    r
}

/// Whether the daemon can be reached.
#[derive(Debug, PartialEq, Eq, Structural)]
pub enum DaemonStatus {
    /// No state recorded.
    NotRunning,
    /// State recorded, process gone: the state is stale and is to be cleared.
    Exited { pid: u32 },
    /// Running, listening on this port.
    Alive { port: u16 },
}

/// The daemon's status from its recorded state and whether its process
/// is alive.
pub fn daemon_status(state: Option<&DaemonState>, process_alive: bool) -> (r: DaemonStatus)
    ensures
        r == (match state {
            None => DaemonStatus::NotRunning,
            Some(s) => if process_alive {
                DaemonStatus::Alive { port: s.port }
            } else {
                DaemonStatus::Exited { pid: s.pid }
            },
        }),
{
    match state {
        None => DaemonStatus::NotRunning,
        Some(s) => if process_alive {
            DaemonStatus::Alive { port: s.port }
        } else {
            DaemonStatus::Exited { pid: s.pid }
        },
    }
}

/// Where to send a popup: only a live daemon takes one.
pub fn popup_route(status: &DaemonStatus) -> (r: Result<u16, IpcError>)
    ensures
        match *status {
            DaemonStatus::Alive { port } => r == Ok::<u16, IpcError>(port),
            DaemonStatus::NotRunning => r == Err::<u16, IpcError>(IpcError::NotRunning),
            DaemonStatus::Exited { pid } => r == Err::<u16, IpcError>(IpcError::Exited { pid }),
        },
{
    match status {
        DaemonStatus::Alive { port } => Ok(*port),
        DaemonStatus::NotRunning => Err(IpcError::NotRunning),
        DaemonStatus::Exited { pid } => Err(IpcError::Exited { pid: *pid }),
    }
}

/// Where to send a shutdown: `Ok(None)` when the daemon is already gone,
/// which counts as success.
pub fn shutdown_route(status: &DaemonStatus) -> (r: Result<Option<u16>, IpcError>)
    ensures
        match *status {
            DaemonStatus::Alive { port } => r == Ok::<Option<u16>, IpcError>(Some(port)),
            DaemonStatus::NotRunning => r == Err::<Option<u16>, IpcError>(IpcError::NotRunning),
            DaemonStatus::Exited { pid } => r == Ok::<Option<u16>, IpcError>(None),
        },
{
    match status {
        DaemonStatus::Alive { port } => Ok(Some(*port)),
        DaemonStatus::NotRunning => Err(IpcError::NotRunning),
        DaemonStatus::Exited { pid } => Ok(None),
    }
}

/// What a reply to a popup request means: the user's answer, or an error.
pub fn popup_reply(response: IpcResponse) -> (r: Result<String, IpcError>)
    ensures
        match response {
            IpcResponse::PopupResponse { response } => r == Ok::<String, IpcError>(response),
            IpcResponse::Error { message } => r == Err::<String, IpcError>(
                IpcError::Daemon { message },
            ),
            _ => r == Err::<String, IpcError>(IpcError::UnexpectedResponse),
        },
{
    match response {
        IpcResponse::PopupResponse { response } => Ok(response),
        IpcResponse::Error { message } => Err(IpcError::Daemon { message }),
        _ => Err(IpcError::UnexpectedResponse),
    }
}

/// What a reply to a ping means: only `Pong` shows a healthy daemon.
pub fn ping_reply(response: &IpcResponse) -> (r: Result<(), IpcError>)
    ensures
        match *response {
            IpcResponse::Pong => r is Ok,
            _ => r == Err::<(), IpcError>(IpcError::BadPong),
        },
{
    match response {
        IpcResponse::Pong => Ok(()),
        _ => Err(IpcError::BadPong),
    }
}

} // verus!
