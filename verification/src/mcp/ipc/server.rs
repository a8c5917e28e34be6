//! The daemon side of the protocol: what each request calls for, and the
//! reply to a popup once the front end has answered or failed.

use vstd::prelude::*;
use crate::mcp::handlers::popup::PopupRequest;
use super::types::{IpcRequest, IpcResponse};

verus! {

/// What the daemon does with one request.
#[derive(Debug)]
pub enum IpcAction {
    /// Send this reply.
    Reply(IpcResponse),
    /// Reply `ShutdownAck`, clear the daemon state and exit.
    AcknowledgeShutdown,
    /// Show the popup and reply with its outcome.
    ShowPopup(PopupRequest),
}

/// The action for a request: a ping is answered at once, a shutdown is
/// acknowledged before the daemon exits, a popup is shown.
pub fn respond_to(request: IpcRequest) -> (r: IpcAction)
    ensures
        match request {
            IpcRequest::Ping => r == IpcAction::Reply(IpcResponse::Pong),
            IpcRequest::Shutdown => r == IpcAction::AcknowledgeShutdown,
            IpcRequest::Popup { request } => r == IpcAction::ShowPopup(request),
        },
{
    match request {
        IpcRequest::Ping => IpcAction::Reply(IpcResponse::Pong),
        IpcRequest::Shutdown => IpcAction::AcknowledgeShutdown,
        IpcRequest::Popup { request } => IpcAction::ShowPopup(request),
    }
}

/// How serving a popup ended.
pub enum PopupWait {
    /// The response channel could not be taken; the text says why.
    ChannelUnavailable(String),
    /// The request could not be turned into the front end's format.
    SerializeFailed(String),
    /// The popup event could not be sent.
    EmitFailed(String),
    /// The channel closed before an answer came.
    ChannelClosed,
    /// The user answered.
    Answered(String),
}

/// The reply to a popup request.
pub fn popup_wait_response(wait: PopupWait) -> (r: IpcResponse)
    ensures
        match wait {
            PopupWait::ChannelUnavailable(e) => r matches IpcResponse::Error { message } && message@
                == "获取响应通道失败: "@ + e@,
            PopupWait::SerializeFailed(e) => r matches IpcResponse::Error { message } && message@
                == "序列化请求失败: "@ + e@,
            PopupWait::EmitFailed(e) => r matches IpcResponse::Error { message } && message@
                == "发送弹窗事件失败: "@ + e@,
            PopupWait::ChannelClosed => r matches IpcResponse::Error { message } && message@
                == "等待用户响应超时或通道关闭"@,
            PopupWait::Answered(a) => r == IpcResponse::PopupResponse { response: a },
        },
{
    match wait {
        PopupWait::ChannelUnavailable(e) => {
            let mut m = String::from_str("获取响应通道失败: ");
            m.append(e.as_str());
            IpcResponse::Error { message: m }
        },
        PopupWait::SerializeFailed(e) => {
            let mut m = String::from_str("序列化请求失败: ");
            m.append(e.as_str());
            IpcResponse::Error { message: m }
        },
        PopupWait::EmitFailed(e) => {
            let mut m = String::from_str("发送弹窗事件失败: ");
            m.append(e.as_str());
            IpcResponse::Error { message: m }
        },
        PopupWait::ChannelClosed => IpcResponse::Error {
            message: String::from_str("等待用户响应超时或通道关闭"),
        },
        PopupWait::Answered(a) => IpcResponse::PopupResponse { response: a },
    }
}

/// The error for a request line that is not a valid message.
pub fn request_parse_error(reason: &str) -> (r: String)
    ensures
        r@ == "解析 IPC 请求失败: "@ + reason@,
{
    let mut m = String::from_str("解析 IPC 请求失败: ");
    m.append(reason);
    m
}

} // verus!
