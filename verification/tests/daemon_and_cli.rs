use cunzhi::app::cli::{mcp_request_mode, parse_cli_args, CliCommand, McpRequestMode, TelegramSwitches};
use cunzhi::mcp::handlers::popup::PopupRequest;
use cunzhi::mcp::ipc::client::{
    daemon_address, daemon_status, ping_reply, popup_reply, popup_route, shutdown_route,
    DaemonStatus, IpcError,
};
use cunzhi::mcp::ipc::server::{popup_wait_response, request_parse_error, respond_to, IpcAction, PopupWait};
use cunzhi::mcp::ipc::types::{DaemonState, IpcRequest, IpcResponse};

fn args(list: &[&str]) -> Vec<String> {
    list.iter().map(|s| s.to_string()).collect()
}

#[test]
fn cli_commands() {
    assert!(matches!(parse_cli_args(&args(&["prog"])), CliCommand::RunGui));
    assert!(matches!(parse_cli_args(&args(&["prog", "--help"])), CliCommand::Help));
    assert!(matches!(parse_cli_args(&args(&["prog", "-h"])), CliCommand::Help));
    assert!(matches!(parse_cli_args(&args(&["prog", "-v"])), CliCommand::Version));
    assert!(matches!(parse_cli_args(&args(&["prog", "--version"])), CliCommand::Version));
    assert!(matches!(parse_cli_args(&args(&["prog", "--daemon"])), CliCommand::Daemon));
    assert!(matches!(parse_cli_args(&args(&["prog", "--shutdown"])), CliCommand::Shutdown));
    match parse_cli_args(&args(&["prog", "--bogus"])) {
        CliCommand::UnknownArgument(a) => assert_eq!(a, "--bogus"),
        other => panic!("{:?}", other),
    }
    match parse_cli_args(&args(&["prog", "--mcp-request", "/tmp/r.json"])) {
        CliCommand::McpRequest(f) => assert_eq!(f, "/tmp/r.json"),
        other => panic!("{:?}", other),
    }
    assert!(matches!(
        parse_cli_args(&args(&["prog", "--daemon", "extra"])),
        CliCommand::InvalidArguments
    ));
}

#[test]
fn telegram_mode_choice() {
    let both = TelegramSwitches { enabled: true, hide_frontend_popup: true };
    let shown = TelegramSwitches { enabled: true, hide_frontend_popup: false };
    assert_eq!(mcp_request_mode(Some(&both)), McpRequestMode::TelegramOnly);
    assert_eq!(mcp_request_mode(Some(&shown)), McpRequestMode::Gui);
    assert_eq!(mcp_request_mode(None), McpRequestMode::Gui);
}

#[test]
fn daemon_routes() {
    let state = DaemonState { pid: 4242, port: 50123, started_at: "2024-01-01T00:00:00Z".to_string() };
    assert_eq!(daemon_status(None, true), DaemonStatus::NotRunning);
    assert_eq!(daemon_status(Some(&state), false), DaemonStatus::Exited { pid: 4242 });
    assert_eq!(daemon_status(Some(&state), true), DaemonStatus::Alive { port: 50123 });
    assert!(matches!(popup_route(&DaemonStatus::Alive { port: 7 }), Ok(7)));
    assert!(matches!(popup_route(&DaemonStatus::NotRunning), Err(IpcError::NotRunning)));
    assert!(matches!(shutdown_route(&DaemonStatus::Exited { pid: 1 }), Ok(None)));
    assert!(matches!(shutdown_route(&DaemonStatus::Alive { port: 9 }), Ok(Some(9))));
    assert!(matches!(shutdown_route(&DaemonStatus::NotRunning), Err(IpcError::NotRunning)));
    assert_eq!(daemon_address(50123), "127.0.0.1:50123");
    assert_eq!(daemon_address(0), "127.0.0.1:0");
}

#[test]
fn error_messages() {
    assert_eq!(IpcError::NotRunning.message(), "守护进程未运行");
    assert_eq!(IpcError::Exited { pid: 4242 }.message(), "守护进程已退出（PID: 4242）");
    assert_eq!(IpcError::Daemon { message: "boom".to_string() }.message(), "守护进程错误: boom");
    assert_eq!(IpcError::UnexpectedResponse.message(), "收到意外的 IPC 响应");
    assert_eq!(IpcError::BadPong.message(), "ping 响应异常");
    assert_eq!(request_parse_error("eof"), "解析 IPC 请求失败: eof");
}

#[test]
fn replies_are_interpreted() {
    match popup_reply(IpcResponse::PopupResponse { response: "ok".to_string() }) {
        Ok(s) => assert_eq!(s, "ok"),
        Err(e) => panic!("{}", e.message()),
    }
    match popup_reply(IpcResponse::Error { message: "busy".to_string() }) {
        Err(e) => assert_eq!(e.message(), "守护进程错误: busy"),
        Ok(_) => panic!("expected an error"),
    }
    assert!(matches!(popup_reply(IpcResponse::Pong), Err(IpcError::UnexpectedResponse)));
    assert!(ping_reply(&IpcResponse::Pong).is_ok());
    assert!(matches!(ping_reply(&IpcResponse::ShutdownAck), Err(IpcError::BadPong)));
}

#[test]
fn daemon_actions() {
    assert!(matches!(respond_to(IpcRequest::Ping), IpcAction::Reply(IpcResponse::Pong)));
    assert!(matches!(respond_to(IpcRequest::Shutdown), IpcAction::AcknowledgeShutdown));
    let req = PopupRequest {
        id: "r1".to_string(),
        timeout_ms: 1000,
        retry_count: 0,
        project_path: None,
        project_name: None,
    };
    match respond_to(IpcRequest::Popup { request: req }) {
        IpcAction::ShowPopup(r) => assert_eq!(r.id, "r1"),
        other => panic!("{:?}", other),
    }
}

#[test]
fn popup_wait_replies() {
    match popup_wait_response(PopupWait::Answered("yes".to_string())) {
        IpcResponse::PopupResponse { response } => assert_eq!(response, "yes"),
        other => panic!("{:?}", other),
    }
    let cases = vec![
        (PopupWait::ChannelUnavailable("poisoned".to_string()), "获取响应通道失败: poisoned"),
        (PopupWait::SerializeFailed("x".to_string()), "序列化请求失败: x"),
        (PopupWait::EmitFailed("y".to_string()), "发送弹窗事件失败: y"),
        (PopupWait::ChannelClosed, "等待用户响应超时或通道关闭"),
    ];
    for (wait, text) in cases {
        match popup_wait_response(wait) {
            IpcResponse::Error { message } => assert_eq!(message, text),
            other => panic!("{:?}", other),
        }
    }
}
