//! Reading the command line of the popup program.

use vstd::prelude::*;
use crate::text::str_eq;

verus! {

/// What the command line asks for.
#[derive(Debug)]
pub enum CliCommand {
    /// No arguments: the settings window.
    RunGui,
    Help,
    Version,
    /// Start as the background popup daemon.
    Daemon,
    /// Stop the running daemon.
    Shutdown,
    /// Answer the popup request stored in this file.
    McpRequest(String),
    /// A single argument that means nothing: report it, show help, exit 1.
    UnknownArgument(String),
    /// Any other shape of command line: show help, exit 1.
    InvalidArguments,
}

/// The command for a single argument.
pub open spec fn single_argument_command(a: Seq<char>) -> CliCommandView {
    if a == "--help"@ || a == "-h"@ {
        CliCommandView::Help
    } else if a == "--version"@ || a == "-v"@ {
        CliCommandView::Version
    } else if a == "--daemon"@ {
        CliCommandView::Daemon
    } else if a == "--shutdown"@ {
        CliCommandView::Shutdown
    } else {
        CliCommandView::UnknownArgument(a)
    }
}

/// The command for the whole argument list, program name first.
pub open spec fn cli_command(args: Seq<Seq<char>>) -> CliCommandView {
    if args.len() == 1 {
        CliCommandView::RunGui
    } else if args.len() == 2 {
        single_argument_command(args[1])
    } else if args[1] == "--mcp-request"@ && args.len() >= 3 {
        CliCommandView::McpRequest(args[2])
    } else {
        CliCommandView::InvalidArguments
    }
}

pub enum CliCommandView {
    RunGui,
    Help,
    Version,
    Daemon,
    Shutdown,
    McpRequest(Seq<char>),
    UnknownArgument(Seq<char>),
    InvalidArguments,
}

impl View for CliCommand {
    type V = CliCommandView;

    open spec fn view(&self) -> CliCommandView {
        match self {
            CliCommand::RunGui => CliCommandView::RunGui,
            CliCommand::Help => CliCommandView::Help,
            CliCommand::Version => CliCommandView::Version,
            CliCommand::Daemon => CliCommandView::Daemon,
            CliCommand::Shutdown => CliCommandView::Shutdown,
            CliCommand::McpRequest(f) => CliCommandView::McpRequest(f@),
            CliCommand::UnknownArgument(a) => CliCommandView::UnknownArgument(a@),
            CliCommand::InvalidArguments => CliCommandView::InvalidArguments,
        }
    }
}

/// Reads the arguments; the first is the program's own name, as in
/// `std::env::args`.
pub fn parse_cli_args(args: &Vec<String>) -> (r: CliCommand)
    requires
        args@.len() >= 1,
    ensures
        r@ == cli_command(args.deep_view()),
{
    let n = args.len();
    if n == 1 {
        CliCommand::RunGui
    } else if n == 2 {
        let a = args[1].as_str();
        if str_eq(a, "--help") || str_eq(a, "-h") {
            CliCommand::Help
        } else if str_eq(a, "--version") || str_eq(a, "-v") {
            CliCommand::Version
        } else if str_eq(a, "--daemon") {
            CliCommand::Daemon
        } else if str_eq(a, "--shutdown") {
            CliCommand::Shutdown
        } else {
            CliCommand::UnknownArgument(args[1].clone())
        }
    } else if str_eq(args[1].as_str(), "--mcp-request") && n >= 3 {
        CliCommand::McpRequest(args[2].clone())
    } else {
        CliCommand::InvalidArguments
    }
}

/// How to answer a popup request file.
#[derive(Debug, PartialEq, Eq, Structural)]
pub enum McpRequestMode {
    /// Telegram only: no window is shown.
    TelegramOnly,
    /// The popup window.
    Gui,
}

/// The Telegram settings that decide the mode.
pub struct TelegramSwitches {
    pub enabled: bool,
    pub hide_frontend_popup: bool,
}

/// Telegram alone answers when it is enabled and the window is hidden;
/// otherwise, and when the settings could not be loaded (`None`), the popup
/// window does.
pub fn mcp_request_mode(settings: Option<&TelegramSwitches>) -> (r: McpRequestMode)
    ensures
        r == (match settings {
            Some(s) => if s.enabled && s.hide_frontend_popup {
                McpRequestMode::TelegramOnly
            } else {
                McpRequestMode::Gui
            },
            None => McpRequestMode::Gui,
        }),
{
    match settings {
        Some(s) => if s.enabled && s.hide_frontend_popup {
            McpRequestMode::TelegramOnly
        } else {
            McpRequestMode::Gui
        },
        None => McpRequestMode::Gui,
    }
}

} // verus!
