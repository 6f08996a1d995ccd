//! Start-up decisions of the executable: the window subprocess mode, the
//! first-run wizard, and the answers of the hidden shutdown window.

use vstd::prelude::*;
use vstd::string::*;

verus! {

/// The Win32 message number of `WM_CLOSE`.
pub const WM_CLOSE: u32 = 0x0010;

/// The Win32 message number of `WM_QUERYENDSESSION`.
pub const WM_QUERYENDSESSION: u32 = 0x0011;

/// The Win32 message number of `WM_ENDSESSION`.
pub const WM_ENDSESSION: u32 = 0x0016;

/// How the hidden shutdown window answers a window message.
#[derive(Clone, Copy, Debug, PartialEq, Eq, Structural)]
pub enum WndResponse {
    /// The message is handled here: post `WM_QUIT` first when `post_quit`,
    /// then return `result` from the window procedure.
    Handled { post_quit: bool, result: isize },
    /// Pass the message on to `DefWindowProcW`.
    Default,
}

/// The answer to message `msg` with parameter `wparam`: a close request
/// (Task Manager's "End task", `taskkill` without `/F`) and an ending session
/// start the graceful shutdown; a query whether the session may end is
/// answered with TRUE; a session end that was cancelled (`wparam == 0`) is
/// only acknowledged.
pub open spec fn shutdown_response(msg: u32, wparam: usize) -> WndResponse {
    if msg == WM_CLOSE {
        WndResponse::Handled { post_quit: true, result: 0 }
    } else if msg == WM_QUERYENDSESSION {
        WndResponse::Handled { post_quit: false, result: 1 }
    } else if msg == WM_ENDSESSION {
        WndResponse::Handled { post_quit: wparam != 0, result: 0 }
    } else {
        WndResponse::Default
    }
}

/// How the hidden shutdown window answers message `msg`.
pub fn shutdown_message_response(msg: u32, wparam: usize) -> (r: WndResponse)
    ensures
        r == shutdown_response(msg, wparam),
{
    if msg == WM_CLOSE {
        WndResponse::Handled { post_quit: true, result: 0 }
    } else if msg == WM_QUERYENDSESSION {
        WndResponse::Handled { post_quit: false, result: 1 }
    } else if msg == WM_ENDSESSION {
        WndResponse::Handled { post_quit: wparam != 0, result: 0 }
    } else {
        WndResponse::Default
    }
}

/// The shutdown window passes every message but `WM_CLOSE`,
/// `WM_QUERYENDSESSION` and `WM_ENDSESSION` on to the default procedure, and
/// starts the shutdown only on `WM_CLOSE` or on a `WM_ENDSESSION` that ends
/// the session (`wparam != 0`); the query is answered TRUE (1), the others 0.
pub proof fn law_shutdown_window_answers(msg: u32, wparam: usize)
    ensures
        (msg != 0x0010 && msg != 0x0011 && msg != 0x0016) ==> shutdown_response(msg, wparam)
            == WndResponse::Default,
        (shutdown_response(msg, wparam) matches WndResponse::Handled { post_quit, .. } && post_quit)
            <==> (msg == 0x0010 || (msg == 0x0016 && wparam != 0)),
        msg == 0x0011 ==> shutdown_response(msg, wparam) == (WndResponse::Handled {
            post_quit: false,
            result: 1,
        }),
        (msg == 0x0010 || msg == 0x0016) ==> (shutdown_response(msg, wparam) matches WndResponse::Handled { result, .. } && result == 0),
{
}

/// The window that a `--window <type>` subprocess runs.
#[derive(Clone, Copy, Debug, PartialEq, Eq, Structural)]
pub enum SubprocessWindow {
    Wizard,
    Settings,
    About,
    UploadLog,
    /// The install dialog; `is_update` when an existing installation is
    /// updated. The process exits with the dialog's result.
    Install { is_update: bool },
    /// An unknown window type: it is reported as an error and the process ends.
    Unknown,
}

/// The window that `--window <window_type>` names.
pub open spec fn subprocess_window(window_type: Seq<char>) -> SubprocessWindow {
    if window_type == "wizard"@ {
        SubprocessWindow::Wizard
    } else if window_type == "settings"@ {
        SubprocessWindow::Settings
    } else if window_type == "about"@ {
        SubprocessWindow::About
    } else if window_type == "log"@ {
        SubprocessWindow::UploadLog
    } else if window_type == "install"@ {
        SubprocessWindow::Install { is_update: false }
    } else if window_type == "install-update"@ {
        SubprocessWindow::Install { is_update: true }
    } else {
        SubprocessWindow::Unknown
    }
}

/// Decides which single UI window a subprocess started with
/// `--window <window_type>` runs before it exits.
pub fn run_window_subprocess(window_type: &str) -> (w: SubprocessWindow)
    ensures
        w == subprocess_window(window_type@),
{
    let t = String::from_str(window_type);
    if t == String::from_str("wizard") {
        SubprocessWindow::Wizard
    } else if t == String::from_str("settings") {
        SubprocessWindow::Settings
    } else if t == String::from_str("about") {
        SubprocessWindow::About
    } else if t == String::from_str("log") {
        SubprocessWindow::UploadLog
    } else if t == String::from_str("install") {
        SubprocessWindow::Install { is_update: false }
    } else if t == String::from_str("install-update") {
        SubprocessWindow::Install { is_update: true }
    } else {
        SubprocessWindow::Unknown
    }
}

/// The window type of a command line `<exe> --window <type> ...`, if the
/// process was started in subprocess window mode.
pub fn window_mode_argument(args: &Vec<String>) -> (r: Option<String>)
    ensures
        r is Some <==> (args@.len() > 2 && args@[1]@ == "--window"@),
        r matches Some(w) ==> w@ == args@[2]@,
{
    if args.len() > 2 && args[1] == String::from_str("--window") {
        Some(args[2].clone())
    } else {
        None
    }
}

/// Whether the first-run wizard runs: when no server URL is configured.
pub fn needs_first_run_wizard(server_url: &str) -> (r: bool)
    ensures
        r == (server_url@.len() == 0),
{
    server_url.is_empty()
}

} // verus!
