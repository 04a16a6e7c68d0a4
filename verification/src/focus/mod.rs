//! Bringing the remembered window back to the foreground.
//!
//! There are three strategies, one for each windowing model: activating the
//! owning application (`activation`), forcing the window to the foreground
//! past the foreground lock (`foreground`), and asking the window manager
//! with a client message (`xprotocol`). Each is a step function: the host
//! makes the calls, the step function says which call comes next and what
//! the outcome means. The host picks one strategy at startup.

pub mod activation;
pub mod foreground;
pub mod xprotocol;

use crate::window::WindowHandle;
use vstd::prelude::*;
use vstd::string::StringExecFns;

verus! {

/// Why a window was not brought to the foreground.
#[derive(Clone, Copy, Debug, PartialEq, Eq, Structural)]
pub enum FocusFailure {
    /// The application did not take the activation, and has no name to
    /// address it by.
    EmptyAppName,
    /// The activation script could not be started.
    ScriptNotRun,
    /// The activation script ran and reported a failure.
    ActivationRefused,
    /// The window id is not of the form `HWND(..)`.
    InvalidWindowIdFormat,
    /// The window id holds no hexadecimal number that fits.
    UnparsableWindowId,
    /// The thread that owns the window was not found.
    TargetThreadUnresolved,
    /// The operating system rejected the foreground request.
    ForegroundRejected,
    /// The window id is no decimal number that fits in 32 bits.
    InvalidWindowId,
    /// No connection to the display server.
    ConnectionFailed,
    /// The display server has no screen of the number it gave.
    ScreenMissing,
    /// The display server did not give the atom of the activation message.
    AtomUnavailable,
    /// The request did not reach the display server.
    FlushFailed,
    /// An event came that the step in progress does not end with.
    Unexpected,
}

/// How a focus restore ended.
#[derive(Clone, Copy, Debug, PartialEq, Eq, Structural)]
pub enum FocusEnd {
    Focused,
    Failed(FocusFailure),
}

/// The text of `failure_message`.
pub open spec fn failure_text(failure: FocusFailure, window: WindowHandle, os_text: Seq<char>) -> Seq<
    char,
> {
    match failure {
        FocusFailure::EmptyAppName => "previous window app name is empty"@,
        FocusFailure::ActivationRefused => "failed to focus app "@ + window.app_name@,
        FocusFailure::InvalidWindowIdFormat => "invalid window id format: "@ + window.window_id@,
        FocusFailure::UnparsableWindowId => "failed to parse window id "@ + window.window_id@,
        FocusFailure::TargetThreadUnresolved => "failed to get target thread id"@,
        FocusFailure::ForegroundRejected => "SetForegroundWindow failed"@,
        FocusFailure::InvalidWindowId => "invalid window id "@ + window.window_id@,
        FocusFailure::ScreenMissing => "failed to get screen"@,
        FocusFailure::Unexpected => "unexpected event during focus restore"@,
        FocusFailure::ScriptNotRun
        | FocusFailure::ConnectionFailed
        | FocusFailure::AtomUnavailable
        | FocusFailure::FlushFailed => os_text,
    }
}

/// The failure in words. For a failure of the operating system itself the
/// words are `os_text`, the text of the error that the host got.
pub fn failure_message(failure: FocusFailure, window: &WindowHandle, os_text: &str) -> (res: String)
    ensures
        res@ == failure_text(failure, *window, os_text@),
{
    match failure {
        FocusFailure::EmptyAppName => String::from_str("previous window app name is empty"),
        FocusFailure::ActivationRefused => {
            let mut out = String::from_str("failed to focus app ");
            out.append(window.app_name.as_str());
            out
        },
        FocusFailure::InvalidWindowIdFormat => {
            let mut out = String::from_str("invalid window id format: ");
            out.append(window.window_id.as_str());
            out
        },
        FocusFailure::UnparsableWindowId => {
            let mut out = String::from_str("failed to parse window id ");
            out.append(window.window_id.as_str());
            out
        },
        FocusFailure::TargetThreadUnresolved => String::from_str("failed to get target thread id"),
        FocusFailure::ForegroundRejected => String::from_str("SetForegroundWindow failed"),
        FocusFailure::InvalidWindowId => {
            let mut out = String::from_str("invalid window id ");
            out.append(window.window_id.as_str());
            out
        },
        FocusFailure::ScreenMissing => String::from_str("failed to get screen"),
        FocusFailure::Unexpected => String::from_str("unexpected event during focus restore"),
        FocusFailure::ScriptNotRun
        | FocusFailure::ConnectionFailed
        | FocusFailure::AtomUnavailable
        | FocusFailure::FlushFailed => String::from_str(os_text),
    }
}

} // verus!
