//! The thread that owns the window: what its window procedure does with a
//! message, and how its message pump ends.

use vstd::prelude::*;

verus! {

/// The message that a window is destroyed.
pub const WM_DESTROY: u32 = 0x0002;

/// The message that a window is asked to close.
pub const WM_CLOSE: u32 = 0x0010;

/// The message that the application is asked to quit.
pub const WM_QUIT: u32 = 0x0012;

/// How the platform thread ended.
#[derive(Clone, Copy, Debug, PartialEq, Eq, Structural)]
pub enum ExitCode {
    Quit,
}

/// A failure of the platform thread. Its view is the text that describes it.
#[derive(Clone, Debug, PartialEq, Eq)]
pub struct PlatformError {
    details: String,
}

impl View for PlatformError {
    type V = Seq<char>;

    closed spec fn view(&self) -> Seq<char> {
        self.details@
    }
}

impl PlatformError {
    /// A failure that `details` describes.
    pub fn new(details: String) -> (error: PlatformError)
        ensures
            error@ == details@,
    {
        PlatformError { details }
    }

    /// The text that describes the failure.
    pub fn description(&self) -> (text: &str)
        ensures
            text@ == self@,
    {
        self.details.as_str()
    }

    /// The text that describes the failure, as a string of its own.
    pub fn message(&self) -> (text: String)
        ensures
            text@ == self@,
    {
        self.details.clone()
    }
}

/// What the platform thread hands over when it ends.
pub type ExitResult = Result<ExitCode, PlatformError>;

/// What the window procedure does with a message.
#[derive(Clone, Copy, Debug, PartialEq, Eq, Structural)]
pub enum WindowProcAction {
    /// Destroy the window, and return `result`.
    DestroyWindow { hwnd: usize, result: isize },
    /// Post the quit message with `exit_code`, and return `result`.
    PostQuitMessage { exit_code: i32, result: isize },
    /// Leave the message to the default window procedure, and return what it
    /// returns.
    DefWindowProc { hwnd: usize, u_msg: u32, w_param: usize, l_param: isize },
}

/// What is done with message `u_msg` to window `hwnd`: a window asked to
/// close is destroyed, a destroyed window makes the application quit with
/// exit code 0, and everything else is left to the default procedure.
pub open spec fn window_proc_action(hwnd: usize, u_msg: u32, w_param: usize, l_param: isize)
    -> WindowProcAction {
    if u_msg == WM_CLOSE {
        WindowProcAction::DestroyWindow { hwnd, result: 0 }
    } else if u_msg == WM_DESTROY {
        WindowProcAction::PostQuitMessage { exit_code: 0, result: 0 }
    } else {
        WindowProcAction::DefWindowProc { hwnd, u_msg, w_param, l_param }
    }
}

/// The window procedure: decides what is done with message `u_msg` to window
/// `hwnd`.
pub fn window_proc(hwnd: usize, u_msg: u32, w_param: usize, l_param: isize) -> (action:
    WindowProcAction)
    ensures
        action == window_proc_action(hwnd, u_msg, w_param, l_param),
{
    if u_msg == WM_CLOSE {
        WindowProcAction::DestroyWindow { hwnd, result: 0 }
    } else if u_msg == WM_DESTROY {
        WindowProcAction::PostQuitMessage { exit_code: 0, result: 0 }
    } else {
        WindowProcAction::DefWindowProc { hwnd, u_msg, w_param, l_param }
    }
}

/// What the message pump does after it looked for a message.
#[derive(Debug, PartialEq, Eq)]
pub enum PumpAction {
    /// There was no message: look again.
    Poll,
    /// Translate and dispatch the message, then look again.
    Dispatch,
    /// Hand `result` over and leave the pump. The message is not dispatched.
    Exit { result: ExitResult },
}

/// One turn of the message pump of the platform thread. `message` is the
/// message that was taken off the queue, if there was one. The quit message
/// ends the pump; any other message is dispatched.
pub fn platform_thread_run(message: Option<u32>) -> (action: PumpAction)
    ensures
        message == Some(WM_QUIT) ==> action == (PumpAction::Exit {
            result: Ok::<ExitCode, PlatformError>(ExitCode::Quit),
        }),
        message is Some && message != Some(WM_QUIT) ==> action == PumpAction::Dispatch,
        message is None ==> action == PumpAction::Poll,
{
    match message {
        None => PumpAction::Poll,
        Some(u_msg) => {
            if u_msg == WM_QUIT {
                PumpAction::Exit { result: Ok(ExitCode::Quit) }
            } else {
                PumpAction::Dispatch
            }
        },
    }
}

} // verus!
