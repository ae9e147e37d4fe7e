//! How the helper process that interrupts a console reports back.

use vstd::prelude::*;
use vstd::string::StringExecFns;

verus! {

pub const SUCCESS: i32 = 0;

pub const ATTACH_FAILED: i32 = 2;

pub const SET_HANDLER_FAILED: i32 = 3;

pub const GET_CONSOLE_WINDOW_FAILED: i32 = 4;

pub const CLOSE_WINDOW_FAILED: i32 = 5;

/// What an exit code of the helper process means.
#[derive(Debug, Clone, Copy, PartialEq, Eq, Structural)]
pub enum ReaperExit {
    Success,
    AttachFailed,
    SetHandlerFailed,
    GetConsoleWindowFailed,
    CloseWindowFailed,
    Unexpected(i32),
}

impl ReaperExit {
    /// The meaning of an exit code.
    pub open spec fn of(code: i32) -> ReaperExit {
        if code == SUCCESS {
            ReaperExit::Success
        } else if code == ATTACH_FAILED {
            ReaperExit::AttachFailed
        } else if code == SET_HANDLER_FAILED {
            ReaperExit::SetHandlerFailed
        } else if code == GET_CONSOLE_WINDOW_FAILED {
            ReaperExit::GetConsoleWindowFailed
        } else if code == CLOSE_WINDOW_FAILED {
            ReaperExit::CloseWindowFailed
        } else {
            ReaperExit::Unexpected(code)
        }
    }

    /// The message of a failure that has a fixed one.
    pub open spec fn fixed_message(self) -> Option<Seq<char>> {
        match self {
            ReaperExit::AttachFailed => Some("failed to attach to child process console"@),
            ReaperExit::SetHandlerFailed => Some(
                "failed to set CTRL-C handler in child process"@,
            ),
            ReaperExit::GetConsoleWindowFailed => Some(
                "failed to get the console window of the child process"@,
            ),
            ReaperExit::CloseWindowFailed => Some(
                "failed to close the console window of the child process"@,
            ),
            _ => None,
        }
    }

    /// The meaning of an exit code.
    pub fn from_code(code: i32) -> (exit: ReaperExit)
        ensures
            exit == ReaperExit::of(code),
    {
        if code == SUCCESS {
            ReaperExit::Success
        } else if code == ATTACH_FAILED {
            ReaperExit::AttachFailed
        } else if code == SET_HANDLER_FAILED {
            ReaperExit::SetHandlerFailed
        } else if code == GET_CONSOLE_WINDOW_FAILED {
            ReaperExit::GetConsoleWindowFailed
        } else if code == CLOSE_WINDOW_FAILED {
            ReaperExit::CloseWindowFailed
        } else {
            ReaperExit::Unexpected(code)
        }
    }

    /// The message of a failure that has a fixed one; `None` for success and
    /// for an unexpected code.
    pub fn message(&self) -> (message: Option<String>)
        ensures
            match message {
                Some(message) => self.fixed_message() == Some(message@),
                None => self.fixed_message() is None,
            },
    {
        match self {
            ReaperExit::AttachFailed => Some(
                String::from_str("failed to attach to child process console"),
            ),
            ReaperExit::SetHandlerFailed => Some(
                String::from_str("failed to set CTRL-C handler in child process"),
            ),
            ReaperExit::GetConsoleWindowFailed => Some(
                String::from_str("failed to get the console window of the child process"),
            ),
            ReaperExit::CloseWindowFailed => Some(
                String::from_str("failed to close the console window of the child process"),
            ),
            _ => None,
        }
    }
}

} // verus!
