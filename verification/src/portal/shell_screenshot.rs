//! The Cinnamon shell's screenshot calls (org.gnome.Shell.Screenshot on
//! org.Cinnamon): which method is called with which arguments, and how its
//! reply is read.
use vstd::prelude::*;

use crate::window::main_window::Scope;

verus! {

/// A shell screenshot method call; the file name is passed alongside.
#[derive(Debug, Clone, Copy, PartialEq, Eq, Structural)]
pub enum ShellCall {
    /// `Screenshot(include_frame, flash, filename)`
    Screenshot { include_frame: bool, flash: bool },
    /// `ScreenshotWindow(include_frame, include_cursor, flash, filename)`
    ScreenshotWindow { include_frame: bool, include_cursor: bool, flash: bool },
    /// `ScreenshotArea(x, y, w, h, flash, filename)`
    ScreenshotArea { x: i32, y: i32, w: i32, h: i32, flash: bool },
}

impl ShellCall {
    /// The D-Bus method name.
    pub fn method(&self) -> (r: &'static str)
        ensures
            r == (match *self {
                ShellCall::Screenshot { .. } => "Screenshot",
                ShellCall::ScreenshotWindow { .. } => "ScreenshotWindow",
                ShellCall::ScreenshotArea { .. } => "ScreenshotArea",
            }),
    {
        match self {
            ShellCall::Screenshot { .. } => "Screenshot",
            ShellCall::ScreenshotWindow { .. } => "ScreenshotWindow",
            ShellCall::ScreenshotArea { .. } => "ScreenshotArea",
        }
    }
}

#[derive(Debug, Clone, Copy, PartialEq, Eq, Structural)]
pub enum ShellError {
    /// The region scope is captured with explicit coordinates instead.
    RegionScope,
    /// The shell answered that the screenshot failed.
    ScreenshotFailed,
    /// The shell answered that the area screenshot failed.
    AreaFailed,
}

impl ShellError {
    pub fn message(&self) -> (r: &'static str)
        ensures
            r == (match *self {
                ShellError::RegionScope => "internal: region scope uses capture_region()",
                ShellError::ScreenshotFailed => "Cinnamon screenshot reported failure",
                ShellError::AreaFailed => "Cinnamon ScreenshotArea reported failure",
            }),
    {
        match self {
            ShellError::RegionScope => "internal: region scope uses capture_region()",
            ShellError::ScreenshotFailed => "Cinnamon screenshot reported failure",
            ShellError::AreaFailed => "Cinnamon ScreenshotArea reported failure",
        }
    }
}

/// The call for a full-screen or window capture: the full screen without a
/// frame, the focused window with its decorations and the cursor as set;
/// both flash. The region scope has no such call.
pub fn capture(scope: Scope, include_cursor: bool) -> (r: Result<ShellCall, ShellError>)
    ensures
        r == (match scope {
            Scope::Full => Ok(ShellCall::Screenshot { include_frame: false, flash: true }),
            Scope::Window => Ok(
                ShellCall::ScreenshotWindow { include_frame: true, include_cursor, flash: true },
            ),
            Scope::Region => Err(ShellError::RegionScope),
        }),
{
    match scope {
        Scope::Full => Ok(ShellCall::Screenshot { include_frame: false, flash: true }),
        Scope::Window => Ok(ShellCall::ScreenshotWindow { include_frame: true, include_cursor, flash: true }),
        Scope::Region => Err(ShellError::RegionScope),
    }
}

/// The call for an explicit screen rectangle (with a flash).
pub fn capture_region(x: i32, y: i32, w: i32, h: i32) -> (r: ShellCall)
    ensures
        r == (ShellCall::ScreenshotArea { x, y, w, h, flash: true }),
{
    ShellCall::ScreenshotArea { x, y, w, h, flash: true }
}

/// Reads the shell's `(success, used)` reply: the path it actually wrote,
/// or the failure of the call that was made.
pub fn read_reply(call: ShellCall, success: bool, used: String) -> (r: Result<String, ShellError>)
    ensures
        r == (if success {
            Ok(used)
        } else if call is ScreenshotArea {
            Err(ShellError::AreaFailed)
        } else {
            Err(ShellError::ScreenshotFailed)
        }),
{
    if success {
        Ok(used)
    } else {
        match call {
            ShellCall::ScreenshotArea { .. } => Err(ShellError::AreaFailed),
            _ => Err(ShellError::ScreenshotFailed),
        }
    }
}

} // verus!
