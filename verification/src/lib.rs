//! Decision engine for a single-shot backlight adjustment utility.
//!
//! The crate holds the pure policy of the tool: the singleton-instance
//! guard over a process table, backend selection between an on-screen
//! display service and the direct controller, parsing of the controller's
//! machine-readable brightness report, the boundary-aware step policy,
//! argument formatting for both backends, and the content of the optional
//! desktop notification. All process spawning, environment reads and the
//! notification call itself live outside the library and hand in plain
//! values.

use vstd::prelude::*;

pub mod applier;
pub mod backend;
pub mod guard;
pub mod notifier;
pub mod numeric;
pub mod reader;
pub mod step;
pub mod text;

verus! {

/// Which way the brightness moves in this invocation.
#[derive(Clone, Copy, Debug, PartialEq, Eq, Structural)]
pub enum Direction {
    Increase,
    Decrease,
}

/// Which external program performs the change: the on-screen display
/// client (when both the client and its server are present) or the
/// brightness controller itself.
#[derive(Clone, Copy, Debug, PartialEq, Eq, Structural)]
pub enum BackendChoice {
    OsdService,
    DirectController,
}

/// The failures the library itself can detect. Failures of spawned
/// programs are the caller's to report.
#[derive(Clone, Copy, Debug, PartialEq, Eq, Structural)]
pub enum Error {
    AlreadyRunning,
    BrightnessQueryParseFailure,
}

impl Error {
    /// Human-readable description, for the process's final error report.
    pub fn message(&self) -> (r: &'static str)
        ensures
            *self == Error::AlreadyRunning ==> r@ == "An instance of the script is already running..."@,
            *self == Error::BrightnessQueryParseFailure ==> r@ == "Failed to parse brightnessctl output"@,
    {
        match *self {
            Error::AlreadyRunning => "An instance of the script is already running...",
            Error::BrightnessQueryParseFailure => "Failed to parse brightnessctl output",
        }
    }
}

} // verus!
