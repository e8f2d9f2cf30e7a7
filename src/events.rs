//! The events delivered to the observer of a run, and the run's summary.

use vstd::prelude::*;
use crate::classify::Level;

verus! {

/// Which of the worker's two output streams a line came from.
#[derive(Clone, Copy, Debug, PartialEq, Eq, Structural)]
pub enum StreamKind {
    Stdout,
    Stderr,
}

/// One line of output, with its severity.
#[derive(Clone, Debug)]
pub struct LogEvent {
    pub message: String,
    pub level: Level,
}

/// A progress update; only sent when `total > 0`.
#[derive(Clone, Debug)]
pub struct ProgressEvent {
    pub current: u64,
    pub total: u64,
    pub status: String,
}

/// The terminal event of a run.
#[derive(Clone, Debug)]
pub struct CompletionEvent {
    pub success: bool,
    pub exit_code: i32,
    pub message: String,
}

/// The closed set of events an observer receives.
#[derive(Clone, Debug)]
pub enum Event {
    Log(LogEvent),
    Progress(ProgressEvent),
    Completion(CompletionEvent),
}

/// What the caller gets back once the run is over.
#[derive(Clone, Debug)]
pub struct RunResult {
    pub stdout: String,
    pub stderr: String,
    pub exit_code: i32,
}

/// Why a run ended without a completion event.
#[derive(Clone, Debug)]
pub enum RunError {
    /// The run request lacks something it needs; no process was started.
    Config(String),
    /// The worker could not be started.
    Spawn(String),
    /// The platform could not report the worker's exit status.
    Wait(String),
    /// A stream reader failed in a way that a truncated stream does not cover.
    Drainer(String),
}

/// Exit code reported when the platform gives no numeric code.
pub const NO_EXIT_CODE: i32 = -1;

} // verus!
