//! Supervision of a line-oriented worker process: severity classification of
//! log lines, heuristic progress extraction, per-stream line handling and the
//! state machine that orders the terminal completion event.

pub mod text;
pub mod classify;
pub mod progress;
pub mod events;
pub mod drain;
pub mod supervisor;
pub mod laws;
pub mod paths;
