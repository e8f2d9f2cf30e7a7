//! Severity of a log line.

use vstd::prelude::*;
use crate::text::{chars_of, contains_ci, contains_ci_exec};

verus! {

/// Severity attached to every log line.
#[derive(Clone, Copy, Debug, PartialEq, Eq, Structural)]
pub enum Level {
    Info,
    Warning,
    Error,
}

/// Tag put in front of every line read from the worker's error stream.
pub open spec fn stderr_tag() -> Seq<char> {
    seq!['[', 'S', 'T', 'D', 'E', 'R', 'R', ']']
}

pub open spec fn error_word() -> Seq<char> {
    seq!['E', 'R', 'R', 'O', 'R']
}

pub open spec fn warn_word() -> Seq<char> {
    seq!['W', 'A', 'R', 'N']
}

/// The glyph the worker prints in front of a failed step.
pub open spec fn failure_glyph() -> Seq<char> {
    seq!['\u{274c}']
}

/// A line is an error line when it holds "ERROR" or the "[STDERR]" tag in
/// any ASCII case, or the failure glyph.
pub open spec fn is_error_line(s: Seq<char>) -> bool {
    contains_ci(s, error_word()) || contains_ci(s, stderr_tag()) || contains_ci(s, failure_glyph())
}

/// The level that a line is given: error markers first, then "WARN" (which
/// "WARNING" contains), otherwise informational.
pub open spec fn level_of(s: Seq<char>) -> Level {
    if is_error_line(s) {
        Level::Error
    } else if contains_ci(s, warn_word()) {
        Level::Warning
    } else {
        Level::Info
    }
}

/// Classifies one line of worker output.
pub fn classify(line: &str) -> (r: Level)
    ensures
        r == level_of(line@),
{
    let cs = chars_of(line);
    classify_chars(&cs)
}

/// Classifies a line given as its characters.
pub fn classify_chars(cs: &Vec<char>) -> (r: Level)
    ensures
        r == level_of(cs@),
{
    let error_w = vec!['E', 'R', 'R', 'O', 'R'];
    let tag_w = vec!['[', 'S', 'T', 'D', 'E', 'R', 'R', ']'];
    let glyph_w = vec!['\u{274c}'];
    let warn_w = vec!['W', 'A', 'R', 'N'];
    assert(error_w@ == error_word());
    assert(tag_w@ == stderr_tag());
    assert(glyph_w@ == failure_glyph());
    assert(warn_w@ == warn_word());
    if contains_ci_exec(cs, &error_w) || contains_ci_exec(cs, &tag_w) || contains_ci_exec(cs, &glyph_w) {
        Level::Error
    } else if contains_ci_exec(cs, &warn_w) {
        Level::Warning
    } else {
        Level::Info
    }
}

} // verus!
