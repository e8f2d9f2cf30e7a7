//! What a stream reader does with each line it reads, and how the captured
//! lines of a stream are put together.

use vstd::prelude::*;
use vstd::string::*;
use crate::classify::{classify, level_of, stderr_tag};
use crate::events::{Event, LogEvent, ProgressEvent, StreamKind};
use crate::progress::{extract, extract_spec};

verus! {

/// The message of a line as delivered: lines of the error stream carry the
/// "[STDERR] " tag in front.
pub open spec fn tagged(line: Seq<char>, stream: StreamKind) -> Seq<char> {
    match stream {
        StreamKind::Stdout => line,
        StreamKind::Stderr => stderr_tag() + seq![' '] + line,
    }
}

/// A line yields a progress event when extraction succeeds with a positive
/// total.
pub open spec fn shows_progress(line: Seq<char>) -> bool {
    match extract_spec(line) {
        Some(t) => t.1 > 0,
        None => false,
    }
}

/// The log event for a line: the tagged message and its level.
pub open spec fn is_log_for(e: Event, line: Seq<char>, stream: StreamKind) -> bool {
    match e {
        Event::Log(l) => l.message@ == tagged(line, stream) && l.level == level_of(tagged(line, stream)),
        _ => false,
    }
}

/// The progress event for a line, as extracted from the untagged text.
pub open spec fn is_progress_for(e: Event, line: Seq<char>) -> bool {
    match e {
        Event::Progress(p) => extract_spec(line) == Some(
            (p.current as nat, p.total as nat, p.status@),
        ),
        _ => false,
    }
}

/// The events of one line: its progress event if it shows progress, then
/// exactly one log event.
pub open spec fn line_events_ok(line: Seq<char>, stream: StreamKind, evs: Seq<Event>) -> bool {
    if shows_progress(line) {
        evs.len() == 2 && is_progress_for(evs[0], line) && is_log_for(evs[1], line, stream)
    } else {
        evs.len() == 1 && is_log_for(evs[0], line, stream)
    }
}

/// The message for a line of the given stream.
pub fn tag_line(line: &str, stream: StreamKind) -> (r: String)
    ensures
        r@ == tagged(line@, stream),
{
    match stream {
        StreamKind::Stdout => String::from_str(line),
        StreamKind::Stderr => {
            let mut s = String::from_str("[STDERR] ");
            proof {
                reveal_strlit("[STDERR] ");
            }
            assert(s@ =~= stderr_tag() + seq![' ']);
            s.append(line);
            s
        },
    }
}

/// The events produced for one line read from `stream`.
pub fn line_events(line: &str, stream: StreamKind) -> (r: Vec<Event>)
    ensures
        line_events_ok(line@, stream, r@),
{
    let mut evs: Vec<Event> = Vec::new();
    match extract(line) {
        Some(p) => {
            if p.total > 0 {
                evs.push(
                    Event::Progress(ProgressEvent { current: p.current, total: p.total, status: p.status }),
                );
            }
        },
        None => {},
    }
    let message = tag_line(line, stream);
    let level = classify(message.as_str());
    evs.push(Event::Log(LogEvent { message, level }));
    evs
}

/// Lines joined with a newline between each two.
pub open spec fn join_lines(ls: Seq<Seq<char>>) -> Seq<char>
    decreases ls.len(),
{
    if ls.len() == 0 {
        Seq::empty()
    } else if ls.len() == 1 {
        ls[0]
    } else {
        join_lines(ls.drop_last()) + seq!['\n'] + ls.last()
    }
}

pub open spec fn string_views(ls: Seq<String>) -> Seq<Seq<char>> {
    ls.map_values(|s: String| s@)
}

/// The captured text of a stream: its lines joined with newlines.
pub fn join(lines: &Vec<String>) -> (r: String)
    ensures
        r@ == join_lines(string_views(lines@)),
{
    let mut out = String::new();
    let mut i: usize = 0;
    while i < lines.len()
        invariant
            i <= lines.len(),
            out@ == join_lines(string_views(lines@.take(i as int))),
        decreases lines.len() - i,
    {
        assert(string_views(lines@.take(i + 1)).drop_last() =~= string_views(lines@.take(i as int)));
        if i > 0 {
            out.append("\n");
            proof {
                reveal_strlit("\n");
            }
        }
        out.append(lines[i].as_str());
        i = i + 1;
    }
    assert(lines@.take(lines.len() as int) =~= lines@);
    out
}

} // verus!
