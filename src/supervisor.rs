//! The run's state machine. The caller performs what each step asks for
//! (start the worker, kill it) and feeds back what happened (started, a line
//! was read, a stream ended, the worker exited); the machine decides what the
//! observer sees and when the run is over.

use vstd::prelude::*;
use vstd::string::*;
use crate::drain::{join, join_lines, line_events, line_events_ok, string_views};
use crate::events::{CompletionEvent, Event, RunError, RunResult, StreamKind, NO_EXIT_CODE};
use crate::text::{chars_of, trim, trim_range};

verus! {

/// Where a run stands. `Running` covers the time from a successful start
/// until both streams have ended and the exit status is known, while the
/// streams are drained and the worker is waited for together.
#[derive(Clone, Copy, Debug, PartialEq, Eq, Structural)]
pub enum Phase {
    NotStarted,
    Spawning,
    Running,
    Completed,
    Failed,
}

/// What happened, as reported by the caller.
#[derive(Clone, Debug)]
pub enum Input {
    /// A run was requested.
    Start,
    /// The worker was started.
    Spawned,
    /// The worker could not be started.
    SpawnFailed(String),
    /// One line was read from a stream.
    Line(StreamKind, String),
    /// A stream reached its end, or a read on it failed.
    Eof(StreamKind),
    /// The worker exited; `None` when the platform gives no numeric code.
    Exited(Option<i32>),
    /// Waiting for the worker failed.
    WaitFailed(String),
    /// A stream reader failed outright.
    DrainerFailed(String),
    /// The user asked to stop the worker.
    Cancel,
}

/// What the caller is asked to do.
#[derive(Clone, Debug)]
pub enum Action {
    /// Start the worker.
    Spawn,
    /// Deliver an event to the observer.
    Emit(Event),
    /// Kill the worker.
    Kill,
    /// Hand the run's result to whoever requested it.
    Finish(RunResult),
    /// Hand the run's error to whoever requested it.
    Fail(RunError),
}

/// The state of one supervised run.
#[derive(Debug)]
pub struct Supervisor {
    pub phase: Phase,
    pub stdout_open: bool,
    pub stderr_open: bool,
    /// The exit status once the wait has returned.
    pub exit: Option<Option<i32>>,
    pub cancelled: bool,
    pub stdout_lines: Vec<String>,
    pub stderr_lines: Vec<String>,
}

pub open spec fn digit_char(d: nat) -> char {
    seq!['0', '1', '2', '3', '4', '5', '6', '7', '8', '9'][d as int]
}

pub open spec fn nat_digits(n: nat) -> Seq<char>
    decreases n,
{
    if n < 10 {
        seq![digit_char(n)]
    } else {
        nat_digits(n / 10).push(digit_char(n % 10))
    }
}

/// The decimal form of an integer, with '-' in front of a negative one.
pub open spec fn decimal(v: int) -> Seq<char> {
    if v < 0 {
        seq!['-'] + nat_digits((-v) as nat)
    } else {
        nat_digits(v as nat)
    }
}

/// Relies on `ToString` for `i32` (its `Display`): the decimal digits, with a
/// leading '-' for a negative value.
#[verifier::external_body]
fn decimal_string(v: i32) -> (r: String)
    ensures
        r@ == decimal(v as int),
{
    v.to_string()
}

pub open spec fn exit_code_of(e: Option<i32>) -> i32 {
    match e {
        Some(c) => c,
        None => NO_EXIT_CODE,
    }
}

pub open spec fn msg_success() -> Seq<char> {
    "Process completed successfully"@
}

pub open spec fn msg_cancelled() -> Seq<char> {
    "Process was cancelled"@
}

pub open spec fn msg_exit_prefix() -> Seq<char> {
    "Process exited with code "@
}

/// The human-readable message of the completion event.
pub open spec fn completion_message(code: i32, cancelled: bool) -> Seq<char> {
    if cancelled {
        msg_cancelled()
    } else if code == 0 {
        msg_success()
    } else {
        msg_exit_prefix() + decimal(code as int)
    }
}

/// Both streams have ended and the exit status is known.
pub open spec fn ready(s: Supervisor) -> bool {
    !s.stdout_open && !s.stderr_open && s.exit is Some
}

pub open spec fn is_completion(a: Action) -> bool {
    a matches Action::Emit(Event::Completion(_))
}

pub open spec fn has_completion(acts: Seq<Action>) -> bool {
    exists|i: int| 0 <= i < acts.len() && is_completion(#[trigger] acts[i])
}

/// The two actions that end a run of state `s`: the completion event, then
/// the result.
pub open spec fn completion_ok(s: Supervisor, acts: Seq<Action>) -> bool {
    let code = exit_code_of(s.exit.unwrap());
    &&& acts.len() == 2
    &&& match acts[0] {
        Action::Emit(Event::Completion(c)) => c.success == (code == 0 && !s.cancelled)
            && c.exit_code == code && c.message@ == completion_message(code, s.cancelled),
        _ => false,
    }
    &&& match acts[1] {
        Action::Finish(r) => r.stdout@ == join_lines(string_views(s.stdout_lines@)) && r.stderr@
            == join_lines(string_views(s.stderr_lines@)) && r.exit_code == code,
        _ => false,
    }
}

/// From the updated state `s`: complete when ready, otherwise stay.
pub open spec fn settled(s: Supervisor, b: Supervisor, acts: Seq<Action>) -> bool {
    if ready(s) {
        b == (Supervisor { phase: Phase::Completed, ..s }) && completion_ok(s, acts)
    } else {
        b == s && acts.len() == 0
    }
}

pub open spec fn stream_open(s: Supervisor, k: StreamKind) -> bool {
    match k {
        StreamKind::Stdout => s.stdout_open,
        StreamKind::Stderr => s.stderr_open,
    }
}

pub open spec fn emitted(acts: Seq<Action>) -> Seq<Event> {
    acts.map_values(|a: Action| a->Emit_0)
}

pub open spec fn all_emits(acts: Seq<Action>) -> bool {
    forall|i: int| 0 <= i < acts.len() ==> (#[trigger] acts[i]) is Emit
}

/// A line of stream `k` recorded in `b`, nothing else changed.
pub open spec fn line_recorded(a: Supervisor, b: Supervisor, k: StreamKind, l: String) -> bool {
    &&& b.phase == a.phase
    &&& b.stdout_open == a.stdout_open
    &&& b.stderr_open == a.stderr_open
    &&& b.exit == a.exit
    &&& b.cancelled == a.cancelled
    &&& match k {
        StreamKind::Stdout => b.stdout_lines@ == a.stdout_lines@.push(l) && b.stderr_lines
            == a.stderr_lines,
        StreamKind::Stderr => b.stderr_lines@ == a.stderr_lines@.push(l) && b.stdout_lines
            == a.stdout_lines,
    }
}

/// One step of the machine: from state `a` on `input` to state `b`, asking
/// for `acts` in order.
pub open spec fn step_ok(a: Supervisor, input: Input, b: Supervisor, acts: Seq<Action>) -> bool {
    match a.phase {
        Phase::NotStarted => match input {
            Input::Start => b == (Supervisor { phase: Phase::Spawning, ..a }) && acts == seq![
                Action::Spawn,
            ],
            _ => b == a && acts.len() == 0,
        },
        Phase::Spawning => match input {
            Input::Spawned => b == (Supervisor {
                phase: Phase::Running,
                stdout_open: true,
                stderr_open: true,
                exit: None,
                ..a
            }) && (if a.cancelled {
                acts == seq![Action::Kill]
            } else {
                acts.len() == 0
            }),
            Input::SpawnFailed(m) => b == (Supervisor { phase: Phase::Failed, ..a }) && acts
                == seq![Action::Fail(RunError::Spawn(m))],
            Input::Cancel => b == (Supervisor { cancelled: true, ..a }) && acts.len() == 0,
            _ => b == a && acts.len() == 0,
        },
        Phase::Running => match input {
            Input::Line(k, l) => if stream_open(a, k) {
                line_recorded(a, b, k, l) && all_emits(acts) && line_events_ok(l@, k, emitted(acts))
            } else {
                b == a && acts.len() == 0
            },
            Input::Eof(k) => match k {
                StreamKind::Stdout => settled(Supervisor { stdout_open: false, ..a }, b, acts),
                StreamKind::Stderr => settled(Supervisor { stderr_open: false, ..a }, b, acts),
            },
            Input::Exited(c) => if a.exit is None {
                settled(Supervisor { exit: Some(c), ..a }, b, acts)
            } else {
                b == a && acts.len() == 0
            },
            Input::WaitFailed(m) => b == (Supervisor { phase: Phase::Failed, ..a }) && acts
                == seq![Action::Fail(RunError::Wait(m))],
            Input::DrainerFailed(m) => b == (Supervisor { phase: Phase::Failed, ..a }) && acts
                == seq![Action::Fail(RunError::Drainer(m))],
            Input::Cancel => if a.exit is None && !a.cancelled {
                b == (Supervisor { cancelled: true, ..a }) && acts == seq![Action::Kill]
            } else {
                b == a && acts.len() == 0
            },
            _ => b == a && acts.len() == 0,
        },
        Phase::Completed | Phase::Failed => b == a && acts.len() == 0,
    }
}

/// The message of the completion event.
pub fn completion_text(code: i32, cancelled: bool) -> (r: String)
    ensures
        r@ == completion_message(code, cancelled),
{
    if cancelled {
        String::from_str("Process was cancelled")
    } else if code == 0 {
        String::from_str("Process completed successfully")
    } else {
        let mut m = String::from_str("Process exited with code ");
        let d = decimal_string(code);
        m.append(d.as_str());
        m
    }
}

/// The program of a run request must name something: empty or blank is a
/// configuration error, found before any process is started.
pub fn validate_request(program: &str) -> (r: Result<(), RunError>)
    ensures
        r is Ok <==> trim(program@).len() > 0,
        r matches Err(e) ==> (e matches RunError::Config(m) && m@ == "Worker program path is missing"@),
{
    let cs = chars_of(program);
    let (lo, hi) = trim_range(&cs);
    if lo < hi {
        Ok(())
    } else {
        Err(RunError::Config(String::from_str("Worker program path is missing")))
    }
}

impl Supervisor {
    /// A run that has not been requested yet.
    pub fn new() -> (r: Supervisor)
        ensures
            r.phase == Phase::NotStarted,
            !r.stdout_open,
            !r.stderr_open,
            r.exit is None,
            !r.cancelled,
            r.stdout_lines@.len() == 0,
            r.stderr_lines@.len() == 0,
    {
        Supervisor {
            phase: Phase::NotStarted,
            stdout_open: false,
            stderr_open: false,
            exit: None,
            cancelled: false,
            stdout_lines: Vec::new(),
            stderr_lines: Vec::new(),
        }
    }

    /// Completes the run when both streams have ended and the exit status is
    /// known.
    fn settle(&mut self) -> (r: Vec<Action>)
        ensures
            settled(*old(self), *final(self), r@),
    {
        if !self.stdout_open && !self.stderr_open {
            if let Some(e) = self.exit {
                let code = match e {
                    Some(c) => c,
                    None => NO_EXIT_CODE,
                };
                let success = code == 0 && !self.cancelled;
                let message = completion_text(code, self.cancelled);
                let result = RunResult {
                    stdout: join(&self.stdout_lines),
                    stderr: join(&self.stderr_lines),
                    exit_code: code,
                };
                self.phase = Phase::Completed;
                let mut acts: Vec<Action> = Vec::new();
                acts.push(Action::Emit(Event::Completion(CompletionEvent { success, exit_code: code, message })));
                acts.push(Action::Finish(result));
                return acts;
            }
        }
        Vec::new()
    }

    /// Handles one line read from stream `k`.
    fn take_line(&mut self, k: StreamKind, l: String) -> (r: Vec<Action>)
        requires
            old(self).phase == Phase::Running,
            stream_open(*old(self), k),
        ensures
            line_recorded(*old(self), *final(self), k, l),
            all_emits(r@),
            line_events_ok(l@, k, emitted(r@)),
    {
        let mut evs = line_events(l.as_str(), k);
        let ghost evs0 = evs@;
        let mut acts: Vec<Action> = Vec::new();
        while evs.len() > 0
            invariant
                all_emits(acts@),
                emitted(acts@) + evs@ == evs0,
            decreases evs.len(),
        {
            let ghost before = acts@;
            let e = evs.remove(0);
            acts.push(Action::Emit(e));
            assert(emitted(acts@) =~= emitted(before).push(e));
        }
        assert(evs@ =~= Seq::<Event>::empty());
        assert(emitted(acts@) =~= evs0);
        match k {
            StreamKind::Stdout => self.stdout_lines.push(l),
            StreamKind::Stderr => self.stderr_lines.push(l),
        }
        acts
    }

    /// Advances the run by one reported happening and returns what the
    /// caller must do, in order.
    pub fn step(&mut self, input: Input) -> (r: Vec<Action>)
        ensures
            step_ok(*old(self), input, *final(self), r@),
    {
        match self.phase {
            Phase::NotStarted => match input {
                Input::Start => {
                    self.phase = Phase::Spawning;
                    let v = vec![Action::Spawn];
                    assert(v@ =~= seq![Action::Spawn]);
                    v
                },
                _ => Vec::new(),
            },
            Phase::Spawning => match input {
                Input::Spawned => {
                    self.phase = Phase::Running;
                    self.stdout_open = true;
                    self.stderr_open = true;
                    self.exit = None;
                    if self.cancelled {
                        let v = vec![Action::Kill];
                        assert(v@ =~= seq![Action::Kill]);
                        v
                    } else {
                        Vec::new()
                    }
                },
                Input::SpawnFailed(m) => {
                    self.phase = Phase::Failed;
                    let v = vec![Action::Fail(RunError::Spawn(m))];
                    assert(v@ =~= seq![Action::Fail(RunError::Spawn(m))]);
                    v
                },
                Input::Cancel => {
                    self.cancelled = true;
                    Vec::new()
                },
                _ => Vec::new(),
            },
            Phase::Running => match input {
                Input::Line(k, l) => {
                    let open = match k {
                        StreamKind::Stdout => self.stdout_open,
                        StreamKind::Stderr => self.stderr_open,
                    };
                    if open {
                        self.take_line(k, l)
                    } else {
                        Vec::new()
                    }
                },
                Input::Eof(k) => {
                    match k {
                        StreamKind::Stdout => self.stdout_open = false,
                        StreamKind::Stderr => self.stderr_open = false,
                    }
                    self.settle()
                },
                Input::Exited(c) => {
                    if self.exit.is_none() {
                        self.exit = Some(c);
                        self.settle()
                    } else {
                        Vec::new()
                    }
                },
                Input::WaitFailed(m) => {
                    self.phase = Phase::Failed;
                    let v = vec![Action::Fail(RunError::Wait(m))];
                    assert(v@ =~= seq![Action::Fail(RunError::Wait(m))]);
                    v
                },
                Input::DrainerFailed(m) => {
                    self.phase = Phase::Failed;
                    let v = vec![Action::Fail(RunError::Drainer(m))];
                    assert(v@ =~= seq![Action::Fail(RunError::Drainer(m))]);
                    v
                },
                Input::Cancel => {
                    if self.exit.is_none() && !self.cancelled {
                        self.cancelled = true;
                        let v = vec![Action::Kill];
                        assert(v@ =~= seq![Action::Kill]);
                        v
                    } else {
                        Vec::new()
                    }
                },
                _ => Vec::new(),
            },
            Phase::Completed | Phase::Failed => Vec::new(),
        }
    }
}

} // verus!
