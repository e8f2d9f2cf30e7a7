//! Properties of whole runs, proved from the step relation of the
//! supervisor.

use vstd::prelude::*;
use crate::drain::{is_log_for, is_progress_for, line_events_ok};
use crate::events::{Event, StreamKind};
use crate::supervisor::{
    emitted, has_completion, is_completion, step_ok, stream_open, Action, Input, Phase, Supervisor,
};

verus! {

/// `states[0]`, `inputs[0]`, `states[1]`, ... is a run of the machine that
/// asked for `outs[i]` at step `i`.
pub open spec fn is_trace(states: Seq<Supervisor>, inputs: Seq<Input>, outs: Seq<Seq<Action>>) -> bool {
    &&& states.len() == inputs.len() + 1
    &&& outs.len() == inputs.len()
    &&& forall|i: int| 0 <= i < inputs.len() ==> step_ok(#[trigger] states[i], inputs[i], states[i + 1], outs[i])
}

/// A completion event that reports success.
pub open spec fn successful_completion(a: Action) -> bool {
    match a {
        Action::Emit(Event::Completion(c)) => c.success,
        _ => false,
    }
}

/// A finished or failed run ignores everything: no state change, no action.
pub proof fn lemma_terminal_is_final(a: Supervisor, input: Input, b: Supervisor, acts: Seq<Action>)
    requires
        step_ok(a, input, b, acts),
        a.phase == Phase::Completed || a.phase == Phase::Failed,
    ensures
        b == a,
        acts.len() == 0,
{
}

/// The events of a line are log and progress events only.
proof fn lemma_line_events_not_completion(l: Seq<char>, k: StreamKind, acts: Seq<Action>)
    requires
        forall|i: int| 0 <= i < acts.len() ==> (#[trigger] acts[i]) is Emit,
        line_events_ok(l, k, emitted(acts)),
    ensures
        !has_completion(acts),
{
    if has_completion(acts) {
        let i = choose|i: int| 0 <= i < acts.len() && is_completion(#[trigger] acts[i]);
        assert(emitted(acts)[i] == acts[i]->Emit_0);
        assert(acts[i] is Emit);
        if acts.len() == 2 && i == 0 {
            assert(is_progress_for(emitted(acts)[0], l));
        } else {
            assert(is_log_for(emitted(acts)[i], l, k));
        }
    }
}

/// A completion event is only sent when the run was draining, both streams
/// have ended and the exit status is known; the run is then completed.
pub proof fn lemma_completion_after_drain(a: Supervisor, input: Input, b: Supervisor, acts: Seq<Action>)
    requires
        step_ok(a, input, b, acts),
        has_completion(acts),
    ensures
        a.phase == Phase::Running,
        b.phase == Phase::Completed,
        !b.stdout_open && !b.stderr_open && b.exit is Some,
{
    let i = choose|i: int| 0 <= i < acts.len() && is_completion(#[trigger] acts[i]);
    match a.phase {
        Phase::Running => match input {
            Input::Line(k, l) => {
                if acts.len() > 0 && !(b == a) {
                    lemma_line_events_not_completion(l@, k, acts);
                }
            },
            _ => {},
        },
        _ => {},
    }
}

/// Once a run is completed it stays completed and asks for nothing more.
proof fn lemma_stays_completed(states: Seq<Supervisor>, inputs: Seq<Input>, outs: Seq<Seq<Action>>, i: int, j: int)
    requires
        is_trace(states, inputs, outs),
        0 <= i <= j < states.len(),
        states[i].phase == Phase::Completed,
    ensures
        states[j] == states[i],
        j < outs.len() ==> outs[j].len() == 0,
    decreases j - i,
{
    if j > i {
        lemma_stays_completed(states, inputs, outs, i, j - 1);
        assert(step_ok(states[j - 1], inputs[j - 1], states[j], outs[j - 1]));
    }
    if j < outs.len() {
        assert(step_ok(states[j], inputs[j], states[j + 1], outs[j]));
    }
}

/// The completion event is sent at most once in a run, and nothing at all
/// is asked for after the step that sent it.
pub proof fn lemma_completion_is_last(states: Seq<Supervisor>, inputs: Seq<Input>, outs: Seq<Seq<Action>>, i: int, j: int)
    requires
        is_trace(states, inputs, outs),
        0 <= i < j < outs.len(),
        has_completion(outs[i]),
    ensures
        outs[j].len() == 0,
        !has_completion(outs[j]),
{
    assert(step_ok(states[i], inputs[i], states[i + 1], outs[i]));
    lemma_completion_after_drain(states[i], inputs[i], states[i + 1], outs[i]);
    lemma_stays_completed(states, inputs, outs, i + 1, j);
}

/// A cancelled run stays cancelled.
proof fn lemma_stays_cancelled(states: Seq<Supervisor>, inputs: Seq<Input>, outs: Seq<Seq<Action>>, i: int, j: int)
    requires
        is_trace(states, inputs, outs),
        0 <= i <= j < states.len(),
        states[i].cancelled,
    ensures
        states[j].cancelled,
    decreases j - i,
{
    if j > i {
        lemma_stays_cancelled(states, inputs, outs, i, j - 1);
        assert(step_ok(states[j - 1], inputs[j - 1], states[j], outs[j - 1]));
    }
}

/// A cancel request made while the worker is being started, or while it
/// runs and has not exited, ends the run with a completion event that
/// reports failure.
pub proof fn lemma_cancel_fails(states: Seq<Supervisor>, inputs: Seq<Input>, outs: Seq<Seq<Action>>, i: int, j: int)
    requires
        is_trace(states, inputs, outs),
        0 <= i < j < outs.len(),
        inputs[i] is Cancel,
        states[i].phase == Phase::Spawning || (states[i].phase == Phase::Running && states[i].exit is None),
    ensures
        forall|k: int| 0 <= k < outs[j].len() ==> !successful_completion(#[trigger] outs[j][k]),
{
    assert(step_ok(states[i], inputs[i], states[i + 1], outs[i]));
    lemma_stays_cancelled(states, inputs, outs, i + 1, j);
    assert(step_ok(states[j], inputs[j], states[j + 1], outs[j]));
    if has_completion(outs[j]) {
        lemma_completion_after_drain(states[j], inputs[j], states[j + 1], outs[j]);
    }
    assert forall|k: int| 0 <= k < outs[j].len() implies !successful_completion(#[trigger] outs[j][k]) by {
        if successful_completion(outs[j][k]) {
            assert(is_completion(outs[j][k]));
            assert(has_completion(outs[j]));
            lemma_completion_after_drain(states[j], inputs[j], states[j + 1], outs[j]);
        }
    }
}

pub open spec fn is_log_action(a: Action) -> bool {
    a matches Action::Emit(Event::Log(_))
}

/// The number of log events among `acts`.
pub open spec fn log_count(acts: Seq<Action>) -> nat
    decreases acts.len(),
{
    if acts.len() == 0 {
        0
    } else {
        log_count(acts.drop_last()) + if is_log_action(acts.last()) {
            1nat
        } else {
            0nat
        }
    }
}

/// The number of log events over the first `n` steps.
pub open spec fn logs_upto(outs: Seq<Seq<Action>>, n: int) -> nat
    decreases n,
{
    if n <= 0 {
        0
    } else {
        logs_upto(outs, n - 1) + log_count(outs[n - 1])
    }
}

/// The number of lines a run has recorded, both streams together.
pub open spec fn lines_read(s: Supervisor) -> nat {
    s.stdout_lines@.len() + s.stderr_lines@.len()
}

proof fn lemma_log_count_one_log(acts: Seq<Action>, i: int)
    requires
        0 <= i < acts.len(),
        is_log_action(acts[i]),
        forall|j: int| 0 <= j < acts.len() && j != i ==> !is_log_action(#[trigger] acts[j]),
    ensures
        log_count(acts) == 1,
    decreases acts.len(),
{
    if i < acts.len() - 1 {
        lemma_log_count_one_log(acts.drop_last(), i);
    } else {
        lemma_log_count_none(acts.drop_last());
    }
}

proof fn lemma_log_count_none(acts: Seq<Action>)
    requires
        forall|j: int| 0 <= j < acts.len() ==> !is_log_action(#[trigger] acts[j]),
    ensures
        log_count(acts) == 0,
    decreases acts.len(),
{
    if acts.len() > 0 {
        lemma_log_count_none(acts.drop_last());
    }
}

/// One step adds exactly as many log events as it records lines.
pub proof fn lemma_one_log_per_line(a: Supervisor, input: Input, b: Supervisor, acts: Seq<Action>)
    requires
        step_ok(a, input, b, acts),
    ensures
        lines_read(b) == lines_read(a) + log_count(acts),
{
    match (a.phase, input) {
        (Phase::Running, Input::Line(k, l)) => {
            if stream_open(a, k) {
                let evs = emitted(acts);
                let last = acts.len() - 1;
                assert(evs[last] == acts[last]->Emit_0);
                assert(is_log_for(evs[last], l@, k));
                assert forall|j: int| 0 <= j < acts.len() && j != last implies !is_log_action(#[trigger] acts[j]) by {
                    assert(evs[j] == acts[j]->Emit_0);
                    assert(is_progress_for(evs[0], l@));
                }
                lemma_log_count_one_log(acts, last);
            } else {
                lemma_log_count_none(acts);
            }
        },
        _ => {
            assert forall|j: int| 0 <= j < acts.len() implies !is_log_action(#[trigger] acts[j]) by {
            }
            lemma_log_count_none(acts);
        },
    }
}

/// Over a whole run, every line read gives exactly one log event: the log
/// events of the first `n` steps are as many as the lines recorded by then.
pub proof fn lemma_logs_match_lines(states: Seq<Supervisor>, inputs: Seq<Input>, outs: Seq<Seq<Action>>, n: int)
    requires
        is_trace(states, inputs, outs),
        0 <= n <= outs.len(),
    ensures
        lines_read(states[n]) == lines_read(states[0]) + logs_upto(outs, n),
    decreases n,
{
    if n > 0 {
        lemma_logs_match_lines(states, inputs, outs, n - 1);
        assert(step_ok(states[n - 1], inputs[n - 1], states[n], outs[n - 1]));
        lemma_one_log_per_line(states[n - 1], inputs[n - 1], states[n], outs[n - 1]);
    }
}

} // verus!
