use vstd::prelude::*;

use crate::time::{add_span, is_after, later, Span, Timestamp, NANOS_PER_SEC};

verus! {

/// The state of a run: still typing, or past its deadline.
#[derive(Clone, Copy, Debug, PartialEq, Eq, Structural)]
pub enum RunState {
    Active,
    Done,
}

/// What a round of the run does: type the text and pause, or stop.
#[derive(Clone, Copy, Debug, PartialEq, Eq, Structural)]
pub enum RunAction {
    TypeAndWait,
    Stop,
}

/// Whether the clock reading `now` lies past the deadline, if there is one.
pub open spec fn deadline_passed(now: Timestamp, until: Option<Timestamp>) -> bool {
    match until {
        Some(u) => later(now, u),
        None => false,
    }
}

/// One round of a run: the next state and the action, given the clock.
pub open spec fn step_spec(state: RunState, until: Option<Timestamp>, now: Timestamp) -> (
    RunState,
    RunAction,
) {
    match state {
        RunState::Done => (RunState::Done, RunAction::Stop),
        RunState::Active => if deadline_passed(now, until) {
            (RunState::Done, RunAction::Stop)
        } else {
            (RunState::Active, RunAction::TypeAndWait)
        },
    }
}

/// The actions of a run that starts in `state` and reads the clock values
/// `clock` one round after another.
pub open spec fn trace(state: RunState, until: Option<Timestamp>, clock: Seq<Timestamp>) -> Seq<
    RunAction,
>
    decreases clock.len(),
{
    if clock.len() == 0 {
        seq![]
    } else {
        let (next, action) = step_spec(state, until, clock[0]);
        seq![action] + trace(next, until, clock.drop_first())
    }
}

/// Whether the clock reading `now` lies past the deadline `until`.
pub fn deadline_reached(now: Timestamp, until: Option<Timestamp>) -> (r: bool)
    ensures
        r == deadline_passed(now, until),
{
    match until {
        Some(u) => is_after(now, u),
        None => false,
    }
}

/// Decides one round of a run from its state, its deadline and the clock.
pub fn step(state: RunState, until: Option<Timestamp>, now: Timestamp) -> (r: (
    RunState,
    RunAction,
))
    ensures
        r == step_spec(state, until, now),
{
    match state {
        RunState::Done => (RunState::Done, RunAction::Stop),
        RunState::Active => if deadline_reached(now, until) {
            (RunState::Done, RunAction::Stop)
        } else {
            (RunState::Active, RunAction::TypeAndWait)
        },
    }
}

proof fn lemma_trace_len(state: RunState, until: Option<Timestamp>, clock: Seq<Timestamp>)
    ensures
        trace(state, until, clock).len() == clock.len(),
    decreases clock.len(),
{
    if clock.len() > 0 {
        lemma_trace_len(step_spec(state, until, clock[0]).0, until, clock.drop_first());
    }
}

proof fn lemma_done_stays_stopped(until: Option<Timestamp>, clock: Seq<Timestamp>)
    ensures
        forall|i: int|
            0 <= i < clock.len() ==> #[trigger] trace(RunState::Done, until, clock)[i]
                == RunAction::Stop,
    decreases clock.len(),
{
    lemma_trace_len(RunState::Done, until, clock);
    if clock.len() > 0 {
        lemma_done_stays_stopped(until, clock.drop_first());
        lemma_trace_len(RunState::Done, until, clock.drop_first());
        assert forall|i: int| 0 <= i < clock.len() implies #[trigger] trace(
            RunState::Done,
            until,
            clock,
        )[i] == RunAction::Stop by {
            if i > 0 {
                assert(trace(RunState::Done, until, clock)[i] == trace(
                    RunState::Done,
                    until,
                    clock.drop_first(),
                )[i - 1]);
            }
        }
    }
}

/// A run whose deadline has already passed at its first round types
/// nothing, in that round or any later one.
pub proof fn lemma_past_deadline_types_nothing(until: Timestamp, clock: Seq<Timestamp>)
    requires
        clock.len() > 0,
        later(clock[0], until),
    ensures
        forall|i: int|
            0 <= i < clock.len() ==> #[trigger] trace(RunState::Active, Some(until), clock)[i]
                == RunAction::Stop,
{
    lemma_trace_len(RunState::Active, Some(until), clock);
    lemma_done_stays_stopped(Some(until), clock.drop_first());
    lemma_trace_len(RunState::Done, Some(until), clock.drop_first());
    assert forall|i: int| 0 <= i < clock.len() implies #[trigger] trace(
        RunState::Active,
        Some(until),
        clock,
    )[i] == RunAction::Stop by {
        if i > 0 {
            assert(trace(RunState::Active, Some(until), clock)[i] == trace(
                RunState::Done,
                Some(until),
                clock.drop_first(),
            )[i - 1]);
        }
    }
}

/// A run types only at clock readings that do not lie past its deadline.
pub proof fn lemma_types_only_before_deadline(
    state: RunState,
    until: Timestamp,
    clock: Seq<Timestamp>,
)
    ensures
        forall|i: int|
            0 <= i < clock.len() && #[trigger] trace(state, Some(until), clock)[i]
                == RunAction::TypeAndWait ==> !later(clock[i], until),
    decreases clock.len(),
{
    lemma_trace_len(state, Some(until), clock);
    if clock.len() > 0 {
        let next = step_spec(state, Some(until), clock[0]).0;
        lemma_types_only_before_deadline(next, until, clock.drop_first());
        lemma_trace_len(next, Some(until), clock.drop_first());
        assert forall|i: int|
            0 <= i < clock.len() && #[trigger] trace(state, Some(until), clock)[i]
                == RunAction::TypeAndWait implies !later(clock[i], until) by {
            if i > 0 {
                assert(trace(state, Some(until), clock)[i] == trace(
                    next,
                    Some(until),
                    clock.drop_first(),
                )[i - 1]);
                assert(clock.drop_first()[i - 1] == clock[i]);
            }
        }
    }
}

/// A run bounded by a length of time `d` from its start types in its first
/// round, read at the start, and never at a reading past the start plus `d`.
pub proof fn lemma_bounded_run(start: Timestamp, d: Span, until: Timestamp, clock: Seq<Timestamp>)
    requires
        start.nanos < NANOS_PER_SEC,
        d.wf(),
        add_span(start, d) == Some(until),
        clock.len() > 0,
        clock[0] == start,
    ensures
        trace(RunState::Active, Some(until), clock)[0] == RunAction::TypeAndWait,
        forall|i: int|
            0 <= i < clock.len() && #[trigger] trace(RunState::Active, Some(until), clock)[i]
                == RunAction::TypeAndWait ==> !later(clock[i], until),
{
    assert(!later(start, until)) by (nonlinear_arith)
        requires
            start.nanos < 1_000_000_000u32,
            d.nanos < 1_000_000_000u32,
            until.secs == start.secs + d.secs + (start.nanos + d.nanos) / 1_000_000_000int,
            until.nanos == (start.nanos + d.nanos) % 1_000_000_000int,
            later(start, until) == (start.secs > until.secs || (start.secs == until.secs
                && start.nanos > until.nanos)),
    ;
    lemma_types_only_before_deadline(RunState::Active, until, clock);
}

} // verus!
