use crate::error::FliteError;
use vstd::prelude::*;

verus! {

/// How far the one-time initialization of the engine has come.
#[derive(Clone, Copy, Debug, PartialEq, Eq, Structural)]
pub enum InitState {
    /// No initialization has succeeded and none is under way.
    Uninitialized,
    /// A caller has been told to initialize the engine and has not reported
    /// back yet.
    Initializing,
    /// The engine is initialized, for good.
    Initialized,
}

/// What can happen to the guard.
#[derive(Clone, Copy, Debug, PartialEq, Eq, Structural)]
pub enum InitEvent {
    /// A caller asks to initialize the engine.
    Requested,
    /// The engine's initialization entry point returned this status.
    Reported(i32),
}

/// What the guard answers to an event.
#[derive(Debug, PartialEq, Eq)]
pub enum InitOutcome {
    /// The caller is to invoke the engine's initialization entry point now.
    Proceed,
    /// The engine is ready, and the caller is the one that made it so.
    Granted,
    /// The caller gets nothing but this error.
    Refused(FliteError),
}

/// The guard's transition: the state that follows `state` on `event`, and the
/// answer given.
///
/// A request is let through only from `Uninitialized`. A report of status `0`
/// makes the engine `Initialized` and is granted, unless the engine was
/// initialized before; any other status leaves the engine `Uninitialized`, so
/// that a later request can try again.
pub open spec fn step(state: InitState, event: InitEvent) -> (InitState, InitOutcome) {
    match event {
        InitEvent::Requested => match state {
            InitState::Uninitialized => (InitState::Initializing, InitOutcome::Proceed),
            _ => (state, InitOutcome::Refused(FliteError::AlreadyInitialized)),
        },
        InitEvent::Reported(status) => match state {
            InitState::Initialized => (state, InitOutcome::Refused(FliteError::AlreadyInitialized)),
            _ => if status == 0 {
                (InitState::Initialized, InitOutcome::Granted)
            } else {
                (InitState::Uninitialized, InitOutcome::Refused(FliteError::InitFailed(status)))
            },
        },
    }
}

/// The state that a guard starting in `state` is in after `events`.
pub open spec fn state_after(state: InitState, events: Seq<InitEvent>) -> InitState
    decreases events.len(),
{
    if events.len() == 0 {
        state
    } else {
        step(state_after(state, events.drop_last()), events.last()).0
    }
}

/// The answer that a guard starting in `state` gives to the event at
/// position `i` of `events`.
pub open spec fn outcome_at(state: InitState, events: Seq<InitEvent>, i: int) -> InitOutcome {
    step(state_after(state, events.take(i)), events[i]).1
}

/// The process-wide record of the engine's initialization.
///
/// A process keeps exactly one guard and hands every event to it under mutual
/// exclusion; the guard then lets at most one caller through to the engine at
/// a time and grants readiness at most once.
#[derive(Debug)]
pub struct InitGuard {
    state: InitState,
}

impl View for InitGuard {
    type V = InitState;

    closed spec fn view(&self) -> InitState {
        self.state
    }
}

impl InitGuard {
    /// A guard for an engine that nobody has initialized.
    pub fn new() -> (guard: InitGuard)
        ensures
            guard@ == InitState::Uninitialized,
    {
        InitGuard { state: InitState::Uninitialized }
    }

    /// The guard's state.
    pub fn state(&self) -> (state: InitState)
        ensures
            state == self@,
    {
        self.state
    }

    /// Takes one event: moves the guard as [`step`] says and returns the
    /// answer that [`step`] gives.
    pub fn step(&mut self, event: InitEvent) -> (outcome: InitOutcome)
        ensures
            (final(self)@, outcome) == step(old(self)@, event),
    {
        match event {
            InitEvent::Requested => match self.state {
                InitState::Uninitialized => {
                    self.state = InitState::Initializing;
                    InitOutcome::Proceed
                },
                _ => InitOutcome::Refused(FliteError::AlreadyInitialized),
            },
            InitEvent::Reported(status) => match self.state {
                InitState::Initialized => InitOutcome::Refused(FliteError::AlreadyInitialized),
                _ => if status == 0 {
                    self.state = InitState::Initialized;
                    InitOutcome::Granted
                } else {
                    self.state = InitState::Uninitialized;
                    InitOutcome::Refused(FliteError::InitFailed(status))
                },
            },
        }
    }
}

/// Once the engine is initialized it stays so, whatever happens.
pub proof fn lemma_initialized_is_final(events: Seq<InitEvent>)
    ensures
        state_after(InitState::Initialized, events) == InitState::Initialized,
    decreases events.len(),
{
    if events.len() > 0 {
        lemma_initialized_is_final(events.drop_last());
    }
}

/// A prefix of a run is a run: after the first `j` of `events`, a guard is
/// where `i <= j` events and then the next `j - i` take it.
pub proof fn lemma_state_after_split(state: InitState, events: Seq<InitEvent>, i: int, j: int)
    requires
        0 <= i <= j <= events.len(),
    ensures
        state_after(state, events.take(j)) == state_after(
            state_after(state, events.take(i)),
            events.subrange(i, j),
        ),
    decreases j - i,
{
    if i == j {
        assert(events.subrange(i, j) =~= Seq::<InitEvent>::empty());
    } else {
        lemma_state_after_split(state, events, i, j - 1);
        assert(events.take(j).drop_last() =~= events.take(j - 1));
        assert(events.subrange(i, j).drop_last() =~= events.subrange(i, j - 1));
        assert(events.take(j).last() == events.subrange(i, j).last());
    }
}

/// Readiness is granted at most once: whatever the events and whatever the
/// state they start from, once one of them has been granted, every later
/// one, request or report, is refused with `AlreadyInitialized`.
pub proof fn lemma_granted_once(state: InitState, events: Seq<InitEvent>, i: int, j: int)
    requires
        0 <= i < j < events.len(),
        outcome_at(state, events, i) == InitOutcome::Granted,
    ensures
        outcome_at(state, events, j) == InitOutcome::Refused(FliteError::AlreadyInitialized),
{
    let before = state_after(state, events.take(i));
    assert(events.take(i + 1).drop_last() =~= events.take(i));
    assert(events.take(i + 1).last() == events[i]);
    assert(state_after(state, events.take(i + 1)) == InitState::Initialized);
    lemma_state_after_split(state, events, i + 1, j);
    lemma_initialized_is_final(events.subrange(i + 1, j));
    assert(state_after(state, events.take(j)) == InitState::Initialized);
}

/// A caller that is told `AlreadyInitialized` has changed nothing: the guard
/// is where it was, and the engine as usable as before.
pub proof fn lemma_refusal_changes_nothing(state: InitState, event: InitEvent)
    requires
        step(state, event).1 == InitOutcome::Refused(FliteError::AlreadyInitialized),
    ensures
        step(state, event).0 == state,
{
}

/// From the request that is let through until the next report, the guard is
/// initializing: it is so after every event up to position `j`, if those
/// after position `i`, where the request stands, are all requests.
pub proof fn lemma_initializing_until_report(
    state: InitState,
    events: Seq<InitEvent>,
    i: int,
    j: int,
)
    requires
        0 <= i < j <= events.len(),
        outcome_at(state, events, i) == InitOutcome::Proceed,
        forall|k: int| i < k < j ==> events[k] == InitEvent::Requested,
    ensures
        state_after(state, events.take(j)) == InitState::Initializing,
    decreases j - i,
{
    assert(events.take(j).drop_last() =~= events.take(j - 1));
    assert(events.take(j).last() == events[j - 1]);
    if j > i + 1 {
        lemma_initializing_until_report(state, events, i, j - 1);
    }
}

/// While one caller is initializing the engine, no other is let through:
/// every request between a request let through and the next report is
/// refused with `AlreadyInitialized`.
pub proof fn lemma_one_caller_at_a_time(state: InitState, events: Seq<InitEvent>, i: int, j: int)
    requires
        0 <= i < j < events.len(),
        outcome_at(state, events, i) == InitOutcome::Proceed,
        forall|k: int| i < k <= j ==> events[k] == InitEvent::Requested,
    ensures
        outcome_at(state, events, j) == InitOutcome::Refused(FliteError::AlreadyInitialized),
{
    lemma_initializing_until_report(state, events, i, j);
}

} // verus!
