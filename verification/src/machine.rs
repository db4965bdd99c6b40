//! The dispatcher's state machine: four states, the events that move between
//! them, and a machine value that remembers which event brought it where it is.

use vstd::prelude::*;

verus! {

/// What the dispatcher is doing.
#[derive(Clone, Copy, Debug, PartialEq, Eq, Structural)]
pub enum State {
    /// Records pile up upstream; the dispatcher waits for a command or for the
    /// batching window to close.
    Buffering,
    /// The dispatcher collects what is queued and hands it to the transmitter.
    Sending,
    /// A send failed in a way that may be retried; the dispatcher waits before
    /// trying again.
    BackingOff,
    /// The dispatcher has ended. Nothing leaves this state.
    Stopped,
}

/// What moves the machine from one state to another.
#[derive(Clone, Copy, Debug, PartialEq, Eq, Structural)]
pub enum Event {
    TimerExpired,
    FlushRequested,
    CloseRequested,
    TerminateRequested,
    BatchSentContinue,
    BatchSentStop,
    RetryRequested,
    RetryExhausted,
}

/// The transition table. `None` marks a pair that the machine does not have.
pub open spec fn next_state(from: State, event: Event) -> Option<State> {
    match (from, event) {
        (State::Buffering, Event::TimerExpired) => Some(State::Sending),
        (State::Buffering, Event::FlushRequested) => Some(State::Sending),
        (State::Buffering, Event::CloseRequested) => Some(State::Sending),
        (State::Buffering, Event::TerminateRequested) => Some(State::Stopped),
        (State::BackingOff, Event::TimerExpired) => Some(State::Sending),
        (State::BackingOff, Event::CloseRequested) => Some(State::Stopped),
        (State::BackingOff, Event::TerminateRequested) => Some(State::Stopped),
        (State::BackingOff, Event::RetryExhausted) => Some(State::Buffering),
        (State::Sending, Event::BatchSentContinue) => Some(State::Buffering),
        (State::Sending, Event::BatchSentStop) => Some(State::Stopped),
        (State::Sending, Event::RetryRequested) => Some(State::BackingOff),
        (State::Sending, Event::TerminateRequested) => Some(State::Stopped),
        _ => None,
    }
}

/// Whether a machine may be in `state` having last seen `trigger`: either it
/// has not moved yet and is buffering, or some transition of the table ends in
/// `state` on that event.
pub open spec fn tagged(state: State, trigger: Option<Event>) -> bool {
    match trigger {
        None => state == State::Buffering,
        Some(event) => exists|from: State| next_state(from, event) == Some(state),
    }
}

impl State {
    /// Looks the pair up in the transition table.
    pub fn after(self, event: Event) -> (next: Option<State>)
        ensures
            next == next_state(self, event),
    {
        match (self, event) {
            (State::Buffering, Event::TimerExpired) => Some(State::Sending),
            (State::Buffering, Event::FlushRequested) => Some(State::Sending),
            (State::Buffering, Event::CloseRequested) => Some(State::Sending),
            (State::Buffering, Event::TerminateRequested) => Some(State::Stopped),
            (State::BackingOff, Event::TimerExpired) => Some(State::Sending),
            (State::BackingOff, Event::CloseRequested) => Some(State::Stopped),
            (State::BackingOff, Event::TerminateRequested) => Some(State::Stopped),
            (State::BackingOff, Event::RetryExhausted) => Some(State::Buffering),
            (State::Sending, Event::BatchSentContinue) => Some(State::Buffering),
            (State::Sending, Event::BatchSentStop) => Some(State::Stopped),
            (State::Sending, Event::RetryRequested) => Some(State::BackingOff),
            (State::Sending, Event::TerminateRequested) => Some(State::Stopped),
            _ => None,
        }
    }
}

/// A state together with the event that led to it.
///
/// The fields are private and every constructor goes through the transition
/// table, so a machine in a state that no transition reaches cannot be built.
#[derive(Clone, Copy, Debug, PartialEq, Eq)]
pub struct Machine {
    state: State,
    trigger: Option<Event>,
}

impl Machine {
    /// The state the machine is in.
    pub closed spec fn spec_state(&self) -> State {
        self.state
    }

    /// The event of the last transition; `None` until the first one.
    pub closed spec fn spec_trigger(&self) -> Option<Event> {
        self.trigger
    }

    /// Whether the state and the trigger fit the table. It holds of every
    /// machine that executable code can hold.
    #[verifier::type_invariant]
    pub open spec fn wf(&self) -> bool {
        tagged(self.spec_state(), self.spec_trigger())
    }

    /// A machine in its initial state, `Buffering`, with no trigger.
    pub fn new() -> (m: Machine)
        ensures
            m.spec_state() == State::Buffering,
            m.spec_trigger() == None::<Event>,
            m.wf(),
    {
        Machine { state: State::Buffering, trigger: None }
    }

    #[verifier::when_used_as_spec(spec_state)]
    pub fn state(&self) -> (s: State)
        ensures
            s == self.spec_state(),
    {
        self.state
    }

    #[verifier::when_used_as_spec(spec_trigger)]
    pub fn trigger(&self) -> (t: Option<Event>)
        ensures
            t == self.spec_trigger(),
    {
        self.trigger
    }

    /// Whether the table has a transition for `event` from the current state.
    pub fn accepts(&self, event: Event) -> (yes: bool)
        ensures
            yes == next_state(self.spec_state(), event).is_some(),
    {
        self.state.after(event).is_some()
    }

    /// Applies a transition of the table. An event that the current state does
    /// not accept is a programming error, which the precondition rules out.
    pub fn transition(self, event: Event) -> (next: Machine)
        requires
            next_state(self.spec_state(), event).is_some(),
        ensures
            Some(next.spec_state()) == next_state(self.spec_state(), event),
            next.spec_trigger() == Some(event),
            next.wf(),
    {
        match self.state.after(event) {
            Some(state) => Machine { state, trigger: Some(event) },
            None => self,
        }
    }

    /// Applies `event` if the table has it for the current state, and says
    /// `None` otherwise.
    pub fn try_transition(self, event: Event) -> (next: Option<Machine>)
        ensures
            next.is_some() == next_state(self.spec_state(), event).is_some(),
            next matches Some(m) ==> Some(m.spec_state()) == next_state(self.spec_state(), event)
                && m.spec_trigger() == Some(event) && m.wf(),
    {
        if self.accepts(event) {
            Some(self.transition(event))
        } else {
            None
        }
    }
}

} // verus!
