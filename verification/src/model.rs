//! The dispatcher as a mathematical value, and its steps as functions on
//! that value. The worker's contracts and the laws are stated over these.

use crate::command::{Command, Wake};
use crate::machine::{next_state, tagged, Event, State};
use crate::outcome::SendOutcome;
use crate::retry::{backoff_delays, take_delay};
use vstd::prelude::*;

verus! {

/// Where the worker stands within its current state.
#[derive(Clone, Copy, Debug, PartialEq, Eq, Structural)]
pub enum Phase {
    /// The state was just entered; its handler has not run yet.
    Ready,
    /// The caller is waiting for a command or a timer on the worker's behalf.
    Waiting,
    /// The caller is transmitting the buffer on the worker's behalf.
    Transmitting,
}

/// What the caller is to do after a step.
#[derive(Clone, Copy, Debug, PartialEq, Eq, Structural)]
pub enum Action {
    /// Wait for a command, or for this many nanoseconds to pass, whichever
    /// comes first, and report it with `handle_wake`.
    Wait(u128),
    /// Hand the buffer to the transmitter, once, and report the outcome with
    /// `handle_response`.
    Transmit,
    /// Nothing to do outside; take the next step.
    Proceed,
    /// The worker has stopped.
    Stop,
}

/// The worker as a mathematical value.
#[verifier::ext_equal]
pub struct WorkerView<T> {
    pub state: State,
    /// The event that led to `state`.
    pub trigger: Option<Event>,
    pub phase: Phase,
    /// The buffer, oldest record first.
    pub items: Seq<T>,
    /// The backoff delays, in nanoseconds, that the retry policy has still to
    /// give.
    pub retry: Seq<u128>,
    /// The batching window in nanoseconds.
    pub interval: u128,
}

impl<T> WorkerView<T> {
    /// What holds of every worker: the trigger fits the state; a wait goes on
    /// only while buffering, with an empty buffer, or while backing off; and a
    /// transmission goes on only while sending, with something to send and
    /// with the retry policy that entering `Sending` has set.
    pub open spec fn wf(self) -> bool {
        &&& tagged(self.state, self.trigger)
        &&& self.phase == Phase::Waiting ==> self.state == State::BackingOff || (self.state
            == State::Buffering && self.items.len() == 0)
        &&& self.phase == Phase::Transmitting ==> {
            &&& self.state == State::Sending
            &&& self.items.len() > 0
            &&& self.retry == self.fresh_retry()
        }
    }

    /// The retry policy that entering `Sending` sets: exponential, or with
    /// nothing to give when the worker is closing.
    pub open spec fn fresh_retry(self) -> Seq<u128> {
        if self.closing() {
            Seq::empty()
        } else {
            backoff_delays()
        }
    }

    /// The handler of `state` is due.
    pub open spec fn ready_in(self, state: State) -> bool {
        self.phase == Phase::Ready && self.state == state
    }

    /// A wait is going on, and `handle_wake` is due.
    pub open spec fn awaits_wake(self) -> bool {
        self.phase == Phase::Waiting && (self.state == State::Buffering || self.state
            == State::BackingOff)
    }

    /// A transmission is going on, and `handle_response` is due.
    pub open spec fn awaits_response(self) -> bool {
        self.phase == Phase::Transmitting && self.state == State::Sending
    }

    /// The worker is sending because it was asked to close.
    pub open spec fn closing(self) -> bool {
        self.trigger == Some(Event::CloseRequested)
    }

    /// The worker after the transition on `event`, at the start of its new
    /// state. An event that the table lacks for the current state changes
    /// nothing.
    pub open spec fn moved(self, event: Event) -> Self {
        match next_state(self.state, event) {
            Some(state) => WorkerView { state, trigger: Some(event), phase: Phase::Ready, ..self },
            None => self,
        }
    }

    /// Entering `Buffering`: the buffer is emptied and a wait for the batching
    /// window begins.
    pub open spec fn receiving(self) -> (Self, Action) {
        (
            WorkerView { items: Seq::empty(), phase: Phase::Waiting, ..self },
            Action::Wait(self.interval),
        )
    }

    /// Entering `Sending` when `pending` is what the records channel held.
    ///
    /// The retry policy starts afresh: exponential, or with nothing to give
    /// when the worker is closing. The pending records join the buffer. With
    /// an empty buffer nothing is transmitted: the worker goes back to
    /// `Buffering`, or stops when it is closing.
    pub open spec fn sending(self, pending: Seq<T>) -> (Self, Action) {
        let collected = WorkerView {
            items: self.items + pending,
            retry: self.fresh_retry(),
            ..self
        };
        if collected.items.len() > 0 {
            (WorkerView { phase: Phase::Transmitting, ..collected }, Action::Transmit)
        } else if self.closing() {
            (collected.moved(Event::TerminateRequested), Action::Stop)
        } else {
            (collected.moved(Event::BatchSentContinue), Action::Proceed)
        }
    }

    /// Entering `BackingOff`: the next delay of the policy is waited for, or,
    /// with no delay left, the worker gives up and goes back to `Buffering`.
    pub open spec fn waiting(self) -> (Self, Action) {
        match take_delay(self.retry) {
            (Some(delay), rest) => (
                WorkerView { retry: rest, phase: Phase::Waiting, ..self },
                Action::Wait(delay),
            ),
            (None, _) => (self.moved(Event::RetryExhausted), Action::Proceed),
        }
    }

    /// One step of a worker whose state was just entered. `pending` is what
    /// the records channel held; it matters only in `Sending`.
    pub open spec fn advanced(self, pending: Seq<T>) -> (Self, Action) {
        match self.state {
            State::Buffering => self.receiving(),
            State::Sending => self.sending(pending),
            State::BackingOff => self.waiting(),
            State::Stopped => (self, Action::Stop),
        }
    }

    /// The worker after its wait ended with `wake`. A flush request during a
    /// backoff changes nothing; anything else is a transition.
    pub open spec fn woken(self, wake: Wake) -> Self {
        if self.state == State::BackingOff && wake == Wake::Command(Command::Flush) {
            self
        } else {
            self.moved(wake.event())
        }
    }

    /// The event that follows a transmission with this outcome.
    pub open spec fn verdict(self, outcome: SendOutcome<T>) -> Event {
        if self.closing() {
            Event::TerminateRequested
        } else if outcome.retryable() {
            Event::RetryRequested
        } else {
            Event::BatchSentContinue
        }
    }

    /// The worker after the transmitter reported `outcome`.
    pub open spec fn answered(self, outcome: SendOutcome<T>) -> Self {
        WorkerView { items: outcome.kept(self.items), ..self }.moved(self.verdict(outcome))
    }
}

} // verus!
