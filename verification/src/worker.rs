//! The dispatcher: the state machine, the buffer and the retry policy, and the
//! decisions that move them.
//!
//! The worker never waits and never transmits. Each step tells its caller
//! what to do next (an [`Action`]), and the caller reports back what came of
//! it: what ended a wait (`handle_wake`) or how a transmission went
//! (`handle_response`).

use crate::command::{Command, Wake};
use crate::machine::{Event, Machine, State};
use crate::model::{Action, Phase, WorkerView};
use crate::outcome::SendOutcome;
use crate::records::take_pending;
use crate::retry::{backoff_delays, RetryPolicy};
use vstd::prelude::*;

verus! {

/// The dispatcher's state: the machine, the buffer, the retry policy, the
/// batching window and the receiving end of the records channel.
#[verifier::reject_recursive_types(T)]
pub struct Worker<T> {
    machine: Machine,
    phase: Phase,
    items: Vec<T>,
    retry: RetryPolicy,
    interval: u128,
    event_receiver: crossbeam_channel::Receiver<T>,
}

impl<T> View for Worker<T> {
    type V = WorkerView<T>;

    closed spec fn view(&self) -> WorkerView<T> {
        WorkerView {
            state: self.machine.spec_state(),
            trigger: self.machine.spec_trigger(),
            phase: self.phase,
            items: self.items@,
            retry: self.retry@,
            interval: self.interval,
        }
    }
}

impl<T> Worker<T> {
    /// The receiving end of the records channel that the worker holds, and
    /// from which `advance` takes the pending records.
    pub closed spec fn source(&self) -> crossbeam_channel::Receiver<T> {
        self.event_receiver
    }

    /// A worker that reads records from `event_receiver` and closes a batch
    /// every `interval` nanoseconds. It starts in `Buffering`, with an empty
    /// buffer and a fresh exponential retry policy.
    pub fn new(event_receiver: crossbeam_channel::Receiver<T>, interval: u128) -> (worker: Worker<T>)
        ensures
            worker@ == (WorkerView::<T> {
                state: State::Buffering,
                trigger: None,
                phase: Phase::Ready,
                items: Seq::empty(),
                retry: backoff_delays(),
                interval,
            }),
            worker.source() == event_receiver,
            worker@.wf(),
    {
        Worker {
            machine: Machine::new(),
            phase: Phase::Ready,
            items: Vec::new(),
            retry: RetryPolicy::default(),
            interval,
            event_receiver,
        }
    }

    /// A worker at the start of the state of `machine`, with the given buffer
    /// and retry policy.
    pub fn from_parts(
        event_receiver: crossbeam_channel::Receiver<T>,
        interval: u128,
        machine: Machine,
        items: Vec<T>,
        retry: RetryPolicy,
    ) -> (worker: Worker<T>)
        ensures
            worker@ == (WorkerView::<T> {
                state: machine.spec_state(),
                trigger: machine.spec_trigger(),
                phase: Phase::Ready,
                items: items@,
                retry: retry@,
                interval,
            }),
            worker.source() == event_receiver,
            worker@.wf(),
    {
        proof {
            use_type_invariant(&machine);
        }
        Worker { machine, phase: Phase::Ready, items, retry, interval, event_receiver }
    }

    /// The current state.
    pub fn state(&self) -> (state: State)
        ensures
            state == self@.state,
    {
        self.machine.state()
    }

    /// The event that led to the current state.
    pub fn trigger(&self) -> (trigger: Option<Event>)
        ensures
            trigger == self@.trigger,
    {
        self.machine.trigger()
    }

    /// Where the worker stands within its state.
    pub fn phase(&self) -> (phase: Phase)
        ensures
            phase == self@.phase,
    {
        self.phase
    }

    /// The buffer: while a transmission is due, the batch to transmit.
    pub fn items(&self) -> (items: &Vec<T>)
        ensures
            items@ == self@.items,
    {
        &self.items
    }

    /// The number of backoff delays that the retry policy has still to give.
    pub fn retries_left(&self) -> (n: usize)
        ensures
            n == self@.retry.len(),
    {
        self.retry.remaining()
    }

    /// The batching window in nanoseconds.
    pub fn interval(&self) -> (interval: u128)
        ensures
            interval == self@.interval,
    {
        self.interval
    }

    /// The receiving end of the records channel.
    pub fn event_receiver(&self) -> (receiver: &crossbeam_channel::Receiver<T>)
        ensures
            *receiver == self.source(),
    {
        &self.event_receiver
    }

    /// Whether the worker has stopped.
    pub fn is_stopped(&self) -> (yes: bool)
        ensures
            yes == (self@.state == State::Stopped),
    {
        match self.machine.state() {
            State::Stopped => true,
            _ => false,
        }
    }

    /// Whether the handler of the current state is due, that is, whether
    /// `advance` may be called.
    pub fn is_ready(&self) -> (yes: bool)
        ensures
            yes == (self@.phase == Phase::Ready),
    {
        match self.phase {
            Phase::Ready => true,
            _ => false,
        }
    }

    /// Whether a wait is going on, that is, whether `handle_wake` may be
    /// called.
    pub fn awaits_wake(&self) -> (yes: bool)
        ensures
            yes == self@.awaits_wake(),
    {
        match (self.phase, self.machine.state()) {
            (Phase::Waiting, State::Buffering) => true,
            (Phase::Waiting, State::BackingOff) => true,
            _ => false,
        }
    }

    /// Whether a transmission is going on, that is, whether `handle_response`
    /// may be called.
    pub fn awaits_response(&self) -> (yes: bool)
        ensures
            yes == self@.awaits_response(),
    {
        match (self.phase, self.machine.state()) {
            (Phase::Transmitting, State::Sending) => true,
            _ => false,
        }
    }

    /// Runs the handler of the current state and says what the caller is to
    /// do next. In `Sending` this takes from the records channel what is
    /// queued there at this moment, and no more than the channel then
    /// reports.
    pub fn advance(&mut self) -> (action: Action)
        requires
            old(self)@.phase == Phase::Ready,
        ensures
            exists|pending: Seq<T>|
                (final(self)@, action) == #[trigger] old(self)@.advanced(pending),
            old(self)@.state != State::Sending ==> (final(self)@, action) == old(self)@.advanced(
                Seq::empty(),
            ),
            final(self).source() == old(self).source(),
            old(self)@.wf() ==> final(self)@.wf(),
    {
        match self.machine.state() {
            State::Buffering => {
                let action = self.handle_receiving();
                assert((self@, action) == old(self)@.advanced(Seq::empty()));
                action
            },
            State::Sending => {
                let pending = take_pending(&self.event_receiver);
                let ghost taken = pending@;
                let action = self.handle_sending(pending);
                assert((self@, action) == old(self)@.advanced(taken));
                action
            },
            State::BackingOff => {
                let action = self.handle_waiting();
                assert((self@, action) == old(self)@.advanced(Seq::empty()));
                action
            },
            State::Stopped => {
                assert((self@, Action::Stop) == old(self)@.advanced(Seq::empty()));
                Action::Stop
            },
        }
    }

    /// Enters `Buffering`: empties the buffer and asks for a wait of one
    /// batching window. Records that arrive meanwhile stay on their channel.
    pub fn handle_receiving(&mut self) -> (action: Action)
        requires
            old(self)@.ready_in(State::Buffering),
        ensures
            (final(self)@, action) == old(self)@.receiving(),
            final(self).source() == old(self).source(),
            old(self)@.wf() ==> final(self)@.wf(),
    {
        self.items.clear();
        self.phase = Phase::Waiting;
        Action::Wait(self.interval)
    }

    /// Enters `Sending` with `pending`, the records that the channel held.
    /// Asks for one transmission of the buffer if it holds anything.
    pub fn handle_sending(&mut self, pending: Vec<T>) -> (action: Action)
        requires
            old(self)@.ready_in(State::Sending),
        ensures
            (final(self)@, action) == old(self)@.sending(pending@),
            final(self).source() == old(self).source(),
            old(self)@.wf() ==> final(self)@.wf(),
    {
        match self.machine.trigger() {
            Some(Event::CloseRequested) => self.handle_sending_once_and_terminate(pending),
            _ => self.handle_sending_with_retry(pending),
        }
    }

    /// The usual way through `Sending`, entered by the timer or a flush
    /// request: the retry policy starts afresh, and failures may be retried.
    pub fn handle_sending_with_retry(&mut self, pending: Vec<T>) -> (action: Action)
        requires
            old(self)@.ready_in(State::Sending),
            !old(self)@.closing(),
        ensures
            (final(self)@, action) == old(self)@.sending(pending@),
            final(self).source() == old(self).source(),
            old(self)@.wf() ==> final(self)@.wf(),
    {
        self.retry = RetryPolicy::exponential();
        if self.collect(pending) {
            self.phase = Phase::Transmitting;
            Action::Transmit
        } else {
            self.machine = self.machine.transition(Event::BatchSentContinue);
            Action::Proceed
        }
    }

    /// The way through `Sending` after a close request: no retry is kept in
    /// store, one attempt at most is asked for, and with nothing to send the
    /// worker stops at once. After the attempt `handle_response` stops it.
    pub fn handle_sending_once_and_terminate(&mut self, pending: Vec<T>) -> (action: Action)
        requires
            old(self)@.ready_in(State::Sending),
            old(self)@.closing(),
        ensures
            (final(self)@, action) == old(self)@.sending(pending@),
            final(self).source() == old(self).source(),
            old(self)@.wf() ==> final(self)@.wf(),
    {
        self.retry = RetryPolicy::once();
        if self.collect(pending) {
            self.phase = Phase::Transmitting;
            Action::Transmit
        } else {
            self.machine = self.machine.transition(Event::TerminateRequested);
            Action::Stop
        }
    }

    /// Appends `pending` to the buffer and says whether the buffer now holds
    /// anything.
    fn collect(&mut self, pending: Vec<T>) -> (any: bool)
        ensures
            final(self)@ == (WorkerView { items: old(self)@.items + pending@, ..old(self)@ }),
            final(self).source() == old(self).source(),
            any == (old(self)@.items.len() + pending@.len() > 0),
    {
        let mut pending = pending;
        self.items.append(&mut pending);
        self.items.len() > 0
    }

    /// Enters `BackingOff`: asks for a wait of the policy's next delay, or
    /// gives the retry up where the policy has none left.
    pub fn handle_waiting(&mut self) -> (action: Action)
        requires
            old(self)@.ready_in(State::BackingOff),
        ensures
            (final(self)@, action) == old(self)@.waiting(),
            final(self).source() == old(self).source(),
            old(self)@.wf() ==> final(self)@.wf(),
    {
        match self.retry.next() {
            Some(delay) => {
                self.phase = Phase::Waiting;
                Action::Wait(delay)
            },
            None => {
                self.machine = self.machine.transition(Event::RetryExhausted);
                Action::Proceed
            },
        }
    }

    /// Takes in what ended the wait. Says `true` where the wait goes on (a
    /// flush request during a backoff), on the timer that is already
    /// running, and `false` where it is over.
    pub fn handle_wake(&mut self, wake: Wake) -> (waiting: bool)
        requires
            old(self)@.awaits_wake(),
        ensures
            final(self)@ == old(self)@.woken(wake),
            waiting == (final(self)@.phase == Phase::Waiting),
            final(self).source() == old(self).source(),
            old(self)@.wf() ==> final(self)@.wf(),
    {
        match (self.machine.state(), wake) {
            (State::BackingOff, Wake::Command(Command::Flush)) => true,
            _ => {
                self.machine = self.machine.transition(wake.to_event());
                self.phase = Phase::Ready;
                false
            },
        }
    }

    /// Takes in the outcome of the transmission.
    pub fn handle_response(&mut self, outcome: SendOutcome<T>)
        requires
            old(self)@.awaits_response(),
        ensures
            final(self)@ == old(self)@.answered(outcome),
            final(self).source() == old(self).source(),
            old(self)@.wf() ==> final(self)@.wf(),
    {
        let closing = match self.machine.trigger() {
            Some(Event::CloseRequested) => true,
            _ => false,
        };
        let retry = outcome.is_retryable();
        match outcome {
            SendOutcome::Accepted => {
                self.items.clear();
            },
            SendOutcome::RetryWithItems(remaining) => {
                self.items = remaining;
            },
            SendOutcome::ThrottledWithItems(_, remaining) => {
                self.items = remaining;
            },
            SendOutcome::Rejected => {
                self.items.clear();
            },
            SendOutcome::TransportFailure => {},
        }
        let event = if closing {
            Event::TerminateRequested
        } else if retry {
            Event::RetryRequested
        } else {
            Event::BatchSentContinue
        };
        self.machine = self.machine.transition(event);
        self.phase = Phase::Ready;
    }
}

} // verus!
