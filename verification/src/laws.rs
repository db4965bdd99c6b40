//! What holds of the dispatcher over more than one step, proved of the
//! functions on [`WorkerView`] by which the worker's own contracts are stated.

use crate::command::{Command, Wake};
use crate::machine::{next_state, Event, State};
use crate::outcome::SendOutcome;
use crate::model::{Action, Phase, WorkerView};
use crate::retry::backoff_delays;
use vstd::prelude::*;

verus! {

/// `Stopped` is terminal: the table has no transition out of it.
pub proof fn lemma_stopped_is_terminal(event: Event)
    ensures
        next_state(State::Stopped, event) == None::<State>,
{
}

/// Every state but `Stopped` accepts a terminate request, and goes to
/// `Stopped` on it.
pub proof fn lemma_terminate_is_accepted_everywhere(from: State)
    requires
        from != State::Stopped,
    ensures
        next_state(from, Event::TerminateRequested) == Some(State::Stopped),
{
}

/// Every step keeps a well-formed worker well-formed.
pub proof fn lemma_steps_keep_wf<T>(
    w: WorkerView<T>,
    pending: Seq<T>,
    wake: Wake,
    outcome: SendOutcome<T>,
)
    requires
        w.wf(),
    ensures
        w.phase == Phase::Ready ==> w.advanced(pending).0.wf(),
        w.awaits_wake() ==> w.woken(wake).wf(),
        w.awaits_response() ==> w.answered(outcome).wf(),
{
}

/// A stopped worker is at rest: no wait and no transmission is going on, it
/// stays as it is, and every further step says `Stop`. So it never asks for a
/// wait or a transmission again.
pub proof fn lemma_stopped_stays_stopped<T>(w: WorkerView<T>, pending: Seq<T>)
    requires
        w.wf(),
        w.state == State::Stopped,
    ensures
        w.phase == Phase::Ready,
        !w.awaits_wake(),
        !w.awaits_response(),
        w.advanced(pending) == (w, Action::Stop),
{
}

/// A step that needs nothing from outside is followed by one that waits: the
/// worker cannot go on taking steps without waiting in between.
pub proof fn lemma_proceed_is_followed_by_a_wait<T>(
    w: WorkerView<T>,
    pending: Seq<T>,
    ignored: Seq<T>,
)
    requires
        w.phase == Phase::Ready,
        w.advanced(pending).1 == Action::Proceed,
    ensures
        w.advanced(pending).0.ready_in(State::Buffering),
        w.advanced(pending).0.advanced(ignored).1 == Action::Wait(w.interval),
{
}

/// The next wait, or the end, is never far: from the start of any state the
/// worker waits or stops after one step, or after a second one that follows
/// a step without outside work or the one transmission.
pub proof fn lemma_wait_or_stop_is_near<T>(
    w: WorkerView<T>,
    pending: Seq<T>,
    outcome: SendOutcome<T>,
    ignored: Seq<T>,
)
    requires
        w.phase == Phase::Ready,
    ensures
        ({
            let (first, action) = w.advanced(pending);
            let second = if action == Action::Transmit {
                first.answered(outcome)
            } else {
                first
            };
            let (third, then) = second.advanced(ignored);
            &&& action is Wait ==> first.awaits_wake()
            &&& action == Action::Stop ==> first.state == State::Stopped
            &&& action == Action::Transmit ==> first.awaits_response()
            &&& action == Action::Proceed || action == Action::Transmit ==> {
                ||| then is Wait && third.awaits_wake()
                ||| then == Action::Stop && third.state == State::Stopped
            }
        }),
{
}

/// Each entry into `Sending` asks for one transmission at most, and for one
/// exactly where the buffer, with what the records channel held, is not
/// empty. The batch is the buffer followed by what the channel held. Once the
/// outcome is taken in, the worker has left `Sending`.
pub proof fn lemma_sending_transmits_at_most_once<T>(
    w: WorkerView<T>,
    pending: Seq<T>,
    outcome: SendOutcome<T>,
)
    requires
        w.ready_in(State::Sending),
    ensures
        ({
            let (next, action) = w.advanced(pending);
            let done = next.answered(outcome);
            &&& (action == Action::Transmit) == (w.items.len() + pending.len() > 0)
            &&& action == Action::Transmit ==> {
                &&& next.awaits_response()
                &&& next.items == w.items + pending
                &&& done.phase == Phase::Ready
                &&& done.state != State::Sending
            }
            &&& action != Action::Transmit ==> {
                &&& next.phase == Phase::Ready
                &&& next.state != State::Sending
            }
        }),
{
}

/// A terminate command, or a command channel that is closed, ends a wait in
/// `Stopped`, whichever state the worker waited in; the buffer is not sent.
pub proof fn lemma_terminate_stops<T>(w: WorkerView<T>, wake: Wake, pending: Seq<T>)
    requires
        w.awaits_wake(),
        wake.terminates(),
    ensures
        w.woken(wake).ready_in(State::Stopped),
        w.woken(wake).trigger == Some(Event::TerminateRequested),
        w.woken(wake).advanced(pending) == (w.woken(wake), Action::Stop),
{
}

/// Where the batching window closes and the records channel holds nothing,
/// the worker passes through `Sending` without asking for a transmission and
/// is back in `Buffering` with an empty buffer.
pub proof fn lemma_idle_window_sends_nothing<T>(w: WorkerView<T>, ignored: Seq<T>)
    requires
        w.ready_in(State::Buffering),
    ensures
        ({
            let (waiting, first) = w.advanced(ignored);
            let sending = waiting.woken(Wake::TimerExpired);
            let (back, second) = sending.advanced(Seq::empty());
            &&& first == Action::Wait(w.interval)
            &&& waiting.awaits_wake()
            &&& sending.ready_in(State::Sending)
            &&& second == Action::Proceed
            &&& back.ready_in(State::Buffering)
            &&& back.items == Seq::<T>::empty()
        }),
{
}

/// On a flush request the worker sends exactly the records that the channel
/// held when `Sending` was entered, in their order, and asks for one
/// transmission: whatever its outcome, the worker has left `Sending`
/// afterwards, and only a new entry into `Sending` asks again.
pub proof fn lemma_flush_sends_what_is_queued<T>(
    w: WorkerView<T>,
    ignored: Seq<T>,
    pending: Seq<T>,
    outcome: SendOutcome<T>,
)
    requires
        w.ready_in(State::Buffering),
        pending.len() > 0,
    ensures
        ({
            let waiting = w.advanced(ignored).0;
            let sending = waiting.woken(Wake::Command(Command::Flush));
            let (transmitting, action) = sending.advanced(pending);
            let done = transmitting.answered(outcome);
            &&& sending.ready_in(State::Sending)
            &&& action == Action::Transmit
            &&& transmitting.items == pending
            &&& transmitting.awaits_response()
            &&& done.phase == Phase::Ready
            &&& done.state == State::Buffering || done.state == State::BackingOff
        }),
{
}

/// With delays left, a backoff waits for the first of them, and keeps the
/// buffer for the retry.
pub proof fn lemma_backoff_waits_for_next_delay<T>(w: WorkerView<T>, ignored: Seq<T>)
    requires
        w.ready_in(State::BackingOff),
        w.retry.len() > 0,
    ensures
        ({
            let (waiting, action) = w.advanced(ignored);
            let retrying = waiting.woken(Wake::TimerExpired);
            &&& action == Action::Wait(w.retry[0])
            &&& waiting.retry == w.retry.drop_first()
            &&& waiting.awaits_wake()
            &&& retrying.ready_in(State::Sending)
            &&& retrying.items == w.items
        }),
{
}

/// With no delay left, a backoff gives the batch up: without a wait and
/// without a transmission the worker goes back to `Buffering`, and the buffer
/// is empty once `Buffering` is entered.
pub proof fn lemma_exhausted_backoff_drops_batch<T>(
    w: WorkerView<T>,
    ignored: Seq<T>,
    also_ignored: Seq<T>,
)
    requires
        w.ready_in(State::BackingOff),
        w.retry.len() == 0,
    ensures
        ({
            let (given_up, first) = w.advanced(ignored);
            let (buffering, second) = given_up.advanced(also_ignored);
            &&& first == Action::Proceed
            &&& given_up.ready_in(State::Buffering)
            &&& given_up.trigger == Some(Event::RetryExhausted)
            &&& second == Action::Wait(w.interval)
            &&& buffering.state == State::Buffering
            &&& buffering.items == Seq::<T>::empty()
        }),
{
}

/// The usual way through `Sending` starts the retry policy afresh. So a
/// backoff that follows an attempt which may be retried finds the full
/// exponential policy, and waits for its first delay.
pub proof fn lemma_failed_attempt_backs_off_afresh<T>(
    w: WorkerView<T>,
    pending: Seq<T>,
    outcome: SendOutcome<T>,
    ignored: Seq<T>,
)
    requires
        w.ready_in(State::Sending),
        !w.closing(),
        w.items.len() + pending.len() > 0,
        outcome.retryable(),
    ensures
        ({
            let (transmitting, action) = w.advanced(pending);
            let failed = transmitting.answered(outcome);
            let (waiting, then) = failed.advanced(ignored);
            &&& action == Action::Transmit
            &&& failed.ready_in(State::BackingOff)
            &&& failed.items == outcome.kept(w.items + pending)
            &&& failed.retry == backoff_delays()
            &&& then == Action::Wait(backoff_delays()[0])
            &&& waiting.retry == backoff_delays().drop_first()
        }),
{
}

/// The round of `Sending` that a close request starts ends in `Stopped`,
/// whatever the buffer held before. With something to send the worker asks
/// for exactly one transmission, keeps no retry in store, and stops on every
/// outcome, keeping what the outcome leaves of the batch; it never goes on to
/// `BackingOff` or `Buffering`. With nothing to send it stops without a
/// transmission.
pub proof fn lemma_closing_round_always_stops<T>(
    w: WorkerView<T>,
    pending: Seq<T>,
    outcome: SendOutcome<T>,
    ignored: Seq<T>,
)
    requires
        w.ready_in(State::Sending),
        w.closing(),
    ensures
        ({
            let (last, action) = w.advanced(pending);
            let done = last.answered(outcome);
            &&& last.retry == Seq::<u128>::empty()
            &&& w.items.len() + pending.len() > 0 ==> {
                &&& action == Action::Transmit
                &&& last.items == w.items + pending
                &&& last.awaits_response()
                &&& done.ready_in(State::Stopped)
                &&& done.trigger == Some(Event::TerminateRequested)
                &&& done.items == outcome.kept(w.items + pending)
                &&& done.advanced(ignored) == (done, Action::Stop)
            }
            &&& w.items.len() + pending.len() == 0 ==> {
                &&& action == Action::Stop
                &&& last.ready_in(State::Stopped)
                &&& last.trigger == Some(Event::TerminateRequested)
                &&& last.advanced(ignored) == (last, Action::Stop)
            }
        }),
{
}

/// A close request that ends the wait in `Buffering` leads to one
/// transmission at most. With records queued the worker asks for exactly one,
/// keeps no retry in store, and stops whatever the outcome is; with none
/// queued it stops without a transmission.
pub proof fn lemma_close_while_buffering<T>(
    w: WorkerView<T>,
    pending: Seq<T>,
    outcome: SendOutcome<T>,
    ignored: Seq<T>,
)
    requires
        w.wf(),
        w.awaits_wake(),
        w.state == State::Buffering,
    ensures
        ({
            let sending = w.woken(Wake::Command(Command::Close));
            let (last, action) = sending.advanced(pending);
            let done = last.answered(outcome);
            &&& sending.ready_in(State::Sending)
            &&& sending.closing()
            &&& last.retry == Seq::<u128>::empty()
            &&& pending.len() > 0 ==> {
                &&& action == Action::Transmit
                &&& last.items == pending
                &&& last.awaits_response()
                &&& done.ready_in(State::Stopped)
                &&& done.advanced(ignored) == (done, Action::Stop)
            }
            &&& pending.len() == 0 ==> {
                &&& action == Action::Stop
                &&& last.ready_in(State::Stopped)
                &&& last.advanced(ignored) == (last, Action::Stop)
            }
        }),
{
}

/// A close request that arrives during a transmission is read in the wait
/// that follows. After an outcome that asks for no retry that wait is in
/// `Buffering`, and the request leads into the last round of `Sending`. After
/// an outcome that asks for a retry the wait is a backoff, and the request
/// stops the worker there, with no further transmission.
pub proof fn lemma_close_after_sending<T>(
    w: WorkerView<T>,
    outcome: SendOutcome<T>,
    ignored: Seq<T>,
    also_ignored: Seq<T>,
)
    requires
        w.wf(),
        w.awaits_response(),
        !w.closing(),
    ensures
        ({
            let (waiting, action) = w.answered(outcome).advanced(ignored);
            let closed = waiting.woken(Wake::Command(Command::Close));
            &&& waiting.awaits_wake()
            &&& !outcome.retryable() ==> {
                &&& action == Action::Wait(w.interval)
                &&& closed.ready_in(State::Sending)
                &&& closed.closing()
            }
            &&& outcome.retryable() ==> {
                &&& action == Action::Wait(backoff_delays()[0])
                &&& closed.ready_in(State::Stopped)
                &&& closed.advanced(also_ignored) == (closed, Action::Stop)
            }
        }),
{
}

/// A close request during a backoff stops the worker at once. No
/// transmission follows: the buffered batch is abandoned as it is.
pub proof fn lemma_close_while_backing_off<T>(w: WorkerView<T>, ignored: Seq<T>)
    requires
        w.awaits_wake(),
        w.state == State::BackingOff,
    ensures
        ({
            let stopped = w.woken(Wake::Command(Command::Close));
            &&& stopped.ready_in(State::Stopped)
            &&& stopped.trigger == Some(Event::CloseRequested)
            &&& stopped.items == w.items
            &&& stopped.advanced(ignored) == (stopped, Action::Stop)
        }),
{
}

/// A flush request during a backoff changes nothing: the worker goes on
/// waiting in `BackingOff`.
pub proof fn lemma_flush_while_backing_off<T>(w: WorkerView<T>)
    requires
        w.awaits_wake(),
        w.state == State::BackingOff,
    ensures
        w.woken(Wake::Command(Command::Flush)) == w,
        w.woken(Wake::Command(Command::Flush)).awaits_wake(),
{
}

/// The worker after one round from `Buffering` through `Sending` in which
/// the wait ended with `wake` and the records channel held nothing.
pub open spec fn empty_cycle<T>(w: WorkerView<T>, wake: Wake) -> WorkerView<T> {
    w.receiving().0.woken(wake).sending(Seq::empty()).0
}

/// Rounds with nothing to send are idempotent. A round that the timer or a
/// flush request starts, with no record queued, asks for no transmission and
/// ends in `Buffering` with the fresh exponential policy; a second such round
/// changes nothing any more. A worker whose policy is fresh, as that of a new
/// worker is, keeps it unchanged from the first round on.
pub proof fn lemma_empty_cycles_are_idempotent<T>(w: WorkerView<T>, wake: Wake, again: Wake)
    requires
        w.ready_in(State::Buffering),
        wake == Wake::TimerExpired || wake == Wake::Command(Command::Flush),
        again == Wake::TimerExpired || again == Wake::Command(Command::Flush),
    ensures
        w.receiving().1 == Action::Wait(w.interval),
        w.receiving().0.woken(wake).sending(Seq::empty()).1 == Action::Proceed,
        empty_cycle(w, wake).ready_in(State::Buffering),
        empty_cycle(w, wake).retry == backoff_delays(),
        w.retry == backoff_delays() ==> empty_cycle(w, wake).retry == w.retry,
        empty_cycle(empty_cycle(w, wake), again) == empty_cycle(w, wake),
{
}

} // verus!
