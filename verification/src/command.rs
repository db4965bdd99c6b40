//! Control signals, and what can end a wait.

use crate::machine::Event;
use vstd::prelude::*;

verus! {

/// A control signal sent to the dispatcher.
#[derive(Clone, Copy, Debug, PartialEq, Eq, Structural)]
pub enum Command {
    /// Send what is queued now rather than when the batching window closes.
    Flush,
    /// Make one last attempt to send what is queued, then stop.
    Close,
    /// Stop at once and abandon what is buffered.
    Terminate,
}

/// What ended a wait on the command channel and a timer.
#[derive(Clone, Copy, Debug, PartialEq, Eq, Structural)]
pub enum Wake {
    /// A command arrived.
    Command(Command),
    /// The command channel is closed: nobody can send a command any more.
    Disconnected,
    /// The timer fired.
    TimerExpired,
}

impl Wake {
    /// Whether this wake asks the dispatcher to stop at once: a `Terminate`
    /// command, or a command channel that is closed.
    pub open spec fn terminates(self) -> bool {
        self == Wake::Command(Command::Terminate) || self == Wake::Disconnected
    }

    /// The event that this wake stands for in the state machine.
    pub open spec fn event(self) -> Event {
        match self {
            Wake::Command(Command::Flush) => Event::FlushRequested,
            Wake::Command(Command::Close) => Event::CloseRequested,
            Wake::Command(Command::Terminate) => Event::TerminateRequested,
            Wake::Disconnected => Event::TerminateRequested,
            Wake::TimerExpired => Event::TimerExpired,
        }
    }

    /// Computes [`Wake::event`].
    pub fn to_event(self) -> (event: Event)
        ensures
            event == self.event(),
    {
        match self {
            Wake::Command(Command::Flush) => Event::FlushRequested,
            Wake::Command(Command::Close) => Event::CloseRequested,
            Wake::Command(Command::Terminate) => Event::TerminateRequested,
            Wake::Disconnected => Event::TerminateRequested,
            Wake::TimerExpired => Event::TimerExpired,
        }
    }
}

} // verus!
