//! Exit and tick signals as a module thread sees them.
//!
//! Each signal is a bus without payload. A module polls its own consumer of
//! each and never waits on it.

use vstd::prelude::*;
use crossbeam_channel::Receiver;
use crossbeam_channel::TryRecvError;

verus! {

/// Why a poll yielded no message.
#[derive(Debug, Clone, Copy, PartialEq, Eq, Structural)]
pub enum PollError {
    /// Nothing is buffered, and a producer is still there.
    Empty,
    /// Nothing is buffered, and every producer is gone.
    Disconnected,
}

/// What one poll of a consumer yielded.
pub type Polled<T> = Result<T, PollError>;

/// `crossbeam_channel::Receiver::try_recv`: takes the oldest buffered
/// message, if there is one, without blocking. Which of the three outcomes
/// comes depends on the sends and drops of other threads.
#[verifier::external_body]
fn try_recv<T>(receiver: &Receiver<T>) -> (polled: Polled<T>)
{
    match receiver.try_recv() {
        Ok(message) => Ok(message),
        Err(TryRecvError::Empty) => Err(PollError::Empty),
        Err(TryRecvError::Disconnected) => Err(PollError::Disconnected),
    }
}

/// A poll of the exit signal asks for shutdown when it yields the signal or
/// finds the bus gone: without a producer nothing is left to wait for.
pub open spec fn exit_requested(polled: Polled<()>) -> bool {
    polled != Err::<(), PollError>(PollError::Empty)
}

/// A poll of the tick signal permits one unit of work only when it yields a
/// tick.
pub open spec fn tick_pending(polled: Polled<()>) -> bool {
    polled is Ok
}

/// Decides from one poll of the exit signal whether to shut down.
pub fn exit_verdict(polled: &Polled<()>) -> (stop: bool)
    ensures
        stop == exit_requested(*polled),
{
    match polled {
        Ok(_) => true,
        Err(PollError::Empty) => false,
        Err(PollError::Disconnected) => true,
    }
}

/// Decides from one poll of the tick signal whether a tick is pending.
pub fn tick_verdict(polled: &Polled<()>) -> (tick: bool)
    ensures
        tick == tick_pending(*polled),
{
    match polled {
        Ok(_) => true,
        Err(PollError::Empty) => false,
        Err(PollError::Disconnected) => false,
    }
}

/// A module's private consumer of the exit signal. Once it has seen a
/// request to shut down it keeps saying so.
pub struct Exit {
    receiver: Receiver<()>,
    seen: bool,
}

/// A module's private consumer of the tick signal.
pub struct Update {
    receiver: Receiver<()>,
}

impl Exit {
    /// Whether a request to shut down has been seen.
    pub closed spec fn exited(&self) -> bool {
        self.seen
    }

    /// The consumer that is polled for the exit signal.
    pub closed spec fn source(&self) -> Receiver<()> {
        self.receiver
    }

    /// An exit consumer on `receiver` that has seen nothing yet.
    pub fn new(receiver: Receiver<()>) -> (exit: Self)
        ensures
            !exit.exited(),
            exit.source() == receiver,
    {
        Exit { receiver, seen: false }
    }

    /// Takes one poll of the signal into account. The answer is `true` if a
    /// request was seen before or this poll is one, and it is remembered.
    pub fn observe(&mut self, polled: &Polled<()>) -> (stop: bool)
        ensures
            stop == (old(self).exited() || exit_requested(*polled)),
            final(self).exited() == stop,
            final(self).source() == old(self).source(),
    {
        if exit_verdict(polled) {
            self.seen = true;
        }
        self.seen
    }

    /// Whether the module is to shut down. Polls the signal unless a request
    /// was seen before; from the first `true` on the answer is `true`.
    pub fn should_exit(&mut self) -> (stop: bool)
        ensures
            stop == final(self).exited(),
            old(self).exited() ==> stop,
            final(self).source() == old(self).source(),
    {
        if self.seen {
            return true;
        }
        let polled = try_recv(&self.receiver);
        self.observe(&polled)
    }
}

impl Update {
    /// The consumer that is polled for the tick signal.
    pub closed spec fn source(&self) -> Receiver<()> {
        self.receiver
    }

    /// A tick consumer on `receiver`.
    pub fn new(receiver: Receiver<()>) -> (update: Self)
        ensures
            update.source() == receiver,
    {
        Update { receiver }
    }

    /// Whether a tick is pending. Takes at most one tick from the buffer and
    /// never waits for one.
    pub fn tick(&self) -> (tick: bool) {
        let polled = try_recv(&self.receiver);
        tick_verdict(&polled)
    }
}

} // verus!
