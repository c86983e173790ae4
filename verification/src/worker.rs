//! What runs on a module's thread.
//!
//! A worker is a module together with its seat: its own exit and tick
//! consumers, a handle to the shared registry, and the barrier it has to pass
//! before any of its logic runs. The thread that owns a worker advances it
//! step by step until it reports that the module is done.

use vstd::prelude::*;
use crossbeam_channel::Receiver;
use crate::barrier::StartBarrier;
use crate::hook::Hook;
use crate::hook::Hooks;
use crate::signal::Exit;
use crate::signal::Update;

verus! {

/// A module whose thread is driven for it, phase by phase.
pub trait Module {
    /// Called once, after every module is registered and before any tick.
    fn start(&mut self, hooks: &Hooks);

    /// Called on every pass of the loop.
    fn render(&mut self, hook: &Hooks);

    /// Called on the passes on which a tick is pending.
    fn update(&mut self, hooks: &Hooks);

    /// What the module exposes to the others. Asked once, at registration.
    fn hook(&mut self) -> Hook;
}

/// A module that runs its thread's whole loop itself.
pub trait Runner {
    /// What the module exposes to the others. Asked once, at registration.
    fn hook(&mut self) -> Hook;

    /// The module's whole life: to return once `exit` says so.
    fn run(&mut self, exit: &mut Exit, update: &Update, hooks: &Hooks);
}

/// What a module thread is handed at registration.
pub struct Seat {
    barrier: StartBarrier,
    exit: Exit,
    update: Update,
    hooks: Hooks,
}

/// What one advance of a worker did.
#[derive(Debug, Clone, Copy, PartialEq, Eq, Structural)]
pub enum Step {
    /// Passed the barrier and ran the module's `start`.
    Started,
    /// A tick was pending: ran `update`, then `render`.
    Updated,
    /// No tick was pending: ran `render` alone.
    Rendered,
    /// Shutdown was requested: ran nothing. The thread is to end.
    Exited,
}

/// A registered module and its seat.
pub struct Worker<M> {
    module: M,
    seat: Seat,
    started: bool,
}

/// What a pass of the loop does, given whether shutdown was requested and
/// whether a tick is pending. Shutdown comes first.
pub open spec fn pass(stop: bool, tick: bool) -> Step {
    if stop {
        Step::Exited
    } else if tick {
        Step::Updated
    } else {
        Step::Rendered
    }
}

/// Decides what a pass of the loop does.
pub fn decide(stop: bool, tick: bool) -> (step: Step)
    ensures
        step == pass(stop, tick),
{
    if stop {
        Step::Exited
    } else if tick {
        Step::Updated
    } else {
        Step::Rendered
    }
}

impl Seat {
    /// Whether this seat has seen a request to shut down.
    pub closed spec fn exit_seen(&self) -> bool {
        self.exit.exited()
    }

    /// The shared registry that this seat reads.
    pub closed spec fn registry(&self) -> Hooks {
        self.hooks
    }

    /// The barrier that this seat waits at.
    pub closed spec fn barrier(&self) -> StartBarrier {
        self.barrier
    }

    /// The consumer that this seat polls for the exit signal.
    pub closed spec fn exit_source(&self) -> Receiver<()> {
        self.exit.source()
    }

    /// The consumer that this seat polls for the tick signal.
    pub closed spec fn tick_source(&self) -> Receiver<()> {
        self.update.source()
    }

    /// A seat made of its four parts.
    pub fn new(barrier: StartBarrier, exit: Exit, update: Update, hooks: Hooks) -> (seat: Self)
        ensures
            seat.exit_seen() == exit.exited(),
            seat.exit_source() == exit.source(),
            seat.tick_source() == update.source(),
            seat.registry() == hooks,
            seat.barrier() == barrier,
    {
        Seat { barrier, exit, update, hooks }
    }

    /// Sleeps until every module is registered and the registry published.
    pub fn wait_ready(&self) {
        self.barrier.wait()
    }

    /// Whether the module is to shut down; `true` from the first time on.
    pub fn should_exit(&mut self) -> (stop: bool)
        ensures
            stop == final(self).exit_seen(),
            old(self).exit_seen() ==> stop,
            final(self).registry() == old(self).registry(),
            final(self).barrier() == old(self).barrier(),
            final(self).exit_source() == old(self).exit_source(),
            final(self).tick_source() == old(self).tick_source(),
    {
        self.exit.should_exit()
    }

    /// Whether a tick is pending.
    pub fn tick(&self) -> (tick: bool) {
        self.update.tick()
    }

    /// The shared registry.
    pub fn hooks(&self) -> (hooks: &Hooks)
        ensures
            *hooks == self.registry(),
    {
        &self.hooks
    }

    /// The seat taken apart, for a thread that owns its loop.
    pub fn into_parts(self) -> (parts: (StartBarrier, Exit, Update, Hooks))
        ensures
            parts.0 == self.barrier(),
            parts.1.exited() == self.exit_seen(),
            parts.1.source() == self.exit_source(),
            parts.2.source() == self.tick_source(),
            parts.3 == self.registry(),
    {
        (self.barrier, self.exit, self.update, self.hooks)
    }
}

impl<M> Worker<M> {
    /// Whether the module's logic has begun.
    pub closed spec fn started(&self) -> bool {
        self.started
    }

    /// Whether the worker has seen a request to shut down.
    pub closed spec fn exit_seen(&self) -> bool {
        self.seat.exit_seen()
    }

    /// The module as it stands.
    pub closed spec fn module(&self) -> M {
        self.module
    }

    /// The seat as it stands.
    pub closed spec fn seated(&self) -> Seat {
        self.seat
    }

    /// A worker that has not begun.
    pub fn new(module: M, seat: Seat) -> (worker: Self)
        ensures
            !worker.started(),
            worker.exit_seen() == seat.exit_seen(),
            worker.module() == module,
            worker.seated() == seat,
    {
        Worker { module, seat, started: false }
    }

    /// The worker's seat.
    pub fn seat(&self) -> (seat: &Seat)
        ensures
            *seat == self.seated(),
            seat.exit_seen() == self.exit_seen(),
    {
        &self.seat
    }

    /// The worker taken apart.
    pub fn into_parts(self) -> (parts: (M, Seat))
        ensures
            parts.0 == self.module(),
            parts.1 == self.seated(),
            parts.1.exit_seen() == self.exit_seen(),
    {
        (self.module, self.seat)
    }
}

impl<M: Module> Worker<M> {
    /// One step of the module's life. The first advance waits at the barrier
    /// and runs `start`. Every later one is a pass of the loop: nothing once
    /// shutdown was requested, else `update` if a tick is pending, then
    /// `render`.
    pub fn advance(&mut self) -> (step: Step)
        ensures
            final(self).started(),
            !old(self).started() ==> step == Step::Started,
            !old(self).started() ==> final(self).exit_seen() == old(self).exit_seen(),
            old(self).started() ==> step != Step::Started,
            old(self).started() ==> (step == Step::Exited <==> final(self).exit_seen()),
            old(self).started() && old(self).exit_seen() ==> step == Step::Exited,
            step == Step::Exited ==> final(self).module() == old(self).module(),
            final(self).seated().registry() == old(self).seated().registry(),
            final(self).seated().barrier() == old(self).seated().barrier(),
            final(self).seated().exit_source() == old(self).seated().exit_source(),
            final(self).seated().tick_source() == old(self).seated().tick_source(),
    {
        if !self.started {
            self.seat.barrier.wait();
            self.module.start(&self.seat.hooks);
            self.started = true;
            return Step::Started;
        }
        let stop = self.seat.exit.should_exit();
        let tick = if stop {
            false
        } else {
            self.seat.update.tick()
        };
        let step = decide(stop, tick);
        match step {
            Step::Updated => {
                self.module.update(&self.seat.hooks);
                self.module.render(&self.seat.hooks);
            },
            Step::Rendered => {
                self.module.render(&self.seat.hooks);
            },
            _ => {},
        }
        step
    }
}

impl<M: Runner> Worker<M> {
    /// The module's whole life: waits at the barrier, then hands the thread to
    /// the module until it returns.
    pub fn run(&mut self)
        ensures
            final(self).started(),
            final(self).seated().registry() == old(self).seated().registry(),
            final(self).seated().barrier() == old(self).seated().barrier(),
            final(self).seated().tick_source() == old(self).seated().tick_source(),
    {
        self.seat.barrier.wait();
        self.module.run(&mut self.seat.exit, &self.seat.update, &self.seat.hooks);
        self.started = true;
    }
}

} // verus!
