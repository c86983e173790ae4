//! The orchestrator: registers modules, then publishes the registry and
//! releases their threads, and signals tick and exit from then on.
//!
//! An orchestrator is accumulating until it is started. While it
//! accumulates, every registration lands in a registry of its own that no
//! module can see; starting publishes that registry whole and lifts the barrier.

use vstd::prelude::*;
use std::any::TypeId;
use crate::event::Delivery;
use crate::event::EventHandler;
use crate::barrier::StartBarrier;
use crate::hook::Hook;
use crate::hook::Hooks;
use crate::hook::Registry;
use crate::identity::type_id_of;
use crate::signal::Exit;
use crate::signal::Update;
use crate::worker::Module;
use crate::worker::Runner;
use crate::worker::Seat;
use crate::worker::Worker;

verus! {

/// A call that the orchestrator's phase does not allow.
#[derive(Debug, Clone, Copy, PartialEq, Eq, Structural)]
pub enum ModulesError {
    /// The orchestrator was started before: the registry is published and
    /// takes no more modules.
    AlreadyStarted,
}

/// The owner of the shared signals, the barrier and the registry to be.
pub struct Modules {
    barrier: StartBarrier,
    exit: EventHandler<()>,
    update: EventHandler<()>,
    hooks: Hooks,
    pending: Option<Registry>,
}

impl ModulesError {
    /// The misuse in words.
    pub fn describe(&self) -> (text: String)
        ensures
            text@ == "the modules were started before"@,
    {
        "the modules were started before".to_owned()
    }
}

impl Modules {
    /// Whether the orchestrator has been started.
    pub closed spec fn started(&self) -> bool {
        self.pending is None
    }

    /// What is registered and not published yet. Empty once started.
    pub closed spec fn pending(&self) -> Map<TypeId, Hook> {
        match self.pending {
            Some(registry) => registry@,
            None => Map::empty(),
        }
    }

    /// The shared registry that `start` publishes into.
    pub closed spec fn registry(&self) -> Hooks {
        self.hooks
    }

    /// The barrier that `start` lifts.
    pub closed spec fn barrier(&self) -> StartBarrier {
        self.barrier
    }

    /// The bus that carries the request to shut down.
    pub closed spec fn exit_bus(&self) -> EventHandler<()> {
        self.exit
    }

    /// The bus that carries the ticks.
    pub closed spec fn tick_bus(&self) -> EventHandler<()> {
        self.update
    }

    /// An accumulating orchestrator without modules. Its published registry
    /// is empty.
    pub fn new() -> (modules: Self)
        ensures
            !modules.started(),
            modules.pending() == Map::<TypeId, Hook>::empty(),
    {
        Modules {
            barrier: StartBarrier::new(),
            exit: EventHandler::new(),
            update: EventHandler::new(),
            hooks: Hooks::new(Registry::new()),
            pending: Some(Registry::new()),
        }
    }

    /// Back to a new orchestrator. Threads of modules registered before are
    /// neither stopped nor joined: those past the barrier see their exit bus
    /// gone and shut down, those still at the old barrier stay there.
    pub fn reset(&mut self)
        ensures
            !final(self).started(),
            final(self).pending() == Map::<TypeId, Hook>::empty(),
    {
        *self = Modules::new();
    }

    /// Registers `hook` under module type `key` and hands out the seat of
    /// that module's thread: consumers of its own on the exit and tick
    /// buses, the shared registry and the barrier. Refused once started.
    pub fn register(&mut self, key: TypeId, hook: Hook) -> (seat: Result<Seat, ModulesError>)
        ensures
            old(self).started() ==> seat == Err::<Seat, ModulesError>(ModulesError::AlreadyStarted),
            old(self).started() ==> final(self).started(),
            !old(self).started() ==> seat is Ok && !final(self).started(),
            !old(self).started() ==> final(self).pending() == old(self).pending().insert(key, hook),
            old(self).started() ==> final(self).pending() == old(self).pending(),
            seat matches Ok(s) ==> !s.exit_seen() && s.registry() == old(self).registry()
                && s.barrier() == old(self).barrier(),
            final(self).registry() == old(self).registry(),
            final(self).barrier() == old(self).barrier(),
            final(self).exit_bus() == old(self).exit_bus(),
            final(self).tick_bus() == old(self).tick_bus(),
    {
        match self.pending.take() {
            None => Err(ModulesError::AlreadyStarted),
            Some(registry) => {
                let mut registry = registry;
                registry.insert(key, hook);
                self.pending = Some(registry);
                let exit = Exit::new(self.exit.subscribe());
                let update = Update::new(self.update.subscribe());
                Ok(Seat::new(self.barrier.clone(), exit, update, self.hooks.clone()))
            },
        }
    }

    /// Registers a phase-driven module under its type: asks it for its hook
    /// and seats it. The worker is to be advanced on a thread of its own.
    /// Refused once started, and the module is then not asked for anything.
    pub fn add_module<M: Module + Send + 'static>(&mut self, module: M) -> (worker: Result<
        Worker<M>,
        ModulesError,
    >)
        ensures
            old(self).started() <==> worker is Err,
            final(self).started() == old(self).started(),
            old(self).started() ==> final(self).pending() == old(self).pending(),
            worker matches Ok(w) ==> !w.started() && !w.exit_seen() && exists|
                key: TypeId,
                hook: Hook,
            | final(self).pending() == old(self).pending().insert(key, hook),
            worker matches Ok(w) ==> w.seated().registry() == old(self).registry()
                && w.seated().barrier() == old(self).barrier(),
            final(self).registry() == old(self).registry(),
            final(self).barrier() == old(self).barrier(),
            final(self).exit_bus() == old(self).exit_bus(),
            final(self).tick_bus() == old(self).tick_bus(),
    {
        if self.pending.is_none() {
            return Err(ModulesError::AlreadyStarted);
        }
        let mut module = module;
        let hook = module.hook();
        match self.register(type_id_of::<M>(), hook) {
            Ok(seat) => Ok(Worker::new(module, seat)),
            Err(e) => Err(e),
        }
    }

    /// Registers a module that runs its own loop under its type: asks it
    /// for its hook and seats it. Refused once started.
    pub fn add_runner<M: Runner + Send + 'static>(&mut self, module: M) -> (worker: Result<
        Worker<M>,
        ModulesError,
    >)
        ensures
            old(self).started() <==> worker is Err,
            final(self).started() == old(self).started(),
            old(self).started() ==> final(self).pending() == old(self).pending(),
            worker matches Ok(w) ==> !w.started() && !w.exit_seen() && exists|
                key: TypeId,
                hook: Hook,
            | final(self).pending() == old(self).pending().insert(key, hook),
            worker matches Ok(w) ==> w.seated().registry() == old(self).registry()
                && w.seated().barrier() == old(self).barrier(),
            final(self).registry() == old(self).registry(),
            final(self).barrier() == old(self).barrier(),
            final(self).exit_bus() == old(self).exit_bus(),
            final(self).tick_bus() == old(self).tick_bus(),
    {
        if self.pending.is_none() {
            return Err(ModulesError::AlreadyStarted);
        }
        let mut module = module;
        let hook = module.hook();
        match self.register(type_id_of::<M>(), hook) {
            Ok(seat) => Ok(Worker::new(module, seat)),
            Err(e) => Err(e),
        }
    }

    /// Ends the accumulating phase and hands out what was registered, to be
    /// published. `None` once started.
    fn seal(&mut self) -> (sealed: Option<Registry>)
        ensures
            final(self).started(),
            final(self).pending() == Map::<TypeId, Hook>::empty(),
            old(self).started() <==> sealed is None,
            sealed matches Some(registry) ==> registry@ == old(self).pending(),
            final(self).registry() == old(self).registry(),
            final(self).barrier() == old(self).barrier(),
            final(self).exit_bus() == old(self).exit_bus(),
            final(self).tick_bus() == old(self).tick_bus(),
    {
        self.pending.take()
    }

    /// Publishes what was registered, whole, then lifts the barrier for
    /// every module thread. A second start is refused and changes nothing.
    pub fn start(&mut self) -> (done: Result<(), ModulesError>)
        ensures
            final(self).started(),
            final(self).pending() == Map::<TypeId, Hook>::empty(),
            old(self).started() <==> done == Err::<(), ModulesError>(ModulesError::AlreadyStarted),
            !old(self).started() <==> done is Ok,
            final(self).registry() == old(self).registry(),
            final(self).barrier() == old(self).barrier(),
            final(self).exit_bus() == old(self).exit_bus(),
            final(self).tick_bus() == old(self).tick_bus(),
    {
        match self.seal() {
            None => Err(ModulesError::AlreadyStarted),
            Some(registry) => {
                self.hooks.reload(registry);
                self.barrier.lift();
                Ok(())
            },
        }
    }

    /// Broadcasts one tick to every module registered so far.
    pub fn request_tick(&self) -> (result: Delivery<()>) {
        self.update.emit(&())
    }

    /// Broadcasts the request to shut down to every module registered so
    /// far.
    pub fn request_exit(&self) -> (result: Delivery<()>) {
        self.exit.emit(&())
    }

    /// A handle to the shared registry.
    pub fn hooks(&self) -> (hooks: Hooks)
        ensures
            hooks == self.registry(),
    {
        self.hooks.clone()
    }
}

} // verus!
