use crossbeam_channel::TryRecvError;
use module_hub::barrier::StartBarrier;
use module_hub::event::EventHandler;
use module_hub::hook::Hook;
use module_hub::hook::Hooks;
use module_hub::hook::Registry;
use module_hub::orchestrator::ModulesError;
use module_hub::worker::decide;
use module_hub::worker::Runner;
use module_hub::worker::Seat;
use module_hub::worker::Step;
use module_hub::worker::Worker;
use module_hub::Exit;
use module_hub::Module;
use module_hub::Modules;
use module_hub::Update;
use std::any::TypeId;

struct ExampleModule;

impl Module for ExampleModule {
    fn start(&mut self, _hooks: &Hooks) {}

    fn render(&mut self, _hooks: &Hooks) {}

    fn update(&mut self, _hooks: &Hooks) {}

    fn hook(&mut self) -> Hook {
        Hook::new(())
    }
}

struct Source {
    events: EventHandler<i32>,
}

impl Module for Source {
    fn start(&mut self, _hooks: &Hooks) {}

    fn render(&mut self, _hooks: &Hooks) {}

    fn update(&mut self, _hooks: &Hooks) {}

    fn hook(&mut self) -> Hook {
        Hook::new(()).with("events", self.events.clone())
    }
}

struct Sink {
    inbox: Option<crossbeam_channel::Receiver<i32>>,
}

impl Module for Sink {
    fn start(&mut self, hooks: &Hooks) {
        self.inbox = hooks.get::<Source, _>(|hook| hook.get::<i32>("events")).flatten();
    }

    fn render(&mut self, _hooks: &Hooks) {}

    fn update(&mut self, _hooks: &Hooks) {}

    fn hook(&mut self) -> Hook {
        Hook::empty()
    }
}

#[derive(Default)]
struct Counter {
    hooks: u32,
    starts: u32,
    updates: u32,
    renders: u32,
    saw_itself: bool,
}

impl Module for Counter {
    fn start(&mut self, hooks: &Hooks) {
        self.starts += 1;
        self.saw_itself = hooks.get::<Counter, _>(|_| ()).is_some();
    }

    fn render(&mut self, _hooks: &Hooks) {
        self.renders += 1;
    }

    fn update(&mut self, _hooks: &Hooks) {
        self.updates += 1;
    }

    fn hook(&mut self) -> Hook {
        self.hooks += 1;
        Hook::new(())
    }
}

struct Looper {
    passes: u32,
    ticks: u32,
    found_source: bool,
}

impl Runner for Looper {
    fn hook(&mut self) -> Hook {
        Hook::new(0u8)
    }

    fn run(&mut self, exit: &mut Exit, update: &Update, hooks: &Hooks) {
        self.found_source = hooks.get::<Source, _>(|_| ()).is_some();
        while !exit.should_exit() {
            self.passes += 1;
            if update.tick() {
                self.ticks += 1;
            }
        }
    }
}

#[test]
fn test() {
    let mut modules = Modules::new();
    modules.start().unwrap();
    modules.request_tick().unwrap();
    modules.request_exit().unwrap();
}

#[test]
fn a_consumer_module_receives_what_a_producer_module_emits() {
    let events: EventHandler<i32> = EventHandler::new();
    let mut modules = Modules::new();
    let mut a = modules.add_module(Source { events: events.clone() }).unwrap();
    let mut b = modules.add_module(Sink { inbox: None }).unwrap();
    modules.start().unwrap();
    assert_eq!(a.advance(), Step::Started);
    assert_eq!(b.advance(), Step::Started);

    events.emit(&7).unwrap();
    events.emit(&9).unwrap();

    let (sink, _seat) = b.into_parts();
    let inbox = sink.inbox.unwrap();
    assert_eq!(inbox.try_recv(), Ok(7));
    assert_eq!(inbox.try_recv(), Ok(9));
    assert_eq!(inbox.try_recv(), Err(TryRecvError::Empty));
}

#[test]
fn nothing_is_published_before_start() {
    let events: EventHandler<i32> = EventHandler::new();
    let mut modules = Modules::new();
    let hooks = modules.hooks();
    let _a = modules.add_module(Source { events }).unwrap();
    assert!(hooks.get::<Source, _>(|_| ()).is_none());
    modules.start().unwrap();
    assert!(hooks.get::<Source, _>(|_| ()).is_some());
    assert!(hooks.get::<Sink, _>(|_| ()).is_none());
}

#[test]
fn the_barrier_is_lifted_by_start() {
    let mut modules = Modules::new();
    let worker = modules.add_module(ExampleModule).unwrap();
    let (_module, seat) = worker.into_parts();
    let (barrier, _exit, _update, _hooks) = seat.into_parts();
    assert!(!barrier.is_lifted());
    modules.start().unwrap();
    assert!(barrier.is_lifted());
    barrier.wait();
}

#[test]
fn start_without_modules_publishes_an_empty_registry() {
    let mut modules = Modules::new();
    let hooks = modules.hooks();
    assert_eq!(modules.start(), Ok(()));
    assert!(hooks.get::<ExampleModule, _>(|_| ()).is_none());
    assert!(hooks.snapshot().is_empty());
    assert!(modules.request_tick().is_ok());
    assert!(modules.request_exit().is_ok());
}

#[test]
fn a_second_start_is_refused() {
    let mut modules = Modules::new();
    let _worker = modules.add_module(ExampleModule).unwrap();
    assert_eq!(modules.start(), Ok(()));
    assert_eq!(modules.start(), Err(ModulesError::AlreadyStarted));
    assert_eq!(modules.start(), Err(ModulesError::AlreadyStarted));
    assert!(modules.hooks().get::<ExampleModule, _>(|_| ()).is_some());
}

#[test]
fn registration_after_start_is_refused() {
    let mut modules = Modules::new();
    modules.start().unwrap();
    assert!(matches!(modules.add_module(ExampleModule), Err(ModulesError::AlreadyStarted)));
    assert!(matches!(
        modules.add_runner(Looper { passes: 0, ticks: 0, found_source: false }),
        Err(ModulesError::AlreadyStarted)
    ));
    assert!(matches!(
        modules.register(TypeId::of::<ExampleModule>(), Hook::empty()),
        Err(ModulesError::AlreadyStarted)
    ));
    assert!(modules.hooks().get::<ExampleModule, _>(|_| ()).is_none());
    assert_eq!(ModulesError::AlreadyStarted.describe(), "the modules were started before");
}

#[test]
fn register_seats_a_module_by_hand() {
    let mut modules = Modules::new();
    let mut seat = modules.register(TypeId::of::<ExampleModule>(), Hook::new(5u8)).unwrap();
    modules.start().unwrap();
    seat.wait_ready();
    assert_eq!(
        seat.hooks().get::<ExampleModule, _>(|hook| hook.state::<u8>().copied()),
        Some(Some(5))
    );
    assert!(!seat.tick());
    assert!(!seat.should_exit());
    modules.request_tick().unwrap();
    modules.request_exit().unwrap();
    assert!(seat.tick());
    assert!(seat.should_exit());
}

#[test]
fn a_module_type_registered_twice_keeps_its_last_hook() {
    let mut modules = Modules::new();
    let _first = modules.register(TypeId::of::<ExampleModule>(), Hook::new(1u8)).unwrap();
    let _second = modules.register(TypeId::of::<ExampleModule>(), Hook::new(2u8)).unwrap();
    modules.start().unwrap();
    assert_eq!(
        modules.hooks().get::<ExampleModule, _>(|hook| hook.state::<u8>().copied()),
        Some(Some(2))
    );
}

#[test]
fn a_worker_starts_then_renders_and_updates_on_ticks() {
    let mut modules = Modules::new();
    let mut worker = modules.add_module(Counter::default()).unwrap();
    modules.start().unwrap();

    assert_eq!(worker.advance(), Step::Started);
    assert_eq!(worker.advance(), Step::Rendered);
    assert_eq!(worker.advance(), Step::Rendered);
    modules.request_tick().unwrap();
    assert_eq!(worker.advance(), Step::Updated);
    assert_eq!(worker.advance(), Step::Rendered);
    modules.request_tick().unwrap();
    modules.request_tick().unwrap();
    assert_eq!(worker.advance(), Step::Updated);
    assert_eq!(worker.advance(), Step::Updated);
    assert_eq!(worker.advance(), Step::Rendered);

    let (counter, _seat) = worker.into_parts();
    assert_eq!(counter.hooks, 1);
    assert_eq!(counter.starts, 1);
    assert_eq!(counter.updates, 3);
    assert_eq!(counter.renders, 7);
    assert!(counter.saw_itself);
}

#[test]
fn exit_reaches_every_worker_and_stays() {
    let mut modules = Modules::new();
    let mut first = modules.add_module(Counter::default()).unwrap();
    let mut second = modules.add_module(ExampleModule).unwrap();
    modules.start().unwrap();
    assert_eq!(first.advance(), Step::Started);
    assert_eq!(second.advance(), Step::Started);
    assert_eq!(first.advance(), Step::Rendered);

    modules.request_exit().unwrap();
    assert_eq!(first.advance(), Step::Exited);
    assert_eq!(second.advance(), Step::Exited);
    assert_eq!(first.advance(), Step::Exited);
    drop(modules);
    assert_eq!(first.advance(), Step::Exited);
    assert_eq!(second.advance(), Step::Exited);

    let (counter, mut seat) = first.into_parts();
    assert_eq!(counter.renders, 1);
    assert_eq!(counter.updates, 0);
    assert!(seat.should_exit());
}

#[test]
fn exit_comes_before_a_pending_tick() {
    let mut modules = Modules::new();
    let mut worker = modules.add_module(Counter::default()).unwrap();
    modules.start().unwrap();
    assert_eq!(worker.advance(), Step::Started);
    modules.request_tick().unwrap();
    modules.request_exit().unwrap();
    assert_eq!(worker.advance(), Step::Exited);
    let (counter, _seat) = worker.into_parts();
    assert_eq!(counter.updates, 0);
    assert_eq!(counter.renders, 0);
}

#[test]
fn exit_requested_before_the_first_step_still_lets_start_run() {
    let mut modules = Modules::new();
    let mut worker = modules.add_module(Counter::default()).unwrap();
    modules.start().unwrap();
    modules.request_exit().unwrap();
    assert_eq!(worker.advance(), Step::Started);
    assert_eq!(worker.advance(), Step::Exited);
    let (counter, _seat) = worker.into_parts();
    assert_eq!(counter.starts, 1);
    assert_eq!(counter.renders, 0);
}

#[test]
fn dropping_the_orchestrator_ends_its_workers() {
    let mut modules = Modules::new();
    let mut worker = modules.add_module(Counter::default()).unwrap();
    modules.start().unwrap();
    assert_eq!(worker.advance(), Step::Started);
    assert_eq!(worker.advance(), Step::Rendered);
    drop(modules);
    assert_eq!(worker.advance(), Step::Exited);
}

#[test]
fn a_runner_owns_its_loop_until_exit() {
    let events: EventHandler<i32> = EventHandler::new();
    let mut modules = Modules::new();
    let _source = modules.add_module(Source { events }).unwrap();
    let mut worker =
        modules.add_runner(Looper { passes: 0, ticks: 0, found_source: false }).unwrap();
    modules.start().unwrap();
    modules.request_tick().unwrap();
    modules.request_exit().unwrap();
    worker.run();
    let (looper, mut seat) = worker.into_parts();
    assert!(looper.found_source);
    assert_eq!(looper.passes, 0);
    assert_eq!(looper.ticks, 0);
    assert!(seat.should_exit());
    assert_eq!(
        seat.hooks().get::<Looper, _>(|hook| hook.state::<u8>().copied()),
        Some(Some(0))
    );
}

#[test]
fn emit_after_a_module_is_gone_reports_the_lost_consumer() {
    let mut modules = Modules::new();
    let worker = modules.add_module(ExampleModule).unwrap();
    modules.start().unwrap();
    drop(worker);
    assert!(modules.request_tick().is_err());
    assert!(modules.request_exit().is_err());
}

#[test]
fn reset_returns_to_accumulating() {
    let mut modules = Modules::new();
    let mut old = modules.add_module(Counter::default()).unwrap();
    modules.start().unwrap();
    assert_eq!(old.advance(), Step::Started);

    modules.reset();
    assert!(modules.hooks().get::<Counter, _>(|_| ()).is_none());
    assert_eq!(old.advance(), Step::Exited);

    let mut new = modules.add_module(Counter::default()).unwrap();
    assert_eq!(modules.start(), Ok(()));
    assert!(modules.hooks().get::<Counter, _>(|_| ()).is_some());
    assert_eq!(new.advance(), Step::Started);
    assert_eq!(new.advance(), Step::Rendered);
}

#[test]
fn decide_puts_exit_before_tick() {
    assert_eq!(decide(true, true), Step::Exited);
    assert_eq!(decide(true, false), Step::Exited);
    assert_eq!(decide(false, true), Step::Updated);
    assert_eq!(decide(false, false), Step::Rendered);
}

#[test]
fn a_seat_can_be_built_from_its_parts() {
    let exit_bus: EventHandler<()> = EventHandler::new();
    let tick_bus: EventHandler<()> = EventHandler::new();
    let barrier = StartBarrier::new();
    let lifter = barrier.clone();
    let seat = Seat::new(
        barrier,
        Exit::new(exit_bus.subscribe()),
        Update::new(tick_bus.subscribe()),
        Hooks::new(Registry::new()),
    );
    let mut worker = Worker::new(Counter::default(), seat);
    assert!(!lifter.is_lifted());
    lifter.lift();
    lifter.lift();
    assert!(lifter.is_lifted());
    assert_eq!(worker.advance(), Step::Started);
    tick_bus.emit(&()).unwrap();
    assert_eq!(worker.advance(), Step::Updated);
    exit_bus.emit(&()).unwrap();
    assert_eq!(worker.advance(), Step::Exited);
    assert!(!worker.seat().tick());
}

#[test]
fn every_seat_waits_at_one_barrier_until_start() {
    for count in 0..5usize {
        let mut modules = Modules::new();
        let mut barriers = Vec::new();
        for _ in 0..count {
            let seat = modules.register(TypeId::of::<ExampleModule>(), Hook::new(())).unwrap();
            let (barrier, _exit, _update, _hooks) = seat.into_parts();
            barriers.push(barrier);
        }
        for barrier in &barriers {
            assert!(!barrier.is_lifted());
        }
        modules.start().unwrap();
        for barrier in &barriers {
            assert!(barrier.is_lifted());
            barrier.wait();
        }
    }
}

#[test]
fn every_worker_starts_once_the_modules_are_started() {
    let mut modules = Modules::new();
    let mut workers = Vec::new();
    for _ in 0..4 {
        workers.push(modules.add_module(Counter::default()).unwrap());
    }
    assert_eq!(modules.hooks().snapshot().len(), 0);
    modules.start().unwrap();
    assert_eq!(modules.hooks().snapshot().len(), 1);
    for worker in workers.iter_mut() {
        assert_eq!(worker.advance(), Step::Started);
    }
    modules.request_tick().unwrap();
    for worker in workers.iter_mut() {
        assert_eq!(worker.advance(), Step::Updated);
        assert_eq!(worker.advance(), Step::Rendered);
    }
    modules.request_exit().unwrap();
    for worker in workers.iter_mut() {
        assert_eq!(worker.advance(), Step::Exited);
    }
}
