use module_hub::event::EventHandler;
use module_hub::signal::exit_verdict;
use module_hub::signal::tick_verdict;
use module_hub::signal::PollError;
use module_hub::Exit;
use module_hub::Update;

#[test]
fn exit_verdict_treats_a_lost_bus_as_a_request() {
    assert!(exit_verdict(&Ok(())));
    assert!(!exit_verdict(&Err(PollError::Empty)));
    assert!(exit_verdict(&Err(PollError::Disconnected)));
}

#[test]
fn tick_verdict_needs_a_tick() {
    assert!(tick_verdict(&Ok(())));
    assert!(!tick_verdict(&Err(PollError::Empty)));
    assert!(!tick_verdict(&Err(PollError::Disconnected)));
}

#[test]
fn exit_is_not_requested_until_it_is_emitted() {
    let bus: EventHandler<()> = EventHandler::new();
    let mut exit = Exit::new(bus.subscribe());
    assert!(!exit.should_exit());
    assert!(!exit.should_exit());
    bus.emit(&()).unwrap();
    assert!(exit.should_exit());
}

#[test]
fn exit_stays_requested() {
    let bus: EventHandler<()> = EventHandler::new();
    let mut exit = Exit::new(bus.subscribe());
    bus.emit(&()).unwrap();
    assert!(exit.should_exit());
    assert!(exit.should_exit());
    assert!(exit.should_exit());
    drop(bus);
    assert!(exit.should_exit());
    assert!(exit.should_exit());
}

#[test]
fn a_dropped_exit_bus_is_a_request_to_exit() {
    let bus: EventHandler<()> = EventHandler::new();
    let mut exit = Exit::new(bus.subscribe());
    assert!(!exit.should_exit());
    drop(bus);
    assert!(exit.should_exit());
    assert!(exit.should_exit());
}

#[test]
fn every_exit_consumer_sees_one_request() {
    let bus: EventHandler<()> = EventHandler::new();
    let mut exits = vec![
        Exit::new(bus.subscribe()),
        Exit::new(bus.subscribe()),
        Exit::new(bus.subscribe()),
    ];
    bus.emit(&()).unwrap();
    for exit in exits.iter_mut() {
        assert!(exit.should_exit());
        assert!(exit.should_exit());
    }
}

#[test]
fn each_tick_is_pending_once() {
    let bus: EventHandler<()> = EventHandler::new();
    let update = Update::new(bus.subscribe());
    assert!(!update.tick());
    bus.emit(&()).unwrap();
    assert!(update.tick());
    assert!(!update.tick());
    bus.emit(&()).unwrap();
    bus.emit(&()).unwrap();
    assert!(update.tick());
    assert!(update.tick());
    assert!(!update.tick());
}

#[test]
fn a_dropped_tick_bus_is_no_tick() {
    let bus: EventHandler<()> = EventHandler::new();
    let update = Update::new(bus.subscribe());
    bus.emit(&()).unwrap();
    drop(bus);
    assert!(update.tick());
    assert!(!update.tick());
    assert!(!update.tick());
}

#[test]
fn observe_remembers_the_first_request() {
    let bus: EventHandler<()> = EventHandler::new();
    let mut exit = Exit::new(bus.subscribe());
    assert!(!exit.observe(&Err(PollError::Empty)));
    assert!(!exit.observe(&Err(PollError::Empty)));
    assert!(exit.observe(&Ok(())));
    assert!(exit.observe(&Err(PollError::Empty)));
    assert!(exit.should_exit());

    let mut other = Exit::new(bus.subscribe());
    assert!(other.observe(&Err(PollError::Disconnected)));
    assert!(other.observe(&Err(PollError::Empty)));
}
