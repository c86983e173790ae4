//! Independently threaded modules that find and talk to each other at run
//! time: a broadcast event bus, a registry of what each module exposes, and
//! the orchestrator that registers modules and signals tick and exit.

pub mod event;
pub mod barrier;
pub mod hook;
pub mod identity;
pub mod orchestrator;
pub mod signal;
pub mod worker;

pub use orchestrator::Modules;
pub use signal::Exit;
pub use signal::Update;
pub use worker::Module;
