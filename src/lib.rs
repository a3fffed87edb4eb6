//! A focus-timer engine: one shared timer state machine, its tick handling,
//! and a durable session log.
pub mod timer;
pub mod lifecycle;
pub mod state;
pub mod history;
pub mod tools;
