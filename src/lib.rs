//! Event-model core of a bridge between a native lifecycle loop and an
//! application control loop: poll classification, the command protocol,
//! the shared state cache, save/restore of application state and the
//! cursor over buffered input.

pub mod poll;
pub mod event;
pub mod command;
pub mod state;
pub mod saved;
pub mod input;
pub mod paths;
