//! Event-loop core of a windowing library: the control-flow state machine,
//! the wait-timer decisions, the translation of native messages into
//! events, and the error slot of the display connection.

pub mod dpi;
pub mod event;
pub mod raw_input;
pub mod router;
pub mod runner;
pub mod unix;
pub mod wait;
pub mod x11;
