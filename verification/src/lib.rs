//! Command protocol and dispatch pipeline for a two-actuator control panel.
//!
//! * [`commands`]: the commands and their four-byte wire frames.
//! * [`control`]: the operator's settings and the operations on them.
//! * [`dispatcher`]: the state machine of the one writer to the serial link.
//! * [`trace`]: runs of the dispatcher, with the ordering and pacing laws.
//! * [`input`]: the key map.
//! * [`panel`]: the settings and the status as the operator sees them.
//! * [`text`]: decimal numbers and names.

pub mod commands;
pub mod control;
pub mod dispatcher;
pub mod input;
pub mod panel;
pub mod text;
pub mod trace;

pub use commands::{Actuator, ActuatorCommand, DecodeError, Direction};
pub use control::ControlState;
pub use dispatcher::{Action, Dispatcher, Event, WriteOutcome};
pub use panel::Panel;
