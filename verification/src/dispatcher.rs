//! The dispatcher: the one writer to the serial link.
//!
//! The dispatcher is a state machine. Whoever drives it performs the action
//! that a step returns and hands back the event that the action ends in:
//!
//! | Action    | What the driver does                          | Event that follows            |
//! |-----------|-----------------------------------------------|-------------------------------|
//! | `Receive` | waits for the next queued command             | `Command` or `SourceClosed`   |
//! | `Write`   | tries once to write the frame, not blocking   | `WriteDone`                   |
//! | `Report`  | publishes the status, then pauses             | `PauseElapsed`                |
//! | `Stop`    | ends the loop                                 | none                          |
//!
//! A new dispatcher awaits the first command, as if `Receive` had just been
//! returned.

use vstd::prelude::*;
use vstd::string::StringExecFns;
use crate::commands::ActuatorCommand;
use crate::text::decimal;
use crate::text::push_decimal;

verus! {

/// The pause after every command, in milliseconds, whatever came of the write.
pub const PACING_INTERVAL_MS: u64 = 50;

/// How many commands can wait for the dispatcher.
pub const COMMAND_QUEUE_CAPACITY: usize = 100;

/// How many status messages can wait for the display.
pub const STATUS_QUEUE_CAPACITY: usize = 100;

/// The speed of the serial link, in baud.
pub const BAUD_RATE: u32 = 9600;

/// What came of one attempt to write a frame.
#[derive(Debug, PartialEq, Eq)]
pub enum WriteOutcome {
    /// The link took the frame.
    Written,
    /// The link refused; the text is the link's own account of why.
    Failed(String),
}

/// A `WriteOutcome` as a plain value.
pub enum OutcomeView {
    Written,
    Failed(Seq<char>),
}

impl View for WriteOutcome {
    type V = OutcomeView;

    open spec fn view(&self) -> OutcomeView {
        match self {
            WriteOutcome::Written => OutcomeView::Written,
            WriteOutcome::Failed(detail) => OutcomeView::Failed(detail@),
        }
    }
}

/// What the dispatcher is waiting for.
#[derive(Clone, Copy, Debug, PartialEq, Eq, Structural)]
pub enum Phase {
    /// The next command, or the end of the queue.
    Idle,
    /// The outcome of writing the frame of this command.
    Writing(ActuatorCommand),
    /// The end of the pause.
    Pausing,
    /// Nothing: the queue was closed and is drained.
    Stopped,
}

/// What the driver tells the dispatcher.
#[derive(Debug, PartialEq, Eq)]
pub enum Event {
    /// This command was next in the queue.
    Command(ActuatorCommand),
    /// The queue is closed and empty.
    SourceClosed,
    /// The write was attempted.
    WriteDone(WriteOutcome),
    /// The pause is over.
    PauseElapsed,
}

/// An `Event` as a plain value.
pub enum EventView {
    Command(ActuatorCommand),
    SourceClosed,
    WriteDone(OutcomeView),
    PauseElapsed,
}

impl View for Event {
    type V = EventView;

    open spec fn view(&self) -> EventView {
        match self {
            Event::Command(command) => EventView::Command(*command),
            Event::SourceClosed => EventView::SourceClosed,
            Event::WriteDone(outcome) => EventView::WriteDone(outcome@),
            Event::PauseElapsed => EventView::PauseElapsed,
        }
    }
}

/// What the dispatcher tells the driver to do next.
#[derive(Debug, PartialEq, Eq)]
pub enum Action {
    /// Wait for the next queued command.
    Receive,
    /// Try once to write this frame to the link, without blocking.
    Write([u8; 4]),
    /// Publish `status`, then pause for `pause_ms` milliseconds.
    Report { status: String, pause_ms: u64 },
    /// End the loop.
    Stop,
}

/// An `Action` as a plain value.
pub enum ActionView {
    Receive,
    Write(Seq<u8>),
    Report { status: Seq<char>, pause_ms: nat },
    Stop,
}

impl View for Action {
    type V = ActionView;

    open spec fn view(&self) -> ActionView {
        match self {
            Action::Receive => ActionView::Receive,
            Action::Write(frame) => ActionView::Write(frame@),
            Action::Report { status, pause_ms } => ActionView::Report {
                status: status@,
                pause_ms: *pause_ms as nat,
            },
            Action::Stop => ActionView::Stop,
        }
    }
}

/// The status message for a command whose frame was handed to the link:
/// what was set, to what, and on which actuator. After a failed write it
/// holds the link's account of the failure instead.
pub open spec fn status_text(command: ActuatorCommand, outcome: OutcomeView) -> Seq<char> {
    match outcome {
        OutcomeView::Failed(detail) => "Serial error: "@ + detail,
        OutcomeView::Written => match command {
            ActuatorCommand::SetSpeed(speed, actuator) => "Set speed to "@ + decimal(speed as nat)
                + " on "@ + actuator.name(),
            ActuatorCommand::SetDirection(direction, actuator) => "Set direction to "@
                + direction.name() + " on "@ + actuator.name(),
        },
    }
}

/// Writes the status message for `command` and what came of its write.
pub fn status_message(command: ActuatorCommand, outcome: &WriteOutcome) -> (text: String)
    ensures
        text@ == status_text(command, outcome@),
{
    match outcome {
        WriteOutcome::Failed(detail) => {
            let mut text = String::from_str("Serial error: ");
            text.append(detail.as_str());
            text
        },
        WriteOutcome::Written => match command {
            ActuatorCommand::SetSpeed(speed, actuator) => {
                let mut text = String::from_str("Set speed to ");
                push_decimal(&mut text, speed as u32);
                text.append(" on ");
                text.append(actuator.name_str());
                text
            },
            ActuatorCommand::SetDirection(direction, actuator) => {
                let mut text = String::from_str("Set direction to ");
                text.append(direction.name_str());
                text.append(" on ");
                text.append(actuator.name_str());
                text
            },
        },
    }
}

/// One step of the dispatcher: the phase and the action that follow when
/// `event` arrives in `phase`, or `None` when the phase does not await that
/// event.
///
/// A command is written as soon as it is received. Its status is reported
/// and the pause begun as soon as the write has been attempted, whether the
/// link took the frame or not: a failed write is not tried again and does
/// not end the loop. The next command is asked for only when the pause is
/// over. The loop ends only when the queue is closed and drained.
pub open spec fn step_of(phase: Phase, event: EventView) -> Option<(Phase, ActionView)> {
    match (phase, event) {
        (Phase::Idle, EventView::Command(command)) => Some(
            (Phase::Writing(command), ActionView::Write(command.frame())),
        ),
        (Phase::Idle, EventView::SourceClosed) => Some((Phase::Stopped, ActionView::Stop)),
        (Phase::Writing(command), EventView::WriteDone(outcome)) => Some(
            (
                Phase::Pausing,
                ActionView::Report {
                    status: status_text(command, outcome),
                    pause_ms: PACING_INTERVAL_MS as nat,
                },
            ),
        ),
        (Phase::Pausing, EventView::PauseElapsed) => Some((Phase::Idle, ActionView::Receive)),
        _ => None,
    }
}

/// The dispatcher's state between two events.
pub struct Dispatcher {
    phase: Phase,
}

impl View for Dispatcher {
    type V = Phase;

    closed spec fn view(&self) -> Phase {
        self.phase
    }
}

impl Dispatcher {
    /// A dispatcher that awaits its first command.
    pub fn new() -> (dispatcher: Dispatcher)
        ensures
            dispatcher@ == Phase::Idle,
    {
        Dispatcher { phase: Phase::Idle }
    }

    /// What the dispatcher is waiting for.
    pub fn phase(&self) -> (phase: Phase)
        ensures
            phase == self@,
    {
        self.phase
    }

    /// Takes `event` and returns what to do next. An event that the phase
    /// does not await changes nothing and returns `None`.
    pub fn step(&mut self, event: &Event) -> (action: Option<Action>)
        ensures
            match step_of(old(self)@, event@) {
                Some((phase, next)) => {
                    &&& final(self)@ == phase
                    &&& action matches Some(a)
                    &&& a@ == next
                },
                None => final(self)@ == old(self)@ && action is None,
            },
    {
        match (self.phase, event) {
            (Phase::Idle, Event::Command(command)) => {
                let command = *command;
                self.phase = Phase::Writing(command);
                Some(Action::Write(command.serialize()))
            },
            (Phase::Idle, Event::SourceClosed) => {
                self.phase = Phase::Stopped;
                Some(Action::Stop)
            },
            (Phase::Writing(command), Event::WriteDone(outcome)) => {
                self.phase = Phase::Pausing;
                let status = status_message(command, outcome);
                Some(Action::Report { status, pause_ms: PACING_INTERVAL_MS })
            },
            (Phase::Pausing, Event::PauseElapsed) => {
                self.phase = Phase::Idle;
                Some(Action::Receive)
            },
            _ => None,
        }
    }
}

} // verus!
