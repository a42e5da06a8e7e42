//! The control panel: the operator's settings, the last status message, and
//! the lines of text that show them.

use vstd::prelude::*;
use vstd::string::StringExecFns;
use crate::commands::Actuator;
use crate::commands::ActuatorCommand;
use crate::control::ControlState;
use crate::control::ControlView;
use crate::control::Operation;
use crate::control::MAX_SPEED;
use crate::input::input_for_key;
use crate::input::input_of;
use crate::input::Input;
use crate::input::Key;
use crate::text::decimal;
use crate::text::push_decimal;

verus! {

/// What the caller is to do after a key press.
#[derive(Clone, Copy, Debug, PartialEq, Eq, Structural)]
pub enum Reaction {
    /// Leave the panel.
    Quit,
    /// Queue this command for the dispatcher.
    Send(ActuatorCommand),
    /// Nothing.
    Nothing,
}

/// A panel as plain values.
pub struct PanelView {
    pub control: ControlView,
    pub status: Seq<char>,
}

/// The status that a new panel shows.
pub open spec fn ready_text() -> Seq<char> {
    "Ready"@
}

/// The status after a switch to `actuator`.
pub open spec fn switched_text(actuator: Actuator) -> Seq<char> {
    "Switched to "@ + actuator.label()
}

impl PanelView {
    /// A panel after `key` was pressed. A key that operates the controls
    /// changes the settings; a switch of actuators also says so in the
    /// status. Any other key changes nothing.
    pub open spec fn after(self, key: Key) -> PanelView {
        match input_of(key) {
            Input::Operate(operation) => PanelView {
                control: self.control.after(operation),
                status: if operation is SwitchActuator {
                    switched_text(self.control.after(operation).actuator)
                } else {
                    self.status
                },
            },
            _ => self,
        }
    }

    /// What the caller is to do after `key` was pressed.
    pub open spec fn reaction(self, key: Key) -> Reaction {
        match input_of(key) {
            Input::Quit => Reaction::Quit,
            Input::Operate(operation) => Reaction::Send(self.control.command_for(operation)),
            Input::Ignored => Reaction::Nothing,
        }
    }

    /// The line that shows the speed and its limit.
    pub open spec fn speed_line(self) -> Seq<char> {
        "Speed: "@ + decimal(self.control.speed) + " / "@ + decimal(MAX_SPEED as nat)
    }

    /// The line that shows the direction.
    pub open spec fn direction_line(self) -> Seq<char> {
        "Direction: "@ + self.control.direction.label()
    }

    /// The line that shows the status and the selected actuator.
    pub open spec fn status_line(self) -> Seq<char> {
        "Status: "@ + self.status + " | "@ + self.control.actuator.label()
    }
}

/// The control panel.
pub struct Panel {
    control: ControlState,
    status_message: String,
}

impl View for Panel {
    type V = PanelView;

    closed spec fn view(&self) -> PanelView {
        PanelView { control: self.control@, status: self.status_message@ }
    }
}

impl Panel {
    /// A panel with the settings at start, and ready.
    pub fn new() -> (panel: Panel)
        ensures
            panel@.control == ControlView::initial(),
            panel@.status == ready_text(),
    {
        Panel { control: ControlState::new(), status_message: String::from_str("Ready") }
    }

    /// The operator's settings.
    pub fn control(&self) -> (control: &ControlState)
        ensures
            control@ == self@.control,
    {
        &self.control
    }

    /// The status that the panel shows.
    pub fn status_message(&self) -> (status: &str)
        ensures
            status@ == self@.status,
    {
        self.status_message.as_str()
    }

    /// Shows `message` as the status from now on.
    pub fn show_status(&mut self, message: String)
        ensures
            final(self)@.status == message@,
            final(self)@.control == old(self)@.control,
    {
        self.status_message = message;
    }

    /// Takes a key press and says what the caller is to do about it.
    pub fn press(&mut self, key: Key) -> (reaction: Reaction)
        ensures
            final(self)@ == old(self)@.after(key),
            reaction == old(self)@.reaction(key),
    {
        match input_for_key(key) {
            Input::Quit => Reaction::Quit,
            Input::Ignored => Reaction::Nothing,
            Input::Operate(operation) => {
                let command = self.control.apply(operation);
                match operation {
                    Operation::SwitchActuator => {
                        let mut status = String::from_str("Switched to ");
                        status.append(self.control.actuator().label_str());
                        self.status_message = status;
                    },
                    _ => {},
                }
                Reaction::Send(command)
            },
        }
    }

    /// The line that shows the speed and its limit.
    pub fn speed_line(&self) -> (line: String)
        ensures
            line@ == self@.speed_line(),
    {
        let mut line = String::from_str("Speed: ");
        push_decimal(&mut line, self.control.speed());
        line.append(" / ");
        push_decimal(&mut line, self.control.max_speed());
        line
    }

    /// The line that shows the direction.
    pub fn direction_line(&self) -> (line: String)
        ensures
            line@ == self@.direction_line(),
    {
        let mut line = String::from_str("Direction: ");
        line.append(self.control.direction().label_str());
        line
    }

    /// The line that shows the status and the selected actuator.
    pub fn status_line(&self) -> (line: String)
        ensures
            line@ == self@.status_line(),
    {
        let mut line = String::from_str("Status: ");
        line.append(self.status_message.as_str());
        line.append(" | ");
        line.append(self.control.actuator().label_str());
        line
    }
}

} // verus!
