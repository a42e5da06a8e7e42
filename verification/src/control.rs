//! What the operator has set: speed, direction and the selected actuator.
//!
//! Every operation changes the state and returns the one command that tells
//! the equipment about the change; the caller queues it for the dispatcher.

use vstd::prelude::*;
use crate::commands::Actuator;
use crate::commands::ActuatorCommand;
use crate::commands::Direction;

verus! {

/// The highest speed that can be set.
pub const MAX_SPEED: u32 = 65535;

/// The operator's settings as plain values.
pub struct ControlView {
    pub speed: nat,
    pub direction: Direction,
    pub actuator: Actuator,
}

impl ControlView {
    /// The speed is within range.
    pub open spec fn wf(self) -> bool {
        self.speed <= MAX_SPEED
    }

    /// The settings at start: the lift, forward, at rest.
    pub open spec fn initial() -> ControlView {
        ControlView { speed: 0, direction: Direction::Forward, actuator: Actuator::Lift }
    }

    /// `amount` more speed, but no more than the maximum.
    pub open spec fn faster(self, amount: nat) -> ControlView {
        ControlView {
            speed: if self.speed + amount > MAX_SPEED {
                MAX_SPEED as nat
            } else {
                self.speed + amount
            },
            ..self
        }
    }

    /// `amount` less speed, but no less than none.
    pub open spec fn slower(self, amount: nat) -> ControlView {
        ControlView {
            speed: if amount > self.speed {
                0
            } else {
                (self.speed - amount) as nat
            },
            ..self
        }
    }

    /// At rest, all else as before.
    pub open spec fn stopped(self) -> ControlView {
        ControlView { speed: 0, ..self }
    }

    /// Travelling in `direction`, all else as before.
    pub open spec fn heading(self, direction: Direction) -> ControlView {
        ControlView { direction, ..self }
    }

    /// The other actuator selected, at rest.
    pub open spec fn switched(self) -> ControlView {
        ControlView { speed: 0, actuator: self.actuator.other(), ..self }
    }

    /// The command that sets the selected actuator to the current speed.
    pub open spec fn speed_command(self) -> ActuatorCommand {
        ActuatorCommand::SetSpeed(self.speed as u16, self.actuator)
    }

    /// The command that sets the selected actuator to the current direction.
    pub open spec fn direction_command(self) -> ActuatorCommand {
        ActuatorCommand::SetDirection(self.direction, self.actuator)
    }
}

/// One thing the operator can do to the settings.
#[derive(Clone, Copy, Debug, PartialEq, Eq, Structural)]
pub enum Operation {
    /// Raise the speed by so much.
    IncreaseSpeed(u32),
    /// Lower the speed by so much.
    DecreaseSpeed(u32),
    /// Travel in this direction.
    SetDirection(Direction),
    /// Come to rest.
    Stop,
    /// Select the other actuator.
    SwitchActuator,
}

impl ControlView {
    /// The settings after `operation`.
    pub open spec fn after(self, operation: Operation) -> ControlView {
        match operation {
            Operation::IncreaseSpeed(amount) => self.faster(amount as nat),
            Operation::DecreaseSpeed(amount) => self.slower(amount as nat),
            Operation::SetDirection(direction) => self.heading(direction),
            Operation::Stop => self.stopped(),
            Operation::SwitchActuator => self.switched(),
        }
    }

    /// The command that `operation` sends, given the settings before it. A
    /// switch stops the actuator that is being left; every other operation
    /// addresses the selected one with the new setting.
    pub open spec fn command_for(self, operation: Operation) -> ActuatorCommand {
        match operation {
            Operation::SetDirection(direction) => ActuatorCommand::SetDirection(
                direction,
                self.actuator,
            ),
            _ => ActuatorCommand::SetSpeed(self.after(operation).speed as u16, self.actuator),
        }
    }
}

/// No operation takes the speed out of range, and every command is meant
/// for the actuator that was selected when the operation began.
pub proof fn lemma_operations_keep_range(before: ControlView, operation: Operation)
    requires
        before.wf(),
    ensures
        before.after(operation).wf(),
        before.after(operation).speed <= MAX_SPEED,
        before.command_for(operation).target() == before.actuator,
        operation is IncreaseSpeed ==> before.after(operation).speed >= before.speed,
        operation is DecreaseSpeed ==> before.after(operation).speed <= before.speed,
{
}

/// The operator's settings. The speed never leaves `0..=MAX_SPEED`.
pub struct ControlState {
    speed: u32,
    direction: Direction,
    actuator: Actuator,
}

impl View for ControlState {
    type V = ControlView;

    closed spec fn view(&self) -> ControlView {
        ControlView {
            speed: self.speed as nat,
            direction: self.direction,
            actuator: self.actuator,
        }
    }
}

impl ControlState {
    #[verifier::type_invariant]
    spec fn in_range(self) -> bool {
        self.speed <= MAX_SPEED
    }

    /// The settings at start: the lift, forward, at rest.
    pub fn new() -> (state: ControlState)
        ensures
            state@ == ControlView::initial(),
    {
        ControlState { speed: 0, direction: Direction::Forward, actuator: Actuator::Lift }
    }

    /// The current speed.
    pub fn speed(&self) -> (speed: u32)
        ensures
            speed == self@.speed,
            speed <= MAX_SPEED,
    {
        proof {
            use_type_invariant(self);
        }
        self.speed
    }

    /// The highest speed that can be set.
    pub fn max_speed(&self) -> (limit: u32)
        ensures
            limit == MAX_SPEED,
    {
        MAX_SPEED
    }

    /// The current direction.
    pub fn direction(&self) -> (direction: Direction)
        ensures
            direction == self@.direction,
    {
        self.direction
    }

    /// The selected actuator.
    pub fn actuator(&self) -> (actuator: Actuator)
        ensures
            actuator == self@.actuator,
    {
        self.actuator
    }

    /// The command that repeats the current speed to the selected actuator.
    fn speed_command(&self) -> (command: ActuatorCommand)
        ensures
            command == self@.speed_command(),
    {
        proof {
            use_type_invariant(self);
        }
        ActuatorCommand::SetSpeed(self.speed as u16, self.actuator)
    }

    /// Raises the speed by `amount`, stopping at `MAX_SPEED`, and returns the
    /// command that sets the selected actuator to the new speed.
    pub fn increase_speed(&mut self, amount: u32) -> (command: ActuatorCommand)
        ensures
            final(self)@ == old(self)@.faster(amount as nat),
            final(self)@.speed <= MAX_SPEED,
            command == final(self)@.speed_command(),
    {
        proof {
            use_type_invariant(&*self);
        }
        let raised: u32 = self.speed.saturating_add(amount);
        self.speed = if raised > MAX_SPEED {
            MAX_SPEED
        } else {
            raised
        };
        self.speed_command()
    }

    /// Lowers the speed by `amount`, stopping at zero, and returns the
    /// command that sets the selected actuator to the new speed.
    pub fn decrease_speed(&mut self, amount: u32) -> (command: ActuatorCommand)
        ensures
            final(self)@ == old(self)@.slower(amount as nat),
            final(self)@.speed >= 0,
            final(self)@.speed <= old(self)@.speed,
            command == final(self)@.speed_command(),
    {
        proof {
            use_type_invariant(&*self);
        }
        self.speed = self.speed.saturating_sub(amount);
        self.speed_command()
    }

    /// Sets the direction and returns the command that tells the selected
    /// actuator.
    pub fn set_direction(&mut self, dir: Direction) -> (command: ActuatorCommand)
        ensures
            final(self)@ == old(self)@.heading(dir),
            command == final(self)@.direction_command(),
            command == ActuatorCommand::SetDirection(dir, old(self)@.actuator),
    {
        proof {
            use_type_invariant(&*self);
        }
        self.direction = dir;
        ActuatorCommand::SetDirection(dir, self.actuator)
    }

    /// Brings the speed to zero and returns the command that stops the
    /// selected actuator.
    pub fn stop(&mut self) -> (command: ActuatorCommand)
        ensures
            final(self)@ == old(self)@.stopped(),
            command == final(self)@.speed_command(),
            command == ActuatorCommand::SetSpeed(0, old(self)@.actuator),
    {
        self.speed = 0;
        self.speed_command()
    }

    /// Selects the other actuator and brings the speed to zero. The command
    /// returned stops the actuator that is being left, so that it does not
    /// keep running with nobody at its controls.
    pub fn switch_actuator(&mut self) -> (command: ActuatorCommand)
        ensures
            final(self)@ == old(self)@.switched(),
            command == ActuatorCommand::SetSpeed(0, old(self)@.actuator),
            command.target() != final(self)@.actuator,
    {
        self.speed = 0;
        let command = self.speed_command();
        self.actuator = self.actuator.toggled();
        command
    }

    /// Carries `operation` out and returns the one command that it sends.
    pub fn apply(&mut self, operation: Operation) -> (command: ActuatorCommand)
        ensures
            final(self)@ == old(self)@.after(operation),
            final(self)@.speed <= MAX_SPEED,
            command == old(self)@.command_for(operation),
    {
        proof {
            use_type_invariant(&*self);
        }
        match operation {
            Operation::IncreaseSpeed(amount) => self.increase_speed(amount),
            Operation::DecreaseSpeed(amount) => self.decrease_speed(amount),
            Operation::SetDirection(direction) => self.set_direction(direction),
            Operation::Stop => self.stop(),
            Operation::SwitchActuator => self.switch_actuator(),
        }
    }
}

} // verus!
