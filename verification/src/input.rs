//! Which key does what.

use vstd::prelude::*;
use crate::commands::Direction;
use crate::control::Operation;

verus! {

/// How much an arrow key changes the speed.
pub const SPEED_STEP: u32 = 1000;

/// How much `+` and `-` change the speed.
pub const SPEED_JUMP: u32 = 5000;

/// A key as the panel tells them apart.
#[derive(Clone, Copy, Debug, PartialEq, Eq, Structural)]
pub enum Key {
    Char(char),
    Up,
    Down,
    Left,
    Right,
    /// Any key that the panel has no use for.
    Other,
}

/// What a key press asks for.
#[derive(Clone, Copy, Debug, PartialEq, Eq, Structural)]
pub enum Input {
    /// Leave the panel.
    Quit,
    /// Change the settings.
    Operate(Operation),
    /// Nothing.
    Ignored,
}

/// The key map: `q` quits, `s` stops, the arrows up and down change the
/// speed by a step and `+` and `-` by a jump, the arrows left and right set
/// the direction backward and forward, `a` switches actuators.
pub open spec fn input_of(key: Key) -> Input {
    match key {
        Key::Char(c) => if c == 'q' {
            Input::Quit
        } else if c == 's' {
            Input::Operate(Operation::Stop)
        } else if c == '+' {
            Input::Operate(Operation::IncreaseSpeed(SPEED_JUMP))
        } else if c == '-' {
            Input::Operate(Operation::DecreaseSpeed(SPEED_JUMP))
        } else if c == 'a' {
            Input::Operate(Operation::SwitchActuator)
        } else {
            Input::Ignored
        },
        Key::Up => Input::Operate(Operation::IncreaseSpeed(SPEED_STEP)),
        Key::Down => Input::Operate(Operation::DecreaseSpeed(SPEED_STEP)),
        Key::Left => Input::Operate(Operation::SetDirection(Direction::Backward)),
        Key::Right => Input::Operate(Operation::SetDirection(Direction::Forward)),
        Key::Other => Input::Ignored,
    }
}

/// Looks a key up in the key map.
pub fn input_for_key(key: Key) -> (input: Input)
    ensures
        input == input_of(key),
{
    match key {
        Key::Char('q') => Input::Quit,
        Key::Char('s') => Input::Operate(Operation::Stop),
        Key::Char('+') => Input::Operate(Operation::IncreaseSpeed(SPEED_JUMP)),
        Key::Char('-') => Input::Operate(Operation::DecreaseSpeed(SPEED_JUMP)),
        Key::Char('a') => Input::Operate(Operation::SwitchActuator),
        Key::Up => Input::Operate(Operation::IncreaseSpeed(SPEED_STEP)),
        Key::Down => Input::Operate(Operation::DecreaseSpeed(SPEED_STEP)),
        Key::Left => Input::Operate(Operation::SetDirection(Direction::Backward)),
        Key::Right => Input::Operate(Operation::SetDirection(Direction::Forward)),
        _ => Input::Ignored,
    }
}

} // verus!
