//! Text for the operator: decimal numbers and the names of things.

use vstd::prelude::*;
use vstd::string::StringExecFns;
use crate::commands::Actuator;
use crate::commands::DecodeError;
use crate::commands::Direction;

verus! {

/// The ten decimal digits, in order.
pub open spec fn digits() -> Seq<char> {
    seq!['0', '1', '2', '3', '4', '5', '6', '7', '8', '9']
}

/// The decimal numeral of `n`: no sign, no leading zero, `"0"` for zero.
pub open spec fn decimal(n: nat) -> Seq<char>
    decreases n,
{
    if n < 10 {
        seq![digits()[n as int]]
    } else {
        decimal(n / 10).push(digits()[(n % 10) as int])
    }
}

/// One digit as text.
fn digit_str(digit: u32) -> (text: &'static str)
    requires
        digit < 10,
    ensures
        text@ == seq![digits()[digit as int]],
{
    proof {
        reveal_strlit("0");
        reveal_strlit("1");
        reveal_strlit("2");
        reveal_strlit("3");
        reveal_strlit("4");
        reveal_strlit("5");
        reveal_strlit("6");
        reveal_strlit("7");
        reveal_strlit("8");
        reveal_strlit("9");
    }
    let text = match digit {
        0 => "0",
        1 => "1",
        2 => "2",
        3 => "3",
        4 => "4",
        5 => "5",
        6 => "6",
        7 => "7",
        8 => "8",
        _ => "9",
    };
    assert(text@ =~= seq![digits()[digit as int]]);
    text
}

/// Appends the decimal numeral of `n` to `out`.
pub fn push_decimal(out: &mut String, n: u32)
    ensures
        final(out)@ == old(out)@ + decimal(n as nat),
    decreases n,
{
    if n >= 10 {
        push_decimal(out, n / 10);
    }
    out.append(digit_str(n % 10));
    proof {
        let last = seq![digits()[(n % 10) as int]];
        if n >= 10 {
            assert(decimal(n as nat) =~= decimal((n / 10) as nat) + last);
            assert(final(out)@ =~= old(out)@ + decimal(n as nat));
        } else {
            assert(decimal(n as nat) =~= last);
        }
    }
}

/// The decimal numeral of `n`.
pub fn decimal_string(n: u32) -> (text: String)
    ensures
        text@ == decimal(n as nat),
{
    let mut text = String::new();
    push_decimal(&mut text, n);
    assert(text@ =~= decimal(n as nat));
    text
}

impl Direction {
    /// The direction as it reads in a status message.
    pub open spec fn name(self) -> Seq<char> {
        match self {
            Direction::Forward => "forward"@,
            Direction::Backward => "backward"@,
        }
    }

    /// The direction as the panel shows it.
    pub open spec fn label(self) -> Seq<char> {
        match self {
            Direction::Forward => "Forward"@,
            Direction::Backward => "Backward"@,
        }
    }

    /// Lower-case name, for status messages.
    pub fn name_str(self) -> (text: &'static str)
        ensures
            text@ == self.name(),
    {
        match self {
            Direction::Forward => "forward",
            Direction::Backward => "backward",
        }
    }

    /// Capitalised name, for the panel.
    pub fn label_str(self) -> (text: &'static str)
        ensures
            text@ == self.label(),
    {
        match self {
            Direction::Forward => "Forward",
            Direction::Backward => "Backward",
        }
    }
}

impl Actuator {
    /// The actuator as it reads in a status message.
    pub open spec fn name(self) -> Seq<char> {
        match self {
            Actuator::Lift => "lift"@,
            Actuator::Bucket => "bucket"@,
        }
    }

    /// The actuator as the panel shows it.
    pub open spec fn label(self) -> Seq<char> {
        match self {
            Actuator::Lift => "Lift"@,
            Actuator::Bucket => "Bucket"@,
        }
    }

    /// Lower-case name, for status messages.
    pub fn name_str(self) -> (text: &'static str)
        ensures
            text@ == self.name(),
    {
        match self {
            Actuator::Lift => "lift",
            Actuator::Bucket => "bucket",
        }
    }

    /// Capitalised name, for the panel.
    pub fn label_str(self) -> (text: &'static str)
        ensures
            text@ == self.label(),
    {
        match self {
            Actuator::Lift => "Lift",
            Actuator::Bucket => "Bucket",
        }
    }
}

impl DecodeError {
    /// What went wrong, in words.
    pub open spec fn text(self) -> Seq<char> {
        match self {
            DecodeError::WrongLength => "Wrong number of bytes in actuator command"@,
            DecodeError::InvalidTag => "Invalid variant tag"@,
            DecodeError::UnknownActuator => "Unknown actuator specifier (not lift or bucket)"@,
            DecodeError::InvalidDirection => "Invalid direction value"@,
        }
    }

    /// What went wrong, in words.
    pub fn message(&self) -> (text: &'static str)
        ensures
            text@ == self.text(),
    {
        match self {
            DecodeError::WrongLength => "Wrong number of bytes in actuator command",
            DecodeError::InvalidTag => "Invalid variant tag",
            DecodeError::UnknownActuator => "Unknown actuator specifier (not lift or bucket)",
            DecodeError::InvalidDirection => "Invalid direction value",
        }
    }
}

} // verus!
