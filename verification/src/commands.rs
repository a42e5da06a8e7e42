//! Actuator commands and their fixed four-byte wire frames.
//!
//! | Byte | `SetSpeed`            | `SetDirection`          |
//! |------|-----------------------|-------------------------|
//! | 0    | tag `0`               | tag `1`                 |
//! | 1    | speed, low byte       | direction               |
//! | 2    | speed, high byte      | reserved, written as 0  |
//! | 3    | actuator identifier   | actuator identifier     |

use vstd::prelude::*;

verus! {

/// Number of bytes in every wire frame.
pub const FRAME_LEN: usize = 4;

/// Tag byte of a `SetSpeed` frame.
pub const TAG_SET_SPEED: u8 = 0;

/// Tag byte of a `SetDirection` frame.
pub const TAG_SET_DIRECTION: u8 = 1;

/// Direction of travel of an actuator.
#[derive(Clone, Copy, Debug, PartialEq, Eq, Structural)]
pub enum Direction {
    Forward,
    Backward,
}

/// Used to specify which actuator a command is meant for.
#[derive(Clone, Copy, Debug, PartialEq, Eq, Structural)]
pub enum Actuator {
    /// the lift
    Lift,
    /// the bucket
    Bucket,
}

/// A command for one actuator. The speed is an absolute magnitude; the
/// direction of travel is set separately.
#[derive(Clone, Copy, Debug, PartialEq, Eq, Structural)]
pub enum ActuatorCommand {
    SetSpeed(u16, Actuator),
    SetDirection(Direction, Actuator),
}

/// Why a byte string is not the frame of any command.
#[derive(Clone, Copy, Debug, PartialEq, Eq, Structural)]
pub enum DecodeError {
    /// The input does not hold exactly four bytes.
    WrongLength,
    /// Byte 0 is not the tag of any command.
    InvalidTag,
    /// Byte 3 is not the identifier of any actuator.
    UnknownActuator,
    /// Byte 1 of a `SetDirection` frame is not a direction.
    InvalidDirection,
}

impl Direction {
    /// The byte that stands for this direction on the wire.
    pub open spec fn wire(self) -> u8 {
        match self {
            Direction::Forward => 0,
            Direction::Backward => 1,
        }
    }

    /// The direction that a wire byte stands for, if any.
    pub open spec fn of_wire(byte: u8) -> Option<Direction> {
        if byte == 0 {
            Some(Direction::Forward)
        } else if byte == 1 {
            Some(Direction::Backward)
        } else {
            None
        }
    }

    /// Wire byte of this direction.
    pub fn to_wire(self) -> (byte: u8)
        ensures
            byte == self.wire(),
    {
        match self {
            Direction::Forward => 0,
            Direction::Backward => 1,
        }
    }

    /// Looks a wire byte up; `None` for a byte that names no direction.
    pub fn from_wire(byte: u8) -> (found: Option<Direction>)
        ensures
            found == Direction::of_wire(byte),
    {
        if byte == 0 {
            Some(Direction::Forward)
        } else if byte == 1 {
            Some(Direction::Backward)
        } else {
            None
        }
    }
}

impl Actuator {
    /// The identifier of this actuator on the wire.
    pub open spec fn wire(self) -> u8 {
        match self {
            Actuator::Lift => 0,
            Actuator::Bucket => 1,
        }
    }

    /// The actuator that a wire identifier names, if any.
    pub open spec fn of_wire(byte: u8) -> Option<Actuator> {
        if byte == 0 {
            Some(Actuator::Lift)
        } else if byte == 1 {
            Some(Actuator::Bucket)
        } else {
            None
        }
    }

    /// The other of the two actuators.
    pub open spec fn other(self) -> Actuator {
        match self {
            Actuator::Lift => Actuator::Bucket,
            Actuator::Bucket => Actuator::Lift,
        }
    }

    /// Wire identifier of this actuator.
    pub fn to_wire(self) -> (byte: u8)
        ensures
            byte == self.wire(),
    {
        match self {
            Actuator::Lift => 0,
            Actuator::Bucket => 1,
        }
    }

    /// Looks a wire identifier up; `None` for a byte that names no actuator.
    pub fn from_wire(byte: u8) -> (found: Option<Actuator>)
        ensures
            found == Actuator::of_wire(byte),
    {
        if byte == 0 {
            Some(Actuator::Lift)
        } else if byte == 1 {
            Some(Actuator::Bucket)
        } else {
            None
        }
    }

    /// The actuator that is not this one.
    pub fn toggled(self) -> (next: Actuator)
        ensures
            next == self.other(),
    {
        match self {
            Actuator::Lift => Actuator::Bucket,
            Actuator::Bucket => Actuator::Lift,
        }
    }
}

/// The speed that two payload bytes hold, low byte first.
pub open spec fn speed_of_bytes(low: u8, high: u8) -> u16 {
    (low + 256 * high) as u16
}

impl ActuatorCommand {
    /// The actuator that this command is meant for.
    pub open spec fn target(self) -> Actuator {
        match self {
            ActuatorCommand::SetSpeed(_, actuator) => actuator,
            ActuatorCommand::SetDirection(_, actuator) => actuator,
        }
    }

    /// The frame of this command: tag, two payload bytes, actuator.
    pub open spec fn frame(self) -> Seq<u8> {
        match self {
            ActuatorCommand::SetSpeed(speed, actuator) => seq![
                TAG_SET_SPEED,
                (speed % 256) as u8,
                (speed / 256) as u8,
                actuator.wire(),
            ],
            ActuatorCommand::SetDirection(direction, actuator) => seq![
                TAG_SET_DIRECTION,
                direction.wire(),
                0u8,
                actuator.wire(),
            ],
        }
    }

    /// What a byte string decodes to. The length is judged first, then the
    /// actuator, then the tag, then the payload; byte 2 of a `SetDirection`
    /// frame is not looked at.
    pub open spec fn parse(bytes: Seq<u8>) -> Result<ActuatorCommand, DecodeError> {
        if bytes.len() != FRAME_LEN {
            Err(DecodeError::WrongLength)
        } else {
            match Actuator::of_wire(bytes[3]) {
                None => Err(DecodeError::UnknownActuator),
                Some(actuator) => if bytes[0] == TAG_SET_SPEED {
                    Ok(ActuatorCommand::SetSpeed(speed_of_bytes(bytes[1], bytes[2]), actuator))
                } else if bytes[0] == TAG_SET_DIRECTION {
                    match Direction::of_wire(bytes[1]) {
                        Some(direction) => Ok(ActuatorCommand::SetDirection(direction, actuator)),
                        None => Err(DecodeError::InvalidDirection),
                    }
                } else {
                    Err(DecodeError::InvalidTag)
                },
            }
        }
    }

    /// Encodes this command. Every command has a frame, of exactly four
    /// bytes, and the frame decodes to the command again.
    pub fn serialize(&self) -> (frame: [u8; 4])
        ensures
            frame@ == self.frame(),
            ActuatorCommand::parse(frame@) == Ok::<ActuatorCommand, DecodeError>(*self),
    {
        let frame = match self {
            ActuatorCommand::SetSpeed(speed, actuator) => {
                let low: u8 = (*speed % 256) as u8;
                let high: u8 = (*speed / 256) as u8;
                [TAG_SET_SPEED, low, high, actuator.to_wire()]
            },
            ActuatorCommand::SetDirection(direction, actuator) => {
                [TAG_SET_DIRECTION, direction.to_wire(), 0, actuator.to_wire()]
            },
        };
        assert(frame@ =~= self.frame());
        frame
    }

    /// Decodes one frame. The actuator is judged first, then the tag, then
    /// the payload. No four bytes are of the wrong length.
    pub fn deserialize(bytes: [u8; 4]) -> (decoded: Result<ActuatorCommand, DecodeError>)
        ensures
            decoded == ActuatorCommand::parse(bytes@),
            decoded != Err::<ActuatorCommand, DecodeError>(DecodeError::WrongLength),
            decoded == Err::<ActuatorCommand, DecodeError>(DecodeError::UnknownActuator)
                <==> bytes[3] > 1,
            decoded == Err::<ActuatorCommand, DecodeError>(DecodeError::InvalidTag)
                <==> bytes[3] <= 1 && bytes[0] > 1,
            decoded == Err::<ActuatorCommand, DecodeError>(DecodeError::InvalidDirection)
                <==> bytes[3] <= 1 && bytes[0] == 1 && bytes[1] > 1,
            decoded is Ok <==> bytes[3] <= 1 && (bytes[0] == 0 || (bytes[0] == 1 && bytes[1] <= 1)),
    {
        let actuator = match Actuator::from_wire(bytes[3]) {
            Some(actuator) => actuator,
            None => {
                return Err(DecodeError::UnknownActuator);
            },
        };
        let tag: u8 = bytes[0];
        if tag == TAG_SET_SPEED {
            let low: u16 = bytes[1] as u16;
            let high: u16 = bytes[2] as u16;
            Ok(ActuatorCommand::SetSpeed(low + 256 * high, actuator))
        } else if tag == TAG_SET_DIRECTION {
            match Direction::from_wire(bytes[1]) {
                Some(direction) => Ok(ActuatorCommand::SetDirection(direction, actuator)),
                None => Err(DecodeError::InvalidDirection),
            }
        } else {
            Err(DecodeError::InvalidTag)
        }
    }

    /// Decodes a byte string of any length. One that does not hold exactly
    /// four bytes is refused before anything else is looked at.
    pub fn decode(frame: &[u8]) -> (decoded: Result<ActuatorCommand, DecodeError>)
        ensures
            decoded == ActuatorCommand::parse(frame@),
            decoded == Err::<ActuatorCommand, DecodeError>(DecodeError::WrongLength)
                <==> frame@.len() != 4,
            decoded == Err::<ActuatorCommand, DecodeError>(DecodeError::UnknownActuator)
                <==> frame@.len() == 4 && frame[3] > 1,
            decoded == Err::<ActuatorCommand, DecodeError>(DecodeError::InvalidTag)
                <==> frame@.len() == 4 && frame[3] <= 1 && frame[0] > 1,
            decoded == Err::<ActuatorCommand, DecodeError>(DecodeError::InvalidDirection)
                <==> frame@.len() == 4 && frame[3] <= 1 && frame[0] == 1 && frame[1] > 1,
            decoded is Ok <==> frame@.len() == 4 && frame[3] <= 1 && (frame[0] == 0 || (frame[0]
                == 1 && frame[1] <= 1)),
    {
        if frame.len() != FRAME_LEN {
            return Err(DecodeError::WrongLength);
        }
        let bytes: [u8; 4] = [frame[0], frame[1], frame[2], frame[3]];
        assert(bytes@ =~= frame@);
        ActuatorCommand::deserialize(bytes)
    }
}

/// Round trip: every command has a frame of four bytes, and is what that
/// frame decodes to.
pub proof fn lemma_round_trip(command: ActuatorCommand)
    ensures
        command.frame().len() == FRAME_LEN,
        ActuatorCommand::parse(command.frame()) == Ok::<ActuatorCommand, DecodeError>(command),
{
}

/// What decodes, encodes to the same bytes again, but for the reserved byte
/// of a `SetDirection` frame, which is read as anything and written as zero.
pub proof fn lemma_frame_of_parsed(bytes: Seq<u8>, command: ActuatorCommand)
    requires
        ActuatorCommand::parse(bytes) == Ok::<ActuatorCommand, DecodeError>(command),
    ensures
        command is SetSpeed ==> command.frame() == bytes,
        command is SetDirection ==> command.frame() == bytes.update(2, 0u8),
{
    assert(command is SetSpeed ==> command.frame() =~= bytes);
    assert(command is SetDirection ==> command.frame() =~= bytes.update(2, 0u8));
}

} // verus!
