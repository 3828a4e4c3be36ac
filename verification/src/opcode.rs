//! Frame opcodes and the errors of the frame decoder.

use vstd::prelude::*;
use vstd::std_specs::convert::FromSpecImpl;

verus! {

/// Why a byte buffer could not be read as a frame.
#[derive(Clone, Copy, Debug, PartialEq, Eq, Structural)]
pub enum DecodeError {
    /// The low four bits of the first byte name no known opcode.
    InvalidOpcode,
    /// The buffer ends before the frame does.
    ShortBuffer,
}

/// The kind of a frame, as carried in the low four bits of its first byte.
#[derive(Clone, Copy, Debug, PartialEq, Eq, Structural)]
pub enum Opcode {
    Continuation,
    Text,
    Binary,
    Close,
    Ping,
    Pong,
}

impl Opcode {
    /// The wire value of the opcode.
    pub open spec fn value(self) -> u8 {
        match self {
            Opcode::Continuation => 0x0,
            Opcode::Text => 0x1,
            Opcode::Binary => 0x2,
            Opcode::Close => 0x8,
            Opcode::Ping => 0x9,
            Opcode::Pong => 0xA,
        }
    }

    /// The opcode with wire value `nibble`, if there is one.
    pub open spec fn of_value(nibble: u8) -> Option<Opcode> {
        if nibble == 0x0 {
            Some(Opcode::Continuation)
        } else if nibble == 0x1 {
            Some(Opcode::Text)
        } else if nibble == 0x2 {
            Some(Opcode::Binary)
        } else if nibble == 0x8 {
            Some(Opcode::Close)
        } else if nibble == 0x9 {
            Some(Opcode::Ping)
        } else if nibble == 0xA {
            Some(Opcode::Pong)
        } else {
            None
        }
    }

    /// Close, Ping and Pong are control opcodes; the others carry data.
    pub open spec fn is_control_spec(self) -> bool {
        self == Opcode::Close || self == Opcode::Ping || self == Opcode::Pong
    }

    /// Reads the opcode from the low four bits of a frame's first byte.
    pub fn from(byte: u8) -> (result: Result<Opcode, DecodeError>)
        ensures
            result == match Opcode::of_value(byte & 0x0F) {
                Some(opcode) => Ok::<Opcode, DecodeError>(opcode),
                None => Err(DecodeError::InvalidOpcode),
            },
    {
        match byte & 0x0F {
            0x0 => Ok(Opcode::Continuation),
            0x1 => Ok(Opcode::Text),
            0x2 => Ok(Opcode::Binary),
            0x8 => Ok(Opcode::Close),
            0x9 => Ok(Opcode::Ping),
            0xA => Ok(Opcode::Pong),
            _ => Err(DecodeError::InvalidOpcode),
        }
    }

    /// Whether the opcode is a control opcode.
    #[verifier::when_used_as_spec(is_control_spec)]
    pub fn is_control(self) -> (control: bool)
        ensures
            control == self.is_control_spec(),
    {
        match self {
            Opcode::Close | Opcode::Ping | Opcode::Pong => true,
            _ => false,
        }
    }
}

impl From<Opcode> for u8 {
    fn from(opcode: Opcode) -> (value: u8) {
        match opcode {
            Opcode::Continuation => 0x0,
            Opcode::Text => 0x1,
            Opcode::Binary => 0x2,
            Opcode::Close => 0x8,
            Opcode::Ping => 0x9,
            Opcode::Pong => 0xA,
        }
    }
}

impl FromSpecImpl<Opcode> for u8 {
    open spec fn obeys_from_spec() -> bool {
        true
    }

    open spec fn from_spec(opcode: Opcode) -> u8 {
        opcode.value()
    }
}

} // verus!
