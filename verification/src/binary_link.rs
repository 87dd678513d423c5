//! Two-byte frames of the first, binary board link: a command byte with a
//! payload byte out, a state byte and a length byte back.
use vstd::prelude::*;

verus! {

/// Commands of the binary board link.
#[derive(Clone, Copy, Debug, PartialEq, Eq, Structural)]
pub enum Command {
    /// Move the suction box.
    MoveBox,
    /// Switch the lighting.
    Lighting,
    /// Turn the page.
    FlipPage,
}

/// The wire byte of a command.
pub open spec fn spec_command_code(c: Command) -> u8 {
    match c {
        Command::MoveBox => 0b00000010,
        Command::Lighting => 0b00000100,
        Command::FlipPage => 0b00001000,
    }
}

impl Command {
    /// The wire byte of the command.
    pub fn code(self) -> (b: u8)
        ensures
            b == spec_command_code(self),
    {
        match self {
            Command::MoveBox => 0b00000010,
            Command::Lighting => 0b00000100,
            Command::FlipPage => 0b00001000,
        }
    }
}

/// The second byte of a command frame.
#[derive(Clone, Copy, Debug, PartialEq, Eq, Structural)]
pub enum Payload {
    /// An on/off flag.
    Flag(bool),
    /// A value.
    Value(u8),
}

/// A response frame.
#[derive(Clone, Copy, Debug, PartialEq, Eq, Structural)]
pub struct Response {
    /// Board state byte.
    pub state: u8,
    /// Length byte.
    pub length: u8,
}

/// Reads a response frame: the state byte, then the length byte.
pub fn get_response(incoming: Vec<u8>) -> (r: Response)
    requires
        incoming@.len() >= 2,
    ensures
        r == (Response { state: incoming@[0], length: incoming@[1] }),
{
    Response { state: incoming[0], length: incoming[1] }
}

} // verus!
