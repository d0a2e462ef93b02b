//! The one-byte message kinds exchanged between two players, and their wire codes.
use vstd::prelude::*;
use vstd::std_specs::cmp::PartialEqSpecImpl;
use vstd::std_specs::convert::FromSpecImpl;
use vstd::string::*;

verus! {

/// A message kind of the two-player protocol. On the wire each kind is one
/// byte: its code (see [`Message::code`]).
#[derive(Clone, Copy, Debug)]
pub enum Message {
    Decline,
    Move,
    Undo,
    Accept,
    Checkmate,
    Draw,
    Resign,
    Unknown,
}

/// The kinds of move a move message can carry.
#[allow(non_camel_case_types)]
#[derive(Clone, Copy, Debug)]
pub enum MoveMessage {
    Standard(),
    En_Passant(),
    Promotion(),
    Kingside_castle(),
    Queenside_castle(),
}

impl Message {
    /// The byte that stands for this kind on the wire.
    pub open spec fn code(self) -> u8 {
        match self {
            Message::Decline => 0u8,
            Message::Move => 1u8,
            Message::Undo => 2u8,
            Message::Accept => 3u8,
            Message::Checkmate => 4u8,
            Message::Draw => 5u8,
            Message::Resign => 6u8,
            Message::Unknown => 254u8,
        }
    }

    /// The text that names this kind in messages to the user.
    pub open spec fn text(self) -> Seq<char> {
        match self {
            Message::Decline => "Decline message"@,
            Message::Move => "Move message"@,
            Message::Undo => "Undo message"@,
            Message::Accept => "Accept message"@,
            Message::Checkmate => "Checkmate message"@,
            Message::Draw => "Draw message"@,
            Message::Resign => "Resign message"@,
            Message::Unknown => "Unknown message"@,
        }
    }

    /// The wire byte of this kind.
    pub fn to_byte(self) -> (b: u8)
        ensures
            b == self.code(),
    {
        match self {
            Message::Decline => 0x00,
            Message::Move => 0x01,
            Message::Undo => 0x02,
            Message::Accept => 0x03,
            Message::Checkmate => 0x04,
            Message::Draw => 0x05,
            Message::Resign => 0x06,
            Message::Unknown => 254,
        }
    }

    /// The text that names this kind, as shown to the user.
    pub fn to_text(&self) -> (s: String)
        ensures
            s@ == self.text(),
    {
        match self {
            Message::Decline => String::from_str("Decline message"),
            Message::Move => String::from_str("Move message"),
            Message::Undo => String::from_str("Undo message"),
            Message::Accept => String::from_str("Accept message"),
            Message::Checkmate => String::from_str("Checkmate message"),
            Message::Draw => String::from_str("Draw message"),
            Message::Resign => String::from_str("Resign message"),
            Message::Unknown => String::from_str("Unknown message"),
        }
    }
}

/// The kind that a received byte is read as. The codes of `Draw` and
/// `Resign` are read crosswise: 5 is read as `Resign` and 6 as `Draw`.
/// Every byte that is no code of 0 to 6 is read as `Unknown`.
pub open spec fn decode(b: u8) -> Message {
    if b == 0 {
        Message::Decline
    } else if b == 1 {
        Message::Move
    } else if b == 2 {
        Message::Undo
    } else if b == 3 {
        Message::Accept
    } else if b == 4 {
        Message::Checkmate
    } else if b == 6 {
        Message::Draw
    } else if b == 5 {
        Message::Resign
    } else {
        Message::Unknown
    }
}

/// Reads one received byte as a message kind.
pub fn message_from_byte(byte: u8) -> (m: Message)
    ensures
        m == decode(byte),
{
    match byte {
        0x00 => Message::Decline,
        0x01 => Message::Move,
        0x02 => Message::Undo,
        0x03 => Message::Accept,
        0x04 => Message::Checkmate,
        0x06 => Message::Draw,
        0x05 => Message::Resign,
        _ => Message::Unknown,
    }
}

impl PartialEq for Message {
    fn eq(&self, other: &Message) -> (r: bool) {
        self.to_byte() == other.to_byte()
    }
}

impl PartialEqSpecImpl for Message {
    open spec fn obeys_eq_spec() -> bool {
        true
    }

    open spec fn eq_spec(&self, other: &Message) -> bool {
        *self == *other
    }
}

impl PartialEq<u8> for Message {
    fn eq(&self, other: &u8) -> (r: bool) {
        self.to_byte() == *other
    }
}

impl PartialEqSpecImpl<u8> for Message {
    open spec fn obeys_eq_spec() -> bool {
        true
    }

    open spec fn eq_spec(&self, other: &u8) -> bool {
        self.code() == *other
    }
}

impl PartialEq<Message> for MoveMessage {
    fn eq(&self, other: &Message) -> (r: bool) {
        match other {
            Message::Move => true,
            _ => false,
        }
    }
}

impl PartialEqSpecImpl<Message> for MoveMessage {
    open spec fn obeys_eq_spec() -> bool {
        true
    }

    open spec fn eq_spec(&self, other: &Message) -> bool {
        *other == Message::Move
    }
}

impl From<u8> for Message {
    fn from(byte: u8) -> (m: Self) {
        message_from_byte(byte)
    }
}

impl FromSpecImpl<u8> for Message {
    open spec fn obeys_from_spec() -> bool {
        true
    }

    open spec fn from_spec(v: u8) -> Self {
        decode(v)
    }
}

impl From<[u8; 5]> for Message {
    fn from(bytes: [u8; 5]) -> (m: Self) {
        message_from_byte(bytes[0])
    }
}

impl FromSpecImpl<[u8; 5]> for Message {
    open spec fn obeys_from_spec() -> bool {
        true
    }

    open spec fn from_spec(v: [u8; 5]) -> Self {
        decode(v[0])
    }
}

} // verus!
