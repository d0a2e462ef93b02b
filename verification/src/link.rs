//! The decisions of the network link between the two players: how a read
//! buffer is judged, what the relay loop writes and forwards, and which role
//! a player takes. Reading from and writing to the socket is the caller's.
use vstd::prelude::*;
use vstd::string::*;
use crate::message::{Message, decode, message_from_byte};

verus! {

/// A buffer of the size of one message, as every read fills it.
pub type Frame = [u8; 5];

/// The byte a buffer is filled with before a read: a frame made of it alone
/// means that nothing arrived.
pub const EMPTY_BYTE: u8 = 255u8;

/// Nothing was read into this frame: every byte is still the fill byte.
pub open spec fn untouched(frame: Seq<u8>) -> bool {
    forall|i: int| 0 <= i < 5 ==> frame[i] == EMPTY_BYTE
}

/// Whether a frame holds the given byte anywhere.
pub open spec fn holds_byte(frame: Seq<u8>, byte: u8) -> bool {
    exists|i: int| 0 <= i < 5 && frame[i] == byte
}

/// Why a received frame was refused.
#[derive(Clone, Copy, Debug)]
pub enum ReceiveError {
    /// A message arrived, but not the one that was waited for; it carries
    /// what the first byte was read as.
    UnexpectedMessage(Message),
    /// The read reported more bytes than a frame holds.
    BufferTooShort,
}

impl ReceiveError {
    /// The text that describes this error.
    pub open spec fn text(self) -> Seq<char> {
        match self {
            ReceiveError::UnexpectedMessage(m) => "Expected message not recieved! Got: "@ + m.text(),
            ReceiveError::BufferTooShort => "Buffer shorter than message!"@,
        }
    }

    /// The text that describes this error, as shown to the user.
    pub fn to_text(&self) -> (s: String)
        ensures
            s@ == self.text(),
    {
        match self {
            ReceiveError::UnexpectedMessage(m) => {
                let mut s = String::from_str("Expected message not recieved! Got: ");
                let t = m.to_text();
                s.append(t.as_str());
                s
            },
            ReceiveError::BufferTooShort => String::from_str("Buffer shorter than message!"),
        }
    }
}

/// How a frame that a read of `len` bytes left behind is judged, when
/// `expect` names the message waited for (if any).
pub open spec fn judge_frame(len: usize, frame: Seq<u8>, expect: Option<Message>) -> Result<Seq<u8>, ReceiveError> {
    if untouched(frame) {
        Ok(frame)
    } else if len <= 5 {
        match expect {
            Some(m) => if m.code() == frame[0] {
                Ok(frame)
            } else {
                Err(ReceiveError::UnexpectedMessage(decode(frame[0])))
            },
            None => Ok(frame),
        }
    } else {
        Err(ReceiveError::BufferTooShort)
    }
}

/// The view of a judged frame.
pub open spec fn frame_result(r: Result<Frame, ReceiveError>) -> Result<Seq<u8>, ReceiveError> {
    match r {
        Ok(f) => Ok(f@),
        Err(e) => Err(e),
    }
}

/// Whether every byte of the frame is the fill byte.
pub fn is_untouched(frame: &Frame) -> (r: bool)
    ensures
        r == untouched(frame@),
{
    let mut i: usize = 0;
    while i < 5
        invariant
            0 <= i <= 5,
            forall|j: int| 0 <= j < i ==> frame@[j] == EMPTY_BYTE,
        decreases 5 - i,
    {
        if frame[i] != EMPTY_BYTE {
            return false;
        }
        i = i + 1;
    }
    true
}

/// Whether the frame holds `byte` anywhere.
pub fn frame_holds(frame: &Frame, byte: u8) -> (r: bool)
    ensures
        r == holds_byte(frame@, byte),
{
    let mut i: usize = 0;
    while i < 5
        invariant
            0 <= i <= 5,
            forall|j: int| 0 <= j < i ==> frame@[j] != byte,
        decreases 5 - i,
    {
        if frame[i] == byte {
            return true;
        }
        i = i + 1;
    }
    false
}

/// Judges the frame that a successful read of `len` bytes left behind:
/// an untouched frame passes as it is; a frame is refused when the read
/// was longer than a frame, or when a message was waited for and the first
/// byte is not its code.
pub fn check_received(len: usize, frame: Frame, expect: Option<Message>) -> (r: Result<Frame, ReceiveError>)
    ensures
        frame_result(r) == judge_frame(len, frame@, expect),
{
    if is_untouched(&frame) {
        return Ok(frame);
    }
    if len <= 5 {
        match expect {
            Some(m) => {
                if m == frame[0] {
                    Ok(frame)
                } else {
                    Err(ReceiveError::UnexpectedMessage(message_from_byte(frame[0])))
                }
            },
            None => Ok(frame),
        }
    } else {
        Err(ReceiveError::BufferTooShort)
    }
}

/// What the relay between the local game and the socket saw in one round.
#[derive(Clone, Copy, Debug)]
pub enum LinkEvent {
    /// The local game handed over a frame to send.
    Outgoing(Frame),
    /// A read from the socket succeeded with `len` bytes into the frame.
    Received(usize, Frame),
    /// The socket had nothing to read yet.
    Idle,
    /// The read from the socket failed for another reason.
    Failed,
}

/// What the relay does in answer to one event.
pub struct LinkStep {
    /// The bytes to write to the socket (none when empty).
    pub write: Vec<u8>,
    /// The frame to hand to the local game, if any.
    pub forward: Option<Frame>,
    /// The link cannot go on.
    pub fatal: bool,
}

/// The relay's answer to one event, as the bytes written, the frame
/// forwarded and whether the link stops: an outgoing move is written whole,
/// any other outgoing message as the single code of what its first byte is
/// read as; a received frame that is not untouched is forwarded, and is
/// answered with an accept code unless it is a move.
pub open spec fn relay(event: LinkEvent) -> (Seq<u8>, Option<Seq<u8>>, bool) {
    match event {
        LinkEvent::Outgoing(f) => {
            let kind = decode(f[0]);
            if kind == Message::Move {
                (f@, None, false)
            } else {
                (seq![kind.code()], None, false)
            }
        },
        LinkEvent::Received(len, f) => match judge_frame(len, f@, None) {
            Ok(g) => if untouched(g) {
                (Seq::empty(), None, false)
            } else if g[0] != Message::Move.code() {
                (seq![Message::Accept.code()], Some(g), false)
            } else {
                (Seq::empty(), Some(g), false)
            },
            Err(_) => (Seq::empty(), None, true),
        },
        LinkEvent::Idle => (Seq::empty(), None, false),
        LinkEvent::Failed => (Seq::empty(), None, true),
    }
}

/// The view of a relay step.
pub open spec fn step_view(s: LinkStep) -> (Seq<u8>, Option<Seq<u8>>, bool) {
    (s.write@, match s.forward {
        Some(f) => Some(f@),
        None => None,
    }, s.fatal)
}

/// Decides what the relay does in answer to one event.
pub fn link_step(event: LinkEvent) -> (s: LinkStep)
    ensures
        step_view(s) == relay(event),
{
    match event {
        LinkEvent::Outgoing(frame) => {
            let kind = Message::from(frame);
            if kind != Message::Move {
                let mut write: Vec<u8> = Vec::new();
                write.push(kind.to_byte());
                LinkStep { write, forward: None, fatal: false }
            } else {
                let mut write: Vec<u8> = Vec::new();
                let mut i: usize = 0;
                while i < 5
                    invariant
                        0 <= i <= 5,
                        write@ == frame@.take(i as int),
                    decreases 5 - i,
                {
                    write.push(frame[i]);
                    i = i + 1;
                }
                assert(frame@.take(5) =~= frame@);
                LinkStep { write, forward: None, fatal: false }
            }
        },
        LinkEvent::Received(len, frame) => {
            match check_received(len, frame, None) {
                Ok(got) => {
                    if is_untouched(&got) {
                        LinkStep { write: Vec::new(), forward: None, fatal: false }
                    } else if Message::Move != got[0] {
                        let mut write: Vec<u8> = Vec::new();
                        write.push(Message::Accept.to_byte());
                        LinkStep { write, forward: Some(got), fatal: false }
                    } else {
                        LinkStep { write: Vec::new(), forward: Some(got), fatal: false }
                    }
                },
                Err(_) => LinkStep { write: Vec::new(), forward: None, fatal: true },
            }
        },
        LinkEvent::Idle => LinkStep { write: Vec::new(), forward: None, fatal: false },
        LinkEvent::Failed => LinkStep { write: Vec::new(), forward: None, fatal: true },
    }
}

/// The single byte answered to a connection request: accept when the read
/// succeeded and the frame holds the accept code anywhere, decline otherwise.
pub open spec fn request_answer(read_ok: bool, frame: Seq<u8>) -> Message {
    if read_ok && holds_byte(frame, Message::Accept.code()) {
        Message::Accept
    } else {
        Message::Decline
    }
}

/// Decides how a connection request is answered.
pub fn answer_request(read_ok: bool, frame: &Frame) -> (m: Message)
    ensures
        m == request_answer(read_ok, frame@),
{
    if read_ok && frame_holds(frame, Message::Accept.to_byte()) {
        Message::Accept
    } else {
        Message::Decline
    }
}

/// The text that confirms a received frame in the stand-alone link check:
/// when a message is waited for, it must occur anywhere in the frame.
pub open spec fn confirmation(len: usize, frame: Seq<u8>, expect: Option<Message>) -> Result<Seq<char>, ReceiveError> {
    if len <= 5 {
        match expect {
            Some(m) => if holds_byte(frame, m.code()) {
                Ok("Got expected "@ + m.text() + " back!"@)
            } else {
                Err(ReceiveError::UnexpectedMessage(decode(frame[0])))
            },
            None => Ok("Recieved "@ + decode(frame[0]).text() + "!"@),
        }
    } else {
        Err(ReceiveError::BufferTooShort)
    }
}

/// The view of a confirmation.
pub open spec fn confirmation_view(r: Result<String, ReceiveError>) -> Result<Seq<char>, ReceiveError> {
    match r {
        Ok(s) => Ok(s@),
        Err(e) => Err(e),
    }
}

/// Confirms a frame that a successful read of `len` bytes left behind, in
/// the stand-alone link check.
pub fn confirm_received(len: usize, frame: &Frame, expect: Option<Message>) -> (r: Result<String, ReceiveError>)
    ensures
        confirmation_view(r) == confirmation(len, frame@, expect),
{
    if len <= 5 {
        match expect {
            Some(m) => {
                if frame_holds(frame, m.to_byte()) {
                    let mut s = String::from_str("Got expected ");
                    let t = m.to_text();
                    s.append(t.as_str());
                    s.append(" back!");
                    Ok(s)
                } else {
                    Err(ReceiveError::UnexpectedMessage(message_from_byte(frame[0])))
                }
            },
            None => {
                let mut s = String::from_str("Recieved ");
                let t = message_from_byte(frame[0]).to_text();
                s.append(t.as_str());
                s.append("!");
                Ok(s)
            },
        }
    } else {
        Err(ReceiveError::BufferTooShort)
    }
}

/// The role a player takes on the link.
#[derive(Clone, Copy, Debug)]
pub enum Role {
    /// Waits for the other player to connect.
    Host,
    /// Connects to the waiting player.
    Connect,
}

/// Whether two strings hold the same characters.
pub fn same_text(a: &str, b: &str) -> (r: bool)
    ensures
        r == (a@ == b@),
{
    let n = a.unicode_len();
    if n != b.unicode_len() {
        return false;
    }
    let mut i: usize = 0;
    while i < n
        invariant
            n == a@.len(),
            n == b@.len(),
            0 <= i <= n,
            forall|j: int| 0 <= j < i ==> a@[j] == b@[j],
        decreases n - i,
    {
        if a.get_char(i) != b.get_char(i) {
            return false;
        }
        i = i + 1;
    }
    assert(a@ =~= b@);
    true
}

/// The role named by the connection-type argument: `"host"` or `"connect"`;
/// no role for any other text.
pub open spec fn role_named(connect_type: Seq<char>) -> Option<Role> {
    if connect_type == "host"@ {
        Some(Role::Host)
    } else if connect_type == "connect"@ {
        Some(Role::Connect)
    } else {
        None
    }
}

/// Reads the connection-type argument as a role.
pub fn parse_role(connect_type: &str) -> (r: Option<Role>)
    ensures
        r == role_named(connect_type@),
{
    if same_text(connect_type, "host") {
        Some(Role::Host)
    } else if same_text(connect_type, "connect") {
        Some(Role::Connect)
    } else {
        None
    }
}

/// The note that confirms a message was sent.
pub open spec fn sent_note(m: Message) -> Seq<char> {
    "Sent "@ + m.text() + "..."@
}

/// The note that confirms a message was sent.
pub fn sent_text(m: Message) -> (s: String)
    ensures
        s@ == sent_note(m),
{
    let mut s = String::from_str("Sent ");
    let t = m.to_text();
    s.append(t.as_str());
    s.append("...");
    s
}

} // verus!
