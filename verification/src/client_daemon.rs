//! The messages exchanged between the chat client and the local daemon, and
//! how their encoded bytes are framed on the wire.
use vstd::prelude::*;
use vstd::string::*;
use crate::structures::IpAddr;

verus! {

/// A packet could not be decoded.
#[derive(Debug, Clone, Copy, PartialEq, Eq, Structural)]
pub struct PacketParseError;

impl PacketParseError {
    /// The text shown to the user for this error.
    pub fn description(&self) -> (r: String)
        ensures
            r@ == "Packet parse error occured"@,
    {
        String::from_str("Packet parse error occured")
    }
}

/// A point in time in UTC: whole seconds since the Unix epoch and the
/// nanoseconds past that second.
#[derive(Debug, Clone, Copy, PartialEq, Eq, Structural)]
pub struct Timestamp {
    pub secs: i64,
    pub nanos: u32,
}

/// A literal message sent from one peer.
#[derive(Debug)]
pub struct Message {
    pub content: String,
    pub time: Timestamp,
    pub origin: IpAddr,
}

/// What the client asks of the daemon.
#[derive(Debug)]
pub enum ClientToDaemonMsg {
    Block(IpAddr),
    Send(String),
    Test(String),
    Connect,
    Disconnect,
    Unknown,
}

/// What the daemon tells the client.
#[derive(Debug)]
pub enum DaemonToClientMsg {
    Recieved(Message),
    Test(String),
    Unknown,
}

/// The largest encoded message, in bytes, that the serializer accepts.
pub const SERIALIZE_BUFFER_LEN: usize = 16384;

/// The byte that ends every message on the client-daemon socket.
pub const LINE_END: u8 = 10;

/// Accepts an encoded message only if it fits the serializer's buffer of
/// [`SERIALIZE_BUFFER_LEN`] bytes; a longer one is refused (`None`).
pub fn fit_serialize_buffer(encoded: Vec<u8>) -> (r: Option<Vec<u8>>)
    ensures
        r is Some <==> encoded@.len() <= SERIALIZE_BUFFER_LEN,
        r matches Some(b) ==> b@ == encoded@,
{
    if encoded.len() <= SERIALIZE_BUFFER_LEN {
        Some(encoded)
    } else {
        None
    }
}

/// Frames an encoded message for the socket: the bytes followed by the line
/// end.
pub fn frame_line(encoded: Vec<u8>) -> (r: Vec<u8>)
    requires
        encoded@.len() < usize::MAX,
    ensures
        r@ == encoded@.push(LINE_END),
{
    let mut out = encoded;
    out.push(LINE_END);
    out
}

/// The fixed text of the test messages the client and the daemon exchange.
pub fn test_phrase() -> (r: String)
    ensures
        r@ == "The quick brown fox jumped over the lazy dogs"@,
{
    String::from_str("The quick brown fox jumped over the lazy dogs")
}

} // verus!
