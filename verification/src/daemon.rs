//! The local daemon: its contacts, where it finds the discovery server, and
//! what it does with each line a client sends over the socket.
use vstd::prelude::*;
use vstd::string::*;
use crate::structures::IpAddr;
use crate::client_daemon::{ClientToDaemonMsg, DaemonToClientMsg, PacketParseError, test_phrase};

verus! {

/// How a contact's identity was checked.
/// Unverified: not checked. Github: through a GPG public key found on Github.
/// Signature: through a signature the user provided. Manual: the user
/// imported the contact by hand.
#[derive(Debug, Clone, Copy, PartialEq, Eq, Structural)]
pub enum VerificationMethod {
    Unverified,
    Github,
    Signature,
    Manual,
}

/// The contact information of a peer, found through discovery or imported
/// by hand.
#[derive(Debug)]
pub struct Contact {
    pub prefered_name: Option<String>,
    pub github_username: Option<String>,
    pub verification_method: VerificationMethod,
    pub ip: IpAddr,
    pub port: u16,
    pub public_key: String,
}

/// Where the discovery server listens.
#[derive(Debug)]
pub struct DiscoveryServerConfig {
    pub url: String,
}

impl Clone for DiscoveryServerConfig {
    fn clone(&self) -> (r: Self)
        ensures
            r.url@ == self.url@,
    {
        DiscoveryServerConfig { url: self.url.clone() }
    }
}

impl DiscoveryServerConfig {
    /// The address of the server's root page.
    pub fn root_url(&self) -> (r: String)
        ensures
            r@ == self.url@,
    {
        self.url.clone()
    }

    /// The address of the server's `/info` page.
    pub fn info_url(&self) -> (r: String)
        ensures
            r@ == self.url@ + "/info"@,
    {
        self.url.clone().concat("/info")
    }

    /// The address the discovery requests are posted to.
    pub fn discover_url(&self) -> (r: String)
        ensures
            r@ == self.url@ + "/discover"@,
    {
        self.url.clone().concat("/discover")
    }
}

/// What happened on a client's socket.
#[derive(Debug)]
pub enum StreamEvent {
    /// A line arrived and was decoded (or failed to decode).
    Line(Result<ClientToDaemonMsg, PacketParseError>),
    /// Reading the next line failed; `broken_pipe` tells whether the client
    /// simply went away.
    ReadFailed { broken_pipe: bool },
}

/// What the daemon does next on a client's socket.
#[derive(Debug)]
pub enum StreamStep {
    /// Record `received` (reporting a malformed packet when `malformed`) and
    /// send `reply` back.
    Reply { received: ClientToDaemonMsg, malformed: bool, reply: DaemonToClientMsg },
    /// Stop serving this client, telling the user first when `notify`.
    Stop { notify: bool },
}

/// Is this the daemon's test message?
pub open spec fn is_test_reply(reply: DaemonToClientMsg) -> bool {
    reply matches DaemonToClientMsg::Test(t) && t@ == "The quick brown fox jumped over the lazy dogs"@
}

/// The daemon's answer to one event on a client's socket: a decoded message
/// is answered with a test message; a packet that does not decode is taken as
/// `Unknown` (and reported) and answered the same way; a read failure ends
/// the connection, silently when the client hung up.
pub fn handle_stream_event(ev: StreamEvent) -> (r: StreamStep)
    ensures
        match ev {
            StreamEvent::Line(Ok(m)) => r matches StreamStep::Reply { received, malformed, reply }
                && received == m && !malformed && is_test_reply(reply),
            StreamEvent::Line(Err(_)) => r matches StreamStep::Reply { received, malformed, reply }
                && received is Unknown && malformed && is_test_reply(reply),
            StreamEvent::ReadFailed { broken_pipe } => r matches StreamStep::Stop { notify } && notify == !broken_pipe,
        },
{
    match ev {
        StreamEvent::Line(parsed) => {
            let (received, malformed) = match parsed {
                Ok(m) => (m, false),
                Err(_) => (ClientToDaemonMsg::Unknown, true),
            };
            StreamStep::Reply { received, malformed, reply: DaemonToClientMsg::Test(test_phrase()) }
        },
        StreamEvent::ReadFailed { broken_pipe } => StreamStep::Stop { notify: !broken_pipe },
    }
}

} // verus!
