//! The requests and answers exchanged with the discovery server.
use vstd::prelude::*;

verus! {

/// An IP address, as its octets (IPv4) or its eight 16-bit segments (IPv6).
#[derive(Clone, Copy, Debug, PartialEq, Eq)]
pub enum IpAddr {
    V4([u8; 4]),
    V6([u16; 8]),
}

/// A peer asking the discovery server to be put in touch with another peer.
#[derive(Debug)]
pub struct DiscoveryRequest {
    pub ip: Option<IpAddr>,
    pub port: u16,
    pub requested_by: String,
    pub looking_for: String,
    pub public_key: String,
}

/// The mathematical value of a [`DiscoveryRequest`].
pub struct DiscoveryRequestView {
    pub ip: Option<IpAddr>,
    pub port: u16,
    pub requested_by: Seq<char>,
    pub looking_for: Seq<char>,
    pub public_key: Seq<char>,
}

impl View for DiscoveryRequest {
    type V = DiscoveryRequestView;

    open spec fn view(&self) -> DiscoveryRequestView {
        DiscoveryRequestView {
            ip: self.ip,
            port: self.port,
            requested_by: self.requested_by@,
            looking_for: self.looking_for@,
            public_key: self.public_key@,
        }
    }
}

impl Clone for DiscoveryRequest {
    fn clone(&self) -> (r: Self)
        ensures
            r@ == self@,
    {
        DiscoveryRequest {
            ip: self.ip,
            port: self.port,
            requested_by: self.requested_by.clone(),
            looking_for: self.looking_for.clone(),
            public_key: self.public_key.clone(),
        }
    }
}

/// The outcome of a discovery request.
#[derive(Clone, Copy, Debug, PartialEq, Eq, Structural)]
pub enum Status {
    Match,
    NoMatch,
    Failure,
}

/// The discovery server's answer to a [`DiscoveryRequest`].
#[derive(Debug)]
pub struct DiscoveryResponse {
    pub status: Status,
    pub error: Option<String>,
    pub discovery: Option<DiscoveryRequest>,
    pub message: String,
}

/// The mathematical value of a [`DiscoveryResponse`].
pub struct DiscoveryResponseView {
    pub status: Status,
    pub error: Option<Seq<char>>,
    pub discovery: Option<DiscoveryRequestView>,
    pub message: Seq<char>,
}

impl View for DiscoveryResponse {
    type V = DiscoveryResponseView;

    open spec fn view(&self) -> DiscoveryResponseView {
        DiscoveryResponseView {
            status: self.status,
            error: match self.error {
                Some(e) => Some(e@),
                None => None,
            },
            discovery: match self.discovery {
                Some(d) => Some(d@),
                None => None,
            },
            message: self.message@,
        }
    }
}

/// What the discovery server says about itself.
#[derive(Debug)]
pub struct InfoResponse {
    pub motd: String,
    pub version: String,
    pub acceptingrequests: bool,
}

} // verus!
