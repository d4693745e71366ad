//! Per-connection data: protocol phase, error taxonomy, and the `Agent`
//! record that one accepted client connection owns.
//!
//! The `Agent` here is the pure part of the per-connection state: the two
//! staged buffers, the phase tag, the connection token, and plain flags
//! standing for the destination socket's presence and for each relay
//! direction having reached end-of-stream. The sockets themselves live with
//! the embedding program, which keeps them beside this record.

use crate::buffer::Buffer;
use vstd::prelude::*;

verus! {

/// Protocol phase of one proxied connection. Transitions are strictly
/// forward; `Relay` re-enters itself on every readiness event until one
/// direction reaches end-of-stream.
#[derive(Clone, Copy, PartialEq, Eq, Structural, Debug)]
pub enum State {
    SelectMethodReq,
    SelectMethodReply,
    ConnectReq,
    ConnectReply,
    Relay,
    Shutdown,
}

/// Why a connection must be torn down. Every value is fatal: the dispatcher
/// closes both sockets and discards the `Agent`; no SOCKS error reply is
/// sent to the client.
#[derive(Clone, Copy, PartialEq, Eq, Structural, Debug)]
pub enum SocksError {
    /// The peer closed before a complete message arrived.
    ConnectionClosed,
    /// Bad protocol version, reserved byte, or address type.
    ProtocolViolation,
    /// A command other than CONNECT was requested.
    UnsupportedCommand,
    /// The domain-name bytes of a CONNECT request are not valid UTF-8.
    InvalidDomainName,
    /// Domain resolution yielded no candidate address.
    DestinationNotFound,
    /// Opening the connection to the destination failed.
    DestinationUnreachable,
}

/// What the embedding program must do after a handshake handler: wait for
/// the next readiness event, or proceed at once to the (new) current phase's
/// handler within the same callback.
#[derive(Clone, Copy, PartialEq, Eq, Structural, Debug)]
pub enum Step {
    Wait,
    Proceed,
}

/// Destination requested by a CONNECT command, as plain values. The
/// embedding program turns it into a socket address, resolving a `Domain`
/// through its resolver.
#[allow(inconsistent_fields)]
#[derive(Debug)]
pub enum DestAddr {
    Ipv4 { ip: [u8; 4], port: u16 },
    Ipv6 { ip: [u8; 16], port: u16 },
    Domain { name: Vec<u8>, port: u16 },
}

/// Mathematical view of [`DestAddr`]: addresses as byte sequences.
#[allow(inconsistent_fields)]
pub enum DestSpec {
    Ipv4 { ip: Seq<u8>, port: u16 },
    Ipv6 { ip: Seq<u8>, port: u16 },
    Domain { name: Seq<u8>, port: u16 },
}

impl View for DestAddr {
    type V = DestSpec;

    open spec fn view(&self) -> DestSpec {
        match self {
            DestAddr::Ipv4 { ip, port } => DestSpec::Ipv4 { ip: ip@, port: *port },
            DestAddr::Ipv6 { ip, port } => DestSpec::Ipv6 { ip: ip@, port: *port },
            DestAddr::Domain { name, port } => DestSpec::Domain { name: name@, port: *port },
        }
    }
}

/// State of one proxied connection pair.
///
/// `b1` stages client-to-destination bytes (protocol requests during the
/// handshake, payload during relay); `b2` stages destination-to-client bytes
/// (replies during the handshake, payload during relay). `has_dest` records
/// that the destination socket has been opened and stored — it is set
/// exactly once, during `ConnectReq`. `fin_in` / `fin_out` record that the
/// client-to-destination / destination-to-client relay direction has reached
/// end-of-stream and completed its half-close.
pub struct Agent {
    pub token: usize,
    pub state: State,
    pub b1: Buffer,
    pub b2: Buffer,
    pub has_dest: bool,
    pub fin_in: bool,
    pub fin_out: bool,
}

impl Agent {
    /// A fresh connection, as the connection table creates it on accept.
    pub fn new(token: usize) -> (r: Agent)
        ensures
            r.token == token,
            r.state == State::SelectMethodReq,
            r.b1@ == Seq::<u8>::empty(),
            r.b2@ == Seq::<u8>::empty(),
            !r.has_dest,
            !r.fin_in,
            !r.fin_out,
    {
        Agent {
            token,
            state: State::SelectMethodReq,
            b1: Buffer::new(),
            b2: Buffer::new(),
            has_dest: false,
            fin_in: false,
            fin_out: false,
        }
    }

    /// Advance the protocol phase, leaving everything else untouched.
    pub fn set_state(&mut self, s: State)
        ensures
            final(self).state == s,
            final(self).token == old(self).token,
            final(self).b1@ == old(self).b1@,
            final(self).b2@ == old(self).b2@,
            final(self).has_dest == old(self).has_dest,
            final(self).fin_in == old(self).fin_in,
            final(self).fin_out == old(self).fin_out,
    {
        self.state = s;
    }
}

} // verus!
