//! The SOCKS5 handshake state machine: method negotiation and the CONNECT
//! request, driven by buffered bytes from a non-blocking socket.
//!
//! Each read-phase handler takes the bytes the embedding program just read
//! (`chunk`) together with the read's would-block flag, and decides — as a
//! pure function of the accumulated buffer — whether to wait for more data,
//! fail the connection, or advance. Each write-phase handler takes how many
//! staged reply bytes the socket accepted and advances once the reply buffer
//! has drained. A `Step::Proceed` result means the embedding program must
//! invoke the handler of the new phase at once, within the same readiness
//! callback, so several phases can complete on one event.

use crate::agent::{Agent, DestAddr, DestSpec, SocksError, State, Step};
use crate::buffer::be16;
use vstd::prelude::*;

verus! {

/// The one protocol version accepted anywhere: SOCKS5.
pub const SOCKS_VERSION: u8 = 5;

/// Whether a byte sequence is valid UTF-8, as `core::str::from_utf8`
/// decides it.
pub uninterp spec fn is_utf8(s: Seq<u8>) -> bool;

/// Relies on core::str::from_utf8: it returns `Ok` exactly when the bytes
/// are valid UTF-8.
#[verifier::external_body]
fn utf8_ok(name: &Vec<u8>) -> (r: bool)
    ensures
        r == is_utf8(name@),
{
    core::str::from_utf8(name.as_slice()).is_ok()
}

/// Total length of a method-negotiation request — `VER NMETHODS METHODS` —
/// once its first two bytes are buffered.
pub open spec fn neg_required(buf: Seq<u8>) -> int
    recommends
        buf.len() >= 2,
{
    2 + buf[1] as int
}

/// Decision of the method-negotiation read phase, as a function of the bytes
/// buffered so far and the would-block flag of the read that produced them.
pub open spec fn neg_decision(buf: Seq<u8>, would_block: bool) -> Result<Step, SocksError> {
    if buf.len() == 0 && !would_block {
        Err(SocksError::ConnectionClosed)
    } else if buf.len() < 2 {
        Ok(Step::Wait)
    } else if buf[0] != SOCKS_VERSION {
        Err(SocksError::ProtocolViolation)
    } else if buf.len() < neg_required(buf) {
        Ok(Step::Wait)
    } else {
        Ok(Step::Proceed)
    }
}

/// Handle readiness in `SelectMethodReq`: `chunk` is what a non-blocking
/// read of the client socket just returned, `would_block` whether that read
/// ended with a would-block signal. On `Proceed`, exactly `2 + NMETHODS`
/// bytes have been consumed, the method list accepted uninspected, the
/// 2-byte reply `[VER, no-authentication]` staged, and the phase advanced to
/// `SelectMethodReply`. On `Wait` and on failure nothing is consumed or
/// staged.
pub fn select_method_req(agt: &mut Agent, chunk: &Vec<u8>, would_block: bool) -> (r: Result<
    Step,
    SocksError,
>)
    requires
        old(agt).state == State::SelectMethodReq,
    ensures
        r == neg_decision(old(agt).b1@ + chunk@, would_block),
        final(agt).token == old(agt).token,
        final(agt).has_dest == old(agt).has_dest,
        final(agt).fin_in == old(agt).fin_in,
        final(agt).fin_out == old(agt).fin_out,
        ({
            let buf = old(agt).b1@ + chunk@;
            if r == Ok::<Step, SocksError>(Step::Proceed) {
                &&& final(agt).b1@ == buf.skip(neg_required(buf))
                &&& final(agt).b2@ == old(agt).b2@ + seq![SOCKS_VERSION, 0u8]
                &&& final(agt).state == State::SelectMethodReply
            } else {
                &&& final(agt).b1@ == buf
                &&& final(agt).b2@ == old(agt).b2@
                &&& final(agt).state == old(agt).state
            }
        }),
{
    agt.b1.extend(chunk);
    let len = agt.b1.len();
    if len == 0 && !would_block {
        return Err(SocksError::ConnectionClosed);
    }
    if len < 2 {
        return Ok(Step::Wait);
    }
    if agt.b1.get(0) != SOCKS_VERSION {
        return Err(SocksError::ProtocolViolation);
    }
    let nmethods = agt.b1.get(1);
    let n = 2 + nmethods as usize;
    if len < n {
        return Ok(Step::Wait);
    }
    agt.b1.skip(n);
    agt.b2.write_u8(SOCKS_VERSION);
    agt.b2.write_u8(0);
    proof {
        assert(agt.b2@ =~= old(agt).b2@ + seq![SOCKS_VERSION, 0u8]);
    }
    agt.set_state(State::SelectMethodReply);
    Ok(Step::Proceed)
}

/// Handle readiness in `SelectMethodReply`: the embedding program attempted
/// to write the staged reply to the client socket and the socket accepted
/// `written` bytes. Proceeds to `ConnectReq` exactly when the reply buffer
/// has fully drained; partial writes wait for the next write-readiness.
pub fn select_method_reply(agt: &mut Agent, written: usize) -> (r: Step)
    requires
        old(agt).state == State::SelectMethodReply,
        written <= old(agt).b2@.len(),
    ensures
        final(agt).b2@ == old(agt).b2@.skip(written as int),
        final(agt).b1@ == old(agt).b1@,
        final(agt).token == old(agt).token,
        final(agt).has_dest == old(agt).has_dest,
        final(agt).fin_in == old(agt).fin_in,
        final(agt).fin_out == old(agt).fin_out,
        r == Step::Proceed <==> final(agt).b2@.len() == 0,
        r == Step::Proceed ==> final(agt).state == State::ConnectReq,
        r == Step::Wait ==> final(agt).state == old(agt).state,
{
    agt.b2.skip(written);
    if agt.b2.len() > 0 {
        return Step::Wait;
    }
    agt.set_state(State::ConnectReq);
    Step::Proceed
}

/// Spec-level outcome of the CONNECT-request read phase.
pub enum ConnectDecision {
    Fail { err: SocksError },
    Wait,
    Open { dest: DestSpec, consumed: int },
}

impl ConnectDecision {
    /// The number of buffered bytes the request occupies, on `Open`.
    pub open spec fn consumed_len(self) -> int {
        match self {
            ConnectDecision::Open { consumed, .. } => consumed,
            _ => 0,
        }
    }
}

/// Header fields of a buffered CONNECT request are valid: version, CONNECT
/// command, zero reserved byte, known address type.
pub open spec fn connect_header_ok(buf: Seq<u8>) -> bool {
    &&& buf.len() >= 4
    &&& buf[0] == SOCKS_VERSION
    &&& buf[1] == 1
    &&& buf[2] == 0
    &&& (buf[3] == 1 || buf[3] == 3 || buf[3] == 4)
}

/// Total length of a CONNECT request with a valid header, readable once the
/// header — and, for a domain request, the length byte — is buffered.
pub open spec fn connect_request_len(buf: Seq<u8>) -> int
    recommends
        connect_header_ok(buf),
        buf[3] == 3 ==> buf.len() >= 5,
{
    if buf[3] == 1 {
        10
    } else if buf[3] == 4 {
        22
    } else {
        7 + buf[4] as int
    }
}

/// Decision of the CONNECT-request read phase, as a function of the bytes
/// buffered so far and the would-block flag of the read that produced them.
pub open spec fn connect_decision(buf: Seq<u8>, would_block: bool) -> ConnectDecision {
    if buf.len() == 0 && !would_block {
        ConnectDecision::Fail { err: SocksError::ConnectionClosed }
    } else if buf.len() < 4 {
        ConnectDecision::Wait
    } else if buf[0] != SOCKS_VERSION {
        ConnectDecision::Fail { err: SocksError::ProtocolViolation }
    } else if buf[1] != 1 {
        ConnectDecision::Fail { err: SocksError::UnsupportedCommand }
    } else if buf[2] != 0 {
        ConnectDecision::Fail { err: SocksError::ProtocolViolation }
    } else if buf[3] == 1 {
        if buf.len() < 10 {
            ConnectDecision::Wait
        } else {
            ConnectDecision::Open {
                dest: DestSpec::Ipv4 { ip: buf.subrange(4, 8), port: be16(buf[8], buf[9]) },
                consumed: 10,
            }
        }
    } else if buf[3] == 4 {
        if buf.len() < 22 {
            ConnectDecision::Wait
        } else {
            ConnectDecision::Open {
                dest: DestSpec::Ipv6 { ip: buf.subrange(4, 20), port: be16(buf[20], buf[21]) },
                consumed: 22,
            }
        }
    } else if buf[3] == 3 {
        if buf.len() < 5 {
            ConnectDecision::Wait
        } else if buf.len() < 7 + buf[4] as int {
            ConnectDecision::Wait
        } else if !is_utf8(buf.subrange(5, 5 + buf[4] as int)) {
            ConnectDecision::Fail { err: SocksError::InvalidDomainName }
        } else {
            ConnectDecision::Open {
                dest: DestSpec::Domain {
                    name: buf.subrange(5, 5 + buf[4] as int),
                    port: be16(buf[5 + buf[4] as int], buf[6 + buf[4] as int]),
                },
                consumed: 7 + buf[4] as int,
            }
        }
    } else {
        ConnectDecision::Fail { err: SocksError::ProtocolViolation }
    }
}

/// What the embedding program must do after [`connect_req`]: wait for more
/// bytes, or open a non-blocking stream to `dest` (resolving a domain
/// first), disable Nagle buffering on it, register it with the reactor under
/// the paired token with both interests, and then call
/// [`connect_established`].
#[derive(Debug)]
pub enum ConnectStep {
    Wait,
    Open { dest: DestAddr },
}

/// Handle readiness in `ConnectReq`: parse and validate the CONNECT request
/// from the accumulated buffer. On `Open`, exactly the request's bytes have
/// been consumed — anything the client pipelined after it stays buffered for
/// the relay — and the parsed destination is returned; the phase does not
/// advance until [`connect_established`]. On `Wait` and on failure nothing
/// is consumed.
pub fn connect_req(agt: &mut Agent, chunk: &Vec<u8>, would_block: bool) -> (r: Result<
    ConnectStep,
    SocksError,
>)
    requires
        old(agt).state == State::ConnectReq,
    ensures
        final(agt).token == old(agt).token,
        final(agt).state == old(agt).state,
        final(agt).b2@ == old(agt).b2@,
        final(agt).has_dest == old(agt).has_dest,
        final(agt).fin_in == old(agt).fin_in,
        final(agt).fin_out == old(agt).fin_out,
        ({
            let buf = old(agt).b1@ + chunk@;
            match connect_decision(buf, would_block) {
                ConnectDecision::Fail { err } => {
                    &&& r == Err::<ConnectStep, SocksError>(err)
                    &&& final(agt).b1@ == buf
                },
                ConnectDecision::Wait => {
                    &&& r matches Ok(s) && s is Wait
                    &&& final(agt).b1@ == buf
                },
                ConnectDecision::Open { dest, consumed } => {
                    &&& (r matches Ok(s) && s matches ConnectStep::Open { dest: d } && d@ == dest)
                    &&& final(agt).b1@ == buf.skip(consumed)
                },
            }
        }),
{
    agt.b1.extend(chunk);
    let len = agt.b1.len();
    if len == 0 && !would_block {
        return Err(SocksError::ConnectionClosed);
    }
    if len < 4 {
        return Ok(ConnectStep::Wait);
    }
    if agt.b1.get(0) != SOCKS_VERSION {
        return Err(SocksError::ProtocolViolation);
    }
    if agt.b1.get(1) != 1 {
        return Err(SocksError::UnsupportedCommand);
    }
    if agt.b1.get(2) != 0 {
        return Err(SocksError::ProtocolViolation);
    }
    let atyp = agt.b1.get(3);
    if atyp == 1 {
        if len < 10 {
            return Ok(ConnectStep::Wait);
        }
        let a = agt.b1.slice(4, 8);
        let ip: [u8; 4] = [a[0], a[1], a[2], a[3]];
        let port = (agt.b1.get(8) as u16) * 256 + (agt.b1.get(9) as u16);
        agt.b1.skip(10);
        proof {
            let buf = old(agt).b1@ + chunk@;
            assert(ip@ =~= buf.subrange(4, 8));
        }
        Ok(ConnectStep::Open { dest: DestAddr::Ipv4 { ip, port } })
    } else if atyp == 4 {
        if len < 22 {
            return Ok(ConnectStep::Wait);
        }
        let a = agt.b1.slice(4, 20);
        let ip: [u8; 16] = [
            a[0],
            a[1],
            a[2],
            a[3],
            a[4],
            a[5],
            a[6],
            a[7],
            a[8],
            a[9],
            a[10],
            a[11],
            a[12],
            a[13],
            a[14],
            a[15],
        ];
        let port = (agt.b1.get(20) as u16) * 256 + (agt.b1.get(21) as u16);
        agt.b1.skip(22);
        proof {
            let buf = old(agt).b1@ + chunk@;
            assert(ip@ =~= buf.subrange(4, 20));
        }
        Ok(ConnectStep::Open { dest: DestAddr::Ipv6 { ip, port } })
    } else if atyp == 3 {
        if len < 5 {
            return Ok(ConnectStep::Wait);
        }
        let n = agt.b1.get(4) as usize;
        if len < 7 + n {
            return Ok(ConnectStep::Wait);
        }
        let name = agt.b1.slice(5, 5 + n);
        if !utf8_ok(&name) {
            return Err(SocksError::InvalidDomainName);
        }
        let port = (agt.b1.get(5 + n) as u16) * 256 + (agt.b1.get(6 + n) as u16);
        agt.b1.skip(7 + n);
        Ok(ConnectStep::Open { dest: DestAddr::Domain { name, port } })
    } else {
        Err(SocksError::ProtocolViolation)
    }
}

/// The first candidate the resolver yielded for a domain destination, or
/// `DestinationNotFound` when resolution yielded nothing.
pub fn first_resolved(found: Option<DestAddr>) -> (r: Result<DestAddr, SocksError>)
    ensures
        match found {
            Option::None => r == Err::<DestAddr, SocksError>(SocksError::DestinationNotFound),
            Option::Some(a) => r == Ok::<DestAddr, SocksError>(a),
        },
{
    match found {
        Option::None => Err(SocksError::DestinationNotFound),
        Option::Some(a) => Ok(a),
    }
}

/// The 10-byte CONNECT success reply: version, success, reserved, IPv4, and
/// the placeholder bound address 0.0.0.0:0 — the real bound address is not
/// exposed to the client.
pub open spec fn connect_reply_bytes() -> Seq<u8> {
    seq![SOCKS_VERSION, 0u8, 0u8, 1u8, 0u8, 0u8, 0u8, 0u8, 0u8, 0u8]
}

/// After the destination stream was opened and registered under the paired
/// token: record its presence, stage the success reply, and advance to
/// `ConnectReply`, whose handler the embedding program must invoke at once.
/// The reply buffer being empty here is owed by the drain contract of
/// `SelectMethodReply`.
pub fn connect_established(agt: &mut Agent)
    requires
        old(agt).state == State::ConnectReq,
        old(agt).b2@.len() == 0,
        !old(agt).has_dest,
    ensures
        final(agt).state == State::ConnectReply,
        final(agt).has_dest,
        final(agt).b2@ == connect_reply_bytes(),
        final(agt).b1@ == old(agt).b1@,
        final(agt).token == old(agt).token,
        final(agt).fin_in == old(agt).fin_in,
        final(agt).fin_out == old(agt).fin_out,
{
    agt.has_dest = true;
    agt.b2.write_u8(SOCKS_VERSION);
    agt.b2.write_u8(0);
    agt.b2.write_u8(0);
    agt.b2.write_u8(1);
    agt.b2.write_u8(0);
    agt.b2.write_u8(0);
    agt.b2.write_u8(0);
    agt.b2.write_u8(0);
    agt.b2.write_u8(0);
    agt.b2.write_u8(0);
    proof {
        assert(agt.b2@ =~= connect_reply_bytes());
    }
    agt.set_state(State::ConnectReply);
}

/// Handle readiness in `ConnectReply`: same drain-or-wait contract as
/// [`select_method_reply`]. Once the success reply has fully drained, the
/// phase advances to `Relay` and the embedding program must invoke the relay
/// for this connection's own token at once.
pub fn connect_reply(agt: &mut Agent, written: usize) -> (r: Step)
    requires
        old(agt).state == State::ConnectReply,
        written <= old(agt).b2@.len(),
    ensures
        final(agt).b2@ == old(agt).b2@.skip(written as int),
        final(agt).b1@ == old(agt).b1@,
        final(agt).token == old(agt).token,
        final(agt).has_dest == old(agt).has_dest,
        final(agt).fin_in == old(agt).fin_in,
        final(agt).fin_out == old(agt).fin_out,
        r == Step::Proceed <==> final(agt).b2@.len() == 0,
        r == Step::Proceed ==> final(agt).state == State::Relay,
        r == Step::Wait ==> final(agt).state == old(agt).state,
{
    agt.b2.skip(written);
    if agt.b2.len() > 0 {
        return Step::Wait;
    }
    agt.set_state(State::Relay);
    Step::Proceed
}

/// Law: method negotiation is chunk-invariant. However a valid request —
/// `full` holds exactly `VER NMETHODS METHODS` with the right version — is
/// split across partial reads, the accumulated buffer runs through strict
/// prefixes of `full`: every strict prefix waits without consuming or
/// replying, and the full request proceeds whatever the final read's
/// would-block flag was. With the contract of [`select_method_req`], the
/// proceeding call consumes exactly `2 + NMETHODS` bytes — here all of
/// `full` — and stages exactly `[VER, 0x00]`.
pub proof fn lemma_negotiation_chunk_invariant(full: Seq<u8>, k: int)
    requires
        full.len() >= 2,
        full[0] == SOCKS_VERSION,
        full.len() == neg_required(full),
        0 <= k < full.len(),
    ensures
        neg_decision(full.take(k), true) == Ok::<Step, SocksError>(Step::Wait),
        forall|wb: bool| #[trigger] neg_decision(full, wb) == Ok::<Step, SocksError>(Step::Proceed),
        full.skip(neg_required(full)).len() == 0,
{
    assert(full.take(k).len() == k);
}

/// Law: a wrong protocol version is fatal in both read phases. As soon as
/// enough bytes are buffered to inspect the version field, a first byte
/// other than `0x05` makes the phase decision `ProtocolViolation`, whatever
/// the rest of the input and the would-block flag — and by the contracts of
/// [`select_method_req`] and [`connect_req`], a failing phase stages no
/// reply bytes.
pub proof fn lemma_bad_version_rejected(buf: Seq<u8>, would_block: bool)
    requires
        buf.len() >= 1,
        buf[0] != SOCKS_VERSION,
    ensures
        buf.len() >= 2 ==> neg_decision(buf, would_block) == Err::<Step, SocksError>(
            SocksError::ProtocolViolation,
        ),
        buf.len() >= 4 ==> connect_decision(buf, would_block) == (ConnectDecision::Fail {
            err: SocksError::ProtocolViolation,
        }),
{
}

/// Law: CONNECT parsing is chunk-invariant. For a request of any address
/// type, however its bytes are split across partial reads, every strict
/// prefix of the request waits without consuming anything, and the decision
/// on the complete buffer — including the parsed destination address and
/// port — is a function of the accumulated bytes alone, independent of the
/// would-block flag. So any chunking of the same request parses to the same
/// destination.
pub proof fn lemma_connect_chunk_invariant(full: Seq<u8>, k: int)
    requires
        connect_header_ok(full),
        full[3] == 3 ==> full.len() >= 5,
        full.len() >= connect_request_len(full),
        0 <= k < connect_request_len(full),
    ensures
        connect_decision(full.take(k), true) == ConnectDecision::Wait,
        forall|wb: bool| #[trigger] connect_decision(full, wb) == connect_decision(full, true),
        connect_decision(full, true) is Open ==> connect_decision(
            full,
            true,
        ).consumed_len() == connect_request_len(full),
{
    assert(full.take(k).len() == k);
}

} // verus!
