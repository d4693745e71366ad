//! The relay engine and shutdown sequencer: after the handshake, bytes are
//! pumped in both directions between the client and destination sockets
//! until a side closes, then the connection is torn down with a correct
//! half-close.
//!
//! A readiness event for token `t` drives one relay pass for the direction
//! `t` names: the embedding program reads whatever the source socket offers
//! and stages it with [`relay_push`], writes as much of [`relay_pending`] as
//! the sink socket accepts, and hands the outcome to [`relay_in`]. On
//! [`RelayStep::Eof`] the source reached end-of-stream with nothing left to
//! forward, and the embedding program must shut down the write half of the
//! sink socket, reregister the source under its token with write interest
//! only, reregister the sink under the paired token with read interest only,
//! and invoke [`shutdown`].

use crate::agent::{Agent, State};
use crate::util::{peer_token, spec_peer_token};
use vstd::prelude::*;

verus! {

/// Whether `token` names the client-to-destination direction of `agt`; any
/// other token names the destination-to-client direction.
pub open spec fn is_inbound(agt: Agent, token: usize) -> bool {
    token == agt.token
}

/// The staged bytes of the direction that `token` names.
pub open spec fn dir_buf(agt: Agent, token: usize) -> Seq<u8> {
    if is_inbound(agt, token) {
        agt.b1@
    } else {
        agt.b2@
    }
}

/// Whether the direction that `token` names has already reached
/// end-of-stream and completed its half-close.
pub open spec fn dir_finished(agt: Agent, token: usize) -> bool {
    if is_inbound(agt, token) {
        agt.fin_in
    } else {
        agt.fin_out
    }
}

/// What the embedding program must do after one relay pass: wait for the
/// next readiness event (backpressure or no more data now), or perform the
/// end-of-stream half-close sequence and invoke [`shutdown`].
#[derive(Clone, Copy, PartialEq, Eq, Structural, Debug)]
pub enum RelayStep {
    Wait,
    Eof,
}

/// Whether a readiness event for `token` should drive a relay pass at all.
/// A direction that has reached end-of-stream stays finished, so repeated
/// notifications for it perform no reads, no writes, and no repeated
/// shutdown sequencing.
pub fn relay_ready(agt: &Agent, token: usize) -> (r: bool)
    ensures
        r == ((agt.state == State::Relay || agt.state == State::Shutdown) && agt.has_dest
            && !dir_finished(*agt, token)),
{
    (agt.state == State::Relay || agt.state == State::Shutdown) && agt.has_dest && (if token
        == agt.token {
        !agt.fin_in
    } else {
        !agt.fin_out
    })
}

/// Stage bytes that a non-blocking read of the source socket of `token`'s
/// direction just returned.
pub fn relay_push(agt: &mut Agent, token: usize, chunk: &Vec<u8>)
    requires
        old(agt).state == State::Relay || old(agt).state == State::Shutdown,
        old(agt).has_dest,
        !dir_finished(*old(agt), token),
    ensures
        final(agt).token == old(agt).token,
        final(agt).state == old(agt).state,
        final(agt).has_dest == old(agt).has_dest,
        final(agt).fin_in == old(agt).fin_in,
        final(agt).fin_out == old(agt).fin_out,
        is_inbound(*old(agt), token) ==> final(agt).b1@ == old(agt).b1@ + chunk@
            && final(agt).b2@ == old(agt).b2@,
        !is_inbound(*old(agt), token) ==> final(agt).b2@ == old(agt).b2@ + chunk@
            && final(agt).b1@ == old(agt).b1@,
{
    if token == agt.token {
        agt.b1.extend(chunk);
    } else {
        agt.b2.extend(chunk);
    }
}

/// The staged bytes the embedding program should offer to the sink socket of
/// `token`'s direction, oldest first.
pub fn relay_pending(agt: &Agent, token: usize) -> (r: Vec<u8>)
    ensures
        r@ == dir_buf(*agt, token),
{
    if token == agt.token {
        agt.b1.to_vec()
    } else {
        agt.b2.to_vec()
    }
}

/// Everything [`relay_in`] and [`relay_out`] promise of one relay pass for
/// the direction `token` names: the sink accepted the `written` oldest
/// staged bytes; the pass waits while bytes remain staged or the read
/// reported would-block, and otherwise marks the direction finished and
/// moves the connection to `Shutdown`. The opposite direction is untouched.
pub open spec fn relay_post(
    pre: Agent,
    post: Agent,
    token: usize,
    would_block: bool,
    written: int,
    r: RelayStep,
) -> bool {
    &&& post.token == pre.token
    &&& post.has_dest == pre.has_dest
    &&& dir_buf(post, token) == dir_buf(pre, token).skip(written)
    &&& (is_inbound(pre, token) ==> post.b2@ == pre.b2@ && post.fin_out == pre.fin_out)
    &&& (!is_inbound(pre, token) ==> post.b1@ == pre.b1@ && post.fin_in == pre.fin_in)
    &&& if dir_buf(pre, token).skip(written).len() > 0 || would_block {
        &&& r == RelayStep::Wait
        &&& post.state == pre.state
        &&& !dir_finished(post, token)
    } else {
        &&& r == RelayStep::Eof
        &&& post.state == State::Shutdown
        &&& dir_finished(post, token)
    }
}

/// One relay pass for the direction `token` names. `would_block` is the
/// flag of the read whose bytes were staged with [`relay_push`]; `written`
/// is how many of the pending bytes the sink socket accepted.
pub fn relay_in(agt: &mut Agent, token: usize, would_block: bool, written: usize) -> (r: RelayStep)
    requires
        old(agt).state == State::Relay || old(agt).state == State::Shutdown,
        old(agt).has_dest,
        !dir_finished(*old(agt), token),
        written <= dir_buf(*old(agt), token).len(),
    ensures
        relay_post(*old(agt), *final(agt), token, would_block, written as int, r),
{
    if token == agt.token {
        agt.b1.skip(written);
        if agt.b1.len() > 0 || would_block {
            return RelayStep::Wait;
        }
        agt.fin_in = true;
    } else {
        agt.b2.skip(written);
        if agt.b2.len() > 0 || would_block {
            return RelayStep::Wait;
        }
        agt.fin_out = true;
    }
    agt.set_state(State::Shutdown);
    RelayStep::Eof
}

/// One relay pass for the opposite direction: [`relay_in`] invoked with the
/// paired token.
pub fn relay_out(agt: &mut Agent, token: usize, would_block: bool, written: usize) -> (r: RelayStep)
    requires
        old(agt).state == State::Relay || old(agt).state == State::Shutdown,
        old(agt).has_dest,
        !dir_finished(*old(agt), spec_peer_token(token)),
        written <= dir_buf(*old(agt), spec_peer_token(token)).len(),
    ensures
        relay_post(*old(agt), *final(agt), spec_peer_token(token), would_block, written as int, r),
{
    let p = peer_token(token);
    relay_in(agt, p, would_block, written)
}

/// What the embedding program must do after the shutdown sequencer ran:
/// keep waiting while the opposite direction still relays, or close both
/// sockets, deregister them, and release the `Agent` from the connection
/// table.
#[derive(Clone, Copy, PartialEq, Eq, Structural, Debug)]
pub enum ShutdownStep {
    Wait,
    Close,
}

/// Shutdown sequencer: decide whether the whole connection can be torn
/// down. `Close` comes exactly when both directions have independently
/// reached end-of-stream; until then the still-open direction keeps relaying
/// undisturbed. The agent is not changed, so repeated invocations decide
/// alike.
pub fn shutdown(agt: &Agent) -> (r: ShutdownStep)
    requires
        agt.state == State::Shutdown,
    ensures
        r == (if agt.fin_in && agt.fin_out {
            ShutdownStep::Close
        } else {
            ShutdownStep::Wait
        }),
{
    if agt.fin_in && agt.fin_out {
        ShutdownStep::Close
    } else {
        ShutdownStep::Wait
    }
}

/// Law: relay end-of-stream is latched. A pass that answers `Eof` leaves
/// the direction finished in `Shutdown` state, and a finished direction
/// fails the condition that [`relay_ready`] computes — so a repeated
/// readiness notification for it drives no read, no write, and no repeated
/// half-close sequence. [`relay_in`] and [`relay_push`] require an
/// unfinished direction, every handler's contract keeps a set finished flag
/// set, and [`shutdown`] takes the agent immutably, so its decision cannot
/// be re-triggered into a different outcome.
pub proof fn lemma_relay_eof_latched(
    pre: Agent,
    post: Agent,
    token: usize,
    would_block: bool,
    written: int,
)
    requires
        relay_post(pre, post, token, would_block, written, RelayStep::Eof),
    ensures
        dir_finished(post, token),
        post.state == State::Shutdown,
        !((post.state == State::Relay || post.state == State::Shutdown) && post.has_dest
            && !dir_finished(post, token)),
{
}

/// One step of the relay buffer model, as the contracts of [`relay_push`]
/// and [`relay_in`] describe a direction's buffer: bytes read from the
/// source socket are appended at the back; a write the sink accepted
/// delivers the oldest pending bytes.
pub enum RelayEvent {
    Push { chunk: Seq<u8> },
    Pull { accepted: int },
}

/// The pending buffer and the bytes delivered to the sink after running
/// `evs` against a buffer holding `buf`. A `Pull` delivers at most what is
/// pending.
pub open spec fn relay_run(buf: Seq<u8>, evs: Seq<RelayEvent>) -> (Seq<u8>, Seq<u8>)
    decreases evs.len(),
{
    if evs.len() == 0 {
        (buf, Seq::<u8>::empty())
    } else {
        match evs[0] {
            RelayEvent::Push { chunk } => relay_run(buf + chunk, evs.skip(1)),
            RelayEvent::Pull { accepted } => {
                let m = if accepted < 0 {
                    0
                } else if accepted > buf.len() {
                    buf.len() as int
                } else {
                    accepted
                };
                let rest = relay_run(buf.skip(m), evs.skip(1));
                (rest.0, buf.take(m) + rest.1)
            },
        }
    }
}

/// Concatenation of every byte `evs` pushes, in arrival order.
pub open spec fn pushed_bytes(evs: Seq<RelayEvent>) -> Seq<u8>
    decreases evs.len(),
{
    if evs.len() == 0 {
        Seq::<u8>::empty()
    } else {
        (match evs[0] {
            RelayEvent::Push { chunk } => chunk,
            RelayEvent::Pull { .. } => Seq::<u8>::empty(),
        }) + pushed_bytes(evs.skip(1))
    }
}

/// Law: the relay forwards payload unmodified and in order. After any run
/// of reads and partial writes, the bytes delivered to the sink followed by
/// the bytes still pending are exactly the bytes that were pending at the
/// start followed by every byte read from the source, in arrival order. In
/// particular, once the buffer drains, the sink has received precisely the
/// stream the source sent.
pub proof fn lemma_relay_round_trip(buf: Seq<u8>, evs: Seq<RelayEvent>)
    ensures
        relay_run(buf, evs).1 + relay_run(buf, evs).0 == buf + pushed_bytes(evs),
    decreases evs.len(),
{
    if evs.len() == 0 {
        assert(relay_run(buf, evs).1 + relay_run(buf, evs).0 =~= buf + pushed_bytes(evs));
    } else {
        match evs[0] {
            RelayEvent::Push { chunk } => {
                lemma_relay_round_trip(buf + chunk, evs.skip(1));
                assert(relay_run(buf, evs).1 + relay_run(buf, evs).0 =~= buf + pushed_bytes(evs));
            },
            RelayEvent::Pull { accepted } => {
                let m = if accepted < 0 {
                    0
                } else if accepted > buf.len() {
                    buf.len() as int
                } else {
                    accepted
                };
                lemma_relay_round_trip(buf.skip(m), evs.skip(1));
                let rest = relay_run(buf.skip(m), evs.skip(1));
                assert(relay_run(buf, evs).0 == rest.0);
                assert(relay_run(buf, evs).1 == buf.take(m) + rest.1);
                assert((buf.take(m) + rest.1) + rest.0 =~= buf.take(m) + (rest.1 + rest.0));
                assert(buf.take(m) + (buf.skip(m) + pushed_bytes(evs.skip(1))) =~= buf
                    + pushed_bytes(evs.skip(1)));
                assert(pushed_bytes(evs) =~= pushed_bytes(evs.skip(1)));
            },
        }
    }
}

} // verus!
