//! Token pairing for the two sockets of one proxied connection.
//!
//! Each connection owns two sockets — the client side and the destination
//! side — registered with the reactor under two distinct tokens. The pairing
//! flips the lowest bit, so either socket's readiness event can be routed
//! back to the same connection.

use vstd::prelude::*;

verus! {

/// The token paired with `t`: `t` with its lowest bit flipped.
pub open spec fn spec_peer_token(t: usize) -> usize {
    t ^ 1
}

/// Map a socket token to the token of the other socket of the same
/// connection pair.
pub fn peer_token(t: usize) -> (r: usize)
    ensures
        r == spec_peer_token(t),
{
    t ^ 1
}

/// Law: the token pairing is an involution — applying it twice returns the
/// original token, so the two sockets of a connection name each other.
pub proof fn lemma_peer_token_involution(t: usize)
    ensures
        spec_peer_token(spec_peer_token(t)) == t,
{
    assert((t ^ 1) ^ 1 == t) by (bit_vector);
}

/// Law: a token and its peer are never equal, so the two sockets of one
/// connection are always distinguishable.
pub proof fn lemma_peer_token_distinct(t: usize)
    ensures
        spec_peer_token(t) != t,
{
    assert(t ^ 1 != t) by (bit_vector);
}

} // verus!
