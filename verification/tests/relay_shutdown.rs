use socks5_core::agent::{Agent, State};
use socks5_core::relay::{
    relay_in, relay_out, relay_pending, relay_push, relay_ready, shutdown, RelayStep,
    ShutdownStep,
};
use socks5_core::util::peer_token;

const TOKEN: usize = 8;

/// An agent that has completed the handshake and is relaying.
fn relaying_agent() -> Agent {
    let mut agt = Agent::new(TOKEN);
    agt.has_dest = true;
    agt.set_state(State::Relay);
    agt
}

#[test]
fn peer_token_involution() {
    for t in [0usize, 1, 2, 3, 8, 9, 1024, usize::MAX] {
        assert_eq!(peer_token(peer_token(t)), t);
        assert_ne!(peer_token(t), t);
    }
    assert_eq!(peer_token(8), 9);
    assert_eq!(peer_token(9), 8);
}

#[test]
fn relay_forwards_in_order() {
    // Payload pushed in chunks and drained in parts comes out unmodified
    // and in arrival order.
    let mut agt = relaying_agent();
    relay_push(&mut agt, TOKEN, &b"he".to_vec());
    relay_push(&mut agt, TOKEN, &b"llo ".to_vec());
    assert_eq!(relay_pending(&agt, TOKEN), b"hello ".to_vec());
    // The sink accepted four bytes; more input may follow (would-block).
    let r = relay_in(&mut agt, TOKEN, true, 4);
    assert_eq!(r, RelayStep::Wait);
    assert_eq!(agt.state, State::Relay);
    assert_eq!(relay_pending(&agt, TOKEN), b"o ".to_vec());
    relay_push(&mut agt, TOKEN, &b"world".to_vec());
    assert_eq!(relay_pending(&agt, TOKEN), b"o world".to_vec());
    let r = relay_in(&mut agt, TOKEN, true, 7);
    assert_eq!(r, RelayStep::Wait);
    assert_eq!(relay_pending(&agt, TOKEN), Vec::<u8>::new());
}

#[test]
fn relay_directions_are_independent() {
    let mut agt = relaying_agent();
    relay_push(&mut agt, TOKEN, &b"up".to_vec());
    relay_push(&mut agt, peer_token(TOKEN), &b"down".to_vec());
    assert_eq!(relay_pending(&agt, TOKEN), b"up".to_vec());
    assert_eq!(relay_pending(&agt, peer_token(TOKEN)), b"down".to_vec());
    // Draining one direction leaves the other untouched.
    let r = relay_in(&mut agt, peer_token(TOKEN), true, 4);
    assert_eq!(r, RelayStep::Wait);
    assert_eq!(relay_pending(&agt, TOKEN), b"up".to_vec());
}

#[test]
fn relay_out_is_relay_in_for_peer() {
    let mut agt = relaying_agent();
    relay_push(&mut agt, peer_token(TOKEN), &b"abc".to_vec());
    // relay_out fires for the destination socket's token; it drives the
    // direction of that token's peer pairing.
    let r = relay_out(&mut agt, TOKEN, true, 3);
    assert_eq!(r, RelayStep::Wait);
    assert_eq!(relay_pending(&agt, peer_token(TOKEN)), Vec::<u8>::new());
}

#[test]
fn relay_backpressure_waits() {
    let mut agt = relaying_agent();
    relay_push(&mut agt, TOKEN, &b"xyz".to_vec());
    // End-of-stream on the source, but a byte is still undelivered: wait for
    // the sink's write-readiness rather than tearing down.
    let r = relay_in(&mut agt, TOKEN, false, 2);
    assert_eq!(r, RelayStep::Wait);
    assert_eq!(agt.state, State::Relay);
    assert_eq!(relay_pending(&agt, TOKEN), b"z".to_vec());
}

#[test]
fn relay_eof_half_close_then_full_close() {
    let mut agt = relaying_agent();
    // Client side reaches end-of-stream with an empty buffer.
    let r = relay_in(&mut agt, TOKEN, false, 0);
    assert_eq!(r, RelayStep::Eof);
    assert_eq!(agt.state, State::Shutdown);
    assert!(agt.fin_in);
    assert!(!agt.fin_out);
    // Only that direction is finished: the sequencer waits and the other
    // direction keeps relaying.
    assert_eq!(shutdown(&agt), ShutdownStep::Wait);
    assert!(relay_ready(&agt, peer_token(TOKEN)));
    relay_push(&mut agt, peer_token(TOKEN), &b"tail".to_vec());
    let r = relay_in(&mut agt, peer_token(TOKEN), true, 4);
    assert_eq!(r, RelayStep::Wait);
    // Now the destination side closes too.
    let r = relay_in(&mut agt, peer_token(TOKEN), false, 0);
    assert_eq!(r, RelayStep::Eof);
    assert!(agt.fin_out);
    assert_eq!(shutdown(&agt), ShutdownStep::Close);
}

#[test]
fn relay_eof_is_latched() {
    // Once a direction has reached end-of-stream, repeated readiness
    // notifications for it drive no further pass and the shutdown decision
    // does not change.
    let mut agt = relaying_agent();
    assert!(relay_ready(&agt, TOKEN));
    let r = relay_in(&mut agt, TOKEN, false, 0);
    assert_eq!(r, RelayStep::Eof);
    for _ in 0..3 {
        assert!(!relay_ready(&agt, TOKEN));
        assert_eq!(shutdown(&agt), ShutdownStep::Wait);
    }
    assert!(agt.fin_in);
    assert_eq!(agt.state, State::Shutdown);
}
