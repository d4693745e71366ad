//! Connection-handling core of a SOCKS5 proxy server.
//!
//! The library is the pure part of a per-connection state machine: it
//! negotiates the SOCKS5 handshake from buffered bytes, decides when a
//! connection to the requested destination must be opened, and drives the
//! bidirectional relay and shutdown sequencing. All socket work (reads,
//! writes, connects, reactor registration) is performed by the embedding
//! program, which feeds the results back into these functions as plain
//! values.

pub mod agent;
pub mod buffer;
pub mod negotiate;
pub mod relay;
pub mod util;
