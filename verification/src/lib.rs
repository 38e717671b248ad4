//! Receiver-side core of a LocalSend-compatible peer-to-peer file transfer
//! tool: multicast discovery, the single-session receive state machine, the
//! streamed-ingestion bookkeeping, and the message bus between the protocol
//! handlers and an interactive front end.
//!
//! Everything here is plain computation over plain values.  The sockets, the
//! TLS stack and the terminal front end live outside this crate and drive
//! these functions; the contracts state exactly what each handler decides.

use vstd::prelude::*;

pub mod discovery;
pub mod keyseq;
pub mod progress;
pub mod protos;
pub mod session;
pub mod tokens;
pub mod wire;

verus! {

/// Size of the buffer a discovery receive loop should use for one datagram.
pub const BUFFER_SIZE: u16 = 2048;

/// How many copies of each periodic announcement are sent, as a hedge
/// against UDP loss.
pub const NUM_REPEAT: u8 = 2;

} // verus!
