//! A user-space bridge between a single-threaded, callback-driven protocol
//! engine and asynchronous stream/datagram sockets.
//!
//! The engine itself (packet parsing, retransmission, flow control) is an
//! external collaborator reached only through opaque numeric handles and
//! numeric result codes. This crate holds the bridge logic: per-connection
//! buffering and flow-control bookkeeping, end-of-stream and error
//! propagation, write backpressure, bounded datagram queues, accept queues,
//! and teardown decisions. Every engine interaction is expressed as a plain
//! value (a result code handed in, an action value handed out), so the whole
//! bridge is verified; the surrounding async runtime performs the actions.
//!
//! The engine is not reentrant: every access to it, and to the per-connection
//! records its callbacks touch, must be serialized by one global lock. Here
//! that lock is modelled by exclusive borrows: each operation takes `&mut`
//! access to the record it works on, so no two operations can interleave.

use vstd::prelude::*;

pub mod bytes_buf;
pub mod endpoint;
pub mod stack;
pub mod tcp_listener;
pub mod tcp_stream;
pub mod udp;
pub mod util;

verus! {

/// Engine result code for success.
pub const ERR_OK: i8 = 0;

/// Engine result code for "out of buffer/memory: retry later".
pub const ERR_MEM: i8 = -1;

/// Engine result code for "not connected / already closed".
pub const ERR_CONN: i8 = -11;

/// Failure surfaced when creating or binding a new engine object.
#[derive(Debug, Clone, Copy, PartialEq, Eq, Structural)]
pub enum Error {
    /// The engine refused the operation with the carried numeric code.
    LwIP(i8),
}

/// Failure surfaced by an established socket's operations.
#[derive(Debug, Clone, Copy, PartialEq, Eq, Structural)]
pub enum StreamError {
    /// The peer or the engine tore the session down.
    BrokenPipe,
    /// The engine reported a terminal fault with the carried numeric code.
    Transport(i8),
}

/// The error a stream operation reports once the session is torn down.
pub fn broken_pipe() -> (e: StreamError)
    ensures
        e == StreamError::BrokenPipe,
{
    StreamError::BrokenPipe
}

} // verus!
