//! Receiving side of a peer-to-peer dial-back reachability exchange.
//!
//! A peer that wants to learn whether it is publicly reachable asks a
//! cooperating peer to open a fresh connection back to it and return a random
//! token. This crate holds the verified core of the receiving side: the
//! per-connection handler that negotiates the dial-back sub-protocol, admits
//! bounded numbers of concurrent verification reads under a per-operation
//! deadline, and reports each outcome exactly once.
//!
//! All asynchronous I/O stays outside: callers read from streams, watch the
//! clock, and hand the resulting plain events to the state machines in this
//! crate, which decide what happens next.

use vstd::prelude::*;

pub mod codec;
pub mod exchange;
pub mod handler;
pub mod pool;
pub mod protocol;

verus! {

/// The opaque 64-bit token carried by a dial-back message. Its semantics
/// (expected value, matching) belong to the behaviour layer; this crate only
/// transports it.
pub type Nonce = u64;

/// The ways a dial-back operation can fail, surfaced upward to the behaviour
/// layer.
#[derive(Clone, Copy, Debug, PartialEq, Eq, Structural)]
pub enum IoErrorKind {
    /// The stream ended before a complete dial-back message arrived.
    UnexpectedEof,
    /// The bytes received do not form a well-formed dial-back message.
    InvalidData,
    /// The operation outlived its deadline and was evicted.
    TimedOut,
    /// The underlying transport reported that the connection was reset.
    ConnectionReset,
    /// Any other transport-level failure.
    Other,
}

} // verus!
