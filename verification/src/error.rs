//! The error kinds of the transport, dispatch and tunnel layers.

use vstd::prelude::*;

verus! {

/// Everything that can go wrong between receiving bytes and handing a request
/// to its handler, and while keeping the tunnel alive.
#[derive(Clone, Copy, Debug, PartialEq, Eq, Structural)]
pub enum ErrorKind {
    /// The bytes do not parse as an array that starts with an unsigned tag.
    MalformedEnvelope,
    /// The tag lies outside the closed enumeration of message types.
    UnknownMessageType,
    /// The tag names a message type for which no handler is wired.
    UnsupportedMessageType,
    /// The tag is known but the fields do not match the schema of its type.
    PayloadDecodeError,
    /// A reply carries another type than the one the client asked for.
    TypeMismatch,
    /// A socket could not be read, written or connected.
    TransportError,
    /// The tunnel process could not be started.
    TunnelSpawnFailure,
    /// The tunnel process crashed more often in a row than the retry limit allows.
    TunnelRetryExhausted,
}

} // verus!
