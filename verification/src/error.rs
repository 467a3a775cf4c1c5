//! The failures that the client reports to its caller.

use vstd::prelude::*;

verus! {

/// Why a `connect` call did not leave the client connected to the endpoint.
#[derive(Debug, Clone, Copy, PartialEq, Eq, Structural)]
pub enum ConnectionError {
    /// No transport to the endpoint could be established.
    Unreachable,
    /// The endpoint was reached, and the remote side turned the handshake down.
    Refused,
}

/// Why a metadata lookup brought no metadata.
#[derive(Debug, Clone, Copy, PartialEq, Eq, Structural)]
pub enum LookupError {
    /// The client holds no connection, so nothing was asked of the remote side.
    NotConnected,
    /// The remote side answered that it knows no object of that identifier.
    NotFound,
    /// The round trip ended without an answer: the transport failed, or the
    /// caller's deadline passed.
    Transport,
}

} // verus!
