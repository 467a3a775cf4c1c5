//! What the caller reports back after doing the network work that the client
//! asked for.

use vstd::prelude::*;

verus! {

/// What came of dialing an endpoint.
#[derive(Debug, Clone, Copy, PartialEq, Eq, Structural)]
pub enum DialOutcome {
    /// A transport to the endpoint stands, and the handshake went through.
    Established,
    /// The endpoint could not be reached.
    Unreachable,
    /// The endpoint was reached, and the remote side turned the handshake down.
    Refused,
}

/// What came of one metadata round trip over the transport.
#[derive(Debug, PartialEq, Eq)]
pub enum RoundTrip {
    /// The remote side knows the object and described it.
    Found { type_tag: String, size: u64 },
    /// The remote side answered that it knows no such object.
    NoSuchObject,
    /// The transport failed before an answer arrived.
    Fault,
    /// The caller's own deadline passed before an answer arrived; the
    /// transport itself is not known to have failed.
    DeadlinePassed,
}

/// A `RoundTrip` as the contracts see it.
pub enum RoundTripView {
    Found { type_tag: Seq<char>, size: u64 },
    NoSuchObject,
    Fault,
    DeadlinePassed,
}

impl View for RoundTrip {
    type V = RoundTripView;

    open spec fn view(&self) -> RoundTripView {
        match *self {
            RoundTrip::Found { type_tag, size } => RoundTripView::Found { type_tag: type_tag@, size },
            RoundTrip::NoSuchObject => RoundTripView::NoSuchObject,
            RoundTrip::Fault => RoundTripView::Fault,
            RoundTrip::DeadlinePassed => RoundTripView::DeadlinePassed,
        }
    }
}

} // verus!
