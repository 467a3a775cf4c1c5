//! The connection as a state machine over mathematical values.
//!
//! A `Link` is what the contracts of the client speak of. Each call on the
//! client is a pair of functions here: what the call returns, and the link
//! that it leaves behind.

use vstd::prelude::*;
use crate::error::{ConnectionError, LookupError};
use crate::metadata::ObjectMetadataView;
use crate::transport::{DialOutcome, RoundTripView};

verus! {

/// The client's link to the remote side.
pub enum Link {
    /// No transport is held.
    Disconnected,
    /// One transport is held, to the endpoint of this address.
    Connected { endpoint: Seq<char> },
}

impl Link {
    /// A transport is held.
    pub open spec fn connected(self) -> bool {
        self is Connected
    }

    /// A transport to this very endpoint is held.
    pub open spec fn holds(self, endpoint: Seq<char>) -> bool {
        self == (Link::Connected { endpoint })
    }

    /// The address of a held transport is never empty.
    pub open spec fn well_formed(self) -> bool {
        self matches Link::Connected { endpoint } ==> endpoint.len() > 0
    }

    /// The number of transports held: one or none.
    pub open spec fn transports(self) -> nat {
        if self is Connected {
            1
        } else {
            0
        }
    }

    /// A `connect` to this endpoint has to dial: the address names an
    /// endpoint, and no transport to it is held yet.
    pub open spec fn must_dial(self, endpoint: Seq<char>) -> bool {
        endpoint.len() > 0 && !self.holds(endpoint)
    }

    /// What `connect` returns.
    ///
    /// A held transport to the same endpoint is success at once. An empty
    /// address names nothing that could be reached. Otherwise the dial
    /// decides.
    pub open spec fn connect_result(self, endpoint: Seq<char>, dial: DialOutcome) -> Result<
        (),
        ConnectionError,
    > {
        if self.holds(endpoint) {
            Ok(())
        } else if endpoint.len() == 0 {
            Err(ConnectionError::Unreachable)
        } else {
            match dial {
                DialOutcome::Established => Ok(()),
                DialOutcome::Unreachable => Err(ConnectionError::Unreachable),
                DialOutcome::Refused => Err(ConnectionError::Refused),
            }
        }
    }

    /// The link after `connect`: to the endpoint where the call succeeded,
    /// untouched where it failed.
    pub open spec fn after_connect(self, endpoint: Seq<char>, dial: DialOutcome) -> Link {
        if self.connect_result(endpoint, dial) is Ok {
            Link::Connected { endpoint }
        } else {
            self
        }
    }

    /// The link after `disconnect`.
    pub open spec fn after_disconnect(self) -> Link {
        Link::Disconnected
    }

    /// What a lookup returns.
    ///
    /// Without a transport nothing was asked, whatever the caller reports.
    /// With one, the record carries the identifier and the flag of the
    /// request and the tag and size of the answer.
    pub open spec fn lookup_result(
        self,
        object_id: u64,
        sync_remote: bool,
        trip: RoundTripView,
    ) -> Result<ObjectMetadataView, LookupError> {
        if !self.connected() {
            Err(LookupError::NotConnected)
        } else {
            match trip {
                RoundTripView::Found { type_tag, size } => Ok(
                    ObjectMetadataView { object_id, type_tag, size, sync_remote },
                ),
                RoundTripView::NoSuchObject => Err(LookupError::NotFound),
                RoundTripView::Fault => Err(LookupError::Transport),
                RoundTripView::DeadlinePassed => Err(LookupError::Transport),
            }
        }
    }

    /// The link after a lookup: a transport that failed is given up, and
    /// nothing else changes.
    pub open spec fn after_lookup(self, trip: RoundTripView) -> Link {
        if self.connected() && trip is Fault {
            Link::Disconnected
        } else {
            self
        }
    }
}

} // verus!
