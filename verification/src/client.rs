//! The client: the link it holds, and the calls that move it.

use vstd::prelude::*;
use crate::error::{ConnectionError, LookupError};
use crate::link::Link;
use crate::metadata::ObjectMetadata;
use crate::transport::{DialOutcome, RoundTrip};

verus! {

/// A client of a remote metadata service, without the network.
///
/// The client owns the decisions of the connection's life. The caller owns the
/// transport: it dials when `needs_dial` says so, makes a round trip when
/// `connected` says so, and hands what came of it to `connect` and
/// `get_meta_data`.
#[derive(Debug)]
pub struct RPCClient {
    endpoint: Option<String>,
}

impl View for RPCClient {
    type V = Link;

    closed spec fn view(&self) -> Link {
        match self.endpoint {
            Some(address) => Link::Connected { endpoint: address@ },
            None => Link::Disconnected,
        }
    }
}

impl RPCClient {
    #[verifier::type_invariant]
    spec fn inv(&self) -> bool {
        self@.well_formed()
    }

    /// A client that holds no connection.
    pub fn new() -> (client: Self)
        ensures
            client@ == Link::Disconnected,
    {
        RPCClient { endpoint: None }
    }

    /// Whether a connection is held. Nothing is asked of the remote side.
    pub fn connected(&self) -> (held: bool)
        ensures
            held == self@.connected(),
    {
        self.endpoint.is_some()
    }

    /// The address of the endpoint that the client is connected to, if it is
    /// connected.
    pub fn endpoint(&self) -> (address: Option<&str>)
        ensures
            (match address {
                Some(held) => self@ == (Link::Connected { endpoint: held@ }) && held@.len() > 0,
                None => self@ == Link::Disconnected,
            }),
    {
        proof {
            use_type_invariant(self);
        }
        match &self.endpoint {
            Some(held) => Some(held.as_str()),
            None => None,
        }
    }

    /// The number of logical connections that the client holds: one while it
    /// is connected, none otherwise.
    pub fn connection_count(&self) -> (count: usize)
        ensures
            count == self@.transports(),
    {
        if self.endpoint.is_some() {
            1
        } else {
            0
        }
    }

    /// Whether a `connect` to this endpoint needs the caller to dial it first.
    ///
    /// No dial is needed where a transport to the endpoint is held already,
    /// nor for an empty address, which `connect` turns down by itself.
    pub fn needs_dial(&self, endpoint: &str) -> (needed: bool)
        ensures
            needed == self@.must_dial(endpoint@),
    {
        !endpoint.is_empty() && !self.holds(endpoint)
    }

    /// Connects the client to an endpoint.
    ///
    /// `dial` is what came of dialing `endpoint`. It is looked at only where
    /// `needs_dial` asked for the dial: a client that holds a transport to
    /// the endpoint succeeds at once and keeps that transport, and an empty
    /// address fails as `Unreachable`. A failed call leaves the client as it
    /// was.
    pub fn connect(&mut self, endpoint: &str, dial: DialOutcome) -> (result: Result<
        (),
        ConnectionError,
    >)
        ensures
            result == old(self)@.connect_result(endpoint@, dial),
            final(self)@ == old(self)@.after_connect(endpoint@, dial),
    {
        if self.holds(endpoint) {
            return Ok(());
        }
        if endpoint.is_empty() {
            return Err(ConnectionError::Unreachable);
        }
        match dial {
            DialOutcome::Established => {
                self.endpoint = Some(endpoint.to_owned());
                Ok(())
            },
            DialOutcome::Unreachable => Err(ConnectionError::Unreachable),
            DialOutcome::Refused => Err(ConnectionError::Refused),
        }
    }

    /// Gives the connection up. A client that holds none stays as it is.
    pub fn disconnect(&mut self)
        ensures
            final(self)@ == old(self)@.after_disconnect(),
    {
        self.endpoint = None;
    }

    /// Looks up the metadata of an object.
    ///
    /// `trip` is what came of the round trip for this request. A client that
    /// is not connected asks nothing of the remote side, and fails whatever
    /// `trip` holds. A transport that failed is given up.
    pub fn get_meta_data(&mut self, object_id: u64, sync_remote: bool, trip: RoundTrip) -> (result:
        Result<ObjectMetadata, LookupError>)
        ensures
            final(self)@ == old(self)@.after_lookup(trip@),
            (match old(self)@.lookup_result(object_id, sync_remote, trip@) {
                Ok(record) => result matches Ok(meta) && meta@ == record,
                Err(error) => result == Err::<ObjectMetadata, LookupError>(error),
            }),
    {
        if self.endpoint.is_none() {
            return Err(LookupError::NotConnected);
        }
        match trip {
            RoundTrip::Found { type_tag, size } => Ok(
                ObjectMetadata::assemble(object_id, type_tag, size, sync_remote),
            ),
            RoundTrip::NoSuchObject => Err(LookupError::NotFound),
            RoundTrip::Fault => {
                self.endpoint = None;
                Err(LookupError::Transport)
            },
            RoundTrip::DeadlinePassed => Err(LookupError::Transport),
        }
    }

    /// Whether a transport to this very endpoint is held.
    fn holds(&self, endpoint: &str) -> (same: bool)
        ensures
            same == self@.holds(endpoint@),
    {
        match &self.endpoint {
            Some(held) => *held == endpoint.to_owned(),
            None => false,
        }
    }
}

} // verus!
