//! What holds of the connection over one call, over two calls in a row, and
//! over every run of calls.

use vstd::prelude::*;
use crate::error::LookupError;
use crate::link::Link;
use crate::metadata::ObjectMetadataView;
use crate::transport::{DialOutcome, RoundTripView};

verus! {

/// One call on the client, together with what the caller reported to it.
pub enum Call {
    Connect { endpoint: Seq<char>, dial: DialOutcome },
    Disconnect,
    Lookup { object_id: u64, sync_remote: bool, trip: RoundTripView },
}

/// The link that a call leaves behind.
pub open spec fn after(link: Link, call: Call) -> Link {
    match call {
        Call::Connect { endpoint, dial } => link.after_connect(endpoint, dial),
        Call::Disconnect => link.after_disconnect(),
        Call::Lookup { trip, .. } => link.after_lookup(trip),
    }
}

/// The link after a run of calls, made one after the other from `start`.
pub open spec fn run(start: Link, calls: Seq<Call>) -> Link
    decreases calls.len(),
{
    if calls.len() == 0 {
        start
    } else {
        after(run(start, calls.drop_last()), calls.last())
    }
}

/// The call is a `connect` that succeeds on this link.
pub open spec fn connects(link: Link, call: Call) -> bool {
    call matches Call::Connect { endpoint, dial } && link.connect_result(endpoint, dial) is Ok
}

/// A client on which no `connect` has ever succeeded is disconnected, and
/// every lookup on it fails as `NotConnected`, whatever else was called on
/// it before and whatever the caller reports.
pub proof fn lemma_never_connected_never_looks_up(
    calls: Seq<Call>,
    object_id: u64,
    sync_remote: bool,
    trip: RoundTripView,
)
    requires
        forall|i: int|
            0 <= i < calls.len() ==> !connects(
                run(Link::Disconnected, calls.take(i)),
                #[trigger] calls[i],
            ),
    ensures
        run(Link::Disconnected, calls) == Link::Disconnected,
        run(Link::Disconnected, calls).lookup_result(object_id, sync_remote, trip) == Err::<
            ObjectMetadataView,
            LookupError,
        >(LookupError::NotConnected),
    decreases calls.len(),
{
    if calls.len() > 0 {
        let earlier = calls.drop_last();
        assert forall|i: int| 0 <= i < earlier.len() implies !connects(
            run(Link::Disconnected, earlier.take(i)),
            #[trigger] earlier[i],
        ) by {
            assert(earlier.take(i) == calls.take(i));
            assert(earlier[i] == calls[i]);
        }
        lemma_never_connected_never_looks_up(earlier, object_id, sync_remote, trip);
        assert(calls.take(calls.len() - 1) == earlier);
        assert(!connects(Link::Disconnected, calls[calls.len() - 1]));
    }
}

/// After a `connect` that succeeded the client is connected, and to the
/// endpoint that was asked for; after `disconnect` it is not connected.
pub proof fn lemma_connect_and_disconnect_take_effect(
    link: Link,
    endpoint: Seq<char>,
    dial: DialOutcome,
)
    ensures
        link.connect_result(endpoint, dial) is Ok ==> link.after_connect(endpoint, dial).holds(
            endpoint,
        ) && link.after_connect(endpoint, dial).connected(),
        link.connect_result(endpoint, dial) is Err ==> link.after_connect(endpoint, dial) == link,
        !link.after_disconnect().connected(),
{
}

/// `disconnect` twice in a row leaves what one `disconnect` leaves: a client
/// that is not connected.
pub proof fn lemma_disconnect_is_idempotent(link: Link)
    ensures
        link.after_disconnect().after_disconnect() == link.after_disconnect(),
        !link.after_disconnect().after_disconnect().connected(),
{
}

/// Once a `connect` to an endpoint has succeeded, a further `connect` to the
/// same endpoint succeeds whatever a dial would bring, asks for no dial, and
/// leaves the one transport in place. Where the transport was held before
/// the first of the two calls, that call asked for no dial either.
pub proof fn lemma_connect_again_reuses_transport(
    link: Link,
    endpoint: Seq<char>,
    first: DialOutcome,
    second: DialOutcome,
)
    requires
        link.connect_result(endpoint, first) is Ok,
    ensures
        ({
            let once = link.after_connect(endpoint, first);
            &&& !once.must_dial(endpoint)
            &&& once.connect_result(endpoint, second) is Ok
            &&& once.after_connect(endpoint, second) == once
            &&& once.transports() == 1
        }),
        link.holds(endpoint) ==> !link.must_dial(endpoint) && link.after_connect(endpoint, first)
            == link,
{
}

/// A lookup brings metadata only over a held transport and only from an
/// answer of the remote side, and the record then carries the identifier and
/// the flag of the request.
pub proof fn lemma_metadata_answers_the_request(
    link: Link,
    object_id: u64,
    sync_remote: bool,
    trip: RoundTripView,
)
    ensures
        link.lookup_result(object_id, sync_remote, trip) is Ok <==> link.connected()
            && trip is Found,
        link.lookup_result(object_id, sync_remote, trip) matches Ok(meta) ==> meta.object_id
            == object_id && meta.sync_remote == sync_remote,
        !link.connected() ==> link.lookup_result(object_id, sync_remote, trip) == Err::<
            ObjectMetadataView,
            LookupError,
        >(LookupError::NotConnected),
{
}

/// A transport fault during a lookup fails the lookup as `Transport` and
/// leaves the client disconnected. A lookup that ends in any other way leaves
/// the link as it was.
pub proof fn lemma_transport_fault_disconnects(
    link: Link,
    object_id: u64,
    sync_remote: bool,
    trip: RoundTripView,
)
    ensures
        link.connected() && trip is Fault ==> link.after_lookup(trip) == Link::Disconnected
            && link.lookup_result(object_id, sync_remote, trip) == Err::<
            ObjectMetadataView,
            LookupError,
        >(LookupError::Transport),
        !(trip is Fault) ==> link.after_lookup(trip) == link,
{
}

/// No link is a dead end: from every link a `connect` to a named endpoint
/// whose dial is established succeeds, and `disconnect` leads back to the
/// link that a new client starts with.
pub proof fn lemma_no_link_is_final(link: Link, endpoint: Seq<char>)
    requires
        endpoint.len() > 0,
    ensures
        link.connect_result(endpoint, DialOutcome::Established) is Ok,
        link.after_connect(endpoint, DialOutcome::Established).holds(endpoint),
        link.after_disconnect() == Link::Disconnected,
{
}

/// Every run of calls from a well-formed link ends in a well-formed link,
/// with one transport held or none.
pub proof fn lemma_run_stays_well_formed(start: Link, calls: Seq<Call>)
    requires
        start.well_formed(),
    ensures
        run(start, calls).well_formed(),
        run(start, calls).transports() <= 1,
    decreases calls.len(),
{
    if calls.len() > 0 {
        lemma_run_stays_well_formed(start, calls.drop_last());
    }
}

} // verus!
