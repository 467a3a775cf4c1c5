use vineyard::{ConnectionError, DialOutcome, LookupError, RPCClient, RoundTrip};

const STORE: &str = "127.0.0.1:9600";
const OTHER: &str = "/var/run/store.sock";

#[test]
fn new_client_is_disconnected() {
    let client = RPCClient::new();
    assert!(!client.connected());
    assert_eq!(client.endpoint(), None);
    assert_eq!(client.connection_count(), 0);
}

#[test]
fn connect_succeeds_when_the_dial_is_established() {
    let mut client = RPCClient::new();
    assert!(client.needs_dial(STORE));
    assert_eq!(client.connect(STORE, DialOutcome::Established), Ok(()));
    assert!(client.connected());
    assert_eq!(client.endpoint(), Some(STORE));
    assert_eq!(client.connection_count(), 1);
}

#[test]
fn connect_reports_an_unreachable_endpoint() {
    let mut client = RPCClient::new();
    assert_eq!(
        client.connect(STORE, DialOutcome::Unreachable),
        Err(ConnectionError::Unreachable)
    );
    assert!(!client.connected());
    assert_eq!(client.connection_count(), 0);
}

#[test]
fn connect_reports_a_refused_handshake() {
    let mut client = RPCClient::new();
    assert_eq!(client.connect(STORE, DialOutcome::Refused), Err(ConnectionError::Refused));
    assert!(!client.connected());
    assert_eq!(client.endpoint(), None);
}

#[test]
fn connect_turns_an_empty_address_down_without_a_dial() {
    let mut client = RPCClient::new();
    assert!(!client.needs_dial(""));
    assert_eq!(client.connect("", DialOutcome::Established), Err(ConnectionError::Unreachable));
    assert_eq!(client.connect("", DialOutcome::Refused), Err(ConnectionError::Unreachable));
    assert!(!client.connected());
}

#[test]
fn an_empty_address_leaves_a_connected_client_connected() {
    let mut client = RPCClient::new();
    assert_eq!(client.connect(STORE, DialOutcome::Established), Ok(()));
    assert_eq!(client.connect("", DialOutcome::Established), Err(ConnectionError::Unreachable));
    assert_eq!(client.endpoint(), Some(STORE));
}

#[test]
fn disconnect_after_connect_leaves_the_client_disconnected() {
    let mut client = RPCClient::new();
    assert_eq!(client.connect(STORE, DialOutcome::Established), Ok(()));
    assert!(client.connected());
    client.disconnect();
    assert!(!client.connected());
    assert_eq!(client.endpoint(), None);
    assert_eq!(client.connection_count(), 0);
}

#[test]
fn disconnect_twice_is_the_same_as_once() {
    let mut client = RPCClient::new();
    assert_eq!(client.connect(STORE, DialOutcome::Established), Ok(()));
    client.disconnect();
    client.disconnect();
    assert!(!client.connected());
    assert_eq!(client.connection_count(), 0);
}

#[test]
fn disconnect_on_a_new_client_changes_nothing() {
    let mut client = RPCClient::new();
    client.disconnect();
    assert!(!client.connected());
    assert!(client.needs_dial(STORE));
}

#[test]
fn connect_twice_to_the_same_endpoint_keeps_one_connection() {
    let mut client = RPCClient::new();
    assert_eq!(client.connect(STORE, DialOutcome::Established), Ok(()));
    assert!(!client.needs_dial(STORE));
    assert_eq!(client.connect(STORE, DialOutcome::Established), Ok(()));
    assert!(!client.needs_dial(STORE));
    assert_eq!(client.connect(STORE, DialOutcome::Established), Ok(()));
    assert!(client.connected());
    assert_eq!(client.endpoint(), Some(STORE));
    assert_eq!(client.connection_count(), 1);
}

#[test]
fn connect_to_the_held_endpoint_does_not_look_at_the_dial() {
    let mut client = RPCClient::new();
    assert_eq!(client.connect(STORE, DialOutcome::Established), Ok(()));
    assert_eq!(client.connect(STORE, DialOutcome::Unreachable), Ok(()));
    assert_eq!(client.connect(STORE, DialOutcome::Refused), Ok(()));
    assert_eq!(client.endpoint(), Some(STORE));
    assert_eq!(client.connection_count(), 1);
}

#[test]
fn connect_to_another_endpoint_moves_the_connection() {
    let mut client = RPCClient::new();
    assert_eq!(client.connect(STORE, DialOutcome::Established), Ok(()));
    assert!(client.needs_dial(OTHER));
    assert_eq!(client.connect(OTHER, DialOutcome::Established), Ok(()));
    assert!(client.connected());
    assert_eq!(client.endpoint(), Some(OTHER));
    assert_eq!(client.connection_count(), 1);
    assert!(client.needs_dial(STORE));
}

#[test]
fn a_failed_connect_to_another_endpoint_keeps_the_connection() {
    let mut client = RPCClient::new();
    assert_eq!(client.connect(STORE, DialOutcome::Established), Ok(()));
    assert_eq!(client.connect(OTHER, DialOutcome::Refused), Err(ConnectionError::Refused));
    assert_eq!(client.endpoint(), Some(STORE));
    assert_eq!(
        client.connect(OTHER, DialOutcome::Unreachable),
        Err(ConnectionError::Unreachable)
    );
    assert_eq!(client.endpoint(), Some(STORE));
    assert_eq!(client.connection_count(), 1);
}

#[test]
fn a_client_can_be_connected_again_after_disconnect() {
    let mut client = RPCClient::new();
    assert_eq!(client.connect(STORE, DialOutcome::Established), Ok(()));
    client.disconnect();
    assert!(client.needs_dial(STORE));
    assert_eq!(client.connect(STORE, DialOutcome::Refused), Err(ConnectionError::Refused));
    assert!(!client.connected());
    assert_eq!(client.connect(STORE, DialOutcome::Established), Ok(()));
    assert!(client.connected());
    let found = client.get_meta_data(3, false, RoundTrip::NoSuchObject);
    assert_eq!(found, Err(LookupError::NotFound));
}
