//! Tests of the embedded client connector.

use buttplug::connector::{ButtplugClient, ButtplugClientConnector, ButtplugClientError,
    ButtplugEmbeddedClientConnector, ButtplugMessageUnion};

#[test]
fn test_embedded_connector() {
    let mut client = ButtplugClient::new("Test Client");
    client.connect(ButtplugEmbeddedClientConnector::new("Test Server", 0));
    assert!(client.connected());
}

#[test]
fn send_without_connect_is_a_connector_error() {
    let mut connector = ButtplugEmbeddedClientConnector::new("Test Server", 0);
    let r = connector.send(&ButtplugMessageUnion::Ping);
    match r {
        Err(ButtplugClientError::ButtplugClientConnectorError(e)) => {
            assert_eq!(e.description(), "Client not connected to server.");
        },
        _ => panic!("a connector without a server must refuse to send"),
    }
}

#[test]
fn connect_then_send_is_acknowledged() {
    let mut connector = ButtplugEmbeddedClientConnector::new("Test Server", 0);
    assert!(connector.connect().is_none());
    let r = connector.send(&ButtplugMessageUnion::Ping);
    assert!(matches!(r, Ok(ButtplugMessageUnion::MessageOk)));
    assert!(connector.disconnect().is_none());
    assert!(connector.send(&ButtplugMessageUnion::Ping).is_err());
}
