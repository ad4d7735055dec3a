//! Client-side connectors.
//!
//! A connector joins a client to a server: over a transport, or — here —
//! to a server embedded in the same process.  The outer client/server
//! message routing is a collaborator of this subsystem, not part of it;
//! the embedded server below stands for it with the one behaviour the
//! connector relies on: it acknowledges every message it is handed.

use vstd::prelude::*;

verus! {

/// A message of the client/server protocol.
#[derive(Clone, Copy, Debug, PartialEq, Eq, Structural)]
pub enum ButtplugMessageUnion {
    MessageOk,
    Ping,
}

/// An error of the server itself.
#[derive(Clone, Debug, PartialEq, Eq)]
pub struct ButtplugError {
    pub message: String,
}

/// An error raised by a connector: failure to connect, to disconnect, or
/// to reach the server.
#[derive(Debug)]
pub struct ButtplugClientConnectorError {
    pub message: String,
}

impl ButtplugClientConnectorError {
    /// The error's text.
    pub fn description(&self) -> (r: &str)
        ensures
            r@ == self.message@,
    {
        self.message.as_str()
    }
}

/// An error surfaced to the client: either the connector failed, or the
/// server answered with an error.
#[derive(Debug)]
pub enum ButtplugClientError {
    ButtplugClientConnectorError(ButtplugClientConnectorError),
    ButtplugError(ButtplugError),
}

/// The in-process server the embedded connector hands messages to.  The
/// full server lives above this subsystem; this one acknowledges every
/// message, which is all the connector's contract relies on.
#[derive(Clone, Debug)]
pub struct ButtplugServer {
    pub server_name: String,
    pub max_ping_time: u32,
}

impl ButtplugServer {
    /// A server with the given name and ping deadline.
    pub fn new(name: &str, max_ping_time: u32) -> (r: ButtplugServer)
        ensures
            r.server_name@ == name@,
            r.max_ping_time == max_ping_time,
    {
        ButtplugServer { server_name: String::from_str(name), max_ping_time }
    }

    /// Hands the server one message; it is acknowledged.
    pub fn send_message(&mut self, msg: &ButtplugMessageUnion) -> (r: Result<
        ButtplugMessageUnion,
        ButtplugError,
    >)
        ensures
            *final(self) == *old(self),
            r == Ok::<ButtplugMessageUnion, ButtplugError>(ButtplugMessageUnion::MessageOk),
    {
        let _ = msg;
        Ok(ButtplugMessageUnion::MessageOk)
    }
}

/// What a client needs of a connector: connect, disconnect, and a
/// round-trip send.  `connect` and `disconnect` answer `None` on success
/// and the error otherwise.
///
/// Each connector says in [`ButtplugClientConnector::connect_succeeds`] on
/// which of its states a connect attempt is sure to succeed; `connect`
/// promises success there, so a client holding such a connector can count
/// on coming up connected.
pub trait ButtplugClientConnector {
    /// Whether a connect attempt on this connector is sure to succeed.
    spec fn connect_succeeds(&self) -> bool;

    fn connect(&mut self) -> (r: Option<ButtplugClientConnectorError>)
        ensures
            old(self).connect_succeeds() ==> r is None,
    ;

    fn disconnect(&mut self) -> Option<ButtplugClientConnectorError>;

    fn send(&mut self, msg: &ButtplugMessageUnion) -> Result<
        ButtplugMessageUnion,
        ButtplugClientError,
    >;
}

/// A connector to a server embedded in the same process: `connect` builds
/// the server, `disconnect` drops it, `send` hands it a message.
pub struct ButtplugEmbeddedClientConnector {
    pub server: Option<ButtplugServer>,
    pub server_name: String,
    pub max_ping_time: u32,
}

impl ButtplugEmbeddedClientConnector {
    /// A connector that will build its server with the given name and
    /// ping deadline; not yet connected.
    pub fn new(name: &str, max_ping_time: u32) -> (r: ButtplugEmbeddedClientConnector)
        ensures
            r.server is None,
            r.server_name@ == name@,
            r.max_ping_time == max_ping_time,
    {
        ButtplugEmbeddedClientConnector {
            server: None,
            server_name: String::from_str(name),
            max_ping_time,
        }
    }
}

impl ButtplugClientConnector for ButtplugEmbeddedClientConnector {
    /// An embedded connector always connects: the server is built in
    /// process.
    open spec fn connect_succeeds(&self) -> bool {
        true
    }

    /// Builds the embedded server; never fails.
    fn connect(&mut self) -> (r: Option<ButtplugClientConnectorError>)
        ensures
            final(self).server matches Some(srv) && srv.server_name@ == old(self).server_name@
                && srv.max_ping_time == old(self).max_ping_time,
            final(self).server_name@ == old(self).server_name@,
            final(self).max_ping_time == old(self).max_ping_time,
            r is None,
    {
        self.server = Some(ButtplugServer::new(self.server_name.as_str(), self.max_ping_time));
        None
    }

    /// Drops the embedded server; never fails.
    fn disconnect(&mut self) -> (r: Option<ButtplugClientConnectorError>)
        ensures
            final(self).server is None,
            final(self).server_name@ == old(self).server_name@,
            final(self).max_ping_time == old(self).max_ping_time,
            r is None,
    {
        self.server = None;
        None
    }

    /// Hands the server one message.  Without a connected server this is
    /// the connector error saying so; with one, the server's answer.
    fn send(&mut self, msg: &ButtplugMessageUnion) -> (r: Result<
        ButtplugMessageUnion,
        ButtplugClientError,
    >)
        ensures
            final(self).server == old(self).server,
            final(self).server_name@ == old(self).server_name@,
            final(self).max_ping_time == old(self).max_ping_time,
            old(self).server is None ==> (r matches Err(
                ButtplugClientError::ButtplugClientConnectorError(e),
            ) && e.message@ == "Client not connected to server."@),
            old(self).server is Some ==> (r matches Ok(m) && m == ButtplugMessageUnion::MessageOk),
    {
        match &mut self.server {
            Some(srv) => match srv.send_message(msg) {
                Ok(m) => Ok(m),
                Err(e) => Err(ButtplugClientError::ButtplugError(e)),
            },
            None => Err(
                ButtplugClientError::ButtplugClientConnectorError(
                    ButtplugClientConnectorError {
                        message: String::from_str("Client not connected to server."),
                    },
                ),
            ),
        }
    }
}

/// A minimal client around a connector: it remembers its name and whether
/// its last connection attempt succeeded.
pub struct ButtplugClient {
    client_name: String,
    connected: bool,
}

impl ButtplugClient {
    /// Whether the client is connected.
    pub closed spec fn spec_connected(&self) -> bool {
        self.connected
    }

    /// The client's name.
    pub closed spec fn spec_client_name(&self) -> Seq<char> {
        self.client_name@
    }

    /// A fresh, unconnected client.
    pub fn new(name: &str) -> (r: ButtplugClient)
        ensures
            r.spec_client_name() == name@,
            !r.spec_connected(),
    {
        ButtplugClient { client_name: String::from_str(name), connected: false }
    }

    /// Connects through the given connector; the client counts itself
    /// connected exactly when the connector reported no error.
    pub fn connect<C: ButtplugClientConnector>(&mut self, connector: C) -> (r: Option<
        ButtplugClientConnectorError,
    >)
        ensures
            final(self).spec_connected() == (r is None),
            connector.connect_succeeds() ==> final(self).spec_connected(),
            final(self).spec_client_name() == old(self).spec_client_name(),
    {
        let mut connector = connector;
        let r = connector.connect();
        self.connected = r.is_none();
        r
    }

    /// Whether the last connection attempt succeeded.
    pub fn connected(&self) -> (r: bool)
        ensures
            r == self.spec_connected(),
    {
        self.connected
    }
}

} // verus!
