//! The agent's connections to the server: their states, what each operation
//! does to them, and the errors they give.  Opening sockets and sending
//! bytes stay with the caller, which hands over the outcomes.
use vstd::prelude::*;

verus! {

/// The error of sending on a WebSocket that is not connected.
pub open spec fn not_connected() -> Seq<char> {
    "WebSocket not connected"@
}

/// The error of using a manager that holds no connection.
pub open spec fn no_connection() -> Seq<char> {
    "No active connection"@
}

/// A WebSocket connection, as far as its state goes.
pub struct WebSocketConnection {
    pub connected: bool,
}

impl WebSocketConnection {
    /// A connection not yet open.
    pub fn new() -> (c: WebSocketConnection)
        ensures
            !c.connected,
    {
        WebSocketConnection { connected: false }
    }

    /// Sending succeeds on an open connection; on a closed one it fails
    /// with "WebSocket not connected".
    pub fn send(&self, message: &str) -> (r: Result<(), String>)
        ensures
            r is Ok <==> self.connected,
            r matches Err(e) ==> e@ == not_connected(),
    {
        if !self.connected {
            return Err("WebSocket not connected".to_owned());
        }
        Ok(())
    }

    /// No message is waiting, whether the connection is open or not.
    pub fn receive(&self) -> (r: Option<String>)
        ensures
            r is None,
    {
        None
    }

    /// Whether the connection is open.
    pub fn is_connected(&self) -> (b: bool)
        ensures
            b == self.connected,
    {
        self.connected
    }

    /// Closes the connection.
    pub fn close(&mut self)
        ensures
            !final(self).connected,
    {
        self.connected = false;
    }

    /// "WebSocket".
    pub fn connection_type(&self) -> (r: &'static str)
        ensures
            r@ == "WebSocket"@,
    {
        "WebSocket"
    }
}

/// Makes WebSocket connections.
pub struct WebSocketConnectionFactory;

impl WebSocketConnectionFactory {
    /// The connection that a connect attempt yields: open whether the
    /// handshake succeeded or not (the agent then runs in demo mode).
    pub fn connection_after(handshake_ok: bool) -> (c: WebSocketConnection)
        ensures
            c.connected,
    {
        WebSocketConnection { connected: true }
    }

    /// "WebSocketFactory".
    pub fn factory_name(&self) -> (r: &'static str)
        ensures
            r@ == "WebSocketFactory"@,
    {
        "WebSocketFactory"
    }
}

/// A connection that talks to the server by HTTP requests.
pub struct HttpConnection {
    pub base_url: String,
}

impl HttpConnection {
    /// The connection to `base_url`.
    pub fn new(base_url: String) -> (c: HttpConnection)
        ensures
            c.base_url == base_url,
    {
        HttpConnection { base_url }
    }

    /// Where messages are posted: `{base}/api/message`.
    pub fn message_url(&self) -> (r: String)
        ensures
            r@ == self.base_url@ + "/api/message"@,
    {
        crate::text::concat(self.base_url.as_str(), "/api/message")
    }

    /// Where messages are polled: `{base}/api/messages`.
    pub fn messages_url(&self) -> (r: String)
        ensures
            r@ == self.base_url@ + "/api/messages"@,
    {
        crate::text::concat(self.base_url.as_str(), "/api/messages")
    }

    /// HTTP keeps no connection, so it always counts as connected.
    pub fn is_connected(&self) -> (b: bool)
        ensures
            b,
    {
        true
    }

    /// "HTTP".
    pub fn connection_type(&self) -> (r: &'static str)
        ensures
            r@ == "HTTP"@,
    {
        "HTTP"
    }
}

/// Makes HTTP connections to one server.
pub struct HttpConnectionFactory {
    pub base_url: String,
}

impl HttpConnectionFactory {
    /// The factory for `base_url`.
    pub fn new(base_url: String) -> (f: HttpConnectionFactory)
        ensures
            f.base_url == base_url,
    {
        HttpConnectionFactory { base_url }
    }

    /// A connection to the factory's server, whatever URL is asked for.
    pub fn connect(&self, url: &str) -> (c: HttpConnection)
        ensures
            c.base_url@ == self.base_url@,
    {
        HttpConnection { base_url: self.base_url.clone() }
    }

    /// "HTTPFactory".
    pub fn factory_name(&self) -> (r: &'static str)
        ensures
            r@ == "HTTPFactory"@,
    {
        "HTTPFactory"
    }
}

/// Holds the agent's connection, if it has one.
pub struct ConnectionManager {
    pub connection: Option<WebSocketConnection>,
}

impl ConnectionManager {
    /// A manager without connection.
    pub fn new() -> (m: ConnectionManager)
        ensures
            m.connection is None,
    {
        ConnectionManager { connection: None }
    }

    /// Takes `conn` as the connection.
    pub fn set_connection(&mut self, conn: WebSocketConnection)
        ensures
            final(self).connection == Some(conn),
    {
        self.connection = Some(conn);
    }

    /// Sends on the connection; fails with "No active connection" where
    /// there is none and as the connection fails otherwise.
    pub fn send(&self, message: &str) -> (r: Result<(), String>)
        ensures
            match self.connection {
                Some(c) => (r is Ok <==> c.connected) && (r matches Err(e) ==> e@ == not_connected()),
                None => r matches Err(e) && e@ == no_connection(),
            },
    {
        match &self.connection {
            Some(c) => c.send(message),
            None => Err("No active connection".to_owned()),
        }
    }

    /// Whether a connection is held and open.
    pub fn is_connected(&self) -> (b: bool)
        ensures
            b == (self.connection matches Some(c) && c.connected),
    {
        match &self.connection {
            Some(c) => c.is_connected(),
            None => false,
        }
    }

    /// Closes the connection, if any.
    pub fn close(&mut self)
        ensures
            match final(self).connection {
                Some(c) => !c.connected && old(self).connection is Some,
                None => old(self).connection is None,
            },
    {
        match &mut self.connection {
            Some(c) => c.close(),
            None => {},
        }
    }

    /// The kind of the connection held, if any.
    pub fn connection_type(&self) -> (r: Option<&'static str>)
        ensures
            match r {
                Some(t) => self.connection is Some && t@ == "WebSocket"@,
                None => self.connection is None,
            },
    {
        match &self.connection {
            Some(c) => Some(c.connection_type()),
            None => None,
        }
    }
}

/// A message on the client's socket.
#[derive(Clone, Debug)]
pub struct WsMessage {
    pub content: String,
}

/// The client that a connect attempt yields.
pub struct ConnectResult {
    pub client: WebSocketClient,
}

/// The agent's WebSocket client.
pub struct WebSocketClient {
    pub connected: bool,
    pub connection_type: &'static str,
}

impl WebSocketClient {
    /// The client after a connect attempt: open either way, of type
    /// "WebSocket" where the handshake succeeded and "WebSocket-Demo" where
    /// it did not.
    pub fn connect_outcome(handshake_ok: bool) -> (r: ConnectResult)
        ensures
            r.client.connected,
            r.client.connection_type@ == (if handshake_ok {
                "WebSocket"@
            } else {
                "WebSocket-Demo"@
            }),
    {
        let connection_type = if handshake_ok {
            "WebSocket"
        } else {
            "WebSocket-Demo"
        };
        ConnectResult { client: WebSocketClient { connected: true, connection_type } }
    }

    /// Sending succeeds on an open client and fails with "WebSocket not
    /// connected" on a closed one.
    pub fn send(&self, message: &WsMessage) -> (r: Result<(), String>)
        ensures
            r is Ok <==> self.connected,
            r matches Err(e) ==> e@ == not_connected(),
    {
        if !self.connected {
            return Err("WebSocket not connected".to_owned());
        }
        Ok(())
    }

    /// No message is waiting.
    pub fn receive(&self) -> (r: Option<WsMessage>)
        ensures
            r is None,
    {
        None
    }

    /// Whether the client is open.
    pub fn is_connected(&self) -> (b: bool)
        ensures
            b == self.connected,
    {
        self.connected
    }

    /// Closes the client; its type stays.
    pub fn close(&mut self)
        ensures
            !final(self).connected,
            final(self).connection_type == old(self).connection_type,
    {
        self.connected = false;
    }

    /// The client's type.
    pub fn connection_type(&self) -> (r: &'static str)
        ensures
            r == self.connection_type,
    {
        self.connection_type
    }
}

} // verus!
