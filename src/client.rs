//! The client side: the two-phase handshake as a state machine, the record of a
//! negotiated connection, and the envelopes of one request/response exchange.
use vstd::prelude::*;

use crate::mgmt::{CommParams, CommSettings, Identity, Request, Response};
use crate::transport::{
    encoded,
    decoded,
    DecodeError,
    Transmission,
    Type,
    HEADER_LEN,
};
use crate::{Service, ServiceModel, PROTOCOL_VERSION};

verus! {

/// The correlation id of every request a client sends; one request is
/// outstanding at a time.
pub const REQUEST_ID: u64 = 42;

/// A requested connection id that leaves the choice to the server.
pub const DYNAMIC_CONNECTION_ID: u32 = 0xFFFF_FFFF;

/// An inactivity timeout that means none.
pub const NO_TIMEOUT: u32 = 0xFFFF_FFFF;

/// Seconds that each step of establishing a connection may take to connect.
pub const CONNECT_TIMEOUT_SECS: u64 = 2;

/// What a `Connection` is.
pub struct ConnectionModel {
    pub id: u32,
    pub port: u16,
    pub server_protocol_version: u32,
    pub server_service: ServiceModel,
}

/// A connection whose handshake has completed: the id and port the server
/// assigned, and what the server said of itself.
#[derive(Debug)]
pub struct Connection {
    id: u32,
    port: u16,
    server_protocol_version: u32,
    server_service: Service,
}

impl View for Connection {
    type V = ConnectionModel;

    closed spec fn view(&self) -> ConnectionModel {
        ConnectionModel {
            id: self.id,
            port: self.port,
            server_protocol_version: self.server_protocol_version,
            server_service: self.server_service@,
        }
    }
}

/// Which of the three compatibility conditions hold.
#[derive(Debug, Clone, Copy, PartialEq, Eq, Structural)]
pub struct Compatibility {
    pub protocol_version: bool,
    pub service_id: bool,
    pub service_version: bool,
}

impl Compatibility {
    /// Whether all three hold.
    pub fn is_compatible(&self) -> (r: bool)
        ensures
            r == (self.protocol_version && self.service_id && self.service_version),
    {
        self.protocol_version && self.service_id && self.service_version
    }
}

impl Connection {
    pub fn id(&self) -> (r: u32)
        ensures
            r == self@.id,
    {
        self.id
    }

    pub fn port(&self) -> (r: u16)
        ensures
            r == self@.port,
    {
        self.port
    }

    pub fn server_protocol_version(&self) -> (r: u32)
        ensures
            r == self@.server_protocol_version,
    {
        self.server_protocol_version
    }

    pub fn server_service(&self) -> (r: &Service)
        ensures
            r@ == self@.server_service,
    {
        &self.server_service
    }

    /// Each of the three conditions, checked independently: this build's
    /// protocol version against the server's, and `service`'s name and version
    /// against those the server supplies.
    pub fn compatibility_report(&self, service: &Service) -> (r: Compatibility)
        ensures
            r.protocol_version == (PROTOCOL_VERSION == self@.server_protocol_version),
            r.service_id == (service@.id == self@.server_service.id),
            r.service_version == (service@.protocol_version
                == self@.server_service.protocol_version),
    {
        let own = service.id();
        let theirs = self.server_service.id();
        Compatibility {
            protocol_version: PROTOCOL_VERSION == self.server_protocol_version,
            service_id: own == theirs,
            service_version: service.protocol_version() == self.server_service.protocol_version(),
        }
    }

    /// Whether the server speaks this build's protocol version and supplies
    /// `service` under the same name and version.
    pub fn compatibility_check(&self, service: Service) -> (r: bool)
        ensures
            r == (PROTOCOL_VERSION == self@.server_protocol_version && service@.id
                == self@.server_service.id && service@.protocol_version
                == self@.server_service.protocol_version),
    {
        self.compatibility_report(&service).is_compatible()
    }
}

/// The state of establishing a connection, driven by the client.
#[derive(Debug)]
pub enum Handshake {
    /// Identify is to be sent, asking for `connection_id` afterwards.
    Identify { connection_id: u32 },
    /// The server identified itself; Connect is to be sent.
    Connect { connection_id: u32, identity: Identity },
    /// The server assigned a dedicated port; it is to be connected to.
    Open { identity: Identity, settings: CommSettings },
    /// A step failed; nothing is established.
    Failed,
}

/// The connection id to ask for: a negative request leaves it to the server.
pub open spec fn requested_id(connection_id: i32) -> u32 {
    if connection_id < 0 {
        DYNAMIC_CONNECTION_ID
    } else {
        connection_id as u32
    }
}

impl Handshake {
    /// A handshake that will ask for `connection_id`, or for any when negative.
    pub fn start(connection_id: i32) -> (r: Handshake)
        ensures
            r == (Handshake::Identify { connection_id: requested_id(connection_id) }),
    {
        let requested: u32 = if connection_id < 0 {
            DYNAMIC_CONNECTION_ID
        } else {
            connection_id as u32
        };
        Handshake::Identify { connection_id: requested }
    }

    /// The management request this state sends, if it sends one.
    pub fn request(&self) -> (r: Option<Request>)
        ensures
            match *self {
                Handshake::Identify { .. } => r == Some(
                    Request::Identify { protocol_version: PROTOCOL_VERSION },
                ),
                Handshake::Connect { connection_id, .. } => r == Some(
                    Request::Connect(
                        CommParams {
                            protocol_version: PROTOCOL_VERSION,
                            connection_id,
                            rpc_interval_timeout_ms: NO_TIMEOUT,
                        },
                    ),
                ),
                _ => r is None,
            },
    {
        match self {
            Handshake::Identify { .. } => Some(
                Request::Identify { protocol_version: PROTOCOL_VERSION },
            ),
            Handshake::Connect { connection_id, .. } => Some(
                Request::Connect(
                    CommParams {
                        protocol_version: PROTOCOL_VERSION,
                        connection_id: *connection_id,
                        rpc_interval_timeout_ms: NO_TIMEOUT,
                    },
                ),
            ),
            _ => None,
        }
    }

    /// The next state, given the reply to this state's request (`None` when
    /// the exchange failed). A reply of any shape but the one expected fails
    /// the handshake.
    pub fn on_reply(self, reply: Option<Response>) -> (r: Handshake)
        ensures
            match (self, reply) {
                (Handshake::Identify { connection_id }, Some(Response::Identify(identity))) => r
                    == (Handshake::Connect { connection_id, identity }),
                (Handshake::Connect { identity, .. }, Some(Response::Connect(settings))) => r
                    == (Handshake::Open { identity, settings }),
                _ => r is Failed,
            },
    {
        match (self, reply) {
            (Handshake::Identify { connection_id }, Some(Response::Identify(identity))) => {
                Handshake::Connect { connection_id, identity }
            },
            (Handshake::Connect { identity, .. }, Some(Response::Connect(settings))) => {
                Handshake::Open { identity, settings }
            },
            _ => Handshake::Failed,
        }
    }

    /// The port of the dedicated connection, once the server assigned it.
    pub fn dedicated_port(&self) -> (r: Option<u16>)
        ensures
            match *self {
                Handshake::Open { settings, .. } => r == Some(settings.port),
                _ => r is None,
            },
    {
        match self {
            Handshake::Open { settings, .. } => Some(settings.port),
            _ => None,
        }
    }

    /// The established connection, once both requests were answered and the
    /// dedicated port is connected; nothing otherwise.
    pub fn establish(self) -> (r: Option<Connection>)
        ensures
            match self {
                Handshake::Open { identity, settings } => r matches Some(c) && c@ == (
                ConnectionModel {
                    id: settings.connection_id,
                    port: settings.port,
                    server_protocol_version: identity.protocol_version,
                    server_service: identity.service@,
                }),
                _ => r is None,
            },
    {
        match self {
            Handshake::Open { identity, settings } => Some(
                Connection {
                    id: settings.connection_id,
                    port: settings.port,
                    server_protocol_version: identity.protocol_version,
                    server_service: identity.service,
                },
            ),
            _ => None,
        }
    }
}

/// Why an exchange on the dedicated connection gave no response.
#[derive(Debug)]
pub enum ReplyError {
    /// The reply is not a transmission.
    Malformed(DecodeError),
    /// The server answered with an error; its serialized payload.
    Remote(Vec<u8>),
    /// The server answered with a variant other than `Response` or `Error`;
    /// its tag.
    Unexpected(u32),
}

/// The transmission bytes of a request whose payload is serialized already.
pub fn request_envelope(payload: Vec<u8>) -> (r: Vec<u8>)
    requires
        payload@.len() + HEADER_LEN <= usize::MAX,
    ensures
        r@ == encoded(Transmission { id: REQUEST_ID, kind: Type::Request(payload@) }),
{
    let t = Transmission { id: REQUEST_ID, kind: Type::Request(payload) };
    t.encode()
}

/// The transmission bytes that end a dedicated connection.
pub fn end_envelope() -> (r: Vec<u8>)
    ensures
        r@ == encoded(Transmission { id: REQUEST_ID, kind: Type::End }),
{
    let t: Transmission<Vec<u8>> = Transmission { id: REQUEST_ID, kind: Type::End };
    t.encode()
}

/// The response payload a reply carries; only a `Response` gives one.
pub fn reply_payload(reply: &[u8]) -> (r: Result<Vec<u8>, ReplyError>)
    ensures
        match decoded(reply@) {
            Err(e) => r matches Err(ReplyError::Malformed(e2)) && e2 == e,
            Ok(t) => match t.kind {
                Type::Response(p) => r matches Ok(q) && q@ == p,
                Type::Error(p) => r matches Err(ReplyError::Remote(q)) && q@ == p,
                Type::End => r matches Err(ReplyError::Unexpected(tag)) && tag == 1,
                Type::Request(_) => r matches Err(ReplyError::Unexpected(tag)) && tag == 2,
                Type::Stream(_) => r matches Err(ReplyError::Unexpected(tag)) && tag == 4,
            },
        },
{
    match Transmission::decode(reply) {
        Err(e) => Err(ReplyError::Malformed(e)),
        Ok(t) => match t.kind {
            Type::Response(p) => Ok(p),
            Type::Error(p) => Err(ReplyError::Remote(p)),
            other => Err(ReplyError::Unexpected(other.tag())),
        },
    }
}

} // verus!
