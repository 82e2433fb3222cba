//! The server side: the pluggable executor, the answers to management
//! requests, and what the per-connection loop does with each frame it reads.
use vstd::prelude::*;

use std::sync::Arc;

use crate::mgmt::{CommSettings, Identity, Request, Response};
use crate::transport::{
    decoded,
    encoded,
    lemma_round_trip,
    payload_of,
    tag_of,
    DecodeError,
    Transmission,
    Type,
    HEADER_LEN,
};
use crate::bytes::{lemma_be_u32_value_of_bytes, lemma_be_u64_value_of_bytes};
use crate::util::{framed, lemma_unframe_frame, unframed, FrameError, LENGTH_PREFIX_LEN};
use crate::{Service, PROTOCOL_VERSION};

verus! {

/// Milliseconds a worker waits for its client to connect.
pub const ACCEPT_TIMEOUT_MS: u64 = 2000;

/// The application logic behind a server, shared by every connection's worker
/// and so called concurrently.
pub trait MessageProcessing: Send + Sync {
    type Rq;

    type Rsp;

    type E;

    fn new() -> Arc<Self>;

    /// Called once a dedicated connection is accepted; does nothing unless
    /// overridden.
    fn setup(&self, connection_info: String, connection_id: u32) {
    }

    fn execute(&self, connection_id: u32, rpc: Self::Rq) -> Result<Self::Rsp, Self::E>;

    /// Called once a dedicated connection's loop ended; does nothing unless
    /// overridden.
    fn cleanup(&self, connection_info: String, connection_id: u32) {
    }
}

/// A dispatch server: its management port, its service, and its executor.
pub struct Server<T: MessageProcessing> {
    message_processing: Arc<T>,
    port: u16,
    service: Service,
}

/// What the server does with a management request.
#[derive(Debug)]
pub enum MgmtAction {
    /// Answer at once.
    Reply(Response),
    /// Open a listener for a dedicated connection under this id, then answer
    /// with `connected`.
    OpenConnection { connection_id: u32 },
}

/// Whether the per-connection loop goes on.
#[derive(Debug, Clone, Copy, PartialEq, Eq, Structural)]
pub enum TransceiveLoopAction {
    Stop,
    Continue,
}

impl<T: MessageProcessing> Server<T> {
    pub fn new(port: u16, service: Service) -> (r: Server<T>)
        ensures
            r.port_spec() == port,
            r.service_spec()@ == service@,
    {
        Server { message_processing: T::new(), port, service }
    }

    pub closed spec fn port_spec(&self) -> u16 {
        self.port
    }

    pub closed spec fn service_spec(&self) -> Service {
        self.service
    }

    pub fn port(&self) -> (r: u16)
        ensures
            r == self.port_spec(),
    {
        self.port
    }

    pub fn service(&self) -> (r: &Service)
        ensures
            r@ == self.service_spec()@,
    {
        &self.service
    }

    /// The executor that every worker shares.
    pub fn message_processing(&self) -> &Arc<T> {
        &self.message_processing
    }

    /// The answer to a management request. Identify is always answered with
    /// this build's version and the server's service, whatever version the
    /// client speaks; Connect asks for a dedicated listener first.
    pub fn execute(&self, rpc: Request) -> (r: MgmtAction)
        ensures
            match rpc {
                Request::Identify { .. } => r matches MgmtAction::Reply(Response::Identify(i)) && i.protocol_version
                    == PROTOCOL_VERSION && i.service@ == self.service_spec()@,
                Request::Connect(params) => r == (MgmtAction::OpenConnection {
                    connection_id: params.connection_id,
                }),
                Request::CheckRunState => r matches MgmtAction::Reply(Response::CheckRunState),
            },
    {
        match rpc {
            Request::Identify { .. } => MgmtAction::Reply(
                Response::Identify(
                    Identity { protocol_version: PROTOCOL_VERSION, service: self.service.duplicate() },
                ),
            ),
            Request::Connect(params) => MgmtAction::OpenConnection {
                connection_id: params.connection_id,
            },
            Request::CheckRunState => MgmtAction::Reply(Response::CheckRunState),
        }
    }

    /// The answer to Connect once the dedicated listener is on `port`.
    pub fn connected(connection_id: u32, port: u16) -> (r: Response)
        ensures
            r == Response::Connect(CommSettings { connection_id, port }),
    {
        Response::Connect(CommSettings { connection_id, port })
    }
}

/// What a worker makes of one frame from its client.
#[derive(Debug)]
pub enum Incoming {
    /// A request to hand to the executor, with its correlation id.
    Execute { id: u64, payload: Vec<u8> },
    /// A variant a client must not send; it is answered with an error.
    Reject { id: u64 },
    /// The client ended the connection.
    Stop,
    /// Not a transmission; the loop ends.
    Malformed(DecodeError),
}

impl Incoming {
    /// Whether the loop goes on after this frame.
    pub fn loop_action(&self) -> (r: TransceiveLoopAction)
        ensures
            r == (match *self {
                Incoming::Stop | Incoming::Malformed(_) => TransceiveLoopAction::Stop,
                _ => TransceiveLoopAction::Continue,
            }),
    {
        match self {
            Incoming::Stop | Incoming::Malformed(_) => TransceiveLoopAction::Stop,
            _ => TransceiveLoopAction::Continue,
        }
    }
}

/// Whether `b` is an `End` transmission.
pub open spec fn is_end_signal(b: Seq<u8>) -> bool {
    match decoded(b) {
        Ok(t) => t.kind is End,
        Err(_) => false,
    }
}

/// What a worker makes of the transmission bytes `b` of one frame.
pub fn classify(b: &[u8]) -> (r: Incoming)
    ensures
        match decoded(b@) {
            Err(e) => r == Incoming::Malformed(e),
            Ok(t) => match t.kind {
                Type::Request(p) => r matches Incoming::Execute { id, payload } && id == t.id
                    && payload@ == p,
                Type::End => r is Stop,
                _ => r == (Incoming::Reject { id: t.id }),
            },
        },
        r is Stop <==> is_end_signal(b@),
{
    match Transmission::decode(b) {
        Err(e) => Incoming::Malformed(e),
        Ok(t) => match t.kind {
            Type::Request(payload) => Incoming::Execute { id: t.id, payload },
            Type::End => Incoming::Stop,
            _ => Incoming::Reject { id: t.id },
        },
    }
}

/// An `End` transmission stops the worker that reads it, whatever its id, and
/// is answered with nothing.
pub proof fn lemma_end_stops_worker(id: u64)
    ensures
        is_end_signal(encoded(Transmission { id, kind: Type::End })),
{
    lemma_round_trip(Transmission { id, kind: Type::End });
}

/// One exchange on a dedicated connection keeps what it carries: the framed
/// request unframes and decodes to the request sent, id and payload included,
/// and the framed reply, a `Response` or an `Error`, to a reply under the same id.
pub proof fn lemma_exchange_keeps_id(id: u64, request: Seq<u8>, reply: Type<Seq<u8>>)
    requires
        reply is Response || reply is Error,
        request.len() + HEADER_LEN + LENGTH_PREFIX_LEN <= u64::MAX,
        payload_of(reply).len() + HEADER_LEN + LENGTH_PREFIX_LEN <= u64::MAX,
    ensures
        unframed(framed(encoded(Transmission { id, kind: Type::Request(request) }))) == Ok::<
            Seq<u8>,
            FrameError,
        >(encoded(Transmission { id, kind: Type::Request(request) })),
        decoded(encoded(Transmission { id, kind: Type::Request(request) })) == Ok::<
            Transmission<Seq<u8>>,
            DecodeError,
        >(Transmission { id, kind: Type::Request(request) }),
        unframed(framed(encoded(Transmission { id, kind: reply }))) == Ok::<
            Seq<u8>,
            FrameError,
        >(encoded(Transmission { id, kind: reply })),
        decoded(encoded(Transmission { id, kind: reply })) == Ok::<
            Transmission<Seq<u8>>,
            DecodeError,
        >(Transmission { id, kind: reply }),
{
    let rq = Transmission { id, kind: Type::Request(request) };
    let rp = Transmission { id, kind: reply };
    lemma_be_u64_value_of_bytes(id);
    lemma_be_u32_value_of_bytes(tag_of(rq.kind));
    lemma_be_u32_value_of_bytes(tag_of(rp.kind));
    lemma_round_trip(rq);
    lemma_round_trip(rp);
    lemma_unframe_frame(encoded(rq));
    lemma_unframe_frame(encoded(rp));
}

/// The transmission bytes that answer request `id`: a `Response` carrying the
/// executor's serialized result, or an `Error` carrying its serialized error.
pub fn reply_envelope(id: u64, outcome: Result<Vec<u8>, Vec<u8>>) -> (r: Vec<u8>)
    requires
        match outcome {
            Ok(p) => p@.len() + HEADER_LEN <= usize::MAX,
            Err(p) => p@.len() + HEADER_LEN <= usize::MAX,
        },
    ensures
        r@ == encoded(
            Transmission {
                id,
                kind: match outcome {
                    Ok(p) => Type::Response(p@),
                    Err(p) => Type::Error(p@),
                },
            },
        ),
{
    let kind = match outcome {
        Ok(p) => Type::Response(p),
        Err(p) => Type::Error(p),
    };
    let t = Transmission { id, kind };
    t.encode()
}

/// The text of the error that answers a variant a client must not send.
pub fn violation_message() -> (r: String)
    ensures
        r@ == "Not a request!"@,
{
    String::from_str("Not a request!")
}

} // verus!
