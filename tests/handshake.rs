use std::sync::Arc;

use bincode::Options;
use dispatch_rpc::client::{
    end_envelope, reply_payload, request_envelope, Compatibility, Handshake, ReplyError,
    DYNAMIC_CONNECTION_ID, NO_TIMEOUT, REQUEST_ID,
};
use dispatch_rpc::mgmt::{CommParams, CommSettings, Identity, Request, Response};
use dispatch_rpc::server::{classify, reply_envelope, Incoming, MessageProcessing, MgmtAction, Server};
use dispatch_rpc::transport::{DecodeError, Transmission, Type};
use dispatch_rpc::{ProtocolVersion, Service};

struct Dummy {}

impl MessageProcessing for Dummy {
    type Rq = u32;
    type Rsp = u32;
    type E = String;

    fn new() -> Arc<Self> {
        Arc::new(Dummy {})
    }

    // answers Ping (variant 0) with Pong (variant 0)
    fn execute(&self, _connection_id: u32, rpc: u32) -> Result<u32, String> {
        if rpc == 0 {
            Ok(0)
        } else {
            Err("unknown request".to_string())
        }
    }
}

fn serializer() -> impl Options {
    bincode::DefaultOptions::new()
        .with_big_endian()
        .with_fixint_encoding()
}

fn test_service() -> Service {
    Service::entity("TestService".to_string(), 1)
}

fn identity(version: u32, service: Service) -> Identity {
    Identity { protocol_version: version, service }
}

fn handshake_against(server: &Server<Dummy>, requested: i32, port: u16) -> Handshake {
    let mut handshake = Handshake::start(requested);
    while let Some(request) = handshake.request() {
        let reply = match server.execute(request) {
            MgmtAction::Reply(response) => response,
            MgmtAction::OpenConnection { connection_id } => {
                Server::<Dummy>::connected(connection_id, port)
            }
        };
        handshake = handshake.on_reply(Some(reply));
    }
    handshake
}

#[test]
fn protocol_version_entity() {
    assert_eq!(ProtocolVersion::entity().version(), 0);
}

#[test]
fn service_accessors() {
    let service = test_service();
    assert_eq!(service.id(), "TestService");
    assert_eq!(service.protocol_version(), 1);
    assert!(service == service.duplicate());
    assert!(service != Service::entity("TestService".to_string(), 2));
}

#[test]
fn identify_request() {
    let server = Server::<Dummy>::new(6000, test_service());
    assert_eq!(server.port(), 6000);
    match server.execute(Request::Identify { protocol_version: 0 }) {
        MgmtAction::Reply(Response::Identify(identity)) => {
            assert!(identity.protocol_version == 0);
            assert!(identity.service == test_service());
        }
        other => panic!("unexpected {:?}", other),
    }
}

#[test]
fn identify_answers_mismatched_client_version() {
    let server = Server::<Dummy>::new(6001, test_service());
    match server.execute(Request::Identify { protocol_version: 7 }) {
        MgmtAction::Reply(Response::Identify(identity)) => assert_eq!(identity.protocol_version, 0),
        other => panic!("unexpected {:?}", other),
    }
}

#[test]
fn connect_request_opens_connection() {
    let server = Server::<Dummy>::new(6002, test_service());
    let params = CommParams { protocol_version: 0, connection_id: 5, rpc_interval_timeout_ms: 10 };
    match server.execute(Request::Connect(params)) {
        MgmtAction::OpenConnection { connection_id } => assert_eq!(connection_id, 5),
        other => panic!("unexpected {:?}", other),
    }
    match Server::<Dummy>::connected(5, 40000) {
        Response::Connect(settings) => {
            assert_eq!(settings, CommSettings { connection_id: 5, port: 40000 })
        }
        other => panic!("unexpected {:?}", other),
    }
}

#[test]
fn check_run_state_is_answered() {
    let server = Server::<Dummy>::new(6003, test_service());
    assert!(matches!(
        server.execute(Request::CheckRunState),
        MgmtAction::Reply(Response::CheckRunState)
    ));
}

#[test]
fn handshake_requests_in_order() {
    let handshake = Handshake::start(-1);
    match handshake.request() {
        Some(Request::Identify { protocol_version }) => assert_eq!(protocol_version, 0),
        other => panic!("unexpected {:?}", other),
    }
    let handshake = handshake.on_reply(Some(Response::Identify(identity(0, test_service()))));
    match handshake.request() {
        Some(Request::Connect(params)) => assert_eq!(
            params,
            CommParams {
                protocol_version: 0,
                connection_id: DYNAMIC_CONNECTION_ID,
                rpc_interval_timeout_ms: NO_TIMEOUT,
            }
        ),
        other => panic!("unexpected {:?}", other),
    }
    assert_eq!(handshake.dedicated_port(), None);
    let handshake = handshake.on_reply(Some(Response::Connect(CommSettings {
        connection_id: 3,
        port: 41000,
    })));
    assert!(handshake.request().is_none());
    assert_eq!(handshake.dedicated_port(), Some(41000));
    let connection = handshake.establish().unwrap();
    assert_eq!(connection.id(), 3);
    assert_eq!(connection.port(), 41000);
    assert_eq!(connection.server_protocol_version(), 0);
    assert!(*connection.server_service() == test_service());
}

#[test]
fn handshake_asks_for_requested_id() {
    let handshake = Handshake::start(9)
        .on_reply(Some(Response::Identify(identity(0, test_service()))));
    match handshake.request() {
        Some(Request::Connect(params)) => assert_eq!(params.connection_id, 9),
        other => panic!("unexpected {:?}", other),
    }
}

#[test]
fn handshake_wrong_reply_to_identify_fails() {
    let handshake = Handshake::start(-1).on_reply(Some(Response::CheckRunState));
    assert!(matches!(handshake, Handshake::Failed));
    assert!(handshake.request().is_none());
    assert!(handshake.establish().is_none());
}

#[test]
fn handshake_wrong_reply_to_connect_fails() {
    let handshake = Handshake::start(-1)
        .on_reply(Some(Response::Identify(identity(0, test_service()))))
        .on_reply(Some(Response::Identify(identity(0, test_service()))));
    assert!(matches!(handshake, Handshake::Failed));
    assert_eq!(handshake.dedicated_port(), None);
}

#[test]
fn handshake_missing_reply_fails() {
    let handshake = Handshake::start(-1).on_reply(None);
    assert!(handshake.establish().is_none());
}

#[test]
fn handshake_not_established_before_connect() {
    let handshake = Handshake::start(-1)
        .on_reply(Some(Response::Identify(identity(0, test_service()))));
    assert!(handshake.establish().is_none());
}

#[test]
fn compatibility_all_match() {
    let server = Server::<Dummy>::new(6004, test_service());
    let connection = handshake_against(&server, -1, 42000).establish().unwrap();
    assert!(connection.compatibility_check(test_service()));
}

#[test]
fn compatibility_reports_each_condition() {
    let connection = Handshake::start(-1)
        .on_reply(Some(Response::Identify(identity(3, test_service()))))
        .on_reply(Some(Response::Connect(CommSettings { connection_id: 1, port: 1 })))
        .establish()
        .unwrap();
    let other = Service::entity("Other".to_string(), 2);
    assert_eq!(
        connection.compatibility_report(&other),
        Compatibility { protocol_version: false, service_id: false, service_version: false }
    );
    assert!(!connection.compatibility_check(other));
    let renamed = Service::entity("Other".to_string(), 1);
    assert_eq!(
        connection.compatibility_report(&renamed),
        Compatibility { protocol_version: false, service_id: false, service_version: true }
    );
    let same = test_service();
    assert_eq!(
        connection.compatibility_report(&same),
        Compatibility { protocol_version: false, service_id: true, service_version: true }
    );
    assert!(!connection.compatibility_check(same));
}

#[test]
fn ping_receives_pong() {
    let server = Server::<Dummy>::new(6005, test_service());
    let handshake = handshake_against(&server, -1, 43000);
    assert_eq!(handshake.dedicated_port(), Some(43000));
    let connection = handshake.establish().unwrap();
    assert!(connection.compatibility_check(test_service()));

    // Ping is variant 0 of a one-variant request enum
    let ping = serializer().serialize(&0u32).unwrap();
    let request = request_envelope(ping);
    let (id, payload) = match classify(&request) {
        Incoming::Execute { id, payload } => (id, payload),
        other => panic!("unexpected {:?}", other),
    };
    assert_eq!(id, REQUEST_ID);
    let rpc: u32 = serializer().deserialize(&payload).unwrap();
    let outcome = match server.message_processing().execute(connection.id(), rpc) {
        Ok(response) => Ok(serializer().serialize(&response).unwrap()),
        Err(error) => Err(serializer().serialize(&error).unwrap()),
    };
    let reply = reply_envelope(id, outcome);
    assert_eq!(Transmission::decode(&reply).unwrap().id, REQUEST_ID);
    let pong = reply_payload(&reply).unwrap();
    assert_eq!(serializer().deserialize::<u32>(&pong).unwrap(), 0);
}

#[test]
fn error_reply_is_remote_failure() {
    let reply = reply_envelope(REQUEST_ID, Err(vec![1, 2]));
    match reply_payload(&reply) {
        Err(ReplyError::Remote(p)) => assert_eq!(p, vec![1, 2]),
        other => panic!("unexpected {:?}", other),
    }
}

#[test]
fn end_reply_is_unexpected() {
    match reply_payload(&end_envelope()) {
        Err(ReplyError::Unexpected(tag)) => assert_eq!(tag, 1),
        other => panic!("unexpected {:?}", other),
    }
    let stream = Transmission { id: 1, kind: Type::Stream(vec![0u8]) }.encode();
    assert!(matches!(reply_payload(&stream), Err(ReplyError::Unexpected(4))));
    let request = request_envelope(vec![]);
    assert!(matches!(reply_payload(&request), Err(ReplyError::Unexpected(2))));
}

#[test]
fn malformed_reply() {
    assert!(matches!(
        reply_payload(&[0u8; 3]),
        Err(ReplyError::Malformed(DecodeError::Truncated))
    ));
}

#[test]
fn end_envelope_bytes() {
    assert_eq!(end_envelope(), vec![0, 0, 0, 0, 0, 0, 0, 42, 0, 0, 0, 1]);
}
