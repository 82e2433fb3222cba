//! The messages of the management handshake.
use vstd::prelude::*;

use crate::Service;

verus! {

/// The server's answer to Identify: its protocol version and its service.
#[derive(Debug)]
pub struct Identity {
    pub protocol_version: u32,
    pub service: Service,
}

/// What a client asks for on Connect. `u32::MAX` as the connection id asks the
/// server to assign one; as the timeout, it asks for none.
#[derive(Debug, Clone, Copy, PartialEq, Eq, Structural)]
pub struct CommParams {
    pub protocol_version: u32,
    pub connection_id: u32,
    pub rpc_interval_timeout_ms: u32,
}

/// The server's answer to Connect: the connection id it assigned and the port
/// of the dedicated connection.
#[derive(Debug, Clone, Copy, PartialEq, Eq, Structural)]
pub struct CommSettings {
    pub connection_id: u32,
    pub port: u16,
}

#[derive(Debug)]
pub enum Request {
    Identify { protocol_version: u32 },
    Connect(CommParams),
    CheckRunState,
}

#[derive(Debug)]
pub enum Response {
    Identify(Identity),
    Connect(CommSettings),
    CheckRunState,
}

} // verus!
