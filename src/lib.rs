//! A point-to-point RPC transport: a management handshake that negotiates a
//! dedicated connection, a byte-exact framed wire format, and the decisions of
//! the per-connection dispatch loop.
use vstd::prelude::*;

pub mod bytes;
pub mod transport;
pub mod util;
pub mod mgmt;
pub mod rpc;
pub mod client;
pub mod server;

verus! {

/// The wire and handshake compatibility version of this build.
pub const PROTOCOL_VERSION: u32 = 0;

/// The protocol version a peer speaks.
pub struct ProtocolVersion {
    version: u32,
}

impl View for ProtocolVersion {
    type V = u32;

    closed spec fn view(&self) -> u32 {
        self.version
    }
}

impl ProtocolVersion {
    /// The protocol version of this build.
    pub fn entity() -> (r: ProtocolVersion)
        ensures
            r@ == PROTOCOL_VERSION,
    {
        ProtocolVersion { version: PROTOCOL_VERSION }
    }

    pub fn version(&self) -> (r: u32)
        ensures
            r == self@,
    {
        self.version
    }
}

/// What a `Service` is: its name and its own compatibility version.
pub struct ServiceModel {
    pub id: Seq<char>,
    pub protocol_version: u32,
}

/// The application service a server offers, named and versioned.
#[derive(Clone, Debug)]
pub struct Service {
    id: String,
    protocol_version: u32,
}

impl View for Service {
    type V = ServiceModel;

    closed spec fn view(&self) -> ServiceModel {
        ServiceModel { id: self.id@, protocol_version: self.protocol_version }
    }
}

impl Service {
    pub fn entity(id: String, protocol_version: u32) -> (r: Service)
        ensures
            r@ == (ServiceModel { id: id@, protocol_version }),
    {
        Service { id, protocol_version }
    }

    pub fn id(&self) -> (r: String)
        ensures
            r@ == self@.id,
    {
        self.id.clone()
    }

    pub fn protocol_version(&self) -> (r: u32)
        ensures
            r == self@.protocol_version,
    {
        self.protocol_version
    }

    /// A second service with the same name and version.
    pub fn duplicate(&self) -> (r: Service)
        ensures
            r@ == self@,
    {
        Service { id: self.id.clone(), protocol_version: self.protocol_version }
    }

}

impl PartialEq for Service {
    fn eq(&self, other: &Service) -> (r: bool) {
        self.id == other.id && self.protocol_version == other.protocol_version
    }
}

impl vstd::std_specs::cmp::PartialEqSpecImpl for Service {
    open spec fn obeys_eq_spec() -> bool {
        true
    }

    open spec fn eq_spec(&self, other: &Service) -> bool {
        self@ == other@
    }
}

} // verus!
