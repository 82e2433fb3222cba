//! Request and response records for services that number their calls.
use vstd::prelude::*;

verus! {

/// A call of a service, numbered by its sender.
#[derive(Debug, PartialEq)]
pub struct RPCRequest<T> {
    pub transmission_id: u32,
    pub data: T,
}

/// The answer to the call of the same number.
#[derive(Debug, PartialEq)]
pub struct RPCResponse<T, E> {
    pub transmission_id: u32,
    pub data: Result<T, E>,
}

/// The error a service reports, as text.
pub type ETMError = String;

} // verus!
