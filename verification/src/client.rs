//! The protocol client's decisions: validating a request before anything is
//! sent, bounding connection retries, and decoding the response stream.
//!
//! The transport work - connecting, writing the request, reading payloads -
//! happens outside the library, which hands it the address, the retry
//! budget, the validated request text, and the meaning of each payload read
//! back (see [`crate::response::reader_step`]).

use vstd::prelude::*;
use crate::json::json_of;
use crate::request::spec_build;
use crate::types::{BauMessage, SendError, SerializeError};

verus! {

/// Declares the standard library's socket-address type, so that a client
/// can carry the address it connects to.  The client never inspects it.
#[verifier::external_type_specification]
#[verifier::external_body]
pub struct ExSocketAddr(core::net::SocketAddr);

/// A protocol client: the address of the gateway it speaks to, with a
/// connection-retry budget of `RETRIES` further attempts after the first.
pub struct BauClient<const RETRIES: usize> {
    addr: core::net::SocketAddr,
}

impl<const RETRIES: usize> BauClient<RETRIES> {
    /// The address this client was created with.
    pub closed spec fn spec_addr(&self) -> core::net::SocketAddr {
        self.addr
    }

    /// A client for the gateway at `addr`.
    pub fn new(addr: core::net::SocketAddr) -> (c: Self)
        ensures
            c.spec_addr() == addr,
    {
        BauClient { addr }
    }

    /// The address this client connects to.
    pub fn addr(&self) -> (a: &core::net::SocketAddr)
        ensures
            a == self.spec_addr(),
    {
        &self.addr
    }

    /// The retry budget the client starts each connection attempt with.
    pub fn retry_budget(&self) -> (n: usize)
        ensures
            n == RETRIES,
    {
        RETRIES
    }
}

/// Decides whether a failed connection attempt is retried: while budget is
/// left, one unit is spent and the attempt is repeated; with none left, the
/// final error is returned to the caller.
pub fn retry_after_failure(attempts_left: &mut usize) -> (retry: bool)
    ensures
        retry == (*old(attempts_left) > 0),
        retry ==> *final(attempts_left) == *old(attempts_left) - 1,
        !retry ==> *final(attempts_left) == *old(attempts_left),
{
    if *attempts_left > 0 {
        *attempts_left = *attempts_left - 1;
        true
    } else {
        false
    }
}

/// Validates a request text before a connection is spent on it: exactly the
/// texts that parse and build to a request pass, and anything else is
/// rejected as [`SendError::InvalidData`] without being sent.
pub fn validate_request(request: &str) -> (r: Result<(), SendError>)
    ensures
        match json_of(request@) {
            None => r matches Err(SendError::InvalidData(se)) && se.model() matches
                crate::types::SerializeErrorModel::Json(_),
            Some(j) => match spec_build(j) {
                Ok(_) => r is Ok,
                Err(e) => r matches Err(SendError::InvalidData(se)) && se.model()
                    == crate::request::build_err_model(e),
            },
        },
{
    match BauMessage::builder(request) {
        Ok(_) => Ok(()),
        Err(e) => Err(SendError::InvalidData(e)),
    }
}

} // verus!
