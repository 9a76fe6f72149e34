//! The request and the response that travel between the client and the
//! control surface.

use vstd::prelude::*;
use crate::server_state::ServerState;

verus! {

/// The public address of the server, where the provider gave one.
pub type IpAddress = Option<String>;

/// The three commands. None carries an instance identifier: which instance
/// is meant is the control surface's own configuration.
#[derive(Clone, Copy, Debug, PartialEq, Eq, Structural)]
pub enum RequestType {
    StartServer,
    GetServerStatus,
    StopServer,
}

/// A command as it is sent.
#[derive(Clone, Copy, Debug, PartialEq, Eq, Structural)]
pub struct RequestPayload {
    pub request_type: RequestType,
}

/// The answer to a command: the server's state and, where one is known,
/// its public address.
#[derive(Debug, PartialEq, Eq)]
pub struct ResponsePayload {
    pub server_state: ServerState,
    pub ip_address: IpAddress,
}

/// What a `ResponsePayload` holds, with every text as its sequence of characters.
pub struct ResponsePayloadView {
    pub server_state: ServerState,
    pub ip_address: Option<Seq<char>>,
}

impl View for ResponsePayload {
    type V = ResponsePayloadView;

    open spec fn view(&self) -> ResponsePayloadView {
        ResponsePayloadView {
            server_state: self.server_state,
            ip_address: self.ip_address.deep_view(),
        }
    }
}

/// A copy of an address.
pub fn clone_address(address: &IpAddress) -> (out: IpAddress)
    ensures
        out.deep_view() == address.deep_view(),
{
    match address {
        None => None,
        Some(text) => Some(text.clone()),
    }
}

impl Clone for ResponsePayload {
    fn clone(&self) -> (out: ResponsePayload)
        ensures
            out@ == self@,
    {
        ResponsePayload {
            server_state: self.server_state,
            ip_address: clone_address(&self.ip_address),
        }
    }
}

impl Default for ResponsePayload {
    /// A stopped server without an address.
    fn default() -> (out: ResponsePayload)
        ensures
            out@ == (ResponsePayloadView { server_state: ServerState::Stopped, ip_address: None }),
    {
        ResponsePayload { server_state: ServerState::Stopped, ip_address: None }
    }
}

} // verus!
