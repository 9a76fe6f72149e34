//! The vocabulary of the wire: the names under which commands and states
//! travel between the client and the control surface.
//!
//! A request travels as `{"requestType": name}`, a response as
//! `{"serverState": name, "ipAddress": text or null}`. How such a document
//! is written down and read back is left to the caller; which names it may
//! hold, and what they stand for, is settled here.

use vstd::prelude::*;
use crate::error::DispatchError;
use crate::server_state::{normalized, ServerState};
use crate::text::str_eq;
use crate::types::{RequestPayload, RequestType, ResponsePayload, ResponsePayloadView};

verus! {

/// A request as it travels.
#[derive(Debug, PartialEq, Eq)]
pub struct WireRequest {
    /// The field `requestType`.
    pub request_type: String,
}

/// A response as it travels.
#[derive(Debug, PartialEq, Eq)]
pub struct WireResponse {
    /// The field `serverState`.
    pub server_state: String,
    /// The field `ipAddress`; `None` travels as `null`.
    pub ip_address: Option<String>,
}

/// What a `WireResponse` holds, with every text as its sequence of characters.
pub struct WireResponseView {
    pub server_state: Seq<char>,
    pub ip_address: Option<Seq<char>>,
}

impl View for WireRequest {
    type V = Seq<char>;

    open spec fn view(&self) -> Seq<char> {
        self.request_type@
    }
}

impl View for WireResponse {
    type V = WireResponseView;

    open spec fn view(&self) -> WireResponseView {
        WireResponseView {
            server_state: self.server_state@,
            ip_address: self.ip_address.deep_view(),
        }
    }
}

impl RequestType {
    /// The name under which the command travels.
    pub open spec fn wire_text(self) -> Seq<char> {
        match self {
            RequestType::StartServer => "start-server"@,
            RequestType::GetServerStatus => "get-server-status"@,
            RequestType::StopServer => "stop-server"@,
        }
    }

    /// The command that travels under `name`, if there is one.
    pub open spec fn named(name: Seq<char>) -> Option<RequestType> {
        if name == "start-server"@ {
            Some(RequestType::StartServer)
        } else if name == "get-server-status"@ {
            Some(RequestType::GetServerStatus)
        } else if name == "stop-server"@ {
            Some(RequestType::StopServer)
        } else {
            None
        }
    }

    pub fn wire_name(&self) -> (out: &'static str)
        ensures
            out@ == self.wire_text(),
    {
        match self {
            RequestType::StartServer => "start-server",
            RequestType::GetServerStatus => "get-server-status",
            RequestType::StopServer => "stop-server",
        }
    }

    pub fn from_wire_name(name: &str) -> (out: Option<RequestType>)
        ensures
            out == RequestType::named(name@),
    {
        if str_eq(name, "start-server") {
            Some(RequestType::StartServer)
        } else if str_eq(name, "get-server-status") {
            Some(RequestType::GetServerStatus)
        } else if str_eq(name, "stop-server") {
            Some(RequestType::StopServer)
        } else {
            None
        }
    }
}

impl ServerState {
    /// The name under which the state travels.
    pub open spec fn wire_text(self) -> Seq<char> {
        match self {
            ServerState::Pending => "pending"@,
            ServerState::Running => "running"@,
            ServerState::Stopping => "stopping"@,
            ServerState::Stopped => "stopped"@,
            ServerState::Unexpected => "unexpected"@,
            ServerState::Connecting => "connecting"@,
        }
    }

    /// The state that travels under `name`, if there is one.
    pub open spec fn named(name: Seq<char>) -> Option<ServerState> {
        if name == "pending"@ {
            Some(ServerState::Pending)
        } else if name == "running"@ {
            Some(ServerState::Running)
        } else if name == "stopping"@ {
            Some(ServerState::Stopping)
        } else if name == "stopped"@ {
            Some(ServerState::Stopped)
        } else if name == "unexpected"@ {
            Some(ServerState::Unexpected)
        } else if name == "connecting"@ {
            Some(ServerState::Connecting)
        } else {
            None
        }
    }

    pub fn wire_name(&self) -> (out: &'static str)
        ensures
            out@ == self.wire_text(),
    {
        match self {
            ServerState::Pending => "pending",
            ServerState::Running => "running",
            ServerState::Stopping => "stopping",
            ServerState::Stopped => "stopped",
            ServerState::Unexpected => "unexpected",
            ServerState::Connecting => "connecting",
        }
    }

    pub fn from_wire_name(name: &str) -> (out: Option<ServerState>)
        ensures
            out == ServerState::named(name@),
    {
        if str_eq(name, "pending") {
            Some(ServerState::Pending)
        } else if str_eq(name, "running") {
            Some(ServerState::Running)
        } else if str_eq(name, "stopping") {
            Some(ServerState::Stopping)
        } else if str_eq(name, "stopped") {
            Some(ServerState::Stopped)
        } else if str_eq(name, "unexpected") {
            Some(ServerState::Unexpected)
        } else if str_eq(name, "connecting") {
            Some(ServerState::Connecting)
        } else {
            None
        }
    }
}

/// The request that a wire request stands for, where its name is one of
/// the three commands.
pub open spec fn decoded_request(wire: Seq<char>) -> Option<RequestPayload> {
    match RequestType::named(wire) {
        Some(request_type) => Some(RequestPayload { request_type }),
        None => None,
    }
}

/// The response that a wire response stands for, where its state name is
/// known.
pub open spec fn decoded_response(wire: WireResponseView) -> Option<ResponsePayloadView> {
    match ServerState::named(wire.server_state) {
        Some(server_state) => Some(
            ResponsePayloadView { server_state, ip_address: wire.ip_address },
        ),
        None => None,
    }
}

/// A response as it travels: the state by its name, the address as it is.
pub open spec fn encoded_response(payload: ResponsePayloadView) -> WireResponseView {
    WireResponseView {
        server_state: payload.server_state.wire_text(),
        ip_address: payload.ip_address,
    }
}

impl RequestPayload {
    /// The request as it travels.
    pub fn to_wire(&self) -> (out: WireRequest)
        ensures
            out@ == self.request_type.wire_text(),
    {
        WireRequest { request_type: String::from_str(self.request_type.wire_name()) }
    }

    /// Reads a request off the wire.
    ///
    /// Succeeds exactly where the name is one of the three commands; any
    /// other name is an invalid payload, reported with the name.
    pub fn from_wire(wire: &WireRequest) -> (out: Result<RequestPayload, DispatchError>)
        ensures
            match decoded_request(wire@) {
                Some(request) => out == Ok::<_, DispatchError>(request),
                None => out matches Err(DispatchError::InvalidPayload(message)) && message@
                    == "unknown request type: "@ + wire@,
            },
    {
        match RequestType::from_wire_name(wire.request_type.as_str()) {
            Some(request_type) => Ok(RequestPayload { request_type }),
            None => Err(
                DispatchError::InvalidPayload(
                    String::from_str("unknown request type: ").concat(wire.request_type.as_str()),
                ),
            ),
        }
    }
}

impl ResponsePayload {
    /// The response as it travels.
    pub fn to_wire(self) -> (out: WireResponse)
        ensures
            out@ == encoded_response(self@),
    {
        WireResponse {
            server_state: String::from_str(self.server_state.wire_name()),
            ip_address: self.ip_address,
        }
    }

    /// Reads a response off the wire.
    ///
    /// Succeeds exactly where the state name is known; any other name is
    /// reported with the name.
    pub fn from_wire(wire: WireResponse) -> (out: Result<ResponsePayload, String>)
        ensures
            match decoded_response(wire@) {
                Some(payload) => out matches Ok(read) && read@ == payload,
                None => out matches Err(message) && message@ == "unknown server state: "@
                    + wire@.server_state,
            },
    {
        match ServerState::from_wire_name(wire.server_state.as_str()) {
            Some(server_state) => Ok(ResponsePayload { server_state, ip_address: wire.ip_address }),
            None => Err(
                String::from_str("unknown server state: ").concat(wire.server_state.as_str()),
            ),
        }
    }
}

/// The names of the three commands are pairwise different.
pub proof fn lemma_request_names_distinct()
    ensures
        "start-server"@ != "get-server-status"@,
        "start-server"@ != "stop-server"@,
        "get-server-status"@ != "stop-server"@,
{
    reveal_strlit("start-server");
    reveal_strlit("get-server-status");
    reveal_strlit("stop-server");
    assert("start-server"@.len() == 12);
    assert("get-server-status"@.len() == 17);
    assert("stop-server"@.len() == 11);
}

/// The names of the six states are pairwise different.
pub proof fn lemma_state_names_distinct()
    ensures
        forall|a: ServerState, b: ServerState| a != b ==> a.wire_text() != b.wire_text(),
{
    reveal_strlit("pending");
    reveal_strlit("running");
    reveal_strlit("stopping");
    reveal_strlit("stopped");
    reveal_strlit("unexpected");
    reveal_strlit("connecting");
    assert("pending"@.len() == 7 && "pending"@[0] == 'p');
    assert("running"@.len() == 7 && "running"@[0] == 'r');
    assert("stopping"@.len() == 8);
    assert("stopped"@.len() == 7 && "stopped"@[0] == 's');
    assert("unexpected"@.len() == 10 && "unexpected"@[0] == 'u');
    assert("connecting"@.len() == 10 && "connecting"@[0] == 'c');
}

/// Each of the six names reads back as the state that it is written for.
proof fn lemma_names_of_states()
    ensures
        ServerState::named("pending"@) == Some(ServerState::Pending),
        ServerState::named("running"@) == Some(ServerState::Running),
        ServerState::named("stopping"@) == Some(ServerState::Stopping),
        ServerState::named("stopped"@) == Some(ServerState::Stopped),
        ServerState::named("unexpected"@) == Some(ServerState::Unexpected),
        ServerState::named("connecting"@) == Some(ServerState::Connecting),
        normalized("unexpected"@) == ServerState::Unexpected,
        normalized("pending"@) == ServerState::Pending,
        normalized("running"@) == ServerState::Running,
        normalized("stopping"@) == ServerState::Stopping,
        normalized("stopped"@) == ServerState::Stopped,
{
    lemma_state_names_distinct();
    assert(ServerState::Pending.wire_text() == "pending"@);
    assert(ServerState::Running.wire_text() == "running"@);
    assert(ServerState::Stopping.wire_text() == "stopping"@);
    assert(ServerState::Stopped.wire_text() == "stopped"@);
    assert(ServerState::Unexpected.wire_text() == "unexpected"@);
    assert(ServerState::Connecting.wire_text() == "connecting"@);
}

/// A command survives the wire: its name reads back as the command.
pub proof fn lemma_request_round_trip(request: RequestPayload)
    ensures
        decoded_request(request.request_type.wire_text()) == Some(request),
{
    lemma_request_names_distinct();
}

/// A state survives the wire: its name reads back as the state.
pub proof fn lemma_state_round_trip(state: ServerState)
    ensures
        ServerState::named(state.wire_text()) == Some(state),
{
    lemma_names_of_states();
}

/// A response survives the wire: what it is written as reads back as the
/// same response, whatever its state and its address.
pub proof fn lemma_response_round_trip(payload: ResponsePayloadView)
    ensures
        decoded_response(encoded_response(payload)) == Some(payload),
{
    lemma_state_round_trip(payload.server_state);
}

/// The client reads a state name as the control surface meant it: each of
/// the five names that a response can hold stands for the state that the
/// same word is normalized to.
pub proof fn lemma_state_names_agree_with_status_words(name: Seq<char>)
    ensures
        ServerState::named(name) matches Some(state) ==> state == ServerState::Connecting
            || state == normalized(name),
        forall|state: ServerState|
            state != ServerState::Connecting ==> normalized(#[trigger] state.wire_text())
                == state,
{
    lemma_names_of_states();
}

/// Only a name that is written for some command reads back as one.
pub proof fn lemma_request_names_exact(name: Seq<char>)
    ensures
        RequestType::named(name) matches Some(request_type) ==> request_type.wire_text() == name,
{
}

/// Only a name that is written for some state reads back as one.
pub proof fn lemma_state_names_exact(name: Seq<char>)
    ensures
        ServerState::named(name) matches Some(state) ==> state.wire_text() == name,
{
}

} // verus!
