//! What the client sends to the control surface, and the commands that the
//! client's state machines hand to whoever drives them.

use vstd::prelude::*;
use crate::config::GatewayInfo;
use crate::types::{RequestPayload, RequestType};
use crate::wire::WireRequest;

verus! {

/// The command of an outgoing request.
pub type PostRequestType = RequestType;

/// The body of an outgoing request.
pub type PostPayload = RequestPayload;

/// The pause before a follow-up status query, in milliseconds.
pub const POLL_DELAY_MS: u64 = 1500;

/// A request to the control surface, ready to be posted.
#[derive(Debug, PartialEq, Eq)]
pub struct PostRequest {
    /// Where the request goes.
    pub url: String,
    /// The name of the header that carries the key.
    pub key_header: &'static str,
    /// The key.
    pub api_key: String,
    /// The body.
    pub payload: WireRequest,
}

/// The request that carries the command `req_type` to the control surface
/// that `gateway` names. Every request carries the key of the
/// configuration in the header `x-api-key`.
pub fn post_request(gateway: &GatewayInfo, req_type: PostRequestType) -> (out: PostRequest)
    ensures
        out.url@ == gateway.url@,
        out.key_header@ == "x-api-key"@,
        out.api_key@ == gateway.api_key@,
        out.payload@ == req_type.wire_text(),
{
    let payload = PostPayload { request_type: req_type };
    PostRequest {
        url: gateway.url.clone(),
        key_header: "x-api-key",
        api_key: gateway.api_key.clone(),
        payload: payload.to_wire(),
    }
}

/// What a state machine asks its driver to do after a message.
#[derive(Debug, PartialEq, Eq)]
pub enum Command {
    /// Nothing is to be done.
    Nothing,
    /// Send the request; where a delay is given, wait that many
    /// milliseconds first. The answer comes back as an update message.
    Post { request_type: PostRequestType, delay_ms: Option<u64> },
    /// Put the text on the clipboard.
    CopyToClipboard(String),
}

/// What a `Command` holds, with every text as its sequence of characters.
pub enum CommandView {
    Nothing,
    Post { request_type: PostRequestType, delay_ms: Option<u64> },
    CopyToClipboard(Seq<char>),
}

impl View for Command {
    type V = CommandView;

    open spec fn view(&self) -> CommandView {
        match self {
            Command::Nothing => CommandView::Nothing,
            Command::Post { request_type, delay_ms } => CommandView::Post {
                request_type: *request_type,
                delay_ms: *delay_ms,
            },
            Command::CopyToClipboard(text) => CommandView::CopyToClipboard(text@),
        }
    }
}

impl CommandView {
    /// A request that is sent at once.
    pub open spec fn send_now(request_type: PostRequestType) -> CommandView {
        CommandView::Post { request_type, delay_ms: None }
    }

    /// The follow-up status query of a poll.
    pub open spec fn poll_again() -> CommandView {
        CommandView::Post {
            request_type: RequestType::GetServerStatus,
            delay_ms: Some(POLL_DELAY_MS),
        }
    }

    /// Whether the command sends a request.
    pub open spec fn is_request(self) -> bool {
        self is Post
    }
}

} // verus!
