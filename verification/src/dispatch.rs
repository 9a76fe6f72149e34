//! The dispatcher: it resolves a command to the gateway operation that
//! serves it, and packages what the operation came to.
//!
//! A dispatch takes two steps, with the provider call between them. First
//! `gateway_call` says what to ask the provider. Then `handle_request`
//! reads the reply and gives the response, or the error that the boundary
//! turns into a failure status.

use vstd::prelude::*;
use crate::config::Ec2Config;
use crate::ec2::InstanceManager;
use crate::error::{
    DispatchError, DispatchErrorView, GatewayError, GatewayErrorView, MissingField, Operation,
};
use crate::provider::{
    reply_view, DescribeInstancesRequest, DescribeInstancesResult, DescribeInstancesResultView,
    StartInstancesRequest, StartInstancesResult, StartInstancesResultView, StopInstancesRequest,
    StopInstancesResult, StopInstancesResultView,
};
use crate::server_starter::start_outcome;
use crate::server_state::ServerState;
use crate::server_status::describe_outcome;
use crate::server_stopper::stop_outcome;
use crate::types::{RequestPayload, RequestType, ResponsePayload, ResponsePayloadView};

verus! {

/// What the dispatcher asks the provider.
#[derive(Debug, PartialEq, Eq)]
pub enum GatewayCall {
    Start(StartInstancesRequest),
    Describe(DescribeInstancesRequest),
    Stop(StopInstancesRequest),
}

/// What came back from the provider: the answer to one of the three calls,
/// or the message of the failed call.
#[derive(Debug, PartialEq, Eq)]
pub enum GatewayReply {
    Start(Result<StartInstancesResult, String>),
    Describe(Result<DescribeInstancesResult, String>),
    Stop(Result<StopInstancesResult, String>),
}

/// What a `GatewayReply` holds, with every text as its sequence of characters.
pub enum GatewayReplyView {
    Start(Result<StartInstancesResultView, Seq<char>>),
    Describe(Result<DescribeInstancesResultView, Seq<char>>),
    Stop(Result<StopInstancesResultView, Seq<char>>),
}

impl View for GatewayReply {
    type V = GatewayReplyView;

    open spec fn view(&self) -> GatewayReplyView {
        match self {
            GatewayReply::Start(reply) => GatewayReplyView::Start(reply_view(*reply)),
            GatewayReply::Describe(reply) => GatewayReplyView::Describe(reply_view(*reply)),
            GatewayReply::Stop(reply) => GatewayReplyView::Stop(reply_view(*reply)),
        }
    }
}

impl RequestType {
    /// The gateway operation that serves the command.
    pub open spec fn operation(self) -> Operation {
        match self {
            RequestType::StartServer => Operation::Start,
            RequestType::GetServerStatus => Operation::Describe,
            RequestType::StopServer => Operation::Stop,
        }
    }
}

impl GatewayCall {
    /// The operation that the call belongs to.
    pub open spec fn operation(self) -> Operation {
        match self {
            GatewayCall::Start(_) => Operation::Start,
            GatewayCall::Describe(_) => Operation::Describe,
            GatewayCall::Stop(_) => Operation::Stop,
        }
    }

    /// The instances that the call names.
    pub open spec fn instance_ids(self) -> Seq<Seq<char>> {
        match self {
            GatewayCall::Start(request) => request.instance_ids.deep_view(),
            GatewayCall::Describe(request) => match request.instance_ids {
                Some(instance_ids) => instance_ids.deep_view(),
                None => Seq::empty(),
            },
            GatewayCall::Stop(request) => request.instance_ids.deep_view(),
        }
    }
}

impl GatewayReplyView {
    /// The operation that the reply answers.
    pub open spec fn operation(self) -> Operation {
        match self {
            GatewayReplyView::Start(_) => Operation::Start,
            GatewayReplyView::Describe(_) => Operation::Describe,
            GatewayReplyView::Stop(_) => Operation::Stop,
        }
    }

    /// What the gateway makes of the reply, as the answer to `operation`.
    ///
    /// A start or a stop reports a state and never an address. A reply to
    /// another operation holds nothing of this one.
    pub open spec fn outcome(self, operation: Operation) -> Result<
        ResponsePayloadView,
        GatewayErrorView,
    > {
        match (operation, self) {
            (Operation::Start, GatewayReplyView::Start(reply)) => match start_outcome(reply) {
                Ok(server_state) => Ok(ResponsePayloadView { server_state, ip_address: None }),
                Err(error) => Err(error),
            },
            (Operation::Describe, GatewayReplyView::Describe(reply)) => describe_outcome(reply),
            (Operation::Stop, GatewayReplyView::Stop(reply)) => match stop_outcome(reply) {
                Ok(server_state) => Ok(ResponsePayloadView { server_state, ip_address: None }),
                Err(error) => Err(error),
            },
            _ => Err(GatewayErrorView::EmptyResult(operation, MissingField::Reply)),
        }
    }
}

/// The response to `request`, given what came back from the provider: the
/// outcome of the operation that serves the command, with a gateway
/// failure wrapped as a dispatch failure.
pub open spec fn response(request: RequestPayload, reply: GatewayReplyView) -> Result<
    ResponsePayloadView,
    DispatchErrorView,
> {
    match reply.outcome(request.request_type.operation()) {
        Ok(payload) => Ok(payload),
        Err(error) => Err(DispatchErrorView::Gateway(error)),
    }
}

/// The status that the boundary answers a dispatch with: 200 with the
/// response, 400 where the request could not be read, 500 where the gateway
/// failed.
pub fn response_status(result: &Result<ResponsePayload, DispatchError>) -> (code: u16)
    ensures
        code == match result {
            Ok(_) => 200u16,
            Err(error) => error@.status_code(),
        },
        code == 200 <==> result is Ok,
{
    match result {
        Ok(_) => 200,
        Err(error) => error.status_code(),
    }
}

/// The provider call that serves `request`: the operation of the command,
/// for the one instance that the configuration names. The caller of the
/// control surface has no say in which instance is meant.
pub fn gateway_call(request: &RequestPayload, config: &Ec2Config) -> (call: GatewayCall)
    ensures
        call.operation() == request.request_type.operation(),
        call.instance_ids() == seq![config.instance_id@],
        call matches GatewayCall::Start(start) ==> start.additional_info is None
            && start.dry_run is None,
{
    let manager = InstanceManager::new(config.instance_id.clone());
    match request.request_type {
        RequestType::StartServer => GatewayCall::Start(manager.start_request()),
        RequestType::GetServerStatus => GatewayCall::Describe(manager.describe_request()),
        RequestType::StopServer => GatewayCall::Stop(manager.stop_request()),
    }
}

/// Answers `request` from what came back from the provider.
///
/// The answer to a start or a stop carries the state that the provider
/// acknowledged and no address; the answer to a status query carries state
/// and address of the instance described. Every gateway failure comes back
/// as `DispatchError::Gateway`.
pub fn handle_request(request: &RequestPayload, config: &Ec2Config, reply: GatewayReply) -> (out:
    Result<ResponsePayload, DispatchError>)
    ensures
        match out {
            Ok(payload) => response(*request, reply@) == Ok::<_, DispatchErrorView>(payload@),
            Err(error) => response(*request, reply@) == Err::<ResponsePayloadView, _>(error@),
        },
        request.request_type != RequestType::GetServerStatus ==> (out matches Ok(payload)
            ==> payload.ip_address is None),
        out matches Ok(payload) ==> payload.server_state != ServerState::Connecting,
        out matches Err(error) ==> error is Gateway,
{
    let manager = InstanceManager::new(config.instance_id.clone());
    match request.request_type {
        RequestType::StartServer => match reply {
            GatewayReply::Start(reply) => match manager.start(reply) {
                Ok(server_state) => Ok(ResponsePayload { server_state, ip_address: None }),
                Err(error) => Err(DispatchError::Gateway(error)),
            },
            _ => Err(
                DispatchError::Gateway(
                    GatewayError::EmptyResult(Operation::Start, MissingField::Reply),
                ),
            ),
        },
        RequestType::GetServerStatus => match reply {
            GatewayReply::Describe(reply) => match manager.check_status(reply) {
                Ok(response) => Ok(response),
                Err(error) => Err(DispatchError::Gateway(error)),
            },
            _ => Err(
                DispatchError::Gateway(
                    GatewayError::EmptyResult(Operation::Describe, MissingField::Reply),
                ),
            ),
        },
        RequestType::StopServer => match reply {
            GatewayReply::Stop(reply) => match manager.stop(reply) {
                Ok(server_state) => Ok(ResponsePayload { server_state, ip_address: None }),
                Err(error) => Err(DispatchError::Gateway(error)),
            },
            _ => Err(
                DispatchError::Gateway(
                    GatewayError::EmptyResult(Operation::Stop, MissingField::Reply),
                ),
            ),
        },
    }
}

/// The response to a start or a stop never carries an address, whatever
/// the provider sent back.
pub proof fn lemma_start_and_stop_omit_address(request: RequestPayload, reply: GatewayReplyView)
    requires
        request.request_type != RequestType::GetServerStatus,
    ensures
        response(request, reply) matches Ok(payload) ==> payload.ip_address is None,
{
}

/// The response to a command reports one of the five states that the
/// provider side knows; `Connecting` is never answered.
pub proof fn lemma_response_state_is_reported(request: RequestPayload, reply: GatewayReplyView)
    ensures
        response(request, reply) matches Ok(payload) ==> payload.server_state
            != ServerState::Connecting,
{
}

/// A reply counts as holding nothing exactly where it answers another
/// operation than the one that was asked for; a reply to the right
/// operation is read, and whatever it lacks is named more closely.
pub proof fn lemma_reply_is_read_for_its_own_operation(
    reply: GatewayReplyView,
    operation: Operation,
)
    ensures
        reply.outcome(operation) == Err::<ResponsePayloadView, _>(
            GatewayErrorView::EmptyResult(operation, MissingField::Reply),
        ) <==> reply.operation() != operation,
{
}

/// A dispatch fails exactly where its gateway operation does, and then
/// with the gateway's failure.
pub proof fn lemma_dispatch_failure_is_gateway_failure(
    request: RequestPayload,
    reply: GatewayReplyView,
)
    ensures
        response(request, reply) is Err <==> reply.outcome(request.request_type.operation()) is Err,
        response(request, reply) matches Err(error) ==> error == DispatchErrorView::Gateway(
            reply.outcome(request.request_type.operation())->Err_0,
        ) && error.status_code() == 500,
{
}

} // verus!
