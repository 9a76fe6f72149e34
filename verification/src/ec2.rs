//! The gateway to the one instance that the control surface manages.
//!
//! The gateway does not talk to the provider itself. For each of its three
//! operations it says what to ask, and reads what came back. No operation
//! is retried.

use vstd::prelude::*;
use crate::error::{GatewayError, GatewayErrorView, Operation};
use crate::provider::{
    reply_view, DescribeInstanceStatusRequest, DescribeInstancesRequest,
    DescribeInstancesResult, StartInstancesRequest, StartInstancesResult, StopInstancesRequest,
    StopInstancesResult,
};
use crate::server_starter::{start_outcome, start_server};
use crate::server_status::{describe_outcome, get_server_status};
use crate::server_stopper::{stop_outcome, stop_server};
use crate::server_state::ServerState;
use crate::types::{ResponsePayload, ResponsePayloadView};

verus! {

/// The gateway, bound to the identifier of the managed instance.
pub struct InstanceManager {
    instance_id: String,
}

impl View for InstanceManager {
    type V = Seq<char>;

    /// The identifier of the managed instance.
    closed spec fn view(&self) -> Seq<char> {
        self.instance_id@
    }
}

impl InstanceManager {
    pub fn new(instance_id: String) -> (out: InstanceManager)
        ensures
            out@ == instance_id@,
    {
        InstanceManager { instance_id }
    }

    /// The identifier of the managed instance.
    pub fn instance_id(&self) -> (out: &str)
        ensures
            out@ == self@,
    {
        self.instance_id.as_str()
    }

    /// The describe call of this gateway: for the managed instance alone.
    pub fn describe_request(&self) -> (out: DescribeInstancesRequest)
        ensures
            out.instance_ids.deep_view() == Some(seq![self@]),
    {
        let instance_ids = vec![self.instance_id.clone()];
        DescribeInstancesRequest { instance_ids: Some(instance_ids) }
    }

    /// The status call of this gateway: for the managed instance alone,
    /// and asking for it in whatever state it is, not only while it runs.
    pub fn status_request(&self) -> (out: DescribeInstanceStatusRequest)
        ensures
            out.instance_ids.deep_view() == Some(seq![self@]),
            out.include_all_instances == Some(true),
    {
        let instance_ids = vec![self.instance_id.clone()];
        DescribeInstanceStatusRequest {
            include_all_instances: Some(true),
            instance_ids: Some(instance_ids),
        }
    }

    /// The start call of this gateway: for the managed instance alone,
    /// with nothing else set.
    pub fn start_request(&self) -> (out: StartInstancesRequest)
        ensures
            out.instance_ids.deep_view() == seq![self@],
            out.additional_info is None,
            out.dry_run is None,
    {
        let instance_ids = vec![self.instance_id.clone()];
        StartInstancesRequest { instance_ids, additional_info: None, dry_run: None }
    }

    /// The stop call of this gateway: for the managed instance alone.
    pub fn stop_request(&self) -> (out: StopInstancesRequest)
        ensures
            out.instance_ids.deep_view() == seq![self@],
    {
        let instance_ids = vec![self.instance_id.clone()];
        StopInstancesRequest { instance_ids }
    }

    /// Reads the reply to the describe call: the state of the first
    /// instance listed, normalized, and its public address where the
    /// provider gave one.
    ///
    /// Fails with `Transport` where the call itself failed, and with
    /// `EmptyResult` where the answer lists no reservation, no instance, no
    /// state or no state name; an empty answer is never a stopped server.
    pub fn check_status(&self, reply: Result<DescribeInstancesResult, String>) -> (out: Result<
        ResponsePayload,
        GatewayError,
    >)
        ensures
            match out {
                Ok(payload) => describe_outcome(reply_view(reply)) == Ok::<_, GatewayErrorView>(
                    payload@,
                ),
                Err(error) => describe_outcome(reply_view(reply)) == Err::<ResponsePayloadView, _>(
                    error@,
                ),
            },
            reply matches Ok(result) && (result@.reservations matches Some(list) ==> list.len()
                == 0) ==> out matches Err(GatewayError::EmptyResult(Operation::Describe, _)),
    {
        match get_server_status(reply) {
            Err(error) => Err(error),
            Ok((server_state, ip_address)) => Ok(ResponsePayload { ip_address, server_state }),
        }
    }

    /// Reads the reply to the start call: the state that the
    /// acknowledgment reports, normalized.
    pub fn start(&self, reply: Result<StartInstancesResult, String>) -> (out: Result<
        ServerState,
        GatewayError,
    >)
        ensures
            GatewayError::lift(out) == start_outcome(reply_view(reply)),
    {
        start_server(reply)
    }

    /// Reads the reply to the stop call: the state that the acknowledgment
    /// reports, normalized.
    pub fn stop(&self, reply: Result<StopInstancesResult, String>) -> (out: Result<
        ServerState,
        GatewayError,
    >)
        ensures
            GatewayError::lift(out) == stop_outcome(reply_view(reply)),
    {
        stop_server(reply)
    }
}

} // verus!
