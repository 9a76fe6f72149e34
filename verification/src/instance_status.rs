//! Reading the server's state out of what the provider answers to a
//! describe-instance-status call, which reports the state alone.

use vstd::prelude::*;
use crate::error::{GatewayError, GatewayErrorView, MissingField, Operation};
use crate::provider::{
    reply_view, DescribeInstanceStatusResult, DescribeInstanceStatusResultView, InstanceStatus,
    InstanceStatusView,
};
use crate::server_state::{normalize, normalized, ServerState};
use crate::server_status::state_name;

verus! {

/// The state that a status entry reports; `None` stands for an answer that
/// lists no entry.
pub open spec fn status_state(status: Option<InstanceStatusView>) -> Result<
    ServerState,
    MissingField,
> {
    match status {
        None => Err(MissingField::InstanceStatusInfo),
        Some(status) => match state_name(status.instance_state) {
            Err(missing) => Err(missing),
            Ok(name) => Ok(normalized(name)),
        },
    }
}

/// The state that a status answer reports: that of its first entry.
pub open spec fn first_status_state(result: DescribeInstanceStatusResultView) -> Result<
    ServerState,
    MissingField,
> {
    match result.instance_statuses {
        None => Err(MissingField::InstanceStatuses),
        Some(list) => status_state(
            if list.len() > 0 {
                Some(list[0])
            } else {
                None
            },
        ),
    }
}

/// What a status call comes to: a transport failure keeps its message, a
/// failed lookup names the missing part.
pub open spec fn status_outcome(reply: Result<DescribeInstanceStatusResultView, Seq<char>>) -> Result<
    ServerState,
    GatewayErrorView,
> {
    match reply {
        Err(message) => Err(GatewayErrorView::Transport(message)),
        Ok(result) => match first_status_state(result) {
            Err(missing) => Err(GatewayErrorView::EmptyResult(Operation::Describe, missing)),
            Ok(state) => Ok(state),
        },
    }
}

/// Reads the state that a status entry reports.
pub fn match_instance_status_option_to_server_state(status_opt: Option<&InstanceStatus>) -> (out:
    Result<ServerState, MissingField>)
    ensures
        out == status_state(
            match status_opt {
                Some(status) => Some(status@),
                None => None,
            },
        ),
{
    match status_opt {
        None => Err(MissingField::InstanceStatusInfo),
        Some(status) => match &status.instance_state {
            None => Err(MissingField::InstanceState),
            Some(state) => match &state.name {
                None => Err(MissingField::InstanceStateName),
                Some(name) => Ok(normalize(name.as_str())),
            },
        },
    }
}

/// Reads the state of the first entry that a status answer lists.
pub fn get_first_server_status_from_describe_status_result(
    describe_result: &DescribeInstanceStatusResult,
) -> (out: Result<ServerState, MissingField>)
    ensures
        out == first_status_state(describe_result@),
{
    match &describe_result.instance_statuses {
        None => Err(MissingField::InstanceStatuses),
        Some(status_list) => {
            let first_status = if status_list.len() > 0 {
                Some(&status_list[0])
            } else {
                None
            };
            match_instance_status_option_to_server_state(first_status)
        },
    }
}

/// Reads the server's state out of the reply to a status call.
///
/// Fails with `Transport` where the call itself failed, and with
/// `EmptyResult` where the answer lists no entry, no state or no state
/// name.
pub fn get_server_status(reply: Result<DescribeInstanceStatusResult, String>) -> (out: Result<
    ServerState,
    GatewayError,
>)
    ensures
        GatewayError::lift(out) == status_outcome(reply_view(reply)),
{
    match reply {
        Err(message) => Err(GatewayError::Transport(message)),
        Ok(result) => match get_first_server_status_from_describe_status_result(&result) {
            Err(missing) => Err(GatewayError::EmptyResult(Operation::Describe, missing)),
            Ok(state) => Ok(state),
        },
    }
}

} // verus!
