//! Reading the server's state out of the provider's acknowledgment of a
//! stop-instances call.

use vstd::prelude::*;
use crate::error::{GatewayError, GatewayErrorView, MissingField, Operation};
use crate::provider::{reply_view, StopInstancesResult, StopInstancesResultView};
use crate::server_state::ServerState;
use crate::server_status::{changed_state, get_current_sever_state_from_instance_state_change_opt};

verus! {

/// The state that a stop acknowledgment reports: that of its first record.
pub open spec fn stopped_state(result: StopInstancesResultView) -> Result<
    ServerState,
    MissingField,
> {
    match result.stopping_instances {
        None => Err(MissingField::StoppingInstances),
        Some(list) => changed_state(
            if list.len() > 0 {
                Some(list[0])
            } else {
                None
            },
        ),
    }
}

/// What a stop call comes to: a transport failure keeps its message, a
/// failed lookup names the missing part.
pub open spec fn stop_outcome(reply: Result<StopInstancesResultView, Seq<char>>) -> Result<
    ServerState,
    GatewayErrorView,
> {
    match reply {
        Err(message) => Err(GatewayErrorView::Transport(message)),
        Ok(result) => match stopped_state(result) {
            Err(missing) => Err(GatewayErrorView::EmptyResult(Operation::Stop, missing)),
            Ok(state) => Ok(state),
        },
    }
}

/// Reads the state that a stop acknowledgment reports.
pub fn get_server_state_from_stop_result(stop_result: StopInstancesResult) -> (out: Result<
    ServerState,
    MissingField,
>)
    ensures
        out == stopped_state(stop_result@),
{
    match &stop_result.stopping_instances {
        None => Err(MissingField::StoppingInstances),
        Some(list) => {
            let first_instance = if list.len() > 0 {
                Some(&list[0])
            } else {
                None
            };
            get_current_sever_state_from_instance_state_change_opt(first_instance)
        },
    }
}

/// Reads the server's state out of the reply to a stop call.
///
/// The state is the one that the acknowledgment reports, not a fresh
/// describe. Fails with `Transport` where the call itself failed, and with
/// `EmptyResult` where the acknowledgment holds no state-change record, no
/// state or no state name.
pub fn stop_server(reply: Result<StopInstancesResult, String>) -> (out: Result<
    ServerState,
    GatewayError,
>)
    ensures
        GatewayError::lift(out) == stop_outcome(reply_view(reply)),
{
    match reply {
        Err(message) => Err(GatewayError::Transport(message)),
        Ok(result) => match get_server_state_from_stop_result(result) {
            Err(missing) => Err(GatewayError::EmptyResult(Operation::Stop, missing)),
            Ok(state) => Ok(state),
        },
    }
}

} // verus!
