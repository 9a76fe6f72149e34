//! Reading the server's state out of the provider's acknowledgment of a
//! start-instances call.

use vstd::prelude::*;
use crate::error::{GatewayError, GatewayErrorView, MissingField, Operation};
use crate::provider::{reply_view, StartInstancesResult, StartInstancesResultView};
use crate::server_state::ServerState;
use crate::server_status::{changed_state, get_current_sever_state_from_instance_state_change_opt};

verus! {

/// The state that a start acknowledgment reports: that of its first record.
pub open spec fn started_state(result: StartInstancesResultView) -> Result<
    ServerState,
    MissingField,
> {
    match result.starting_instances {
        None => Err(MissingField::StartingInstances),
        Some(list) => changed_state(
            if list.len() > 0 {
                Some(list[0])
            } else {
                None
            },
        ),
    }
}

/// What a start call comes to: a transport failure keeps its message, a
/// failed lookup names the missing part.
pub open spec fn start_outcome(reply: Result<StartInstancesResultView, Seq<char>>) -> Result<
    ServerState,
    GatewayErrorView,
> {
    match reply {
        Err(message) => Err(GatewayErrorView::Transport(message)),
        Ok(result) => match started_state(result) {
            Err(missing) => Err(GatewayErrorView::EmptyResult(Operation::Start, missing)),
            Ok(state) => Ok(state),
        },
    }
}

/// Reads the state that a start acknowledgment reports.
pub fn get_server_state_from_start_result(start_result: &StartInstancesResult) -> (out: Result<
    ServerState,
    MissingField,
>)
    ensures
        out == started_state(start_result@),
{
    match &start_result.starting_instances {
        None => Err(MissingField::StartingInstances),
        Some(list) => {
            let first_instance = if list.len() > 0 {
                Some(&list[0])
            } else {
                None
            };
            get_current_sever_state_from_instance_state_change_opt(first_instance)
        },
    }
}

/// Reads the server's state out of the reply to a start call.
///
/// The state is the one that the acknowledgment reports, not a fresh
/// describe. Fails with `Transport` where the call itself failed, and with
/// `EmptyResult` where the acknowledgment holds no state-change record, no
/// state or no state name.
pub fn start_server(reply: Result<StartInstancesResult, String>) -> (out: Result<
    ServerState,
    GatewayError,
>)
    ensures
        GatewayError::lift(out) == start_outcome(reply_view(reply)),
{
    match reply {
        Err(message) => Err(GatewayError::Transport(message)),
        Ok(result) => match get_server_state_from_start_result(&result) {
            Err(missing) => Err(GatewayError::EmptyResult(Operation::Start, missing)),
            Ok(state) => Ok(state),
        },
    }
}

} // verus!
