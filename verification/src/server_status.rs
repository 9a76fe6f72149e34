//! Reading the server's state, and its address, out of what the provider
//! answers to a describe-instances call.
//!
//! An answer without a reservation, an instance, a state or a state name
//! is a failed lookup. It is never read as a stopped server.

use vstd::prelude::*;
use crate::error::{GatewayError, GatewayErrorView, MissingField, Operation};
use crate::provider::{
    reply_view, DescribeInstancesResult, DescribeInstancesResultView, Instance,
    InstanceStateChange, InstanceStateChangeView, InstanceStateView, InstanceView,
};
use crate::server_state::{normalize, normalized, ServerState};
use crate::types::{clone_address, IpAddress, ResponsePayloadView};

verus! {

/// The status word of a state record.
pub open spec fn state_name(state: Option<InstanceStateView>) -> Result<Seq<char>, MissingField> {
    match state {
        None => Err(MissingField::InstanceState),
        Some(state) => match state.name {
            None => Err(MissingField::InstanceStateName),
            Some(name) => Ok(name),
        },
    }
}

/// The state and the address of one instance: the state is the normalized
/// status word, the address is passed on as the provider gave it.
pub open spec fn instance_status(instance: InstanceView) -> Result<
    ResponsePayloadView,
    MissingField,
> {
    match state_name(instance.state) {
        Err(missing) => Err(missing),
        Ok(name) => Ok(
            ResponsePayloadView {
                server_state: normalized(name),
                ip_address: instance.public_ip_address,
            },
        ),
    }
}

/// The first instance of the first reservation of a describe answer.
pub open spec fn first_instance(result: DescribeInstancesResultView) -> Result<
    InstanceView,
    MissingField,
> {
    match result.reservations {
        None => Err(MissingField::Reservations),
        Some(reservations) => if reservations.len() == 0 {
            Err(MissingField::ReservationInfo)
        } else {
            match reservations[0].instances {
                None => Err(MissingField::Instances),
                Some(instances) => if instances.len() == 0 {
                    Err(MissingField::InstanceInfo)
                } else {
                    Ok(instances[0])
                },
            }
        },
    }
}

/// What a describe answer says of the server.
pub open spec fn described_status(result: DescribeInstancesResultView) -> Result<
    ResponsePayloadView,
    MissingField,
> {
    match first_instance(result) {
        Err(missing) => Err(missing),
        Ok(instance) => instance_status(instance),
    }
}

/// The state that a start or stop record reports; `None` stands for an
/// acknowledgment that lists no record.
pub open spec fn changed_state(change: Option<InstanceStateChangeView>) -> Result<
    ServerState,
    MissingField,
> {
    match change {
        None => Err(MissingField::InstanceInfo),
        Some(change) => match state_name(change.current_state) {
            Err(missing) => Err(missing),
            Ok(name) => Ok(normalized(name)),
        },
    }
}

/// What a describe call comes to: a transport failure keeps its message,
/// a failed lookup names the missing part.
pub open spec fn describe_outcome(reply: Result<DescribeInstancesResultView, Seq<char>>) -> Result<
    ResponsePayloadView,
    GatewayErrorView,
> {
    match reply {
        Err(message) => Err(GatewayErrorView::Transport(message)),
        Ok(result) => match described_status(result) {
            Err(missing) => Err(GatewayErrorView::EmptyResult(Operation::Describe, missing)),
            Ok(status) => Ok(status),
        },
    }
}

/// A state and an address as the pair that the contracts speak of.
pub open spec fn status_of(pair: (ServerState, IpAddress)) -> ResponsePayloadView {
    ResponsePayloadView { server_state: pair.0, ip_address: pair.1.deep_view() }
}

/// Reads state and address of one instance.
pub fn get_server_state_and_address_from_instance_info(instance: &Instance) -> (out: Result<
    (ServerState, IpAddress),
    MissingField,
>)
    ensures
        match out {
            Ok(pair) => instance_status(instance@) == Ok::<_, MissingField>(status_of(pair)),
            Err(missing) => instance_status(instance@) == Err::<ResponsePayloadView, _>(missing),
        },
{
    match &instance.state {
        None => Err(MissingField::InstanceState),
        Some(state) => match &state.name {
            None => Err(MissingField::InstanceStateName),
            Some(name) => {
                let address = clone_address(&instance.public_ip_address);
                Ok((normalize(name.as_str()), address))
            },
        },
    }
}

/// Reads state and address of the first instance that a describe answer
/// lists.
pub fn get_first_server_status_from_describe_instances_result(
    describe_result: &DescribeInstancesResult,
) -> (out: Result<(ServerState, IpAddress), MissingField>)
    ensures
        match out {
            Ok(pair) => described_status(describe_result@) == Ok::<_, MissingField>(
                status_of(pair),
            ),
            Err(missing) => described_status(describe_result@) == Err::<ResponsePayloadView, _>(
                missing,
            ),
        },
{
    match &describe_result.reservations {
        None => Err(MissingField::Reservations),
        Some(reservation_list) => {
            if reservation_list.len() == 0 {
                return Err(MissingField::ReservationInfo);
            }
            match &reservation_list[0].instances {
                None => Err(MissingField::Instances),
                Some(instance_list) => {
                    if instance_list.len() == 0 {
                        return Err(MissingField::InstanceInfo);
                    }
                    get_server_state_and_address_from_instance_info(&instance_list[0])
                },
            }
        },
    }
}

/// Reads the state that a start or stop record reports.
pub fn get_current_sever_state_from_instance_state_change_opt(
    instance_state_change_opt: Option<&InstanceStateChange>,
) -> (out: Result<ServerState, MissingField>)
    ensures
        out == changed_state(
            match instance_state_change_opt {
                Some(change) => Some(change@),
                None => None,
            },
        ),
{
    match instance_state_change_opt {
        None => Err(MissingField::InstanceInfo),
        Some(instance_state_change) => match &instance_state_change.current_state {
            None => Err(MissingField::InstanceState),
            Some(state) => match &state.name {
                None => Err(MissingField::InstanceStateName),
                Some(name) => Ok(normalize(name.as_str())),
            },
        },
    }
}

/// Reads the server's state and address out of the reply to a describe
/// call.
///
/// Fails with `Transport` where the call itself failed, and with
/// `EmptyResult` where the answer lists no reservation, no instance, no
/// state or no state name.
pub fn get_server_status(reply: Result<DescribeInstancesResult, String>) -> (out: Result<
    (ServerState, IpAddress),
    GatewayError,
>)
    ensures
        match out {
            Ok(pair) => describe_outcome(reply_view(reply)) == Ok::<_, GatewayErrorView>(
                status_of(pair),
            ),
            Err(error) => describe_outcome(reply_view(reply)) == Err::<
                ResponsePayloadView,
                _,
            >(error@),
        },
        reply matches Ok(result) && (result@.reservations matches Some(list) ==> list.len() == 0)
            ==> out matches Err(GatewayError::EmptyResult(Operation::Describe, _)),
{
    match reply {
        Err(message) => Err(GatewayError::Transport(message)),
        Ok(result) => match get_first_server_status_from_describe_instances_result(&result) {
            Err(missing) => Err(GatewayError::EmptyResult(Operation::Describe, missing)),
            Ok(pair) => Ok(pair),
        },
    }
}

/// A describe answer without a reservation is a failed lookup, whatever
/// else it holds: the outcome is `EmptyResult`, and so never a state, a
/// stopped server least of all.
pub proof fn lemma_no_reservation_is_empty_result(result: DescribeInstancesResultView)
    requires
        result.reservations matches Some(list) ==> list.len() == 0,
    ensures
        describe_outcome(Ok(result)) matches Err(
            GatewayErrorView::EmptyResult(Operation::Describe, missing),
        ) && (missing == MissingField::Reservations || missing == MissingField::ReservationInfo),
{
}

/// Whether a describe answer holds all that the lookup needs: a first
/// reservation with a first instance that has a state with a name.
pub open spec fn names_first_instance_state(result: DescribeInstancesResultView) -> bool {
    &&& result.reservations matches Some(reservations)
    &&& reservations.len() > 0
    &&& reservations[0].instances matches Some(instances)
    &&& instances.len() > 0
    &&& instances[0].state matches Some(state)
    &&& state.name is Some
}

/// A describe call that went through yields a state exactly where the
/// answer holds a first reservation with a first instance that has a state
/// with a name; the state is then the normalized name, and the address is
/// that instance's.
pub proof fn lemma_described_status_is_of_first_instance(result: DescribeInstancesResultView)
    ensures
        describe_outcome(Ok(result)) is Ok <==> names_first_instance_state(result),
        describe_outcome(Ok(result)) matches Ok(status) ==> {
            let instance = result.reservations->0[0].instances->0[0];
            &&& status.server_state == normalized(instance.state->0.name->0)
            &&& status.ip_address == instance.public_ip_address
        },
{
}

/// A start or stop record yields a state exactly where it is there and has
/// a state with a name; the state is then the normalized name.
pub proof fn lemma_changed_state_is_of_record(change: Option<InstanceStateChangeView>)
    ensures
        changed_state(change) is Ok <==> (change matches Some(record)
            && record.current_state matches Some(state) && state.name is Some),
        changed_state(change) matches Ok(state) ==> state == normalized(
            change->0.current_state->0.name->0,
        ),
{
}

} // verus!
