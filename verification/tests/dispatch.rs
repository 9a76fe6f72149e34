use msm::config::Ec2Config;
use msm::dispatch::{gateway_call, handle_request, response_status, GatewayCall, GatewayReply};
use msm::error::{DispatchError, GatewayError, MissingField, Operation};
use msm::provider::{
    DescribeInstancesRequest, DescribeInstancesResult, Instance, InstanceState,
    InstanceStateChange, Reservation, StartInstancesRequest, StartInstancesResult,
    StopInstancesRequest, StopInstancesResult,
};
use msm::server_state::ServerState;
use msm::types::{RequestPayload, RequestType, ResponsePayload};

fn config() -> Ec2Config {
    Ec2Config { instance_id: "i-0a1b2c3d".to_string() }
}

fn request(request_type: RequestType) -> RequestPayload {
    RequestPayload { request_type }
}

fn change(name: &str) -> InstanceStateChange {
    InstanceStateChange { current_state: Some(InstanceState { name: Some(name.to_string()) }) }
}

fn described(name: &str, address: Option<&str>) -> DescribeInstancesResult {
    DescribeInstancesResult {
        reservations: Some(vec![Reservation {
            instances: Some(vec![Instance {
                state: Some(InstanceState { name: Some(name.to_string()) }),
                public_ip_address: address.map(|a| a.to_string()),
            }]),
        }]),
    }
}

fn started(name: &str) -> GatewayReply {
    GatewayReply::Start(Ok(StartInstancesResult { starting_instances: Some(vec![change(name)]) }))
}

fn stopped(name: &str) -> GatewayReply {
    GatewayReply::Stop(Ok(StopInstancesResult { stopping_instances: Some(vec![change(name)]) }))
}

fn gateway(error: GatewayError) -> DispatchError {
    DispatchError::Gateway(error)
}

#[test]
fn each_command_has_its_provider_call() {
    assert_eq!(
        gateway_call(&request(RequestType::StartServer), &config()),
        GatewayCall::Start(StartInstancesRequest {
            instance_ids: vec!["i-0a1b2c3d".to_string()],
            additional_info: None,
            dry_run: None,
        })
    );
    assert_eq!(
        gateway_call(&request(RequestType::GetServerStatus), &config()),
        GatewayCall::Describe(DescribeInstancesRequest {
            instance_ids: Some(vec!["i-0a1b2c3d".to_string()])
        })
    );
    assert_eq!(
        gateway_call(&request(RequestType::StopServer), &config()),
        GatewayCall::Stop(StopInstancesRequest { instance_ids: vec!["i-0a1b2c3d".to_string()] })
    );
}

#[test]
fn start_is_answered_with_the_acknowledged_state_and_no_address() {
    assert_eq!(
        handle_request(&request(RequestType::StartServer), &config(), started("pending")),
        Ok(ResponsePayload { server_state: ServerState::Pending, ip_address: None })
    );
}

#[test]
fn stop_is_answered_with_the_acknowledged_state_and_no_address() {
    assert_eq!(
        handle_request(&request(RequestType::StopServer), &config(), stopped("stopping")),
        Ok(ResponsePayload { server_state: ServerState::Stopping, ip_address: None })
    );
}

#[test]
fn status_is_answered_with_state_and_address() {
    let reply = GatewayReply::Describe(Ok(described("running", Some("203.0.113.7"))));
    assert_eq!(
        handle_request(&request(RequestType::GetServerStatus), &config(), reply),
        Ok(ResponsePayload {
            server_state: ServerState::Running,
            ip_address: Some("203.0.113.7".to_string()),
        })
    );
    let reply = GatewayReply::Describe(Ok(described("stopped", None)));
    assert_eq!(
        handle_request(&request(RequestType::GetServerStatus), &config(), reply),
        Ok(ResponsePayload { server_state: ServerState::Stopped, ip_address: None })
    );
}

#[test]
fn start_and_stop_never_answer_with_an_address() {
    let words = ["pending", "running", "stopping", "stopped", "shutting-down", ""];
    for word in words {
        let answer = handle_request(&request(RequestType::StartServer), &config(), started(word));
        assert_eq!(answer.unwrap().ip_address, None);
        let answer = handle_request(&request(RequestType::StopServer), &config(), stopped(word));
        assert_eq!(answer.unwrap().ip_address, None);
    }
    let describe = GatewayReply::Describe(Ok(described("running", Some("203.0.113.7"))));
    let answer = handle_request(&request(RequestType::StartServer), &config(), describe);
    assert!(answer.is_err());
}

#[test]
fn gateway_failures_are_wrapped() {
    assert_eq!(
        handle_request(
            &request(RequestType::GetServerStatus),
            &config(),
            GatewayReply::Describe(Ok(DescribeInstancesResult { reservations: Some(vec![]) }))
        ),
        Err(gateway(GatewayError::EmptyResult(Operation::Describe, MissingField::ReservationInfo)))
    );
    assert_eq!(
        handle_request(
            &request(RequestType::StartServer),
            &config(),
            GatewayReply::Start(Ok(StartInstancesResult { starting_instances: None }))
        ),
        Err(gateway(GatewayError::EmptyResult(Operation::Start, MissingField::StartingInstances)))
    );
    assert_eq!(
        handle_request(
            &request(RequestType::StopServer),
            &config(),
            GatewayReply::Stop(Err("IncorrectInstanceState".to_string()))
        ),
        Err(gateway(GatewayError::Transport("IncorrectInstanceState".to_string())))
    );
}

#[test]
fn a_reply_to_another_operation_holds_nothing() {
    assert_eq!(
        handle_request(&request(RequestType::StartServer), &config(), stopped("stopping")),
        Err(gateway(GatewayError::EmptyResult(Operation::Start, MissingField::Reply)))
    );
    assert_eq!(
        handle_request(&request(RequestType::GetServerStatus), &config(), started("pending")),
        Err(gateway(GatewayError::EmptyResult(Operation::Describe, MissingField::Reply)))
    );
    assert_eq!(
        handle_request(
            &request(RequestType::StopServer),
            &config(),
            GatewayReply::Describe(Ok(described("running", None)))
        ),
        Err(gateway(GatewayError::EmptyResult(Operation::Stop, MissingField::Reply)))
    );
}

#[test]
fn statuses_of_the_boundary() {
    let ok = Ok(ResponsePayload { server_state: ServerState::Running, ip_address: None });
    assert_eq!(response_status(&ok), 200);
    let invalid = Err(DispatchError::InvalidPayload("missing field `requestType`".to_string()));
    assert_eq!(response_status(&invalid), 400);
    let failed = Err(gateway(GatewayError::Transport("timeout".to_string())));
    assert_eq!(response_status(&failed), 500);
    let empty = Err(gateway(GatewayError::EmptyResult(
        Operation::Describe,
        MissingField::Reservations,
    )));
    assert_eq!(response_status(&empty), 500);
}

#[test]
fn dispatch_error_messages_and_codes() {
    let invalid = DispatchError::InvalidPayload("expected value at line 1".to_string());
    assert_eq!(invalid.message(), "expected value at line 1");
    assert_eq!(invalid.status_code(), 400);
    let empty =
        gateway(GatewayError::EmptyResult(Operation::Describe, MissingField::InstanceState));
    assert_eq!(empty.message(), "Describe Error: No Instance State");
    assert_eq!(empty.status_code(), 500);
    let transport = gateway(GatewayError::Transport("throttled".to_string()));
    assert_eq!(transport.message(), "throttled");
    assert_eq!(transport.status_code(), 500);
}
