use msm::error::{GatewayError, MissingField, Operation};
use msm::instance_status::{
    get_first_server_status_from_describe_status_result, get_server_status,
    match_instance_status_option_to_server_state,
};
use msm::provider::{DescribeInstanceStatusResult, InstanceState, InstanceStatus};
use msm::server_state::ServerState;

fn status(name: &str) -> InstanceStatus {
    InstanceStatus { instance_state: Some(InstanceState { name: Some(name.to_string()) }) }
}

#[test]
fn status_entry_gives_the_normalized_state() {
    assert_eq!(
        match_instance_status_option_to_server_state(Some(&status("running"))),
        Ok(ServerState::Running)
    );
    assert_eq!(
        match_instance_status_option_to_server_state(Some(&status("terminated"))),
        Ok(ServerState::Unexpected)
    );
}

#[test]
fn status_entry_names_each_missing_part() {
    assert_eq!(
        match_instance_status_option_to_server_state(None),
        Err(MissingField::InstanceStatusInfo)
    );
    assert_eq!(
        match_instance_status_option_to_server_state(Some(&InstanceStatus {
            instance_state: None
        })),
        Err(MissingField::InstanceState)
    );
    assert_eq!(
        match_instance_status_option_to_server_state(Some(&InstanceStatus {
            instance_state: Some(InstanceState { name: None })
        })),
        Err(MissingField::InstanceStateName)
    );
}

#[test]
fn status_answer_is_read_by_its_first_entry() {
    let answer = DescribeInstanceStatusResult {
        instance_statuses: Some(vec![status("stopped"), status("running")]),
    };
    assert_eq!(
        get_first_server_status_from_describe_status_result(&answer),
        Ok(ServerState::Stopped)
    );
    assert_eq!(
        get_first_server_status_from_describe_status_result(&DescribeInstanceStatusResult {
            instance_statuses: None
        }),
        Err(MissingField::InstanceStatuses)
    );
    assert_eq!(
        get_first_server_status_from_describe_status_result(&DescribeInstanceStatusResult {
            instance_statuses: Some(vec![])
        }),
        Err(MissingField::InstanceStatusInfo)
    );
}

#[test]
fn status_call_outcomes() {
    assert_eq!(
        get_server_status(Ok(DescribeInstanceStatusResult {
            instance_statuses: Some(vec![status("pending")])
        })),
        Ok(ServerState::Pending)
    );
    assert_eq!(
        get_server_status(Ok(DescribeInstanceStatusResult { instance_statuses: Some(vec![]) })),
        Err(GatewayError::EmptyResult(Operation::Describe, MissingField::InstanceStatusInfo))
    );
    assert_eq!(
        get_server_status(Err("dns failure".to_string())),
        Err(GatewayError::Transport("dns failure".to_string()))
    );
}
