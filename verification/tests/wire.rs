use msm::config::GatewayInfo;
use msm::error::DispatchError;
use msm::server::{post_request, PostPayload, PostRequestType, POLL_DELAY_MS};
use msm::server_state::ServerState;
use msm::types::{RequestPayload, RequestType, ResponsePayload};
use msm::wire::{WireRequest, WireResponse};

const STATES: [ServerState; 6] = [
    ServerState::Pending,
    ServerState::Running,
    ServerState::Stopping,
    ServerState::Stopped,
    ServerState::Unexpected,
    ServerState::Connecting,
];

const COMMANDS: [RequestType; 3] =
    [RequestType::StartServer, RequestType::GetServerStatus, RequestType::StopServer];

#[test]
fn command_names_are_kebab_case() {
    assert_eq!(RequestType::StartServer.wire_name(), "start-server");
    assert_eq!(RequestType::GetServerStatus.wire_name(), "get-server-status");
    assert_eq!(RequestType::StopServer.wire_name(), "stop-server");
}

#[test]
fn state_names_are_lower_case() {
    assert_eq!(ServerState::Pending.wire_name(), "pending");
    assert_eq!(ServerState::Running.wire_name(), "running");
    assert_eq!(ServerState::Stopping.wire_name(), "stopping");
    assert_eq!(ServerState::Stopped.wire_name(), "stopped");
    assert_eq!(ServerState::Unexpected.wire_name(), "unexpected");
    assert_eq!(ServerState::Connecting.wire_name(), "connecting");
}

#[test]
fn names_read_back() {
    for command in COMMANDS {
        assert_eq!(RequestType::from_wire_name(command.wire_name()), Some(command));
    }
    for state in STATES {
        assert_eq!(ServerState::from_wire_name(state.wire_name()), Some(state));
    }
}

#[test]
fn unknown_names_are_not_read() {
    assert_eq!(RequestType::from_wire_name("StartServer"), None);
    assert_eq!(RequestType::from_wire_name("start_server"), None);
    assert_eq!(RequestType::from_wire_name("restart-server"), None);
    assert_eq!(RequestType::from_wire_name(""), None);
    assert_eq!(ServerState::from_wire_name("Running"), None);
    assert_eq!(ServerState::from_wire_name("shutting-down"), None);
    assert_eq!(ServerState::from_wire_name(""), None);
}

#[test]
fn every_request_round_trips() {
    for request_type in COMMANDS {
        let request = RequestPayload { request_type };
        let wire = request.to_wire();
        assert_eq!(wire, WireRequest { request_type: request_type.wire_name().to_string() });
        assert_eq!(RequestPayload::from_wire(&wire), Ok(request));
    }
}

#[test]
fn every_response_round_trips() {
    let addresses = [None, Some("203.0.113.7"), Some(""), Some("a \"quoted\" \\ text\n")];
    for server_state in STATES {
        for address in addresses {
            let ip_address = address.map(|a| a.to_string());
            let payload = ResponsePayload { server_state, ip_address: ip_address.clone() };
            let wire = payload.clone().to_wire();
            assert_eq!(
                wire,
                WireResponse { server_state: server_state.wire_name().to_string(), ip_address }
            );
            assert_eq!(ResponsePayload::from_wire(wire), Ok(payload));
        }
    }
}

#[test]
fn an_unknown_command_is_an_invalid_payload() {
    let wire = WireRequest { request_type: "reboot-server".to_string() };
    assert_eq!(
        RequestPayload::from_wire(&wire),
        Err(DispatchError::InvalidPayload("unknown request type: reboot-server".to_string()))
    );
    let wire = WireRequest { request_type: String::new() };
    assert_eq!(
        RequestPayload::from_wire(&wire),
        Err(DispatchError::InvalidPayload("unknown request type: ".to_string()))
    );
}

#[test]
fn an_unknown_state_is_reported_with_its_name() {
    let wire = WireResponse {
        server_state: "rebooting".to_string(),
        ip_address: Some("203.0.113.7".to_string()),
    };
    assert_eq!(
        ResponsePayload::from_wire(wire),
        Err("unknown server state: rebooting".to_string())
    );
}

#[test]
fn default_response_is_a_stopped_server_without_address() {
    assert_eq!(
        ResponsePayload::default(),
        ResponsePayload { server_state: ServerState::Stopped, ip_address: None }
    );
}

#[test]
fn post_request_carries_url_key_and_command() {
    let gateway = GatewayInfo {
        url: "https://example.execute-api.ap-northeast-1.amazonaws.com/prod".to_string(),
        api_key: "SECRET-REDACTED".to_string(),
    };
    for command in COMMANDS {
        let request_type: PostRequestType = command;
        let post = post_request(&gateway, request_type);
        assert_eq!(post.url, gateway.url);
        assert_eq!(post.key_header, "x-api-key");
        assert_eq!(post.api_key, gateway.api_key);
        assert_eq!(post.payload, PostPayload { request_type }.to_wire());
    }
}

#[test]
fn poll_delay_is_a_second_and_a_half() {
    assert_eq!(POLL_DELAY_MS, 1500);
}
