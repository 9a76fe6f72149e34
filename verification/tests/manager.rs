use msm::manager::{Message, ServerManager};
use msm::server::Command;
use msm::server_state::ServerState;
use msm::types::RequestType;

fn showing(current_state: ServerState) -> ServerManager {
    ServerManager { current_state, err_message: String::new(), state_check_count: 0 }
}

fn send_now(request_type: RequestType) -> Command {
    Command::Post { request_type, delay_ms: None }
}

fn poll_again() -> Command {
    Command::Post { request_type: RequestType::GetServerStatus, delay_ms: Some(1500) }
}

#[test]
fn a_fresh_manager_asks_for_the_state() {
    let (manager, first) = ServerManager::new();
    assert_eq!(manager, showing(ServerState::Stopped));
    assert_eq!(first, send_now(RequestType::GetServerStatus));
    assert_eq!(manager.title(), "Minecraft Server Manager");
    assert_eq!(manager.generate_state_count_str(), "");
}

#[test]
fn manager_refuses_a_start_while_the_server_runs() {
    let mut manager = showing(ServerState::Running);
    assert_eq!(manager.update(Message::StartServer), Command::Nothing);
    assert_eq!(manager.err_message, "Server is not stopped");
    assert_eq!(manager.current_state, ServerState::Running);
    assert_eq!(manager.state_check_count, 0);
}

#[test]
fn start_goes_out_only_from_stopped() {
    let others = [
        ServerState::Pending,
        ServerState::Running,
        ServerState::Stopping,
        ServerState::Unexpected,
        ServerState::Connecting,
    ];
    for state in others {
        let mut manager = showing(state);
        assert_eq!(manager.update(Message::StartServer), Command::Nothing);
        assert_eq!(manager.err_message, "Server is not stopped");
        assert_eq!(manager.current_state, state);
    }
    let mut manager = showing(ServerState::Stopped);
    assert_eq!(manager.update(Message::StartServer), send_now(RequestType::StartServer));
    assert_eq!(manager.current_state, ServerState::Connecting);
    assert_eq!(manager.err_message, "");
}

#[test]
fn stop_goes_out_only_from_running() {
    let others = [
        ServerState::Pending,
        ServerState::Stopping,
        ServerState::Stopped,
        ServerState::Unexpected,
        ServerState::Connecting,
    ];
    for state in others {
        let mut manager = showing(state);
        assert_eq!(manager.update(Message::StopServer), Command::Nothing);
        assert_eq!(manager.err_message, "Server is not running");
        assert_eq!(manager.current_state, state);
    }
    let mut manager = showing(ServerState::Running);
    assert_eq!(manager.update(Message::StopServer), send_now(RequestType::StopServer));
    assert_eq!(manager.current_state, ServerState::Connecting);
    assert_eq!(manager.err_message, "");
}

#[test]
fn reload_goes_out_from_any_state() {
    for state in [
        ServerState::Pending,
        ServerState::Running,
        ServerState::Stopping,
        ServerState::Stopped,
        ServerState::Unexpected,
        ServerState::Connecting,
    ] {
        let mut manager = showing(state);
        assert_eq!(
            manager.update(Message::ReloadServerStatus),
            send_now(RequestType::GetServerStatus)
        );
        assert_eq!(manager.current_state, ServerState::Connecting);
    }
}

#[test]
fn manager_starts_then_polls_until_running() {
    let mut manager = showing(ServerState::Stopped);
    assert_eq!(manager.update(Message::StartServer), send_now(RequestType::StartServer));
    assert_eq!(manager.update(Message::UpdateServerState(Ok(ServerState::Pending))), poll_again());
    assert_eq!(manager.update(Message::StartServer), Command::Nothing);
    assert_eq!(manager.update(Message::StopServer), Command::Nothing);
    assert_eq!(manager.current_state, ServerState::Pending);
    assert_eq!(manager.state_check_count, 1);
    assert_eq!(manager.update(Message::UpdateServerState(Ok(ServerState::Pending))), poll_again());
    assert_eq!(
        manager.update(Message::UpdateServerState(Ok(ServerState::Running))),
        Command::Nothing
    );
    assert_eq!(manager.current_state, ServerState::Running);
    assert_eq!(manager.state_check_count, 0);
}

#[test]
fn manager_polls_while_the_state_is_transient() {
    let (mut manager, _first) = ServerManager::new();
    assert_eq!(manager.update(Message::UpdateServerState(Ok(ServerState::Pending))), poll_again());
    assert_eq!(manager.state_check_count, 1);
    assert_eq!(manager.generate_state_count_str(), ".");
    assert_eq!(manager.update(Message::UpdateServerState(Ok(ServerState::Pending))), poll_again());
    assert_eq!(manager.state_check_count, 2);
    assert_eq!(manager.generate_state_count_str(), "..");
    assert_eq!(
        manager.update(Message::UpdateServerState(Ok(ServerState::Running))),
        Command::Nothing
    );
    assert_eq!(manager.current_state, ServerState::Running);
    assert_eq!(manager.state_check_count, 0);
    assert_eq!(manager.generate_state_count_str(), "");
}

#[test]
fn manager_keeps_the_state_on_failure() {
    let mut manager = showing(ServerState::Running);
    manager.state_check_count = 3;
    assert_eq!(
        manager.update(Message::UpdateServerState(Err("no route to host".to_string()))),
        Command::Nothing
    );
    assert_eq!(manager.err_message, "Err: no route to host");
    assert_eq!(manager.current_state, ServerState::Running);
    assert_eq!(manager.state_check_count, 3);
}

#[test]
fn manager_messages_can_be_copied() {
    let messages = vec![
        Message::StartServer,
        Message::ReloadServerStatus,
        Message::StopServer,
        Message::UpdateServerState(Ok(ServerState::Stopping)),
        Message::UpdateServerState(Err("x".to_string())),
    ];
    for message in messages {
        assert_eq!(message.clone(), message);
    }
}

#[test]
fn manager_counts_past_sixty_five_thousand() {
    let mut manager = showing(ServerState::Pending);
    let transient = Message::UpdateServerState(Ok(ServerState::Stopping));
    manager.state_check_count = 65_534;
    assert!(manager.can_accept(&transient));
    assert_eq!(manager.update(transient.clone()), poll_again());
    assert_eq!(manager.state_check_count, 65_535);
    assert!(manager.can_accept(&transient));
    assert_eq!(manager.update(transient.clone()), poll_again());
    assert_eq!(manager.state_check_count, 65_536);
    assert!(manager.can_accept(&transient));
    assert_eq!(manager.update(transient.clone()), poll_again());
    assert_eq!(manager.state_check_count, 65_537);
    assert_eq!(manager.current_state, ServerState::Stopping);
    assert_eq!(
        manager.update(Message::UpdateServerState(Ok(ServerState::Stopped))),
        Command::Nothing
    );
    assert_eq!(manager.state_check_count, 0);
}

#[test]
fn only_the_machine_word_bounds_the_count() {
    let mut manager = showing(ServerState::Pending);
    let transient = Message::UpdateServerState(Ok(ServerState::Pending));
    manager.state_check_count = usize::MAX - 1;
    assert!(manager.can_accept(&transient));
    assert_eq!(manager.update(transient.clone()), poll_again());
    assert_eq!(manager.state_check_count, usize::MAX);
    assert!(!manager.can_accept(&transient));
    assert!(manager.can_accept(&Message::UpdateServerState(Ok(ServerState::Stopped))));
    assert!(manager.can_accept(&Message::ReloadServerStatus));
    assert!(manager.can_accept(&Message::StartServer));
}
