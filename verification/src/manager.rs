//! The plain server manager: it shows the state that the control surface
//! reports, lets a start or a stop through only from the state that it
//! fits, and keeps asking while the server is between two states.

use vstd::prelude::*;
use crate::error::ValidationError;
use crate::server::{Command, CommandView, POLL_DELAY_MS};
use crate::server_state::ServerState;
use crate::text::{dots, repeated};
use crate::types::RequestType;

verus! {

/// What the manager shows.
#[derive(Debug, PartialEq, Eq)]
pub struct ServerManager {
    /// The state on display.
    pub current_state: ServerState,
    /// The last error, empty while there was none.
    pub err_message: String,
    /// How many status queries the running poll has scheduled.
    pub state_check_count: usize,
}

/// What a `ServerManager` holds, with every text as its sequence of characters.
pub struct ServerManagerView {
    pub current_state: ServerState,
    pub err_message: Seq<char>,
    pub state_check_count: nat,
}

impl View for ServerManager {
    type V = ServerManagerView;

    open spec fn view(&self) -> ServerManagerView {
        ServerManagerView {
            current_state: self.current_state,
            err_message: self.err_message@,
            state_check_count: self.state_check_count as nat,
        }
    }
}

/// What can happen to the manager.
#[derive(Debug, PartialEq, Eq)]
pub enum Message {
    /// The start button was pressed.
    StartServer,
    /// The reload button was pressed.
    ReloadServerStatus,
    /// The stop button was pressed.
    StopServer,
    /// A request came back, with the reported state or with a failure.
    UpdateServerState(Result<ServerState, String>),
}

/// What a `Message` holds, with every text as its sequence of characters.
pub enum MessageView {
    StartServer,
    ReloadServerStatus,
    StopServer,
    UpdateServerState(Result<ServerState, Seq<char>>),
}

impl View for Message {
    type V = MessageView;

    open spec fn view(&self) -> MessageView {
        match self {
            Message::StartServer => MessageView::StartServer,
            Message::ReloadServerStatus => MessageView::ReloadServerStatus,
            Message::StopServer => MessageView::StopServer,
            Message::UpdateServerState(Ok(state)) => MessageView::UpdateServerState(Ok(*state)),
            Message::UpdateServerState(Err(error)) => MessageView::UpdateServerState(Err(error@)),
        }
    }
}

impl Clone for Message {
    fn clone(&self) -> (out: Message)
        ensures
            out@ == self@,
    {
        match self {
            Message::StartServer => Message::StartServer,
            Message::ReloadServerStatus => Message::ReloadServerStatus,
            Message::StopServer => Message::StopServer,
            Message::UpdateServerState(Ok(state)) => Message::UpdateServerState(Ok(*state)),
            Message::UpdateServerState(Err(error)) => Message::UpdateServerState(
                Err(error.clone()),
            ),
        }
    }
}

impl ServerManagerView {
    /// The manager before anything has happened.
    pub open spec fn initial() -> ServerManagerView {
        ServerManagerView {
            current_state: ServerState::Stopped,
            err_message: Seq::empty(),
            state_check_count: 0,
        }
    }

    /// The manager while the request of a button is in flight.
    pub open spec fn connecting(self) -> ServerManagerView {
        ServerManagerView { current_state: ServerState::Connecting, ..self }
    }

    /// The manager with `error` as its error line.
    pub open spec fn with_error(self, error: Seq<char>) -> ServerManagerView {
        ServerManagerView { err_message: error, ..self }
    }

    /// A start is let through only while the server is shown as stopped;
    /// otherwise the manager reports the refusal and sends nothing.
    pub open spec fn start_server(self) -> (ServerManagerView, CommandView) {
        if self.current_state == ServerState::Stopped {
            (self.connecting(), CommandView::send_now(RequestType::StartServer))
        } else {
            (self.with_error(ValidationError::NotStopped.text()), CommandView::Nothing)
        }
    }

    /// A stop is let through only while the server is shown as running;
    /// otherwise the manager reports the refusal and sends nothing.
    pub open spec fn stop_server(self) -> (ServerManagerView, CommandView) {
        if self.current_state == ServerState::Running {
            (self.connecting(), CommandView::send_now(RequestType::StopServer))
        } else {
            (self.with_error(ValidationError::NotRunning.text()), CommandView::Nothing)
        }
    }

    /// The transition of the manager: the state after `message` and the
    /// command that goes with it.
    ///
    /// A start or a stop that is let through, and every reload, shows
    /// `Connecting` and sends its request at once. A reported state is put
    /// on display; while it is transient the count goes up and one status
    /// query is scheduled after the poll delay, otherwise the count goes
    /// back to zero and nothing more is sent. A failure only changes the
    /// error line.
    pub open spec fn step(self, message: MessageView) -> (ServerManagerView, CommandView) {
        match message {
            MessageView::StartServer => self.start_server(),
            MessageView::ReloadServerStatus => (
                self.connecting(),
                CommandView::send_now(RequestType::GetServerStatus),
            ),
            MessageView::StopServer => self.stop_server(),
            MessageView::UpdateServerState(Ok(state)) => if state.is_transient() {
                (
                    ServerManagerView {
                        current_state: state,
                        state_check_count: self.state_check_count + 1,
                        ..self
                    },
                    CommandView::poll_again(),
                )
            } else {
                (
                    ServerManagerView { current_state: state, state_check_count: 0, ..self },
                    CommandView::Nothing,
                )
            },
            MessageView::UpdateServerState(Err(error)) => (
                self.with_error("Err: "@ + error),
                CommandView::Nothing,
            ),
        }
    }
}

impl ServerManagerView {
    /// The manager after the states `states` have been reported, one after
    /// the other, each as an update message.
    pub open spec fn after_states(self, states: Seq<ServerState>) -> ServerManagerView
        decreases states.len(),
    {
        if states.len() == 0 {
            self
        } else {
            self.after_states(states.drop_last()).step(
                MessageView::UpdateServerState(Ok(states.last())),
            ).0
        }
    }

    /// The commands that the manager gave on the way, one per report.
    pub open spec fn commands_for(self, states: Seq<ServerState>) -> Seq<CommandView>
        decreases states.len(),
    {
        if states.len() == 0 {
            Seq::empty()
        } else {
            self.commands_for(states.drop_last()).push(
                self.after_states(states.drop_last()).step(
                    MessageView::UpdateServerState(Ok(states.last())),
                ).1,
            )
        }
    }
}

/// While every report is of a transient state, the manager schedules one
/// status query per report, counts each of them, and shows the last
/// report.
pub proof fn lemma_poll_goes_on(manager: ServerManagerView, states: Seq<ServerState>)
    requires
        forall|i: int| 0 <= i < states.len() ==> states[i].is_transient(),
    ensures
        manager.commands_for(states).len() == states.len(),
        forall|i: int|
            0 <= i < states.len() ==> manager.commands_for(states)[i] == CommandView::poll_again(),
        manager.after_states(states).state_check_count == manager.state_check_count
            + states.len(),
        manager.after_states(states).err_message == manager.err_message,
        states.len() > 0 ==> manager.after_states(states).current_state == states.last(),
    decreases states.len(),
{
    if states.len() > 0 {
        let before = states.drop_last();
        lemma_poll_goes_on(manager, before);
    }
}

/// A poll ends with the first report of a state that is not transient.
/// Given reports of which all but the last are transient, the manager
/// schedules exactly one status query for each of those, none for the
/// last, and is left showing the last report with its count at zero.
pub proof fn lemma_poll_terminates(manager: ServerManagerView, states: Seq<ServerState>)
    requires
        states.len() > 0,
        forall|i: int| 0 <= i < states.len() - 1 ==> states[i].is_transient(),
        !states.last().is_transient(),
    ensures
        manager.commands_for(states).len() == states.len(),
        forall|i: int|
            0 <= i < states.len() - 1 ==> manager.commands_for(states)[i]
                == CommandView::poll_again(),
        manager.commands_for(states).last() == CommandView::Nothing,
        manager.after_states(states).current_state == states.last(),
        manager.after_states(states).state_check_count == 0,
        manager.after_states(states).err_message == manager.err_message,
{
    let before = states.drop_last();
    lemma_poll_goes_on(manager, before);
}

impl ServerManagerView {
    /// The manager after the messages `messages`, taken one after the
    /// other.
    pub open spec fn after_messages(self, messages: Seq<MessageView>) -> ServerManagerView
        decreases messages.len(),
    {
        if messages.len() == 0 {
            self
        } else {
            self.after_messages(messages.drop_last()).step(messages.last()).0
        }
    }

    /// Whether the count and the state on display fit together: while the
    /// count is not zero, a poll is under way, and the state on display is
    /// a transient one or `Connecting`.
    pub open spec fn poll_is_consistent(self) -> bool {
        self.state_check_count > 0 ==> self.current_state.is_transient() || self.current_state
            == ServerState::Connecting
    }
}

/// No message breaks the fit of count and state.
pub proof fn lemma_poll_stays_consistent(manager: ServerManagerView, message: MessageView)
    requires
        manager.poll_is_consistent(),
    ensures
        manager.step(message).0.poll_is_consistent(),
{
}

/// Whatever has happened to a manager since it was made, its count and
/// the state that it shows fit together.
pub proof fn lemma_every_manager_is_consistent(messages: Seq<MessageView>)
    ensures
        ServerManagerView::initial().after_messages(messages).poll_is_consistent(),
    decreases messages.len(),
{
    if messages.len() > 0 {
        lemma_every_manager_is_consistent(messages.drop_last());
        lemma_poll_stays_consistent(
            ServerManagerView::initial().after_messages(messages.drop_last()),
            messages.last(),
        );
    }
}

/// While a poll is under way, neither a start nor a stop is let through:
/// the state on display is then neither `Stopped` nor `Running`.
pub proof fn lemma_no_start_or_stop_while_polling(manager: ServerManagerView)
    requires
        manager.poll_is_consistent(),
        manager.state_check_count > 0,
    ensures
        manager.step(MessageView::StartServer).1 == CommandView::Nothing,
        manager.step(MessageView::StopServer).1 == CommandView::Nothing,
{
}

/// A start that is asked for while the server is not shown as stopped is
/// refused on the spot: the error line says so, nothing else changes, and
/// no request goes out.
pub proof fn lemma_start_is_guarded(manager: ServerManagerView)
    requires
        manager.current_state != ServerState::Stopped,
    ensures
        manager.step(MessageView::StartServer).0 == manager.with_error(
            ValidationError::NotStopped.text(),
        ),
        manager.step(MessageView::StartServer).0.current_state == manager.current_state,
        manager.step(MessageView::StartServer).1 == CommandView::Nothing,
        !manager.step(MessageView::StartServer).1.is_request(),
{
}

/// A stop that is asked for while the server is not shown as running is
/// refused on the spot: the error line says so, nothing else changes, and
/// no request goes out.
pub proof fn lemma_stop_is_guarded(manager: ServerManagerView)
    requires
        manager.current_state != ServerState::Running,
    ensures
        manager.step(MessageView::StopServer).0 == manager.with_error(
            ValidationError::NotRunning.text(),
        ),
        manager.step(MessageView::StopServer).0.current_state == manager.current_state,
        manager.step(MessageView::StopServer).1 == CommandView::Nothing,
        !manager.step(MessageView::StopServer).1.is_request(),
{
}

/// A start or a stop goes out exactly from the state that it fits, and a
/// reload from any state.
pub proof fn lemma_buttons_send_from_fitting_states(manager: ServerManagerView)
    ensures
        manager.step(MessageView::StartServer).1.is_request() <==> manager.current_state
            == ServerState::Stopped,
        manager.step(MessageView::StopServer).1.is_request() <==> manager.current_state
            == ServerState::Running,
        manager.step(MessageView::ReloadServerStatus) == (
            manager.connecting(),
            CommandView::send_now(RequestType::GetServerStatus),
        ),
{
}

/// A transient report is counted and followed up, whatever the count was:
/// the poll has no cutoff.
pub proof fn lemma_transient_report_is_counted(manager: ServerManagerView, state: ServerState)
    requires
        state.is_transient(),
    ensures
        manager.step(MessageView::UpdateServerState(Ok(state))).0.state_check_count
            == manager.state_check_count + 1,
        manager.step(MessageView::UpdateServerState(Ok(state))).0.current_state == state,
        manager.step(MessageView::UpdateServerState(Ok(state))).1 == CommandView::poll_again(),
{
}

/// A failed request leaves the state on display; only the error line
/// changes.
pub proof fn lemma_failure_keeps_last_state(manager: ServerManagerView, error: Seq<char>)
    ensures
        manager.step(MessageView::UpdateServerState(Err(error))).0 == manager.with_error(
            "Err: "@ + error,
        ),
        manager.step(MessageView::UpdateServerState(Err(error))).1 == CommandView::Nothing,
{
}

impl ServerManager {
    /// Whether `message` can be taken: the count of a poll must not run
    /// out of the machine's word.
    pub open spec fn accepts(&self, message: Message) -> bool {
        message matches Message::UpdateServerState(Ok(state)) && state.is_transient()
            ==> self.state_check_count < usize::MAX
    }

    /// Tests whether `message` can be taken.
    pub fn can_accept(&self, message: &Message) -> (ok: bool)
        ensures
            ok == self.accepts(*message),
    {
        match message {
            Message::UpdateServerState(Ok(state)) => !state.is_transient()
                || self.state_check_count < usize::MAX,
            _ => true,
        }
    }

    /// A fresh manager, and the status query that it starts with.
    pub fn new() -> (out: (ServerManager, Command))
        ensures
            out.0@ == ServerManagerView::initial(),
            out.1@ == CommandView::send_now(RequestType::GetServerStatus),
    {
        (
            ServerManager {
                current_state: ServerState::Stopped,
                err_message: String::new(),
                state_check_count: 0,
            },
            Command::Post { request_type: RequestType::GetServerStatus, delay_ms: None },
        )
    }

    /// The window's title.
    pub fn title(&self) -> (out: String)
        ensures
            out@ == "Minecraft Server Manager"@,
    {
        String::from_str("Minecraft Server Manager")
    }

    /// Takes one message: updates what is shown and says what to do next.
    ///
    /// A start while the server is not shown as stopped, and a stop while
    /// it is not shown as running, only set the error line: no request goes
    /// out and the state on display stays. A failed request changes the
    /// error line only.
    pub fn update(&mut self, message: Message) -> (command: Command)
        requires
            old(self).accepts(message),
        ensures
            (final(self)@, command@) == old(self)@.step(message@),
            message == Message::StartServer && old(self).current_state != ServerState::Stopped
                ==> command@ == CommandView::Nothing && final(self).current_state == old(
                self,
            ).current_state && final(self).err_message@ == ValidationError::NotStopped.text(),
            message == Message::StopServer && old(self).current_state != ServerState::Running
                ==> command@ == CommandView::Nothing && final(self).current_state == old(
                self,
            ).current_state && final(self).err_message@ == ValidationError::NotRunning.text(),
            message matches Message::UpdateServerState(Ok(state)) && state.is_transient()
                ==> final(self).state_check_count == old(self).state_check_count + 1 && command@
                == CommandView::poll_again(),
    {
        match message {
            Message::StartServer => match self.current_state {
                ServerState::Stopped => {
                    self.current_state = ServerState::Connecting;
                    Command::Post { request_type: RequestType::StartServer, delay_ms: None }
                },
                _ => {
                    self.err_message = ValidationError::NotStopped.message();
                    Command::Nothing
                },
            },
            Message::ReloadServerStatus => {
                self.current_state = ServerState::Connecting;
                Command::Post { request_type: RequestType::GetServerStatus, delay_ms: None }
            },
            Message::StopServer => match self.current_state {
                ServerState::Running => {
                    self.current_state = ServerState::Connecting;
                    Command::Post { request_type: RequestType::StopServer, delay_ms: None }
                },
                _ => {
                    self.err_message = ValidationError::NotRunning.message();
                    Command::Nothing
                },
            },
            Message::UpdateServerState(update) => match update {
                Ok(state) => {
                    self.current_state = state;
                    match state {
                        ServerState::Pending | ServerState::Stopping => {
                            self.state_check_count += 1;
                            Command::Post {
                                request_type: RequestType::GetServerStatus,
                                delay_ms: Some(POLL_DELAY_MS),
                            }
                        },
                        _ => {
                            self.state_check_count = 0;
                            Command::Nothing
                        },
                    }
                },
                Err(error) => {
                    self.err_message = String::from_str("Err: ").concat(error.as_str());
                    Command::Nothing
                },
            },
        }
    }

    /// One dot for each status query that the running poll has scheduled.
    pub fn generate_state_count_str(&self) -> (out: String)
        ensures
            out@ == repeated('.', self.state_check_count as nat),
    {
        dots(self.state_check_count)
    }
}

} // verus!
