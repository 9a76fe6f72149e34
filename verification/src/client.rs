//! The polling client: what the desktop client shows, which commands it
//! lets through, and when it asks the control surface again.
//!
//! The client is a state machine. Its driver hands it one message at a
//! time and carries out the command that comes back; the answer to a
//! request returns as an update message. At most one follow-up query is
//! scheduled per answer, so polls are chained and never run side by side.

use vstd::prelude::*;
use crate::error::ValidationError;
use crate::server::{Command, CommandView, POLL_DELAY_MS};
use crate::server_state::ServerState;
use crate::text::{dots, repeated};
use crate::types::{clone_address, RequestType, ResponsePayload, ResponsePayloadView};

verus! {

/// What the client shows.
#[derive(Debug, PartialEq, Eq)]
pub struct MsmClient {
    /// The last answer of the control surface, or `Connecting` in place of
    /// its state while a request of the user is in flight.
    pub server_info: ResponsePayload,
    /// The last error, empty while there was none.
    pub err_message: String,
    /// How many follow-up queries the running poll has scheduled.
    pub state_checked_count: usize,
}

/// What a `MsmClient` holds, with every text as its sequence of characters.
pub struct MsmClientView {
    pub server_info: ResponsePayloadView,
    pub err_message: Seq<char>,
    pub state_checked_count: nat,
}

impl View for MsmClient {
    type V = MsmClientView;

    open spec fn view(&self) -> MsmClientView {
        MsmClientView {
            server_info: self.server_info@,
            err_message: self.err_message@,
            state_checked_count: self.state_checked_count as nat,
        }
    }
}

/// What can happen to the client.
#[derive(Debug, PartialEq, Eq)]
pub enum Message {
    /// The user asks for the server to be started.
    StartServer,
    /// The user asks for the address to be copied.
    CopyServerAddress,
    /// The user asks for the state to be queried.
    ReloadServerState,
    /// The user asks for the server to be stopped.
    StopServer,
    /// A request came back, with the answer or with a failure.
    UpdateServerState(Result<ResponsePayload, String>),
    /// The address field was edited; the client ignores it.
    AddressInputIsChanged(String),
}

/// What a `Message` holds, with every text as its sequence of characters.
pub enum MessageView {
    StartServer,
    CopyServerAddress,
    ReloadServerState,
    StopServer,
    UpdateServerState(Result<ResponsePayloadView, Seq<char>>),
    AddressInputIsChanged(Seq<char>),
}

impl View for Message {
    type V = MessageView;

    open spec fn view(&self) -> MessageView {
        match self {
            Message::StartServer => MessageView::StartServer,
            Message::CopyServerAddress => MessageView::CopyServerAddress,
            Message::ReloadServerState => MessageView::ReloadServerState,
            Message::StopServer => MessageView::StopServer,
            Message::UpdateServerState(Ok(info)) => MessageView::UpdateServerState(Ok(info@)),
            Message::UpdateServerState(Err(error)) => MessageView::UpdateServerState(Err(error@)),
            Message::AddressInputIsChanged(text) => MessageView::AddressInputIsChanged(text@),
        }
    }
}

impl Clone for Message {
    fn clone(&self) -> (out: Message)
        ensures
            out@ == self@,
    {
        match self {
            Message::StartServer => Message::StartServer,
            Message::CopyServerAddress => Message::CopyServerAddress,
            Message::ReloadServerState => Message::ReloadServerState,
            Message::StopServer => Message::StopServer,
            Message::UpdateServerState(Ok(info)) => Message::UpdateServerState(Ok(info.clone())),
            Message::UpdateServerState(Err(error)) => Message::UpdateServerState(
                Err(error.clone()),
            ),
            Message::AddressInputIsChanged(text) => Message::AddressInputIsChanged(text.clone()),
        }
    }
}

impl MsmClientView {
    /// The client before anything has happened: a stopped server without
    /// an address, no error, no poll.
    pub open spec fn initial() -> MsmClientView {
        MsmClientView {
            server_info: ResponsePayloadView { server_state: ServerState::Stopped, ip_address: None },
            err_message: Seq::empty(),
            state_checked_count: 0,
        }
    }

    /// The client while a request of the user is in flight: the state on
    /// display is `Connecting`, the address stays.
    pub open spec fn connecting(self) -> MsmClientView {
        MsmClientView {
            server_info: ResponsePayloadView {
                server_state: ServerState::Connecting,
                ..self.server_info
            },
            ..self
        }
    }

    /// The client with `error` as its error line.
    pub open spec fn with_error(self, error: Seq<char>) -> MsmClientView {
        MsmClientView { err_message: error, ..self }
    }

    /// A start is let through only while the server is shown as stopped;
    /// otherwise the client reports the refusal and sends nothing.
    pub open spec fn start_server(self) -> (MsmClientView, CommandView) {
        if self.server_info.server_state == ServerState::Stopped {
            (self.connecting(), CommandView::send_now(RequestType::StartServer))
        } else {
            (self.with_error(ValidationError::NotStopped.text()), CommandView::Nothing)
        }
    }

    /// A stop is let through only while the server is shown as running;
    /// otherwise the client reports the refusal and sends nothing.
    pub open spec fn stop_server(self) -> (MsmClientView, CommandView) {
        if self.server_info.server_state == ServerState::Running {
            (self.connecting(), CommandView::send_now(RequestType::StopServer))
        } else {
            (self.with_error(ValidationError::NotRunning.text()), CommandView::Nothing)
        }
    }

    /// The transition rule of the poll. The answer is put on display. While
    /// its state is transient, the count goes up by one and exactly one
    /// status query is scheduled after the poll delay; otherwise the count
    /// goes back to zero and nothing more is sent.
    pub open spec fn settle(self, server_info: ResponsePayloadView) -> (
        MsmClientView,
        CommandView,
    ) {
        if server_info.server_state.is_transient() {
            (
                MsmClientView {
                    server_info,
                    state_checked_count: self.state_checked_count + 1,
                    ..self
                },
                CommandView::poll_again(),
            )
        } else {
            (MsmClientView { server_info, state_checked_count: 0, ..self }, CommandView::Nothing)
        }
    }

    /// The transition of the client: the state after `message` and the
    /// command that goes with it.
    pub open spec fn step(self, message: MessageView) -> (MsmClientView, CommandView) {
        match message {
            MessageView::StartServer => self.start_server(),
            MessageView::CopyServerAddress => (
                self,
                match self.server_info.ip_address {
                    Some(address) => CommandView::CopyToClipboard(address),
                    None => CommandView::Nothing,
                },
            ),
            MessageView::ReloadServerState => (
                self.connecting(),
                CommandView::send_now(RequestType::GetServerStatus),
            ),
            MessageView::StopServer => self.stop_server(),
            MessageView::UpdateServerState(Ok(server_info)) => self.settle(server_info),
            MessageView::UpdateServerState(Err(error)) => (
                self.with_error("Err: "@ + error),
                CommandView::Nothing,
            ),
            MessageView::AddressInputIsChanged(_) => (self, CommandView::Nothing),
        }
    }
}

impl MsmClientView {
    /// The client after the answers `answers` have come in, one after the
    /// other, each as an update message.
    pub open spec fn after_answers(self, answers: Seq<ResponsePayloadView>) -> MsmClientView
        decreases answers.len(),
    {
        if answers.len() == 0 {
            self
        } else {
            self.after_answers(answers.drop_last()).step(
                MessageView::UpdateServerState(Ok(answers.last())),
            ).0
        }
    }

    /// The commands that the client gave on the way, one per answer.
    pub open spec fn commands_for(self, answers: Seq<ResponsePayloadView>) -> Seq<CommandView>
        decreases answers.len(),
    {
        if answers.len() == 0 {
            Seq::empty()
        } else {
            self.commands_for(answers.drop_last()).push(
                self.after_answers(answers.drop_last()).step(
                    MessageView::UpdateServerState(Ok(answers.last())),
                ).1,
            )
        }
    }
}

/// While every answer reports a transient state, the client schedules one
/// follow-up query per answer, counts each of them, and shows the last
/// answer.
pub proof fn lemma_poll_goes_on(client: MsmClientView, answers: Seq<ResponsePayloadView>)
    requires
        forall|i: int| 0 <= i < answers.len() ==> answers[i].server_state.is_transient(),
    ensures
        client.commands_for(answers).len() == answers.len(),
        forall|i: int|
            0 <= i < answers.len() ==> client.commands_for(answers)[i] == CommandView::poll_again(),
        client.after_answers(answers).state_checked_count == client.state_checked_count
            + answers.len(),
        client.after_answers(answers).err_message == client.err_message,
        answers.len() > 0 ==> client.after_answers(answers).server_info == answers.last(),
    decreases answers.len(),
{
    if answers.len() > 0 {
        let before = answers.drop_last();
        lemma_poll_goes_on(client, before);
    }
}

/// A poll ends with the first answer that reports a state that is not
/// transient. Given answers of which all but the last are transient, the
/// client schedules exactly one follow-up query for each of those, none for
/// the last, and is left showing the last answer with its count at zero.
pub proof fn lemma_poll_terminates(client: MsmClientView, answers: Seq<ResponsePayloadView>)
    requires
        answers.len() > 0,
        forall|i: int| 0 <= i < answers.len() - 1 ==> answers[i].server_state.is_transient(),
        !answers.last().server_state.is_transient(),
    ensures
        client.commands_for(answers).len() == answers.len(),
        forall|i: int|
            0 <= i < answers.len() - 1 ==> client.commands_for(answers)[i]
                == CommandView::poll_again(),
        client.commands_for(answers).last() == CommandView::Nothing,
        client.after_answers(answers).server_info == answers.last(),
        client.after_answers(answers).state_checked_count == 0,
        client.after_answers(answers).err_message == client.err_message,
{
    let before = answers.drop_last();
    lemma_poll_goes_on(client, before);
}

impl MsmClientView {
    /// The client after the messages `messages`, taken one after the other.
    pub open spec fn after_messages(self, messages: Seq<MessageView>) -> MsmClientView
        decreases messages.len(),
    {
        if messages.len() == 0 {
            self
        } else {
            self.after_messages(messages.drop_last()).step(messages.last()).0
        }
    }

    /// Whether the count and the state on display fit together: while the
    /// count is not zero, a poll is under way, and the state on display is
    /// a transient one or `Connecting`.
    pub open spec fn poll_is_consistent(self) -> bool {
        self.state_checked_count > 0 ==> self.server_info.server_state.is_transient()
            || self.server_info.server_state == ServerState::Connecting
    }
}

/// The count is zero after an answer exactly where the answer ends the
/// poll.
pub proof fn lemma_count_tells_whether_a_poll_runs(
    client: MsmClientView,
    server_info: ResponsePayloadView,
)
    ensures
        client.settle(server_info).0.state_checked_count == 0
            <==> !server_info.server_state.is_transient(),
        client.settle(server_info).1.is_request() <==> server_info.server_state.is_transient(),
{
}

/// No message breaks the fit of count and state.
pub proof fn lemma_poll_stays_consistent(client: MsmClientView, message: MessageView)
    requires
        client.poll_is_consistent(),
    ensures
        client.step(message).0.poll_is_consistent(),
{
}

/// Whatever has happened to a client since it was made, its count and the
/// state that it shows fit together.
pub proof fn lemma_every_client_is_consistent(messages: Seq<MessageView>)
    ensures
        MsmClientView::initial().after_messages(messages).poll_is_consistent(),
    decreases messages.len(),
{
    if messages.len() > 0 {
        lemma_every_client_is_consistent(messages.drop_last());
        lemma_poll_stays_consistent(
            MsmClientView::initial().after_messages(messages.drop_last()),
            messages.last(),
        );
    }
}

/// While a poll is under way, neither a start nor a stop is let through:
/// the state on display is then neither `Stopped` nor `Running`.
pub proof fn lemma_no_start_or_stop_while_polling(client: MsmClientView)
    requires
        client.poll_is_consistent(),
        client.state_checked_count > 0,
    ensures
        client.step(MessageView::StartServer).1 == CommandView::Nothing,
        client.step(MessageView::StopServer).1 == CommandView::Nothing,
{
}

/// A start that is asked for while the server is not shown as stopped is
/// refused on the spot: the error line says so, nothing else changes, and
/// no request goes out.
pub proof fn lemma_start_is_guarded(client: MsmClientView)
    requires
        client.server_info.server_state != ServerState::Stopped,
    ensures
        client.step(MessageView::StartServer).0 == client.with_error(
            ValidationError::NotStopped.text(),
        ),
        client.step(MessageView::StartServer).1 == CommandView::Nothing,
        !client.step(MessageView::StartServer).1.is_request(),
{
}

/// A stop that is asked for while the server is not shown as running is
/// refused on the spot: the error line says so, nothing else changes, and
/// no request goes out.
pub proof fn lemma_stop_is_guarded(client: MsmClientView)
    requires
        client.server_info.server_state != ServerState::Running,
    ensures
        client.step(MessageView::StopServer).0 == client.with_error(
            ValidationError::NotRunning.text(),
        ),
        client.step(MessageView::StopServer).1 == CommandView::Nothing,
        !client.step(MessageView::StopServer).1.is_request(),
{
}

/// A request is delayed exactly where it is the follow-up query of a poll,
/// and then by the poll delay; every other request goes out at once.
pub proof fn lemma_only_polls_are_delayed(client: MsmClientView, message: MessageView)
    ensures
        client.step(message).1 matches CommandView::Post { request_type, delay_ms } ==> {
            &&& delay_ms is Some ==> request_type == RequestType::GetServerStatus && delay_ms
                == Some(POLL_DELAY_MS)
            &&& delay_ms is Some <==> (message matches MessageView::UpdateServerState(Ok(info))
                && info.server_state.is_transient())
        },
{
}

/// A failed request leaves the last answer on display; only the error
/// line changes.
pub proof fn lemma_failure_keeps_last_answer(client: MsmClientView, error: Seq<char>)
    ensures
        client.step(MessageView::UpdateServerState(Err(error))).0 == client.with_error(
            "Err: "@ + error,
        ),
        client.step(MessageView::UpdateServerState(Err(error))).0.server_info
            == client.server_info,
        client.step(MessageView::UpdateServerState(Err(error))).1 == CommandView::Nothing,
{
}

impl Default for MsmClient {
    fn default() -> (out: MsmClient)
        ensures
            out@ == MsmClientView::initial(),
    {
        MsmClient {
            server_info: ResponsePayload { server_state: ServerState::Stopped, ip_address: None },
            err_message: String::new(),
            state_checked_count: 0,
        }
    }
}

impl MsmClient {
    /// Whether `message` can be taken: the count of a poll must not run
    /// out of the machine's word.
    pub open spec fn accepts(&self, message: Message) -> bool {
        message matches Message::UpdateServerState(Ok(info)) && info.server_state.is_transient()
            ==> self.state_checked_count < usize::MAX
    }

    /// Tests whether `message` can be taken.
    pub fn can_accept(&self, message: &Message) -> (ok: bool)
        ensures
            ok == self.accepts(*message),
    {
        match message {
            Message::UpdateServerState(Ok(info)) => !info.server_state.is_transient()
                || self.state_checked_count < usize::MAX,
            _ => true,
        }
    }

    /// A fresh client, and the status query that it starts with.
    pub fn new() -> (out: (MsmClient, Command))
        ensures
            out.0@ == MsmClientView::initial(),
            out.1@ == CommandView::send_now(RequestType::GetServerStatus),
    {
        (
            MsmClient::default(),
            Command::Post { request_type: RequestType::GetServerStatus, delay_ms: None },
        )
    }

    /// The window's title.
    pub fn title(&self) -> (out: String)
        ensures
            out@ == "Minecraft Server Manager"@,
    {
        String::from_str("Minecraft Server Manager")
    }

    /// One dot for each follow-up query that the running poll has
    /// scheduled.
    pub fn checking_counter_str(&self) -> (out: String)
        ensures
            out@ == repeated('.', self.state_checked_count as nat),
    {
        dots(self.state_checked_count)
    }

    /// The address on display: the one last reported, or nothing.
    pub fn address_text(&self) -> (out: String)
        ensures
            out@ == match self@.server_info.ip_address {
                Some(address) => address,
                None => Seq::empty(),
            },
    {
        match &self.server_info.ip_address {
            Some(address) => address.clone(),
            None => String::new(),
        }
    }

    /// Puts an answer on display and decides whether to ask again.
    pub fn get_next_command_after_update_state(&mut self, server_info: ResponsePayload) -> (command:
        Command)
        requires
            server_info.server_state.is_transient() ==> old(self).state_checked_count < usize::MAX,
        ensures
            (final(self)@, command@) == old(self)@.settle(server_info@),
    {
        let next_command = match server_info.server_state {
            ServerState::Pending | ServerState::Stopping => {
                self.state_checked_count += 1;
                Command::Post {
                    request_type: RequestType::GetServerStatus,
                    delay_ms: Some(POLL_DELAY_MS),
                }
            },
            _ => {
                self.state_checked_count = 0;
                Command::Nothing
            },
        };
        self.server_info = server_info;
        next_command
    }

    /// Takes the user's wish to start the server.
    pub fn perform_start_server_command(&mut self) -> (command: Command)
        ensures
            (final(self)@, command@) == old(self)@.start_server(),
    {
        match self.server_info.server_state {
            ServerState::Stopped => {
                self.server_info.server_state = ServerState::Connecting;
                Command::Post { request_type: RequestType::StartServer, delay_ms: None }
            },
            _ => {
                self.err_message = ValidationError::NotStopped.message();
                Command::Nothing
            },
        }
    }

    /// Takes the user's wish to stop the server.
    pub fn perform_stop_server_command(&mut self) -> (command: Command)
        ensures
            (final(self)@, command@) == old(self)@.stop_server(),
    {
        match self.server_info.server_state {
            ServerState::Running => {
                self.server_info.server_state = ServerState::Connecting;
                Command::Post { request_type: RequestType::StopServer, delay_ms: None }
            },
            _ => {
                self.err_message = ValidationError::NotRunning.message();
                Command::Nothing
            },
        }
    }

    /// Takes one message: updates what is shown and says what to do next.
    ///
    /// A failed request changes the error line only; the last answer stays
    /// on display.
    pub fn update(&mut self, message: Message) -> (command: Command)
        requires
            old(self).accepts(message),
        ensures
            (final(self)@, command@) == old(self)@.step(message@),
            message matches Message::UpdateServerState(Err(_)) ==> final(self)@.server_info == old(
                self,
            )@.server_info,
    {
        match message {
            Message::StartServer => self.perform_start_server_command(),
            Message::CopyServerAddress => {
                match clone_address(&self.server_info.ip_address) {
                    Some(address) => Command::CopyToClipboard(address),
                    None => Command::Nothing,
                }
            },
            Message::ReloadServerState => {
                self.server_info.server_state = ServerState::Connecting;
                Command::Post { request_type: RequestType::GetServerStatus, delay_ms: None }
            },
            Message::StopServer => self.perform_stop_server_command(),
            Message::UpdateServerState(update) => match update {
                Ok(server_info) => self.get_next_command_after_update_state(server_info),
                Err(error) => {
                    self.err_message = String::from_str("Err: ").concat(error.as_str());
                    Command::Nothing
                },
            },
            Message::AddressInputIsChanged(_change) => Command::Nothing,
        }
    }
}

} // verus!
