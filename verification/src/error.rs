//! The failures that cross a component boundary, each with the message it
//! is shown as.

use vstd::prelude::*;

verus! {

/// The three operations of the gateway.
#[derive(Clone, Copy, Debug, PartialEq, Eq, Structural)]
pub enum Operation {
    Describe,
    Start,
    Stop,
}

/// The part of a provider reply that a lookup expected and did not find.
#[derive(Clone, Copy, Debug, PartialEq, Eq, Structural)]
pub enum MissingField {
    /// The reply answers another operation than the one that was asked for.
    Reply,
    /// The list of reservations is absent.
    Reservations,
    /// The list of reservations is empty.
    ReservationInfo,
    /// The first reservation has no list of instances.
    Instances,
    /// The list of instances, or of state changes, is empty.
    InstanceInfo,
    /// The list of instance statuses is absent.
    InstanceStatuses,
    /// The list of instance statuses is empty.
    InstanceStatusInfo,
    /// The list of starting instances is absent.
    StartingInstances,
    /// The list of stopping instances is absent.
    StoppingInstances,
    /// The entry has no state record.
    InstanceState,
    /// The state record has no name.
    InstanceStateName,
}

/// A failure of a gateway operation.
#[derive(Debug, PartialEq, Eq)]
pub enum GatewayError {
    /// The provider answered, but the answer lacks what the lookup needs.
    EmptyResult(Operation, MissingField),
    /// The provider or the network failed; the message is theirs.
    Transport(String),
}

/// What a `GatewayError` holds, with every text as its sequence of characters.
pub enum GatewayErrorView {
    EmptyResult(Operation, MissingField),
    Transport(Seq<char>),
}

impl View for GatewayError {
    type V = GatewayErrorView;

    open spec fn view(&self) -> GatewayErrorView {
        match self {
            GatewayError::EmptyResult(operation, missing) => GatewayErrorView::EmptyResult(
                *operation,
                *missing,
            ),
            GatewayError::Transport(message) => GatewayErrorView::Transport(message@),
        }
    }
}

/// A failure of the dispatcher.
#[derive(Debug, PartialEq, Eq)]
pub enum DispatchError {
    /// The request could not be read; the caller is at fault.
    InvalidPayload(String),
    /// The gateway operation failed.
    Gateway(GatewayError),
}

/// What a `DispatchError` holds, with every text as its sequence of characters.
pub enum DispatchErrorView {
    InvalidPayload(Seq<char>),
    Gateway(GatewayErrorView),
}

impl View for DispatchError {
    type V = DispatchErrorView;

    open spec fn view(&self) -> DispatchErrorView {
        match self {
            DispatchError::InvalidPayload(message) => DispatchErrorView::InvalidPayload(message@),
            DispatchError::Gateway(error) => DispatchErrorView::Gateway(error@),
        }
    }
}

/// A command that the client refuses before anything is sent.
#[derive(Clone, Copy, Debug, PartialEq, Eq, Structural)]
pub enum ValidationError {
    /// A start was asked for while the server is not shown as stopped.
    NotStopped,
    /// A stop was asked for while the server is not shown as running.
    NotRunning,
}

impl Operation {
    /// What the messages of this operation begin with.
    pub open spec fn prefix_text(self) -> Seq<char> {
        match self {
            Operation::Describe => "Describe Error: "@,
            Operation::Start => "Start Error: "@,
            Operation::Stop => "Stop Error: "@,
        }
    }

    pub fn prefix(&self) -> (out: &'static str)
        ensures
            out@ == self.prefix_text(),
    {
        match self {
            Operation::Describe => "Describe Error: ",
            Operation::Start => "Start Error: ",
            Operation::Stop => "Stop Error: ",
        }
    }
}

impl MissingField {
    /// The words that name the missing part.
    pub open spec fn text(self) -> Seq<char> {
        match self {
            MissingField::Reply => "No Reply"@,
            MissingField::Reservations => "No Reservations"@,
            MissingField::ReservationInfo => "No Reservation Info"@,
            MissingField::Instances => "No Instances"@,
            MissingField::InstanceInfo => "No Instance Info"@,
            MissingField::InstanceStatuses => "No Instance Statuses"@,
            MissingField::InstanceStatusInfo => "No Instance Status Info"@,
            MissingField::StartingInstances => "No Starting Instances"@,
            MissingField::StoppingInstances => "No Stopping Instances"@,
            MissingField::InstanceState => "No Instance State"@,
            MissingField::InstanceStateName => "No Instance State Name"@,
        }
    }

    pub fn describe(&self) -> (out: &'static str)
        ensures
            out@ == self.text(),
    {
        match self {
            MissingField::Reply => "No Reply",
            MissingField::Reservations => "No Reservations",
            MissingField::ReservationInfo => "No Reservation Info",
            MissingField::Instances => "No Instances",
            MissingField::InstanceInfo => "No Instance Info",
            MissingField::InstanceStatuses => "No Instance Statuses",
            MissingField::InstanceStatusInfo => "No Instance Status Info",
            MissingField::StartingInstances => "No Starting Instances",
            MissingField::StoppingInstances => "No Stopping Instances",
            MissingField::InstanceState => "No Instance State",
            MissingField::InstanceStateName => "No Instance State Name",
        }
    }
}

impl GatewayErrorView {
    /// The message of a gateway failure: for a missing part, the
    /// operation's prefix and the name of the part; for a transport
    /// failure, the message that came with it.
    pub open spec fn message(self) -> Seq<char> {
        match self {
            GatewayErrorView::EmptyResult(operation, missing) => operation.prefix_text()
                + missing.text(),
            GatewayErrorView::Transport(message) => message,
        }
    }
}

impl GatewayError {
    /// A gateway result with its failure taken by its view.
    pub open spec fn lift<T>(out: Result<T, GatewayError>) -> Result<T, GatewayErrorView> {
        match out {
            Ok(value) => Ok(value),
            Err(error) => Err(error@),
        }
    }

    pub fn message(&self) -> (out: String)
        ensures
            out@ == self@.message(),
    {
        match self {
            GatewayError::EmptyResult(operation, missing) => {
                let mut out = String::from_str(operation.prefix());
                out.append(missing.describe());
                out
            },
            GatewayError::Transport(message) => message.clone(),
        }
    }
}

impl DispatchErrorView {
    /// The message of a dispatch failure.
    pub open spec fn message(self) -> Seq<char> {
        match self {
            DispatchErrorView::InvalidPayload(message) => message,
            DispatchErrorView::Gateway(error) => error.message(),
        }
    }

    /// The status that the boundary answers with: 400 where the caller is
    /// at fault, 500 where the gateway failed.
    pub open spec fn status_code(self) -> u16 {
        match self {
            DispatchErrorView::InvalidPayload(_) => 400,
            DispatchErrorView::Gateway(_) => 500,
        }
    }
}

impl DispatchError {
    pub fn message(&self) -> (out: String)
        ensures
            out@ == self@.message(),
    {
        match self {
            DispatchError::InvalidPayload(message) => message.clone(),
            DispatchError::Gateway(error) => error.message(),
        }
    }

    pub fn status_code(&self) -> (code: u16)
        ensures
            code == self@.status_code(),
    {
        match self {
            DispatchError::InvalidPayload(_) => 400,
            DispatchError::Gateway(_) => 500,
        }
    }
}

impl ValidationError {
    /// The line shown to the user.
    pub open spec fn text(self) -> Seq<char> {
        match self {
            ValidationError::NotStopped => "Server is not stopped"@,
            ValidationError::NotRunning => "Server is not running"@,
        }
    }

    pub fn message(&self) -> (out: String)
        ensures
            out@ == self.text(),
    {
        match self {
            ValidationError::NotStopped => String::from_str("Server is not stopped"),
            ValidationError::NotRunning => String::from_str("Server is not running"),
        }
    }
}

} // verus!
