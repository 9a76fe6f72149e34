//! The closed set of states a managed server can be shown in, and the
//! folding of a provider's status vocabulary into it.

use vstd::prelude::*;
use crate::text::str_eq;

verus! {

/// State of the managed server as the control surface reports it.
///
/// `Connecting` is shown by the client while a request is in flight; the
/// provider side never reports it.
#[derive(Clone, Copy, Debug, PartialEq, Eq, Structural)]
pub enum ServerState {
    Pending,
    Running,
    Stopping,
    Stopped,
    Unexpected,
    Connecting,
}

/// A colour as three eight-bit channels.
#[derive(Clone, Copy, Debug, PartialEq, Eq, Structural)]
pub struct Rgb {
    pub r: u8,
    pub g: u8,
    pub b: u8,
}

impl ServerState {
    /// A transient state is expected to change without further action.
    pub open spec fn spec_is_transient(&self) -> bool {
        *self == ServerState::Pending || *self == ServerState::Stopping
    }

    #[verifier::when_used_as_spec(spec_is_transient)]
    pub fn is_transient(&self) -> (out: bool)
        ensures
            out == self.spec_is_transient(),
    {
        match self {
            ServerState::Pending | ServerState::Stopping => true,
            _ => false,
        }
    }

    /// A terminal state is one that the provider reports and that stays
    /// until someone acts.
    pub open spec fn spec_is_terminal(&self) -> bool {
        *self == ServerState::Running || *self == ServerState::Stopped || *self
            == ServerState::Unexpected
    }

    #[verifier::when_used_as_spec(spec_is_terminal)]
    pub fn is_terminal(&self) -> (out: bool)
        ensures
            out == self.spec_is_terminal(),
    {
        match self {
            ServerState::Running | ServerState::Stopped | ServerState::Unexpected => true,
            _ => false,
        }
    }

    /// The name under which the state is shown.
    pub open spec fn label_text(self) -> Seq<char> {
        match self {
            ServerState::Pending => "Pending"@,
            ServerState::Running => "Running"@,
            ServerState::Stopping => "Stopping"@,
            ServerState::Stopped => "Stopped"@,
            ServerState::Unexpected => "Unexpected"@,
            ServerState::Connecting => "Connecting"@,
        }
    }

    /// The name under which the state is shown; no state has an empty one.
    pub fn label(&self) -> (out: String)
        ensures
            out@ == self.label_text(),
            out@.len() > 0,
    {
        proof {
            reveal_strlit("Pending");
            reveal_strlit("Running");
            reveal_strlit("Stopping");
            reveal_strlit("Stopped");
            reveal_strlit("Unexpected");
            reveal_strlit("Connecting");
        }
        match self {
            ServerState::Pending => String::from_str("Pending"),
            ServerState::Running => String::from_str("Running"),
            ServerState::Stopping => String::from_str("Stopping"),
            ServerState::Stopped => String::from_str("Stopped"),
            ServerState::Unexpected => String::from_str("Unexpected"),
            ServerState::Connecting => String::from_str("Connecting"),
        }
    }

    /// The colour in which the state is shown.
    pub open spec fn color_of(self) -> Rgb {
        match self {
            ServerState::Running => Rgb { r: 144, g: 225, b: 129 },
            ServerState::Stopped => Rgb { r: 218, g: 135, b: 126 },
            ServerState::Unexpected => Rgb { r: 255, g: 0, b: 0 },
            _ => Rgb { r: 0, g: 0, b: 0 },
        }
    }

    /// The colour in which the state is shown: green while running, a soft
    /// red while stopped, plain red where the state is unexpected, black
    /// otherwise.
    pub fn color(&self) -> (out: Rgb)
        ensures
            out == self.color_of(),
    {
        match self {
            ServerState::Running => Rgb { r: 144, g: 225, b: 129 },
            ServerState::Stopped => Rgb { r: 218, g: 135, b: 126 },
            ServerState::Unexpected => Rgb { r: 255, g: 0, b: 0 },
            _ => Rgb { r: 0, g: 0, b: 0 },
        }
    }
}

impl Default for ServerState {
    /// A server is taken to be stopped until something else is known.
    fn default() -> (out: ServerState)
        ensures
            out == ServerState::Stopped,
    {
        ServerState::Stopped
    }
}

/// The state that a raw provider status stands for: the four lower-case
/// words of the provider are matched exactly, anything else is `Unexpected`.
pub open spec fn normalized(raw: Seq<char>) -> ServerState {
    if raw == "pending"@ {
        ServerState::Pending
    } else if raw == "running"@ {
        ServerState::Running
    } else if raw == "stopping"@ {
        ServerState::Stopping
    } else if raw == "stopped"@ {
        ServerState::Stopped
    } else {
        ServerState::Unexpected
    }
}

/// Whether `raw` is one of the four status words that the provider uses.
pub open spec fn recognized(raw: Seq<char>) -> bool {
    raw == "pending"@ || raw == "running"@ || raw == "stopping"@ || raw == "stopped"@
}

/// The four status words are pairwise different, so each of them stands for
/// its own state.
pub proof fn lemma_status_words_distinct()
    ensures
        normalized("pending"@) == ServerState::Pending,
        normalized("running"@) == ServerState::Running,
        normalized("stopping"@) == ServerState::Stopping,
        normalized("stopped"@) == ServerState::Stopped,
{
    reveal_strlit("pending");
    reveal_strlit("running");
    reveal_strlit("stopping");
    reveal_strlit("stopped");
    assert("pending"@[0] == 'p' && "running"@[0] == 'r' && "stopped"@[0] == 's');
    assert("stopping"@.len() == 8 && "stopped"@.len() == 7);
}

/// Folds a raw provider status into a `ServerState`.
///
/// Total: an unknown word is reported as `Unexpected`, and the raw text is
/// never passed on.
pub fn normalize(raw: &str) -> (state: ServerState)
    ensures
        state == normalized(raw@),
        !recognized(raw@) ==> state == ServerState::Unexpected,
        state != ServerState::Connecting,
{
    if str_eq(raw, "pending") {
        ServerState::Pending
    } else if str_eq(raw, "running") {
        ServerState::Running
    } else if str_eq(raw, "stopping") {
        ServerState::Stopping
    } else if str_eq(raw, "stopped") {
        ServerState::Stopped
    } else {
        ServerState::Unexpected
    }
}

impl<'a> From<&'a str> for ServerState {
    /// The same folding as `normalize`.
    fn from(state: &'a str) -> (out: ServerState)
        ensures
            out == normalized(state@),
    {
        normalize(state)
    }
}

impl<'a> vstd::std_specs::convert::FromSpecImpl<&'a str> for ServerState {
    open spec fn obeys_from_spec() -> bool {
        true
    }

    open spec fn from_spec(state: &'a str) -> ServerState {
        normalized(state@)
    }
}

/// Normalization is total and closed: every text stands for one of the
/// five states that the provider side reports, a status word for its own
/// state, and any other text for `Unexpected`.
pub proof fn lemma_normalization_total(raw: Seq<char>)
    ensures
        normalized(raw) != ServerState::Connecting,
        !recognized(raw) ==> normalized(raw) == ServerState::Unexpected,
        recognized(raw) ==> normalized(raw) != ServerState::Unexpected,
        raw == "pending"@ ==> normalized(raw) == ServerState::Pending,
        raw == "running"@ ==> normalized(raw) == ServerState::Running,
        raw == "stopping"@ ==> normalized(raw) == ServerState::Stopping,
        raw == "stopped"@ ==> normalized(raw) == ServerState::Stopped,
{
    lemma_status_words_distinct();
}

} // verus!
