use vstd::prelude::*;

use crate::registry::SessionKey;
use crate::session::SessionCommand;
use crate::tap::AudioMix;

verus! {

/// The fork name of a command that gives none.
pub open spec fn default_fork_name() -> Seq<char> {
    "default"@
}

pub fn default_fork() -> (r: String)
    ensures
        r@ == default_fork_name(),
{
    "default".to_owned()
}

/// A command of the control surface.
pub enum ModSubcommand {
    /// Start forwarding the call's audio to a `ws`/`wss` endpoint, with extra
    /// handshake headers given as JSON.
    Start {
        session: String,
        fork: Option<String>,
        url: String,
        headers: String,
        mix: AudioMix,
        start_paused: Option<bool>,
    },
    Stop { session: String, fork: Option<String> },
    Pause { session: String, fork: Option<String> },
    Resume { session: String, fork: Option<String> },
    SendText { session: String, fork: Option<String>, text: String },
}

/// The fork name that an optional one stands for.
pub open spec fn fork_name_of(fork: Option<String>) -> Seq<char> {
    match fork {
        Some(f) => f@,
        None => default_fork_name(),
    }
}

impl ModSubcommand {
    pub open spec fn session_spec(&self) -> Seq<char> {
        match self {
            ModSubcommand::Start { session, .. } => session@,
            ModSubcommand::Stop { session, .. } => session@,
            ModSubcommand::Pause { session, .. } => session@,
            ModSubcommand::Resume { session, .. } => session@,
            ModSubcommand::SendText { session, .. } => session@,
        }
    }

    pub open spec fn fork_spec(&self) -> Option<String> {
        match self {
            ModSubcommand::Start { fork, .. } => *fork,
            ModSubcommand::Stop { fork, .. } => *fork,
            ModSubcommand::Pause { fork, .. } => *fork,
            ModSubcommand::Resume { fork, .. } => *fork,
            ModSubcommand::SendText { fork, .. } => *fork,
        }
    }

    /// The key of the session that the command is about; a missing fork name
    /// stands for the default one.
    pub fn key(&self) -> (r: SessionKey)
        ensures
            r@ == (self.session_spec(), fork_name_of(self.fork_spec())),
    {
        let (session, fork) = match self {
            ModSubcommand::Start { session, fork, .. } => (session, fork),
            ModSubcommand::Stop { session, fork } => (session, fork),
            ModSubcommand::Pause { session, fork } => (session, fork),
            ModSubcommand::Resume { session, fork } => (session, fork),
            ModSubcommand::SendText { session, fork, .. } => (session, fork),
        };
        let fork_name = match fork {
            Some(f) => f.clone(),
            None => default_fork(),
        };
        SessionKey::new(session.clone(), fork_name)
    }

    /// What the command asks of a running session; `None` for `Start`, which
    /// creates one.
    pub fn session_command(self) -> (r: Option<SessionCommand>)
        ensures
            self is Start <==> r is None,
            self is Stop ==> r == Some(SessionCommand::Stop),
            self is Pause ==> r == Some(SessionCommand::Pause),
            self is Resume ==> r == Some(SessionCommand::Resume),
            self matches ModSubcommand::SendText { text, .. } ==> r == Some(SessionCommand::SendText { text }),
    {
        match self {
            ModSubcommand::Start { .. } => None,
            ModSubcommand::Stop { .. } => Some(SessionCommand::Stop),
            ModSubcommand::Pause { .. } => Some(SessionCommand::Pause),
            ModSubcommand::Resume { .. } => Some(SessionCommand::Resume),
            ModSubcommand::SendText { text, .. } => Some(SessionCommand::SendText { text }),
        }
    }
}

} // verus!
