//! How a turn settles.
//!
//! Two closed vocabularies and the one rule that reads the first as the second.
//! Leaving `running` is the end of a turn, not the last assistant message, which
//! is what makes a turn's duration cover the whole turn.

use crate::text;
use vstd::prelude::*;

verus! {

/// What the agent process behind a thread is doing.
#[derive(Debug, Clone, Copy, PartialEq, Eq, Structural)]
pub enum SessionStatus {
    /// A thread with no turn in progress and nothing wrong.
    Idle,
    /// The process is being started. Says nothing about how a turn went.
    Starting,
    /// A turn is in progress.
    Running,
    /// Started, idle, and ready for the next turn.
    Ready,
    /// The developer stopped the turn.
    Interrupted,
    /// The process is gone, and nobody asked for that. A turn caught by it
    /// settles like an interrupted one: it did not finish.
    Stopped,
    /// Something went wrong; `lastError` says what.
    Error,
}

/// How the most recent turn went.
#[derive(Debug, Clone, Copy, PartialEq, Eq, Structural)]
pub enum TurnState {
    Running,
    Completed,
    Interrupted,
    Error,
}

impl SessionStatus {
    /// The state a still-running turn settles with, where it settles at all.
    pub open spec fn settlement(self) -> Option<TurnState> {
        match self {
            SessionStatus::Idle => Some(TurnState::Completed),
            SessionStatus::Ready => Some(TurnState::Completed),
            SessionStatus::Error => Some(TurnState::Error),
            SessionStatus::Interrupted => Some(TurnState::Interrupted),
            SessionStatus::Stopped => Some(TurnState::Interrupted),
            SessionStatus::Starting => None,
            SessionStatus::Running => None,
        }
    }

    /// The literal that goes on the wire.
    pub open spec fn word(self) -> Seq<char> {
        match self {
            SessionStatus::Idle => "idle"@,
            SessionStatus::Starting => "starting"@,
            SessionStatus::Running => "running"@,
            SessionStatus::Ready => "ready"@,
            SessionStatus::Interrupted => "interrupted"@,
            SessionStatus::Stopped => "stopped"@,
            SessionStatus::Error => "error"@,
        }
    }

    /// The state to settle a still-running turn with, or `None` while the
    /// session is starting or running and the turn must stay unsettled.
    pub fn settles_turn_as(self) -> (out: Option<TurnState>)
        ensures
            out == self.settlement(),
            out != Some(TurnState::Running),
    {
        match self {
            SessionStatus::Idle | SessionStatus::Ready => Some(TurnState::Completed),
            SessionStatus::Error => Some(TurnState::Error),
            SessionStatus::Interrupted | SessionStatus::Stopped => Some(TurnState::Interrupted),
            SessionStatus::Starting | SessionStatus::Running => None,
        }
    }

    /// Is there an agent working behind this conversation right now?
    ///
    /// `starting` and `running`: exactly the two statuses that say nothing about
    /// how a turn went, because the turn is not over.
    pub fn is_working(self) -> (out: bool)
        ensures
            out == (self == SessionStatus::Starting || self == SessionStatus::Running),
            out == (self.settlement() is None),
    {
        matches!(self, SessionStatus::Starting | SessionStatus::Running)
    }

    /// The literal that goes on the wire.
    pub fn as_str(self) -> (out: &'static str)
        ensures
            out@ == self.word(),
    {
        match self {
            SessionStatus::Idle => "idle",
            SessionStatus::Starting => "starting",
            SessionStatus::Running => "running",
            SessionStatus::Ready => "ready",
            SessionStatus::Interrupted => "interrupted",
            SessionStatus::Stopped => "stopped",
            SessionStatus::Error => "error",
        }
    }
}

impl TurnState {
    /// The literal that goes on the wire, and the one that is stored.
    pub open spec fn word(self) -> Seq<char> {
        match self {
            TurnState::Running => "running"@,
            TurnState::Completed => "completed"@,
            TurnState::Interrupted => "interrupted"@,
            TurnState::Error => "error"@,
        }
    }

    /// What a stored word means.
    pub open spec fn read(stored: Seq<char>) -> TurnState {
        if stored == "running"@ {
            TurnState::Running
        } else if stored == "interrupted"@ {
            TurnState::Interrupted
        } else if stored == "completed"@ {
            TurnState::Completed
        } else {
            TurnState::Error
        }
    }

    /// A stored turn state, back as one of the four.
    ///
    /// An unrecognised state is [`TurnState::Error`] rather than `Completed`: a
    /// turn whose outcome cannot be read is not one to report as having gone
    /// well.
    pub fn from_stored(stored: &str) -> (out: TurnState)
        ensures
            out == TurnState::read(stored@),
    {
        if text::same(stored, "running") {
            TurnState::Running
        } else if text::same(stored, "interrupted") {
            TurnState::Interrupted
        } else if text::same(stored, "completed") {
            TurnState::Completed
        } else {
            TurnState::Error
        }
    }

    /// The literal that goes on the wire, and the one that is stored.
    pub fn as_str(self) -> (out: &'static str)
        ensures
            out@ == self.word(),
    {
        match self {
            TurnState::Running => "running",
            TurnState::Completed => "completed",
            TurnState::Interrupted => "interrupted",
            TurnState::Error => "error",
        }
    }
}

/// A turn state that is stored is read back as itself.
pub proof fn a_stored_turn_state_is_read_back(state: TurnState)
    ensures
        TurnState::read(state.word()) == state,
{
    reveal_strlit("running");
    reveal_strlit("interrupted");
    reveal_strlit("completed");
    reveal_strlit("error");
    assert("running"@.len() == 7 && "interrupted"@.len() == 11 && "completed"@.len() == 9 && "error"@.len() == 5);
}

/// A word that is none of the four is never read as a turn that went well.
pub proof fn an_unreadable_turn_state_is_an_error(stored: Seq<char>)
    requires
        forall|state: TurnState| stored != #[trigger] state.word(),
    ensures
        TurnState::read(stored) == TurnState::Error,
{
    assert(stored != TurnState::Running.word());
    assert(stored != TurnState::Completed.word());
    assert(stored != TurnState::Interrupted.word());
}

/// A turn is settled by a status exactly when no agent is working behind it, and
/// it never settles as still running.
pub proof fn a_turn_settles_exactly_when_no_agent_works(status: SessionStatus)
    ensures
        (status.settlement() is None) == (status == SessionStatus::Starting || status == SessionStatus::Running),
        status.settlement() != Some(TurnState::Running),
{
}

/// No two statuses share a literal.
pub proof fn session_words_are_distinct(a: SessionStatus, b: SessionStatus)
    ensures
        a.word() == b.word() ==> a == b,
{
    reveal_strlit("idle");
    reveal_strlit("starting");
    reveal_strlit("running");
    reveal_strlit("ready");
    reveal_strlit("interrupted");
    reveal_strlit("stopped");
    reveal_strlit("error");
    assert("starting"@[0] == 's' && "running"@[0] == 'r' && "stopped"@[0] == 's' && "ready"@[0] == 'r');
    assert("idle"@.len() == 4 && "starting"@.len() == 8 && "running"@.len() == 7 && "ready"@.len() == 5);
    assert("interrupted"@.len() == 11 && "stopped"@.len() == 7 && "error"@.len() == 5 && "error"@[0] == 'e');
}

/// How a turn settles: well only behind a session that is idle or ready, as stopped
/// behind one that was stopped, and as failed behind one that failed.
pub proof fn a_turn_settles_by_what_its_session_does(status: SessionStatus)
    ensures
        status.settlement() == Some(TurnState::Completed) <==> status is Idle || status is Ready,
        status.settlement() == Some(TurnState::Interrupted) <==> status is Interrupted || status is Stopped,
        status.settlement() == Some(TurnState::Error) <==> status is Error,
{
}

/// The words that go on the wire say what they mean.
pub proof fn each_state_has_its_own_word(state: TurnState, status: SessionStatus)
    ensures
        status is Running ==> status.word() == TurnState::Running.word(),
        status is Interrupted ==> status.word() == TurnState::Interrupted.word(),
        status is Error ==> status.word() == TurnState::Error.word(),
        status is Idle ==> status.word() == "idle"@,
        status is Starting ==> status.word() == "starting"@,
        status is Ready ==> status.word() == "ready"@,
        status is Stopped ==> status.word() == "stopped"@,
        state is Running ==> state.word() == "running"@,
        state is Completed ==> state.word() == "completed"@,
        state is Interrupted ==> state.word() == "interrupted"@,
        state is Error ==> state.word() == "error"@,
{
}

} // verus!
