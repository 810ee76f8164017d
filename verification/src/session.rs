//! Running a session: the loop that owns an agent's lifetime.
//!
//! Nothing here knows which agent is behind the session, and nothing here does
//! I/O. [`Machine`] is the loop with every outside act taken out of it: a step
//! takes what the world answered, says what the conversation is owed, and names
//! the one thing to wait for next. What is left outside is performing the wait.
//!
//! Three orders are what the machine is for:
//!
//! - The agent is written to before a resolution is published, because the write
//!   is what unsticks the conversation and the panel closing is only what the
//!   developer sees.
//! - The baseline is taken before the agent is given the turn, and the ending is
//!   recorded before the next prompt is taken.
//! - Everything already owed to the turn that just ended is dealt with before the
//!   next one starts, so a late click never lands on a turn the developer did not
//!   see begin.

pub mod conduct;
pub mod laws;
pub mod model;

use crate::config::{ClaudeSettings, CodexSettings, OpenCodeSettings};
use crate::keyed;
use crate::keyed::Keyed;
use crate::provider::{DriverKind, ProviderIdentity, ResumeCursor};
use crate::session::model::{
    Activity, ApprovalRequest, Change, Decided, Decision, Effect, Event, Finished, InFlight, Model, Outcome, Prompt,
    Pushed, Reply, Retune, Session, Settles, Signal, Stage, Text, Wait,
};
use crate::settling::SessionStatus;
use crate::text;
use vstd::prelude::*;

verus! {

// ---------------------------------------------------------------------------
// Starting
// ---------------------------------------------------------------------------

/// One driver's settings, paired with the driver they are for.
#[derive(Debug)]
pub enum DriverStart {
    Claude(ClaudeSettings),
    Codex(CodexSettings),
    OpenCode(OpenCodeSettings),
}

/// What is said of settings that were paired with another driver than theirs.
pub open spec fn mismatched(settings: DriverKind, driver: DriverKind) -> Seq<char> {
    settings.label() + " settings were paired with the "@ + driver.label() + " driver"@
}

/// What is said of settings that were paired with another driver than theirs.
fn mismatch(settings: DriverKind, driver: DriverKind) -> (out: String)
    ensures
        out@ == mismatched(settings, driver),
{
    text::glue4(&settings.display_name(), " settings were paired with the ", &driver.display_name(), " driver")
}

impl DriverStart {
    /// The settings of the first driver, or what it was paired with instead.
    pub fn claude(&self) -> (out: Result<&ClaudeSettings, String>)
        ensures
            match (*self, out) {
                (DriverStart::Claude(settings), Ok(given)) => *given == settings,
                (DriverStart::Codex(_), Err(why)) => why@ == "the Codex turn driver has not landed yet"@,
                (DriverStart::OpenCode(_), Err(why)) => why@ == mismatched(DriverKind::OpenCode, DriverKind::Claude),
                _ => false,
            },
    {
        match self {
            DriverStart::Claude(settings) => Ok(settings),
            DriverStart::Codex(_) => Err("the Codex turn driver has not landed yet".to_owned()),
            DriverStart::OpenCode(_) => Err(mismatch(DriverKind::OpenCode, DriverKind::Claude)),
        }
    }

    /// The Codex driver's settings, or what they were paired with instead.
    pub fn codex(&self) -> (out: Result<&CodexSettings, String>)
        ensures
            match (*self, out) {
                (DriverStart::Codex(settings), Ok(given)) => *given == settings,
                (DriverStart::Claude(_), Err(why)) => why@ == mismatched(DriverKind::Codex, DriverKind::Claude),
                (DriverStart::OpenCode(_), Err(why)) => why@ == mismatched(DriverKind::OpenCode, DriverKind::Codex),
                _ => false,
            },
    {
        match self {
            DriverStart::Codex(settings) => Ok(settings),
            DriverStart::Claude(_) => Err(mismatch(DriverKind::Codex, DriverKind::Claude)),
            DriverStart::OpenCode(_) => Err(mismatch(DriverKind::OpenCode, DriverKind::Codex)),
        }
    }

    /// The OpenCode driver's settings, or that they are another's.
    pub fn opencode(&self) -> (out: Result<&OpenCodeSettings, String>)
        ensures
            match (*self, out) {
                (DriverStart::OpenCode(settings), Ok(given)) => *given == settings,
                (DriverStart::OpenCode(_), Err(_)) => false,
                (_, Err(why)) => why@ == "OpenCode settings were paired with another driver"@,
                _ => false,
            },
    {
        match self {
            DriverStart::OpenCode(settings) => Ok(settings),
            _ => Err("OpenCode settings were paired with another driver".to_owned()),
        }
    }
}

/// Everything a session needs to start an agent.
#[derive(Debug)]
pub struct Start {
    pub thread_id: String,
    /// The project's folder, which is the agent's working directory.
    pub workspace_root: String,
    /// The model the child is running under: the launch flag at first, and then
    /// whatever a push that was written has moved it to.
    pub model: Option<String>,
    /// The runtime mode the child is running under, on the same terms. Every
    /// session event reads it, so it is a claim about what the agent is doing
    /// rather than about what was asked of it.
    pub runtime_mode: String,
    /// Opaque continuation data for this exact provider instance.
    pub resume_cursor: Option<ResumeCursor<String>>,
    pub provider: ProviderIdentity<String>,
    pub driver: DriverStart,
}

/// What of a conversation a session is started from.
#[derive(Debug)]
pub struct Thread {
    pub id: String,
    pub provider: ProviderIdentity<String>,
    pub model: Option<String>,
    pub runtime_mode: String,
    pub provider_resume_cursor: Option<ResumeCursor<String>>,
}

/// A driver that has been chosen for a conversation.
#[derive(Debug)]
pub struct PreparedDriver {
    pub identity: ProviderIdentity<String>,
    pub driver: DriverStart,
}

/// Why no provider instance can serve a conversation.
#[derive(Debug)]
pub enum InstanceUnavailable {
    Unknown,
    Disabled,
    Mismatched { configured: String, recorded: String },
}

/// What a developer is told when no provider instance can serve a thread.
pub open spec fn unavailable_sentence(instance: Text, thread: Text, why: InstanceUnavailable) -> Text {
    match why {
        InstanceUnavailable::Unknown => "Provider instance '"@ + instance + "' is not registered, so thread '"@ + thread
            + "' cannot start a turn."@,
        InstanceUnavailable::Disabled => "Provider instance '"@ + instance + "' is disabled, so thread '"@ + thread
            + "' cannot start a turn."@,
        InstanceUnavailable::Mismatched { configured, recorded } => "Provider instance '"@ + instance
            + "' is registered for driver '"@ + configured@ + "', but thread '"@ + thread + "' records '"@ + recorded@
            + "'."@,
    }
}

/// The driver for a conversation, out of the provider instance that was resolved
/// for it, or the sentence that says why there is none.
pub fn prepare(thread: &Thread, resolved: Result<PreparedDriver, InstanceUnavailable>) -> (out: Result<
    PreparedDriver,
    String,
>)
    ensures
        match (resolved, out) {
            (Ok(instance), Ok(prepared)) => prepared == instance,
            (Err(why), Err(sentence)) => sentence@ == unavailable_sentence(
                thread.provider.instance_id@,
                thread.id@,
                why,
            ),
            _ => false,
        },
{
    match resolved {
        Ok(instance) => Ok(instance),
        Err(InstanceUnavailable::Unknown) => Err(
            text::glue5(
                "Provider instance '",
                &thread.provider.instance_id,
                "' is not registered, so thread '",
                &thread.id,
                "' cannot start a turn.",
            ),
        ),
        Err(InstanceUnavailable::Disabled) => Err(
            text::glue5(
                "Provider instance '",
                &thread.provider.instance_id,
                "' is disabled, so thread '",
                &thread.id,
                "' cannot start a turn.",
            ),
        ),
        Err(InstanceUnavailable::Mismatched { configured, recorded }) => {
            let registered = text::glue5(
                "Provider instance '",
                &thread.provider.instance_id,
                "' is registered for driver '",
                &configured,
                "', but thread '",
            );
            Err(text::glue5(&registered, &thread.id, "' records '", &recorded, "'."))
        },
    }
}

/// The thread, the project and the driver a turn needs, gathered into what a
/// session takes. A continuation goes along only where it belongs to the
/// thread's own provider instance.
pub fn starting(thread: &Thread, workspace_root: &str, prepared: PreparedDriver) -> (out: Start)
    ensures
        out.thread_id@ == thread.id@,
        out.workspace_root@ == workspace_root@,
        out.model == thread.model,
        out.runtime_mode@ == thread.runtime_mode@,
        out.provider == thread.provider,
        out.driver == prepared.driver,
        out.resume_cursor == match thread.provider_resume_cursor {
            Some(cursor) => if cursor.provider@ == thread.provider@ { Some(cursor) } else { None },
            None => None,
        },
{
    let resume_cursor = match &thread.provider_resume_cursor {
        Some(cursor) => if cursor.provider.same(&thread.provider) { Some(cursor.copy()) } else { None },
        None => None,
    };
    Start {
        thread_id: thread.id.clone(),
        workspace_root: workspace_root.to_owned(),
        model: text::copy_maybe(&thread.model),
        runtime_mode: thread.runtime_mode.clone(),
        resume_cursor,
        provider: thread.provider.copy(),
        driver: prepared.driver,
    }
}

/// Why a turn could not be queued.
#[derive(Debug, Clone, Copy, PartialEq, Eq, Structural)]
pub enum QueueFailure {
    Full,
    Closed,
}

/// The prompt a turn is dispatched as: what the developer typed, and what the
/// conversation says the agent should be running under at that moment.
pub fn prompt(start: &Start, turn_id: String, text: String) -> (out: Prompt<String>)
    ensures
        out.turn_id == turn_id,
        out.text == text,
        out.wanted@ == (Retune { runtime_mode: start.runtime_mode@, model: text::maybe(start.model) }),
{
    Prompt {
        turn_id,
        text,
        wanted: Retune {
            runtime_mode: start.runtime_mode.clone(),
            model: text::copy_maybe(&start.model),
        },
    }
}

/// What the developer is told when a turn could not be queued.
pub fn queue_failure(failure: QueueFailure) -> (out: String)
    ensures
        out@ == match failure {
            QueueFailure::Full => "The agent has not read the turns already sent to it, so this one was not queued."@,
            QueueFailure::Closed => "The agent session has ended and could not be sent this turn."@,
        },
{
    match failure {
        QueueFailure::Full => "The agent has not read the turns already sent to it, so this one was not queued.".to_owned(),
        QueueFailure::Closed => "The agent session has ended and could not be sent this turn.".to_owned(),
    }
}

// ---------------------------------------------------------------------------
// Pushes
// ---------------------------------------------------------------------------

impl Pushed<String> {
    /// Which of the two this is, in the words of the developer's own picker.
    pub fn what(&self) -> (out: &'static str)
        ensures
            out@ == self@.kind(),
    {
        match self {
            Pushed::Mode { .. } => "runtime mode",
            Pushed::Model { .. } => "model",
        }
    }

    /// Takes the capture to what the child was just asked to become. Called only
    /// where the write succeeded.
    pub fn apply(&self, start: &mut Start)
        ensures
            match self@ {
                Pushed::Mode { asked, .. } => {
                    &&& final(start).runtime_mode@ == asked
                    &&& *final(start) == (Start { runtime_mode: final(start).runtime_mode, ..*old(start) })
                },
                Pushed::Model { asked, .. } => {
                    &&& text::maybe(final(start).model) == Some(asked)
                    &&& *final(start) == (Start { model: final(start).model, ..*old(start) })
                },
            },
    {
        match self {
            Pushed::Mode { asked, .. } => {
                start.runtime_mode = asked.clone();
            },
            Pushed::Model { asked, .. } => {
                start.model = Some(asked.clone());
            },
        }
    }

    /// What the developer is told when the agent would not take it.
    pub fn sentence(&self, why: &str) -> (out: String)
        ensures
            out@ == self@.refusal(why@),
    {
        match self {
            Pushed::Mode { asked, previous } => {
                let begun = text::glue4(
                    "The agent would not change to the '",
                    asked,
                    "' runtime mode and is still running under '",
                    previous,
                );
                text::glue3(&begun, "': ", why)
            },
            Pushed::Model { asked, previous } => match previous {
                Some(previous) => {
                    let begun = text::glue4(
                        "The agent would not change to the '",
                        asked,
                        "' model and is still running '",
                        previous,
                    );
                    text::glue3(&begun, "': ", why)
                },
                None => text::glue4(
                    "The agent would not change to the '",
                    asked,
                    "' model and is still running the one it started with: ",
                    why,
                ),
            },
        }
    }

    /// Puts the capture back to what the child is really running under.
    pub fn revert(self, start: &mut Start)
        ensures
            match self {
                Pushed::Mode { previous, .. } => *final(start) == (Start { runtime_mode: previous, ..*old(start) }),
                Pushed::Model { previous, .. } => *final(start) == (Start { model: previous, ..*old(start) }),
            },
    {
        match self {
            Pushed::Mode { previous, .. } => {
                start.runtime_mode = previous;
            },
            Pushed::Model { previous, .. } => {
                start.model = previous;
            },
        }
    }
}

// ---------------------------------------------------------------------------
// The turn in flight
// ---------------------------------------------------------------------------

impl InFlight<String, Keyed<String>> {
    /// A turn that has just been given to the agent.
    pub fn new(turn_id: String) -> (out: Self)
        ensures
            out@ == (InFlight { turn_id: turn_id@, assistant_message_id: None, tools: Map::<Text, Text>::empty(), stopped: None }),
            out.tools.wf(),
    {
        let out = InFlight { turn_id, assistant_message_id: None, tools: Keyed::new(), stopped: None };
        proof {
            assert(out@.tools =~= Map::<Text, Text>::empty());
        }
        out
    }

    /// Records that something has stopped this turn, and says whether it was the
    /// first thing to.
    pub fn stop(&mut self, request_id: &str) -> (out: bool)
        ensures
            out == (old(self)@.stopped is None),
            final(self)@ == (InFlight {
                stopped: if old(self)@.stopped is None { Some(request_id@) } else { old(self)@.stopped },
                ..old(self)@
            }),
            final(self).tools == old(self).tools,
    {
        if self.stopped.is_some() {
            return false;
        }
        self.stopped = Some(request_id.to_owned());
        true
    }

    /// Is this the answer to the stop this turn is waiting on?
    pub fn awaiting(&self, request_id: &str) -> (out: bool)
        ensures
            out == (self@.stopped == Some(request_id@)),
    {
        match &self.stopped {
            Some(stopped) => text::same(stopped, request_id),
            None => false,
        }
    }

    /// The agent will not stop, so this turn ends the way it was going to.
    pub fn carries_on(&mut self)
        ensures
            final(self)@ == (InFlight { stopped: None, ..old(self)@ }),
            final(self).tools == old(self).tools,
    {
        self.stopped = None;
    }

    /// Whether something has stopped this turn.
    pub fn was_stopped(&self) -> (out: bool)
        ensures
            out == (self@.stopped is Some),
    {
        self.stopped.is_some()
    }
}

// ---------------------------------------------------------------------------
// What the session and its driver both need
// ---------------------------------------------------------------------------

/// How much of what the agent said could not be read, over a whole session.
#[derive(Debug, Clone, Copy, PartialEq, Eq, Structural)]
pub struct Drift {
    pub unread: u64,
}

/// A reading of the context window, as the row that reports it.
#[derive(Debug, PartialEq, Eq)]
pub struct TokenUsage {
    pub row: String,
}

/// What the session and its driver both need, and neither could hold alone.
#[derive(Debug)]
pub struct Driving {
    /// The provider instance whose continuation the driver may replace.
    pub provider: ProviderIdentity<String>,
    pub turn: Option<InFlight<String, Keyed<String>>>,
    /// Requests published and not yet answered, by the id the client answers
    /// with. Per session rather than per turn: one that outlives its turn is a
    /// panel the developer is still looking at.
    pub outstanding: Keyed<ApprovalRequest<String>>,
    pub interrupts: u64,
    pub measurements: u64,
    pub retunes: u64,
    /// Pushes written to the agent and not yet answered, by the id minted here.
    pub pushed: Keyed<Pushed<String>>,
    /// A moment has arrived that only the agent can settle.
    pub unmeasured: bool,
    /// A turn that has just ended and has not been recorded yet.
    pub finished: Option<Finished<String>>,
    pub drift_reported: Drift,
    pub reported_usage: Option<TokenUsage>,
}

/// The view of a table of requests.
pub open spec fn requests_view(table: Seq<(Text, ApprovalRequest<String>)>) -> Seq<(Text, ApprovalRequest<Text>)> {
    Seq::new(table.len(), |i: int| (table[i].0, table[i].1@))
}

/// The view of a table of pushes.
pub open spec fn pushes_view(table: Seq<(Text, Pushed<String>)>) -> Map<Text, Pushed<Text>> {
    Map::new(|id: Text| keyed::has(table, id), |id: Text| (keyed::find(table, id)->0)@)
}

impl Driving {
    /// Every request is kept under its own id.
    pub open spec fn wf(&self) -> bool {
        &&& self.outstanding.wf()
        &&& self.pushed.wf()
        &&& forall|i: int|
            0 <= i < self.outstanding@.len() ==> (#[trigger] self.outstanding@[i]).0
                == self.outstanding@[i].1.request_id@
    }

    /// The requests the agent has stopped for, in the order of their ids.
    pub open spec fn requests(&self) -> Seq<(Text, ApprovalRequest<Text>)> {
        requests_view(self.outstanding@)
    }

    /// The pushes that were written and not yet answered.
    pub open spec fn pushes(&self) -> Map<Text, Pushed<Text>> {
        pushes_view(self.pushed@)
    }

    /// How many interrupts, measurements and pushes have been sent.
    pub open spec fn counts(&self) -> (nat, nat, nat) {
        (self.interrupts as nat, self.measurements as nat, self.retunes as nat)
    }

    /// How much drift has been shown.
    pub open spec fn shown_drift(&self) -> Drift {
        self.drift_reported
    }

    /// The reading of the window that was last reported.
    pub open spec fn shown_usage(&self) -> Option<Text> {
        match self.reported_usage {
            Some(usage) => Some(usage.row@),
            None => None,
        }
    }

    /// The state of a session whose agent has just started.
    pub fn new(provider: ProviderIdentity<String>) -> (out: Driving)
        ensures
            out.wf(),
            out.provider == provider,
            out.turn is None,
            out.requests() == Seq::<(Text, ApprovalRequest<Text>)>::empty(),
            out.pushes() == Map::<Text, Pushed<Text>>::empty(),
            out.counts() == (0nat, 0nat, 0nat),
            !out.unmeasured,
            out.finished is None,
            out.shown_drift().unread == 0,
            out.shown_usage() is None,
    {
        let out = Driving {
            provider,
            turn: None,
            outstanding: Keyed::new(),
            interrupts: 0,
            measurements: 0,
            retunes: 0,
            pushed: Keyed::new(),
            unmeasured: false,
            finished: None,
            drift_reported: Drift { unread: 0 },
            reported_usage: None,
        };
        proof {
            assert(out.requests() =~= Seq::<(Text, ApprovalRequest<Text>)>::empty());
            assert(out.pushes() =~= Map::<Text, Pushed<Text>>::empty());
        }
        out
    }

    /// Remembers a request the agent has stopped for, under its id.
    pub fn ask(&mut self, asked: ApprovalRequest<String>)
        requires
            old(self).wf(),
        ensures
            final(self).wf(),
            keyed::find(final(self).requests(), asked.request_id@) == Some(asked@),
            forall|other: Text|
                other != asked.request_id@ ==> #[trigger] keyed::find(final(self).requests(), other) == keyed::find(
                    old(self).requests(),
                    other,
                ),
            *final(self) == (Driving { outstanding: final(self).outstanding, ..*old(self) }),
    {
        let ghost before = self.outstanding@;
        let ghost name = asked.request_id@;
        let key = asked.request_id.clone();
        self.outstanding.insert(key, asked);
        proof {
            let after = self.outstanding@;
            assert forall|i: int| 0 <= i < after.len() implies (#[trigger] after[i]).0 == after[i].1.request_id@ by {
                keyed::found(after, i);
                if after[i].0 != name {
                    assert(keyed::find(after, after[i].0) == keyed::find(before, after[i].0));
                    let k = keyed::place(before, after[i].0);
                    assert(before[k].0 == before[k].1.request_id@);
                }
            }
            table_of_requests(before);
            table_of_requests(after);
        }
    }

    /// Forgets the push a request id named, because the agent answered it.
    pub fn landed(&mut self, request_id: &str) -> (out: Option<Pushed<String>>)
        requires
            old(self).wf(),
        ensures
            final(self).wf(),
            *final(self) == (Driving { pushed: final(self).pushed, ..*old(self) }),
            match out {
                Some(pushed) => old(self).pushes().contains_pair(request_id@, pushed@),
                None => !old(self).pushes().contains_key(request_id@),
            },
            final(self).pushes() == old(self).pushes().remove(request_id@),
    {
        let ghost before = self.pushed@;
        let out = self.pushed.remove(request_id);
        proof {
            let after = self.pushed@;
            if keyed::has(before, request_id@) {
                let at = keyed::place(before, request_id@);
                assert forall|id: Text| keyed::has(after, id) == (id != request_id@ && keyed::has(before, id)) by {
                    if keyed::has(after, id) {
                        let k = keyed::place(after, id);
                        let i: int = if k < at { k } else { k + 1 };
                        assert(before[i] == after[k]);
                        keyed::found(before, i);
                        keyed::found(before, at);
                    }
                    if id != request_id@ && keyed::has(before, id) {
                        let i = keyed::place(before, id);
                        let k: int = if i < at { i } else { i - 1 };
                        assert(after[k] == before[i]);
                    }
                }
                assert forall|id: Text| keyed::has(after, id) implies keyed::find(after, id) == keyed::find(before, id) by {
                    let k = keyed::place(after, id);
                    let i: int = if k < at { k } else { k + 1 };
                    assert(before[i] == after[k]);
                    keyed::found(before, i);
                }
            }
            assert(self.pushes() =~= old(self).pushes().remove(request_id@));
        }
        out
    }

    /// Whether there are ids left to mint, which on any real machine there are.
    pub fn can_mint(&self) -> (out: bool)
        ensures
            out == self.has_ids(),
    {
        self.interrupts < u64::MAX && self.measurements < u64::MAX && self.retunes < u64::MAX
    }

    /// No counter has reached the end of its range.
    pub open spec fn has_ids(&self) -> bool {
        self.counts().0 < u64::MAX && self.counts().1 < u64::MAX && self.counts().2 < u64::MAX
    }

    /// The id for the next interrupt, and the count that makes it unique.
    fn next_interrupt_id(&mut self) -> (out: String)
        requires
            old(self).interrupts < u64::MAX,
        ensures
            out@ == model::minted("interrupt-"@, (old(self).interrupts + 1) as nat),
            *final(self) == (Driving { interrupts: (old(self).interrupts + 1) as u64, ..*old(self) }),
    {
        self.interrupts = self.interrupts + 1;
        let number = text::decimal_text(self.interrupts);
        text::glue("interrupt-", &number)
    }

    /// The id for the next context-window question.
    fn next_measurement_id(&mut self) -> (out: String)
        requires
            old(self).measurements < u64::MAX,
        ensures
            out@ == model::minted("context-"@, (old(self).measurements + 1) as nat),
            *final(self) == (Driving { measurements: (old(self).measurements + 1) as u64, ..*old(self) }),
    {
        self.measurements = self.measurements + 1;
        let number = text::decimal_text(self.measurements);
        text::glue("context-", &number)
    }

    /// The id for the next mode or model push.
    fn next_retune_id(&mut self) -> (out: String)
        requires
            old(self).retunes < u64::MAX,
        ensures
            out@ == model::minted("retune-"@, (old(self).retunes + 1) as nat),
            *final(self) == (Driving { retunes: (old(self).retunes + 1) as u64, ..*old(self) }),
    {
        self.retunes = self.retunes + 1;
        let number = text::decimal_text(self.retunes);
        text::glue("retune-", &number)
    }

    /// What has gone unread since the last time anybody was told, and a note that
    /// they have now been told it. The total only grows.
    pub fn drift_to_report(&mut self, total: Drift) -> (out: Drift)
        requires
            old(self).shown_drift().unread <= total.unread,
        ensures
            out.unread == total.unread - old(self).shown_drift().unread,
            *final(self) == (Driving { drift_reported: total, ..*old(self) }),
    {
        let unread: u64 = total.unread - self.drift_reported.unread;
        self.drift_reported = total;
        Drift { unread }
    }

    /// The context-window row the client has not been told yet, if the reading
    /// has moved, and a note that it has now been told.
    pub fn usage_to_report(&mut self, reading: Option<TokenUsage>) -> (out: Option<TokenUsage>)
        ensures
            out == match reading {
                Some(usage) => if old(self).shown_usage() == Some(usage.row@) { None } else { reading },
                None => None,
            },
            final(self).shown_usage() == match reading {
                Some(usage) => Some(usage.row@),
                None => old(self).shown_usage(),
            },
            *final(self) == (Driving { reported_usage: final(self).reported_usage, ..*old(self) }),
    {
        match reading {
            Some(usage) => {
                let unchanged: bool = match &self.reported_usage {
                    Some(reported) => text::same(&reported.row, &usage.row),
                    None => false,
                };
                if unchanged {
                    return None;
                }
                self.reported_usage = Some(TokenUsage { row: usage.row.clone() });
                Some(usage)
            },
            None => None,
        }
    }

    /// Takes every request still waiting, in the order of their ids, so that the
    /// caller can close it.
    fn take_outstanding(&mut self) -> (out: Vec<(String, ApprovalRequest<String>)>)
        requires
            old(self).wf(),
        ensures
            final(self).wf(),
            final(self).requests().len() == 0,
            out@.len() == old(self).requests().len(),
            forall|i: int| 0 <= i < out@.len() ==> (#[trigger] out@[i]).1@ == old(self).requests()[i].1,
            *final(self) == (Driving { outstanding: final(self).outstanding, ..*old(self) }),
    {
        self.outstanding.take()
    }
}

/// A table of requests and its view hold the same ids in the same places.
proof fn table_of_requests(table: Seq<(Text, ApprovalRequest<String>)>)
    requires
        keyed::ascending(table),
    ensures
        keyed::ascending(requests_view(table)),
        forall|id: Text| keyed::has(requests_view(table), id) == keyed::has(table, id),
        forall|id: Text|
            #![trigger keyed::find(requests_view(table), id)]
            #![trigger keyed::find(table, id)]
            keyed::find(requests_view(table), id) == match keyed::find(table, id) {
                Some(asked) => Some(asked@),
                None => None,
            },
        forall|id: Text|
            #[trigger] keyed::without(requests_view(table), id) == requests_view(keyed::without(table, id)),
{
    let seen = requests_view(table);
    assert forall|i: int, j: int| 0 <= i < j < seen.len() implies text::before(
        (#[trigger] seen[i]).0,
        (#[trigger] seen[j]).0,
    ) by {
        assert(text::before(table[i].0, table[j].0));
    }
    assert forall|id: Text| keyed::has(seen, id) == keyed::has(table, id) by {
        if keyed::has(seen, id) {
            assert(table[keyed::place(seen, id)].0 == id);
        }
        if keyed::has(table, id) {
            assert(seen[keyed::place(table, id)].0 == id);
        }
    }
    assert forall|id: Text| keyed::has(table, id) implies #[trigger] keyed::place(seen, id) == keyed::place(table, id) by {
        let i = keyed::place(table, id);
        assert(seen[i].0 == id);
        keyed::found(seen, i);
    }
    assert forall|id: Text| #[trigger] keyed::without(seen, id) == requests_view(keyed::without(table, id)) by {
        assert(keyed::without(seen, id) =~= requests_view(keyed::without(table, id)));
    }
}

// ---------------------------------------------------------------------------
// The loop
// ---------------------------------------------------------------------------

/// The view of what a step owes.
pub open spec fn effects_view<C>(effects: Seq<Effect<String, C>>) -> Seq<Effect<Text, C>> {
    Seq::new(effects.len(), |i: int| effects[i]@)
}

/// What a step owes, in order, and what to wait for next.
#[derive(Debug)]
pub struct Step<C> {
    pub effects: Vec<Effect<String, C>>,
    pub wait: Wait<String>,
}

impl<C> Step<C> {
    /// Whether this step, and the state it leaves, are the outcome given.
    pub open spec fn meets(&self, state: Model, outcome: Outcome<C>) -> bool {
        &&& state =~~= outcome.0
        &&& effects_view(self.effects@) =~= outcome.1
        &&& self.wait@ == outcome.2
    }
}

/// One session, from the start of its agent to the reaping of it.
#[derive(Debug)]
pub struct Machine {
    pub start: Start,
    pub driving: Driving,
    /// Whether a prompt received during a running turn belongs to that turn.
    pub steers: bool,
    /// Which of the conversation's sessions this one is.
    pub epoch: u64,
    /// A turn that arrived while another was still running. Held rather than
    /// sent: sending it would orphan the turn in flight.
    pub waiting: Option<Prompt<String>>,
    pub accepting: bool,
    pub listening: bool,
    pub asked_to_stop: bool,
    pub send_failure: Option<String>,
    pub stage: Stage<String>,
}

impl View for Machine {
    type V = Model;

    open spec fn view(&self) -> Model {
        Model {
            mode: self.start.runtime_mode@,
            model: text::maybe(self.start.model),
            provider: self.start.provider@,
            steers: self.steers,
            epoch: self.epoch,
            turn: match self.driving.turn {
                Some(turn) => Some(turn@),
                None => None,
            },
            outstanding: self.driving.requests(),
            interrupts: self.driving.interrupts as nat,
            measurements: self.driving.measurements as nat,
            retunes: self.driving.retunes as nat,
            pushed: self.driving.pushes(),
            unmeasured: self.driving.unmeasured,
            finished: match self.driving.finished {
                Some(finished) => Some(finished@),
                None => None,
            },
            waiting: match self.waiting {
                Some(prompt) => Some(prompt@),
                None => None,
            },
            accepting: self.accepting,
            listening: self.listening,
            asked_to_stop: self.asked_to_stop,
            send_failure: text::maybe(self.send_failure),
            stage: self.stage@,
        }
    }
}

/// The row that says something failed.
fn failure_row<C>(kind: &str, summary: String) -> (out: Effect<String, C>)
    ensures
        out@ == model::failed::<C>(kind@, summary@),
{
    Effect::Apply(Change::Activity(Activity::Failed { kind: kind.to_owned(), summary }))
}

/// Says in the conversation that the developer stopped this turn.
fn stopped<C>(effects: &mut Vec<Effect<String, C>>, turn_id: &str, request_id: &str)
    ensures
        effects_view(final(effects)@) == effects_view(old(effects)@) + model::stop_rows::<C>(turn_id@, request_id@),
{
    effects.push(Effect::Apply(Change::InterruptRequested { turn_id: turn_id.to_owned() }));
    effects.push(
        Effect::Apply(
            Change::Activity(
                Activity::Stopped {
                    kind: "turn.interrupted".to_owned(),
                    summary: "The developer stopped the turn.".to_owned(),
                    request_id: request_id.to_owned(),
                    turn_id: turn_id.to_owned(),
                    detail: "The developer stopped the turn. Anything the agent had already said is kept.".to_owned(),
                },
            ),
        ),
    );
    proof {
        assert(effects_view(effects@) =~= effects_view(old(effects)@) + model::stop_rows::<C>(turn_id@, request_id@));
    }
}

impl Machine {
    /// The tables are in order.
    pub open spec fn wf(&self) -> bool {
        self.driving.wf()
    }

    /// What no step of a session changes: what it was started with, but for the
    /// mode and the model, and what was already reported of its agent.
    pub open spec fn keeps(&self, before: Machine) -> bool {
        &&& self.start == Start {
            runtime_mode: self.start.runtime_mode,
            model: self.start.model,
            ..before.start
        }
        &&& self.driving.provider == before.driving.provider
        &&& self.driving.drift_reported == before.driving.drift_reported
        &&& self.driving.reported_usage == before.driving.reported_usage
    }

    /// A session that has not started its agent yet.
    pub fn new(start: Start, steers: bool, epoch: u64) -> (out: Machine)
        ensures
            out.wf(),
            out.start == start,
            out.steers == steers,
            out.epoch == epoch,
            out@.turn is None,
            out@.outstanding.len() == 0,
            out@.pushed == Map::<Text, Pushed<Text>>::empty(),
            out@.interrupts == 0 && out@.measurements == 0 && out@.retunes == 0,
            !out@.unmeasured && out@.finished is None && out@.waiting is None,
            out@.accepting && out@.listening && !out@.asked_to_stop,
            out@.send_failure is None,
            out@.stage == Stage::<Text>::Opening,
            out.driving.provider@ == start.provider@,
            out.driving.drift_reported.unread == 0,
            out.driving.reported_usage is None,
    {
        let provider = start.provider.copy();
        Machine {
            start,
            driving: Driving::new(provider),
            steers,
            epoch,
            waiting: None,
            accepting: true,
            listening: true,
            asked_to_stop: false,
            send_failure: None,
            stage: Stage::Opening,
        }
    }

    /// The turn in flight.
    fn turn_id(&self) -> (out: Option<String>)
        ensures
            text::maybe(out) == self@.turn_id(),
    {
        match &self.driving.turn {
            Some(turn) => Some(turn.turn_id.clone()),
            None => None,
        }
    }

    /// The session is working on this turn.
    fn running<C>(&self, turn_id: &str) -> (out: Effect<String, C>)
        ensures
            out@ == self@.running::<C>(turn_id@),
    {
        Effect::Apply(
            Change::Session(
                Session {
                    status: SessionStatus::Running,
                    runtime_mode: self.start.runtime_mode.clone(),
                    active_turn_id: Some(turn_id.to_owned()),
                    last_error: None,
                },
            ),
        )
    }

    /// Goes round the loop.
    fn around<C>(&mut self, effects: Vec<Effect<String, C>>) -> (out: Step<C>)
        requires
            old(self).wf(),
        ensures
            final(self).wf(),
            final(self).keeps(*old(self)),
            out.meets(final(self)@, old(self)@.around(effects_view(effects@))),
            final(self).start == old(self).start,
    {
        self.stage = Stage::Polling;
        Step { effects, wait: Wait::Poll }
    }

    /// Leaves the loop: closes what is open and reaps the agent.
    fn finish<C>(&mut self) -> (out: Step<C>)
        requires
            old(self).wf(),
        ensures
            final(self).wf(),
            final(self).keeps(*old(self)),
            out.meets(final(self)@, old(self)@.finish::<C>()),
            final(self).start == old(self).start,
    {
        let mut effects: Vec<Effect<String, C>> = Vec::new();
        let ghost before = self@;
        let turn_id = self.turn_id();
        let mut turn = self.driving.turn.take();
        if let Some(mut active) = turn {
            if let Some(message_id) = active.assistant_message_id.take() {
                effects.push(
                    Effect::Apply(
                        Change::AssistantMessage {
                            message_id,
                            turn_id: active.turn_id.clone(),
                            text: "".to_owned(),
                        },
                    ),
                );
            }
            turn = Some(active);
        } else {
            turn = None;
        }
        self.driving.turn = turn;
        let ghost reply = effects_view(effects@);
        let mut asked = self.driving.take_outstanding();
        let ghost all = asked@;
        let ghost closing = Seq::new(before.outstanding.len(), |i: int| model::abandoned::<C>(before.outstanding[i].1, before.turn_id()));
        while asked.len() > 0
            invariant
                text::maybe(turn_id) == before.turn_id(),
                asked@.len() <= all.len(),
                all.len() == before.outstanding.len(),
                closing == Seq::new(before.outstanding.len(), |i: int| model::abandoned::<C>(before.outstanding[i].1, before.turn_id())),
                asked@ == all.skip(all.len() - asked@.len()),
                forall|i: int| 0 <= i < all.len() ==> (#[trigger] all[i]).1@ == before.outstanding[i].1,
                effects_view(effects@) == reply + closing.take(all.len() - asked@.len()),
            decreases asked@.len(),
        {
            let ghost done: int = all.len() - asked@.len();
            let (_, request) = asked.remove(0);
            proof {
                assert(request == all[done].1);
                assert(asked@ =~= all.skip(done + 1));
                assert(closing.take(done + 1) =~= closing.take(done).push(closing[done]));
            }
            let activity = if request.question {
                Activity::UnanswerableUserInput { request_id: request.request_id }
            } else {
                Activity::Resolved { asked: request, decision: Decision::Cancel, turn_id: text::copy_maybe(&turn_id) }
            };
            let ghost earlier = effects@;
            effects.push(Effect::Apply(Change::Activity(activity)));
            proof {
                assert(effects_view(effects@) =~= effects_view(earlier).push(closing[done]));
                assert(effects_view(effects@) =~= reply + closing.take(done + 1));
            }
        }
        self.stage = Stage::Stopping;
        proof {
            assert(closing.take(all.len() as int) =~= closing);
            assert(effects_view(effects@) =~= before.ending_rows::<C>());
            assert(self@.outstanding =~= Seq::<(Text, ApprovalRequest<Text>)>::empty());
        }
        Step { effects, wait: Wait::Stop { asked_to_stop: self.asked_to_stop } }
    }

    /// Takes a signal from the developer.
    fn signal<C>(&mut self, signal: Signal<String>) -> (out: Step<C>)
        requires
            old(self).wf(),
            old(self).driving.has_ids(),
        ensures
            final(self).wf(),
            final(self).keeps(*old(self)),
            out.meets(final(self)@, old(self)@.signalled::<C>(signal@)),
    {
        proof {
            table_of_requests(self.driving.outstanding@);
        }
        match signal {
            Signal::Answer { request_id, decision } => {
                match self.remove_request(&request_id) {
                    Some(asked) => {
                        let (kept, told) = decision.twice();
                        let (waits, asks) = asked.twice();
                        self.stage = Stage::Answering { asked: waits, decision: kept };
                        Step {
                            effects: Vec::new(),
                            wait: Wait::Answer { asked: asks, reply: Reply::Decided(told) },
                        }
                    },
                    None => {
                        let mut effects: Vec<Effect<String, C>> = Vec::new();
                        effects.push(Effect::Apply(Change::Activity(Activity::Unanswerable { request_id })));
                        self.around(effects)
                    },
                }
            },
            Signal::AnswerUserInput { request_id, answers } => {
                match self.remove_request(&request_id) {
                    Some(asked) => {
                        let (waits, asks) = asked.twice();
                        self.stage = Stage::AnsweringUserInput { asked: waits, answers: answers.clone() };
                        Step {
                            effects: Vec::new(),
                            wait: Wait::Answer { asked: asks, reply: Reply::Answers(answers) },
                        }
                    },
                    None => {
                        let mut effects: Vec<Effect<String, C>> = Vec::new();
                        effects.push(Effect::Apply(Change::Activity(Activity::UnanswerableUserInput { request_id })));
                        self.around(effects)
                    },
                }
            },
            Signal::Interrupt { turn_id } => self.interrupt(turn_id),
            Signal::Stop => {
                self.asked_to_stop = true;
                self.finish()
            },
        }
    }

    /// Takes the request an id names out of the table.
    fn remove_request(&mut self, request_id: &str) -> (out: Option<ApprovalRequest<String>>)
        requires
            old(self).wf(),
        ensures
            final(self).wf(),
            final(self).keeps(*old(self)),
            match out {
                Some(asked) => Some(asked@),
                None => None,
            } == keyed::find(old(self)@.outstanding, request_id@),
            final(self)@ == (Model { outstanding: keyed::without(old(self)@.outstanding, request_id@), ..old(self)@ }),
            final(self).driving.counts() == old(self).driving.counts(),
            out is None ==> final(self)@ == old(self)@,
    {
        let ghost before = self.driving.outstanding@;
        proof {
            table_of_requests(before);
        }
        let out = self.driving.outstanding.remove(request_id);
        proof {
            let after = self.driving.outstanding@;
            assert forall|i: int| 0 <= i < after.len() implies (#[trigger] after[i]).0 == after[i].1.request_id@ by {
                if keyed::has(before, request_id@) {
                    let at = keyed::place(before, request_id@);
                    let k: int = if i < at { i } else { i + 1 };
                    assert(after[i] == before[k]);
                }
            }
        }
        out
    }

    /// Asks the agent to stop the turn it is working on. Every reason to do
    /// nothing is settled before an id is minted.
    fn interrupt<C>(&mut self, wanted: Option<String>) -> (out: Step<C>)
        requires
            old(self).wf(),
            old(self).driving.has_ids(),
        ensures
            final(self).wf(),
            final(self).keeps(*old(self)),
            out.meets(final(self)@, old(self)@.signalled::<C>(Signal::Interrupt { turn_id: text::maybe(wanted) })),
    {
        let stops: Option<String> = match &self.driving.turn {
            Some(active) => {
                let named: bool = match &wanted {
                    Some(turn_id) => text::same(turn_id, &active.turn_id),
                    None => true,
                };
                if named && active.stopped.is_none() { Some(active.turn_id.clone()) } else { None }
            },
            None => None,
        };
        match stops {
            Some(turn_id) => {
                let request_id = self.driving.next_interrupt_id();
                self.stage = Stage::Interrupting { turn_id, request_id: request_id.clone() };
                Step { effects: Vec::new(), wait: Wait::Interrupt { request_id } }
            },
            None => self.around(Vec::new()),
        }
    }

    /// The decision has been written to the agent, or could not be, and is said
    /// in the conversation either way.
    fn answer<C>(
        &mut self,
        asked: ApprovalRequest<String>,
        decision: Decision<String>,
        wrote: Result<(), String>,
    ) -> (out: Step<C>)
        requires
            old(self).wf(),
        ensures
            final(self).wf(),
            final(self).keeps(*old(self)),
            out.meets(final(self)@, old(self)@.answered::<C>(asked@, decision@, result_view(wrote))),
    {
        let ghost before = self@;
        let mut effects: Vec<Effect<String, C>> = Vec::new();
        let sent: bool = wrote.is_ok();
        let turn_id = self.turn_id();
        let mut cancelled: Option<String> = None;
        if sent && matches!(decision, Decision::Cancel) {
            let turn = self.driving.turn.take();
            if let Some(mut active) = turn {
                if active.stop(&asked.request_id) {
                    cancelled = Some(active.turn_id.clone());
                }
                self.driving.turn = Some(active);
            }
        }
        if let Err(error) = wrote {
            effects.push(
                failure_row(
                    "session.failed",
                    text::glue(
                        "The decision could not be sent to the agent, which is no longer reading: ",
                        &error,
                    ),
                ),
            );
        }
        let request_id = asked.request_id.clone();
        effects.push(Effect::Apply(Change::Activity(Activity::Resolved { asked, decision, turn_id })));
        if let Some(turn_id) = cancelled {
            stopped(&mut effects, &turn_id, &request_id);
        }
        proof {
            assert(effects_view(effects@) =~= before.answered::<C>(asked@, decision@, result_view(wrote)).1);
        }
        self.around(effects)
    }

    /// The answers have been written to the agent, or could not be, and are said
    /// in the conversation either way.
    fn answer_user_input<C>(
        &mut self,
        asked: ApprovalRequest<String>,
        answers: String,
        wrote: Result<(), String>,
    ) -> (out: Step<C>)
        requires
            old(self).wf(),
        ensures
            final(self).wf(),
            final(self).keeps(*old(self)),
            out.meets(final(self)@, old(self)@.answered_user_input::<C>(asked@, answers@, result_view(wrote))),
    {
        let mut effects: Vec<Effect<String, C>> = Vec::new();
        if let Err(error) = wrote {
            effects.push(
                failure_row(
                    "session.failed",
                    text::glue("The answers could not be sent to the agent, which is no longer reading: ", &error),
                ),
            );
        }
        let turn_id = self.turn_id();
        effects.push(
            Effect::Apply(
                Change::Activity(Activity::UserInputResolved { request_id: asked.request_id, answers, turn_id }),
            ),
        );
        proof {
            assert(effects_view(effects@) =~= self@.answered_user_input::<C>(asked@, answers@, result_view(wrote)).1);
        }
        self.around(effects)
    }

    /// The stop has been written to the agent, or could not be.
    fn interrupted<C>(&mut self, turn_id: String, request_id: String, wrote: Result<(), String>) -> (out: Step<C>)
        requires
            old(self).wf(),
        ensures
            final(self).wf(),
            final(self).keeps(*old(self)),
            out.meets(final(self)@, old(self)@.interrupted::<C>(turn_id@, request_id@, result_view(wrote))),
    {
        let mut effects: Vec<Effect<String, C>> = Vec::new();
        match wrote {
            Err(error) => {
                effects.push(
                    failure_row(
                        "turn.interrupt-failed",
                        text::glue(
                            "The agent could not be asked to stop, because it is no longer reading: ",
                            &error,
                        ),
                    ),
                );
            },
            Ok(_) => {
                let turn = self.driving.turn.take();
                if let Some(mut active) = turn {
                    let _ = active.stop(&request_id);
                    self.driving.turn = Some(active);
                    stopped(&mut effects, &turn_id, &request_id);
                }
            },
        }
        proof {
            assert(effects_view(effects@) =~= old(self)@.interrupted::<C>(turn_id@, request_id@, result_view(wrote)).1);
        }
        self.around(effects)
    }

    /// Moves the child onto the mode and model a turn asks for, before it is
    /// given the turn. Nothing is sent for a value that has not moved.
    fn retune<C>(&mut self, prompt: Prompt<String>) -> (out: Step<C>)
        requires
            old(self).wf(),
            old(self).driving.has_ids(),
        ensures
            final(self).wf(),
            final(self).keeps(*old(self)),
            out.meets(final(self)@, old(self)@.begin::<C>(prompt@)),
    {
        let mode = if text::same(&prompt.wanted.runtime_mode, &self.start.runtime_mode) {
            None
        } else {
            Some(
                Pushed::Mode {
                    previous: self.start.runtime_mode.clone(),
                    asked: prompt.wanted.runtime_mode.clone(),
                },
            )
        };
        let model = match &prompt.wanted.model {
            Some(asked) => {
                let current: bool = match &self.start.model {
                    Some(model) => text::same(model, asked),
                    None => false,
                };
                if current {
                    None
                } else {
                    Some(Pushed::Model { previous: text::copy_maybe(&self.start.model), asked: asked.clone() })
                }
            },
            None => None,
        };
        match mode {
            Some(mode) => self.push_next(Vec::new(), Some(mode), model, prompt),
            None => self.push_next(Vec::new(), model, None, prompt),
        }
    }

    /// Writes the next push, or announces the turn where there is none.
    fn push_next<C>(
        &mut self,
        effects: Vec<Effect<String, C>>,
        asked: Option<Pushed<String>>,
        follows: Option<Pushed<String>>,
        prompt: Prompt<String>,
    ) -> (out: Step<C>)
        requires
            old(self).wf(),
            old(self).driving.has_ids(),
        ensures
            final(self).wf(),
            final(self).keeps(*old(self)),
            out.meets(
                final(self)@,
                old(self)@.push_next::<C>(
                    effects_view(effects@),
                    model::pushed_view(asked),
                    model::pushed_view(follows),
                    prompt@,
                ),
            ),
    {
        match asked {
            Some(asked) => {
                let request_id = self.driving.next_retune_id();
                let (kept, told) = asked.twice();
                self.stage = Stage::Retuning { request_id: request_id.clone(), asked: kept, follows, prompt };
                Step { effects, wait: Wait::Retune { request_id, asked: told } }
            },
            None => {
                let mut effects = effects;
                let ghost earlier = effects@;
                let row = self.running(&prompt.turn_id);
                effects.push(row);
                proof {
                    assert(effects_view(effects@) =~= effects_view(earlier).push(row@));
                }
                self.stage = Stage::Baselining { prompt };
                Step { effects, wait: Wait::Baseline }
            },
        }
    }

    /// A push has been written to the agent, or could not be. The capture moves
    /// only when the write did.
    fn retuned<C>(
        &mut self,
        request_id: String,
        asked: Pushed<String>,
        follows: Option<Pushed<String>>,
        prompt: Prompt<String>,
        wrote: Result<(), String>,
    ) -> (out: Step<C>)
        requires
            old(self).wf(),
            old(self).driving.has_ids(),
        ensures
            final(self).wf(),
            final(self).keeps(*old(self)),
            out.meets(
                final(self)@,
                old(self)@.retuned::<C>(
                    request_id@,
                    asked@,
                    model::pushed_view(follows),
                    prompt@,
                    result_view(wrote),
                ),
            ),
    {
        let mut effects: Vec<Effect<String, C>> = Vec::new();
        match wrote {
            Ok(_) => {
                asked.apply(&mut self.start);
                let ghost before = self.driving.pushed@;
                self.driving.pushed.insert(request_id, asked);
                proof {
                    let after = self.driving.pushed@;
                    assert forall|id: Text| keyed::has(after, id) == (id == request_id@ || keyed::has(before, id)) by {
                        assert(keyed::find(after, id) is Some == keyed::has(after, id));
                        assert(keyed::find(before, id) is Some == keyed::has(before, id));
                    }
                    assert(self@.pushed =~= old(self)@.pushed.insert(request_id@, asked@));
                }
            },
            Err(error) => {
                effects.push(unreachable_agent(&asked, &error));
            },
        }
        proof {
            assert(effects_view(effects@) =~= match result_view(wrote) {
                Ok(_) => seq![],
                Err(error) => seq![model::failed::<C>("session.retune-failed"@, model::unreachable_sentence(asked@, error))],
            });
        }
        self.push_next(effects, follows, None, prompt)
    }

    /// The turn has been given to the agent, or could not be.
    fn sent<C>(&mut self, turn_id: String, wrote: Result<(), String>) -> (out: Step<C>)
        requires
            old(self).wf(),
        ensures
            final(self).wf(),
            final(self).keeps(*old(self)),
            out.meets(final(self)@, old(self)@.sent::<C>(turn_id@, result_view(wrote))),
    {
        match wrote {
            Err(error) => {
                self.send_failure = Some(text::glue("The turn could not be sent to the agent: ", &error));
                self.finish()
            },
            Ok(_) => {
                self.driving.turn = Some(InFlight::new(turn_id));
                self.around(Vec::new())
            },
        }
    }
}

/// The agent stopped reading before it could be told what this turn wants.
fn unreachable_agent<C>(asked: &Pushed<String>, error: &str) -> (out: Effect<String, C>)
    ensures
        out@ == model::failed::<C>("session.retune-failed"@, model::unreachable_sentence(asked@, error@)),
{
    failure_row(
        "session.retune-failed",
        text::glue4(
            "The agent could not be told which ",
            asked.what(),
            " this turn wants, because it is no longer reading: ",
            error,
        ),
    )
}

/// The view of a write.
pub open spec fn result_view(wrote: Result<(), String>) -> Result<(), Text> {
    match wrote {
        Ok(_) => Ok(()),
        Err(error) => Err(error@),
    }
}

impl Decision<String> {
    /// The decision, and a copy of it.
    fn twice(self) -> (out: (Decision<String>, Decision<String>))
        ensures
            out.0@ == self@,
            out.1@ == self@,
    {
        match self {
            Decision::Cancel => (Decision::Cancel, Decision::Cancel),
            Decision::Other(word) => (Decision::Other(word.clone()), Decision::Other(word)),
        }
    }
}

impl ApprovalRequest<String> {
    /// The request, and a copy of it.
    fn twice(self) -> (out: (ApprovalRequest<String>, ApprovalRequest<String>))
        ensures
            out.0@ == self@,
            out.1@ == self@,
    {
        let copy = ApprovalRequest {
            request_id: self.request_id.clone(),
            question: self.question,
            body: self.body.clone(),
        };
        (copy, self)
    }
}

impl Pushed<String> {
    /// The push, and a copy of it.
    fn twice(self) -> (out: (Pushed<String>, Pushed<String>))
        ensures
            out.0@ == self@,
            out.1@ == self@,
    {
        let copy = match &self {
            Pushed::Mode { previous, asked } => Pushed::Mode { previous: previous.clone(), asked: asked.clone() },
            Pushed::Model { previous, asked } => Pushed::Model {
                previous: text::copy_maybe(previous),
                asked: asked.clone(),
            },
        };
        (copy, self)
    }
}

/// What spending a driver's decision owes at once: its changes in the order it
/// decided them, then its continuation where that belongs to this provider.
pub fn spend<C>(provider: &ProviderIdentity<String>, changes: Vec<C>, cursor: Option<ResumeCursor<String>>) -> (out: Vec<
    Effect<String, C>,
>)
    ensures
        effects_view(out@) == model::spent(
            provider@,
            changes@,
            match cursor {
                Some(cursor) => Some(cursor@),
                None => None,
            },
        ),
{
    let mut changes = changes;
    let ghost all = changes@;
    let ghost relayed = Seq::new(all.len(), |i: int| Effect::<Text, C>::Relay(all[i]));
    let mut out: Vec<Effect<String, C>> = Vec::new();
    while changes.len() > 0
        invariant
            changes@.len() <= all.len(),
            changes@ == all.skip(all.len() - changes@.len()),
            relayed == Seq::new(all.len(), |i: int| Effect::<Text, C>::Relay(all[i])),
            effects_view(out@) == relayed.take(all.len() - changes@.len()),
        decreases changes@.len(),
    {
        let ghost done: int = all.len() - changes@.len();
        let change = changes.remove(0);
        proof {
            assert(change == all[done]);
            assert(changes@ =~= all.skip(done + 1));
            assert(relayed.take(done + 1) =~= relayed.take(done).push(relayed[done]));
        }
        let ghost earlier = out@;
        out.push(Effect::Relay(change));
        proof {
            assert(effects_view(out@) =~= effects_view(earlier).push(relayed[done]));
        }
    }
    proof {
        assert(relayed.take(all.len() as int) =~= relayed);
    }
    let ghost earlier = out@;
    if let Some(cursor) = cursor {
        if cursor.provider.same(provider) {
            out.push(Effect::Remember(cursor));
            proof {
                assert(effects_view(out@) =~= effects_view(earlier).push(Effect::Remember(cursor@)));
            }
        }
    }
    out
}

impl Machine {
    /// Publishes the ending of a turn while the session still describes it.
    fn settle<C>(&self, settles: Settles<String>, active: Option<String>) -> (out: Vec<Effect<String, C>>)
        ensures
            effects_view(out@) == self@.settled::<C>(settles@, text::maybe(active)),
    {
        let mut out: Vec<Effect<String, C>> = Vec::new();
        if text::same_maybe(&active, &settles.turn_id) {
            out.push(
                Effect::Apply(
                    Change::Session(
                        Session {
                            status: settles.status,
                            runtime_mode: self.start.runtime_mode.clone(),
                            active_turn_id: None,
                            last_error: settles.last_error,
                        },
                    ),
                ),
            );
        }
        proof {
            assert(effects_view(out@) =~= self@.settled::<C>(settles@, text::maybe(active)));
        }
        out
    }

    /// Records a turn that ended before the loop goes round.
    fn record<C>(&mut self, effects: Vec<Effect<String, C>>) -> (out: Step<C>)
        requires
            old(self).wf(),
        ensures
            final(self).wf(),
            final(self).keeps(*old(self)),
            out.meets(final(self)@, old(self)@.record(effects_view(effects@))),
    {
        let finished = self.driving.finished.take();
        match finished {
            Some(finished) => {
                self.stage = Stage::Checkpointing;
                Step { effects, wait: Wait::Checkpoint(finished) }
            },
            None => self.around(effects),
        }
    }

    /// What follows a decision that has been spent.
    fn follow<C>(&mut self, effects: Vec<Effect<String, C>>, reverts: Option<Pushed<String>>) -> (out: Step<C>)
        requires
            old(self).wf(),
            old(self).driving.has_ids(),
        ensures
            final(self).wf(),
            final(self).keeps(*old(self)),
            out.meets(final(self)@, old(self)@.follow(effects_view(effects@), model::pushed_view(reverts))),
    {
        let mut effects = effects;
        if let Some(refused) = reverts {
            refused.revert(&mut self.start);
            if let Some(turn_id) = self.turn_id() {
                let ghost earlier = effects@;
                let row = self.running(&turn_id);
                effects.push(row);
                proof {
                    assert(effects_view(effects@) =~= effects_view(earlier).push(row@));
                }
            }
        }
        if self.driving.unmeasured {
            self.driving.unmeasured = false;
            let request_id = self.driving.next_measurement_id();
            self.stage = Stage::Measuring;
            Step { effects, wait: Wait::Measure { request_id } }
        } else {
            self.record(effects)
        }
    }

    /// The agent said something.
    fn said<C>(&mut self, decided: Decided<String, Vec<C>>) -> (out: Step<C>)
        requires
            old(self).wf(),
            old(self).driving.has_ids(),
        ensures
            final(self).wf(),
            final(self).keeps(*old(self)),
            out.meets(final(self)@, old(self)@.said(decided@)),
    {
        let effects = spend(&self.start.provider, decided.changes, decided.provider_resume_cursor);
        match decided.settles {
            Some(settles) => {
                self.stage = Stage::Settling { settles, reverts: decided.reverts };
                Step { effects, wait: Wait::ActiveTurn }
            },
            None => self.follow(effects, decided.reverts),
        }
    }

    /// The agent started, or could not be.
    fn opened<C>(&mut self, opened: Result<Decided<String, Vec<C>>, String>) -> (out: Step<C>)
        requires
            old(self).wf(),
        ensures
            final(self).wf(),
            final(self).keeps(*old(self)),
            match opened {
                Ok(decided) => out.meets(final(self)@, old(self)@.opened::<C>(Ok(decided@))),
                Err(why) => out.meets(final(self)@, old(self)@.opened::<C>(Err(why@))),
            },
    {
        match opened {
            Err(why) => {
                let mut effects: Vec<Effect<String, C>> = Vec::new();
                effects.push(failure_row("session.failed", why.clone()));
                effects.push(
                    Effect::Apply(
                        Change::Session(
                            Session {
                                status: SessionStatus::Error,
                                runtime_mode: self.start.runtime_mode.clone(),
                                active_turn_id: None,
                                last_error: Some(why),
                            },
                        ),
                    ),
                );
                self.stage = Stage::Abandoning;
                Step { effects, wait: Wait::Detach { epoch: self.epoch } }
            },
            Ok(decided) => {
                let effects = spend(&self.start.provider, decided.changes, decided.provider_resume_cursor);
                match decided.settles {
                    Some(settles) => {
                        self.stage = Stage::OpenSettling { settles };
                        Step { effects, wait: Wait::ActiveTurn }
                    },
                    None => self.around(effects),
                }
            },
        }
    }

    /// No signal was waiting.
    fn idle<C>(&mut self) -> (out: Step<C>)
        requires
            old(self).wf(),
            old(self).driving.has_ids(),
        ensures
            final(self).wf(),
            final(self).keeps(*old(self)),
            out.meets(final(self)@, old(self)@.idle::<C>()),
    {
        if self.accepting && self.driving.turn.is_none() {
            let waiting = self.waiting.take();
            if let Some(prompt) = waiting {
                return self.retune(prompt);
            }
        }
        self.stage = Stage::Selecting;
        Step {
            effects: Vec::new(),
            wait: Wait::Select { signals: self.listening, prompts: self.accepting && self.waiting.is_none() },
        }
    }

    /// A prompt arrived, or the channel closed.
    fn prompted<C>(&mut self, prompt: Option<Prompt<String>>) -> (out: Step<C>)
        requires
            old(self).wf(),
        ensures
            final(self).wf(),
            final(self).keeps(*old(self)),
            out.meets(
                final(self)@,
                old(self)@.prompted::<C>(
                    match prompt {
                        Some(prompt) => Some(prompt@),
                        None => None,
                    },
                ),
            ),
    {
        match prompt {
            Some(prompt) => {
                if self.steers && self.driving.turn.is_some() {
                    self.stage = Stage::Steering;
                    Step { effects: Vec::new(), wait: Wait::Send { text: prompt.text } }
                } else {
                    self.waiting = Some(prompt);
                    self.around(Vec::new())
                }
            },
            None => {
                self.accepting = false;
                let mut effects: Vec<Effect<String, C>> = Vec::new();
                effects.push(Effect::CloseInput);
                self.around(effects)
            },
        }
    }

    /// A steer has been given to the agent, or could not be.
    fn steered<C>(&mut self, wrote: Result<(), String>) -> (out: Step<C>)
        requires
            old(self).wf(),
        ensures
            final(self).wf(),
            final(self).keeps(*old(self)),
            out.meets(final(self)@, old(self)@.steered::<C>(result_view(wrote))),
    {
        let mut effects: Vec<Effect<String, C>> = Vec::new();
        if let Err(error) = wrote {
            effects.push(
                failure_row("turn.steer-failed", text::glue("The steer could not be sent to the agent: ", &error)),
            );
        }
        self.around(effects)
    }

    /// The agent has been reaped, and the rows it leaves are said.
    fn reaped<C>(&mut self, refused: Option<String>, death: Option<String>) -> (out: Step<C>)
        requires
            old(self).wf(),
        ensures
            final(self).wf(),
            final(self).keeps(*old(self)),
            out.meets(final(self)@, old(self)@.reaped::<C>(text::maybe(refused), text::maybe(death))),
    {
        let mut effects: Vec<Effect<String, C>> = Vec::new();
        if let Some(why) = &self.send_failure {
            effects.push(failure_row("session.failed", why.clone()));
        }
        if let Some(why) = &refused {
            effects.push(failure_row("session.resume-failed", why.clone()));
        }
        if let Some(why) = &death {
            if refused.is_none() {
                effects.push(failure_row("session.failed", why.clone()));
            }
        }
        proof {
            assert(effects_view(effects@) =~= self@.reaped::<C>(text::maybe(refused), text::maybe(death)).1);
        }
        self.stage = Stage::Detaching { refused, death };
        Step { effects, wait: Wait::Detach { epoch: self.epoch } }
    }

    /// The slot has been given up, and the ending is published where it was still
    /// this session's.
    fn detached<C>(&mut self, refused: Option<String>, death: Option<String>, ours: bool) -> (out: Step<C>)
        requires
            old(self).wf(),
        ensures
            final(self).wf(),
            final(self).keeps(*old(self)),
            out.meets(final(self)@, old(self)@.detached::<C>(text::maybe(refused), text::maybe(death), ours)),
    {
        let failure = if refused.is_some() {
            refused
        } else if self.send_failure.is_some() {
            text::copy_maybe(&self.send_failure)
        } else {
            death
        };
        let mut effects: Vec<Effect<String, C>> = Vec::new();
        if ours {
            effects.push(
                Effect::Apply(
                    Change::Session(
                        Session {
                            status: if failure.is_some() { SessionStatus::Error } else { SessionStatus::Stopped },
                            runtime_mode: self.start.runtime_mode.clone(),
                            active_turn_id: None,
                            last_error: failure,
                        },
                    ),
                ),
            );
        }
        proof {
            assert(effects_view(effects@) =~= self@.detached::<C>(text::maybe(refused), text::maybe(death), ours).1);
        }
        let turn = self.driving.turn.take();
        if let Some(active) = turn {
            if ours && !self.asked_to_stop {
                self.stage = Stage::Closing;
                return Step {
                    effects,
                    wait: Wait::Checkpoint(Finished { turn_id: active.turn_id, status: "error".to_owned() }),
                };
            }
        }
        self.stage = Stage::Over;
        Step { effects, wait: Wait::Over }
    }

    /// What to wait for first.
    pub fn first(&self) -> (out: Wait<String>)
        requires
            self@.stage is Opening,
        ensures
            out@ == Wait::<Text>::Open,
    {
        Wait::Open
    }

    /// A write to the agent is over.
    fn wrote<C>(&mut self, stage: Stage<String>, wrote: Result<(), String>) -> (out: Step<C>)
        requires
            old(self).wf(),
            old(self).driving.has_ids(),
            old(self)@.stage is Over,
            stage is Answering || stage is AnsweringUserInput || stage is Interrupting || stage is Retuning
                || stage is Sending || stage is Measuring || stage is Steering,
        ensures
            final(self).wf(),
            final(self).keeps(*old(self)),
            out.meets(
                final(self)@,
                Model { stage: stage@, ..old(self)@ }.step::<C>(Event::Wrote(result_view(wrote))),
            ),
    {
        match stage {
            Stage::Answering { asked, decision } => self.answer(asked, decision, wrote),
            Stage::AnsweringUserInput { asked, answers } => self.answer_user_input(asked, answers, wrote),
            Stage::Interrupting { turn_id, request_id } => self.interrupted(turn_id, request_id, wrote),
            Stage::Retuning { request_id, asked, follows, prompt } => self.retuned(
                request_id,
                asked,
                follows,
                prompt,
                wrote,
            ),
            Stage::Sending { turn_id } => self.sent(turn_id, wrote),
            Stage::Measuring => self.record(Vec::new()),
            _ => self.steered(wrote),
        }
    }

    /// The conversation has said which turn it describes.
    fn active<C>(&mut self, stage: Stage<String>, active: Option<String>) -> (out: Step<C>)
        requires
            old(self).wf(),
            old(self).driving.has_ids(),
            old(self)@.stage is Over,
            stage is OpenSettling || stage is Settling,
        ensures
            final(self).wf(),
            final(self).keeps(*old(self)),
            out.meets(
                final(self)@,
                Model { stage: stage@, ..old(self)@ }.step::<C>(Event::Active(text::maybe(active))),
            ),
    {
        match stage {
            Stage::OpenSettling { settles } => {
                let effects = self.settle(settles, active);
                self.around(effects)
            },
            Stage::Settling { settles, reverts } => {
                let effects = self.settle(settles, active);
                self.follow(effects, reverts)
            },
            _ => Step { effects: Vec::new(), wait: Wait::Over },
        }
    }

    /// The working tree has been recorded.
    fn recorded<C>(&mut self, stage: Stage<String>) -> (out: Step<C>)
        requires
            old(self).wf(),
            old(self)@.stage is Over,
            stage is Baselining || stage is Checkpointing || stage is Closing,
        ensures
            final(self).wf(),
            final(self).keeps(*old(self)),
            out.meets(final(self)@, Model { stage: stage@, ..old(self)@ }.step::<C>(Event::Recorded)),
    {
        match stage {
            Stage::Baselining { prompt } => {
                self.stage = Stage::Sending { turn_id: prompt.turn_id };
                Step { effects: Vec::new(), wait: Wait::Send { text: prompt.text } }
            },
            Stage::Checkpointing => self.around(Vec::new()),
            _ => Step { effects: Vec::new(), wait: Wait::Over },
        }
    }

    /// The wait of the loop is over.
    fn selected<C>(&mut self, event: Event<String, Vec<C>>) -> (out: Step<C>)
        requires
            old(self).wf(),
            old(self).driving.has_ids(),
            old(self)@.stage is Over,
            event is Said || event is Signalled || event is Prompted,
        ensures
            final(self).wf(),
            final(self).keeps(*old(self)),
            out.meets(final(self)@, Model { stage: Stage::Selecting, ..old(self)@ }.step::<C>(event@)),
    {
        match event {
            Event::Said(Some(decided)) => self.said(decided),
            Event::Signalled(Some(signal)) => self.signal(signal),
            Event::Signalled(None) => {
                self.listening = false;
                self.around(Vec::new())
            },
            Event::Prompted(prompt) => self.prompted(prompt),
            _ => self.finish(),
        }
    }

    /// Takes what the world answered, and says what is owed and what to wait for
    /// next.
    pub fn step<C>(&mut self, event: Event<String, Vec<C>>) -> (out: Step<C>)
        requires
            old(self).wf(),
            old(self).driving.has_ids(),
            old(self)@.expects(event@),
        ensures
            final(self).wf(),
            final(self).keeps(*old(self)),
            out.meets(final(self)@, old(self)@.step(event@)),
    {
        let mut stage = Stage::Over;
        std::mem::swap(&mut stage, &mut self.stage);
        let ghost before = old(self)@;
        proof {
            assert(self@ =~~= (Model { stage: Stage::Over, ..before }));
            assert((Model { stage: stage@, ..self@ }) =~~= before);
        }
        match event {
            Event::Opened(opened) => {
                proof {
                    match &opened {
                        Ok(decided) => model::opened_from_anywhere::<C>(before, Stage::Over, Ok(decided@)),
                        Err(why) => model::opened_from_anywhere::<C>(before, Stage::Over, Err(why@)),
                    }
                }
                self.opened(opened)
            },
            Event::Active(active) => self.active(stage, active),
            Event::Polled(Some(signal)) => {
                proof {
                    model::signalled_from_anywhere::<C>(before, Stage::Over, signal@);
                }
                self.signal(signal)
            },
            Event::Polled(None) => {
                proof {
                    model::idle_from_anywhere::<C>(before, Stage::Over);
                }
                self.idle()
            },
            Event::Wrote(wrote) => self.wrote(stage, wrote),
            Event::Recorded => self.recorded(stage),
            Event::Reaped { refused, death } => {
                proof {
                    model::reaped_from_anywhere::<C>(before, Stage::Over, text::maybe(refused), text::maybe(death));
                }
                self.reaped(refused, death)
            },
            Event::Detached(ours) => match stage {
                Stage::Detaching { refused, death } => {
                    proof {
                        model::detached_from_anywhere::<C>(
                            before,
                            Stage::Over,
                            text::maybe(refused),
                            text::maybe(death),
                            ours,
                        );
                    }
                    self.detached(refused, death, ours)
                },
                _ => Step { effects: Vec::new(), wait: Wait::Over },
            },
            event => self.selected(event),
        }
    }
}

// ---------------------------------------------------------------------------
// Checkpoints
// ---------------------------------------------------------------------------

/// What came of recording the working tree.
#[derive(Debug, PartialEq, Eq)]
pub enum Taken {
    Recorded,
    /// There is nowhere to keep a checkpoint, and nobody did anything wrong.
    NotARepository,
    Refused { detail: String },
    /// The server is shutting down, and nobody is reading.
    Gone,
}

/// What a conversation is told of a turn that was recorded, or was not.
#[derive(Debug, PartialEq, Eq)]
pub enum CheckpointRow {
    Checkpointed { turn_id: String, turn_count: u64, status: String },
    Failed(Activity<String>),
    Nothing,
}

/// The row that offers a turn for review. `previous` counts the checkpoints the
/// conversation already has. A project that is not a repository is no failure.
pub fn checkpoint(previous: u64, finished: Finished<String>, taken: Taken) -> (out: CheckpointRow)
    requires
        previous < u64::MAX,
    ensures
        match taken {
            Taken::Recorded => out == (CheckpointRow::Checkpointed {
                turn_id: finished.turn_id,
                turn_count: (previous + 1) as u64,
                status: finished.status,
            }),
            Taken::Refused { detail } => out matches CheckpointRow::Failed(activity) && activity@ == (Activity::Failed {
                kind: "checkpoint.failed"@,
                summary:
                    "The state of the project after this turn could not be recorded, so the turn has no diff to review: "@
                    + detail@,
            }),
            _ => out == CheckpointRow::Nothing,
        },
{
    match taken {
        Taken::Recorded => CheckpointRow::Checkpointed {
            turn_id: finished.turn_id,
            turn_count: previous + 1,
            status: finished.status,
        },
        Taken::Refused { detail } => CheckpointRow::Failed(
            Activity::Failed {
                kind: "checkpoint.failed".to_owned(),
                summary: text::glue(
                    "The state of the project after this turn could not be recorded, so the turn has no diff to review: ",
                    &detail,
                ),
            },
        ),
        _ => CheckpointRow::Nothing,
    }
}

} // verus!
