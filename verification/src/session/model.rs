//! What a session's steps are made of, and what each of them means.
//!
//! The data of a step is generic in its string type: `String` at run time,
//! `Seq<char>` in the contracts.

use crate::keyed;
use crate::keyed::Keyed;
use crate::provider::{ProviderIdentity, ResumeCursor};
use crate::settling::SessionStatus;
use crate::text;
use vstd::prelude::*;

verus! {

/// Text as the contracts see it.
pub type Text = Seq<char>;

// ---------------------------------------------------------------------------
// What a step is made of
// ---------------------------------------------------------------------------

/// What a turn wants the agent to be running under.
#[derive(Debug, PartialEq, Eq)]
pub struct Retune<S> {
    pub runtime_mode: S,
    pub model: Option<S>,
}

/// One turn on its way to the agent.
#[derive(Debug, PartialEq, Eq)]
pub struct Prompt<S> {
    pub turn_id: S,
    pub text: S,
    pub wanted: Retune<S>,
}

/// Something the agent has stopped for. `body` is the driver's own correlation
/// data, carried through unread.
#[derive(Debug, PartialEq, Eq)]
pub struct ApprovalRequest<S> {
    pub request_id: S,
    /// Whether it is a question the composer draws rather than an approval.
    pub question: bool,
    pub body: S,
}

/// What the developer decided about an approval.
#[derive(Debug, PartialEq, Eq)]
pub enum Decision<S> {
    /// A denial that also stops the turn.
    Cancel,
    /// Every other decision, by its word.
    Other(S),
}

/// What the developer said back to something the agent stopped for.
#[derive(Debug, PartialEq, Eq)]
pub enum Reply<S> {
    Decided(Decision<S>),
    /// What the developer typed into a question, carried unread.
    Answers(S),
}

/// A signal from the developer.
#[derive(Debug, PartialEq, Eq)]
pub enum Signal<S> {
    Answer { request_id: S, decision: Decision<S> },
    AnswerUserInput { request_id: S, answers: S },
    /// Stop the turn named, or whatever is running.
    Interrupt { turn_id: Option<S> },
    /// End the session.
    Stop,
}

/// One thing a running child was asked to become, and what it was before.
#[derive(Debug, PartialEq, Eq)]
pub enum Pushed<S> {
    Mode { previous: S, asked: S },
    Model { previous: Option<S>, asked: S },
}

/// The end of a turn, as whatever ended it reports it.
#[derive(Debug, PartialEq, Eq)]
pub struct Settles<S> {
    /// The turn that ended, and the one the session must still be describing for
    /// the ending to be published. `None` is an ending with no turn in flight.
    pub turn_id: Option<S>,
    pub status: SessionStatus,
    pub last_error: Option<S>,
}

/// What one thing the agent said turned out to mean for the conversation. `L`
/// lists the driver's own changes, in the order they were decided.
#[derive(Debug, PartialEq, Eq)]
pub struct Decided<S, L> {
    pub changes: L,
    pub provider_resume_cursor: Option<ResumeCursor<S>>,
    pub settles: Option<Settles<S>>,
    pub reverts: Option<Pushed<S>>,
}

/// A turn that ended in a way a checkpoint can describe.
#[derive(Debug, PartialEq, Eq)]
pub struct Finished<S> {
    pub turn_id: S,
    pub status: S,
}

/// A row of the work log.
#[derive(Debug, PartialEq, Eq)]
pub enum Activity<S> {
    Failed { kind: S, summary: S },
    /// The approval answered is not one this session is waiting on.
    Unanswerable { request_id: S },
    /// The question answered is not one this session is waiting on.
    UnanswerableUserInput { request_id: S },
    Resolved { asked: ApprovalRequest<S>, decision: Decision<S>, turn_id: Option<S> },
    UserInputResolved { request_id: S, answers: S, turn_id: Option<S> },
    Stopped { kind: S, summary: S, request_id: S, turn_id: S, detail: S },
}

/// What a session says about itself. The moment it was said is stamped where it
/// is applied.
#[derive(Debug, PartialEq, Eq)]
pub struct Session<S> {
    pub status: SessionStatus,
    pub runtime_mode: S,
    pub active_turn_id: Option<S>,
    pub last_error: Option<S>,
}

/// A change to the conversation.
#[derive(Debug, PartialEq, Eq)]
pub enum Change<S> {
    /// With no text, the accumulation that streamed stands.
    AssistantMessage { message_id: S, turn_id: S, text: S },
    Activity(Activity<S>),
    Session(Session<S>),
    InterruptRequested { turn_id: S },
}

/// What a step owes the world, to be done at once and in order.
#[derive(Debug, PartialEq, Eq)]
pub enum Effect<S, C> {
    Apply(Change<S>),
    /// A change the driver decided, as it decided it.
    Relay(C),
    Remember(ResumeCursor<S>),
    /// Tell the agent there will be no more turns.
    CloseInput,
}

/// What to wait for next, and the event that answers it.
#[derive(Debug, PartialEq, Eq)]
pub enum Wait<S> {
    /// Start the agent: [`Event::Opened`].
    Open,
    /// A signal that is already there, without waiting: [`Event::Polled`].
    Poll,
    /// The next thing from the agent, a signal where `signals`, a prompt where
    /// `prompts`: [`Event::Said`], [`Event::Signalled`] or [`Event::Prompted`].
    Select { signals: bool, prompts: bool },
    /// Write the reply to the agent: [`Event::Wrote`].
    Answer { asked: ApprovalRequest<S>, reply: Reply<S> },
    /// Ask the agent to stop its turn: [`Event::Wrote`].
    Interrupt { request_id: S },
    /// Move the agent onto a mode or model: [`Event::Wrote`].
    Retune { request_id: S, asked: Pushed<S> },
    /// Ask how full the context window is: [`Event::Wrote`].
    Measure { request_id: S },
    /// Record the working tree before a turn: [`Event::Recorded`].
    Baseline,
    /// Record the working tree after a turn: [`Event::Recorded`].
    Checkpoint(Finished<S>),
    /// Give the agent a prompt: [`Event::Wrote`].
    Send { text: S },
    /// Ask which turn the session describes: [`Event::Active`].
    ActiveTurn,
    /// Reap the agent: [`Event::Reaped`].
    Stop { asked_to_stop: bool },
    /// Give up the session's slot: [`Event::Detached`].
    Detach { epoch: u64 },
    /// Nothing: the session is over.
    Over,
}

/// What the world answered.
#[derive(Debug, PartialEq, Eq)]
pub enum Event<S, L> {
    /// The agent started, or the sentence that says why not.
    Opened(Result<Decided<S, L>, S>),
    Polled(Option<Signal<S>>),
    /// `None` once the agent has stopped producing.
    Said(Option<Decided<S, L>>),
    /// `None` once the channel has closed.
    Signalled(Option<Signal<S>>),
    /// `None` once the channel has closed.
    Prompted(Option<Prompt<S>>),
    /// A write to the agent, and what went wrong with it.
    Wrote(Result<(), S>),
    Recorded,
    Active(Option<S>),
    Reaped { refused: Option<S>, death: Option<S> },
    /// Whether the conversation was still this session's to describe.
    Detached(bool),
}

// ---------------------------------------------------------------------------
// Views
// ---------------------------------------------------------------------------

impl View for Retune<String> {
    type V = Retune<Text>;

    open spec fn view(&self) -> Retune<Text> {
        Retune { runtime_mode: self.runtime_mode@, model: text::maybe(self.model) }
    }
}

impl View for Prompt<String> {
    type V = Prompt<Text>;

    open spec fn view(&self) -> Prompt<Text> {
        Prompt { turn_id: self.turn_id@, text: self.text@, wanted: self.wanted@ }
    }
}

impl View for ApprovalRequest<String> {
    type V = ApprovalRequest<Text>;

    open spec fn view(&self) -> ApprovalRequest<Text> {
        ApprovalRequest { request_id: self.request_id@, question: self.question, body: self.body@ }
    }
}

impl View for Decision<String> {
    type V = Decision<Text>;

    open spec fn view(&self) -> Decision<Text> {
        match *self {
            Decision::Cancel => Decision::Cancel,
            Decision::Other(word) => Decision::Other(word@),
        }
    }
}

impl View for Reply<String> {
    type V = Reply<Text>;

    open spec fn view(&self) -> Reply<Text> {
        match *self {
            Reply::Decided(decision) => Reply::Decided(decision@),
            Reply::Answers(answers) => Reply::Answers(answers@),
        }
    }
}

impl View for Signal<String> {
    type V = Signal<Text>;

    open spec fn view(&self) -> Signal<Text> {
        match *self {
            Signal::Answer { request_id, decision } => Signal::Answer {
                request_id: request_id@,
                decision: decision@,
            },
            Signal::AnswerUserInput { request_id, answers } => Signal::AnswerUserInput {
                request_id: request_id@,
                answers: answers@,
            },
            Signal::Interrupt { turn_id } => Signal::Interrupt { turn_id: text::maybe(turn_id) },
            Signal::Stop => Signal::Stop,
        }
    }
}

impl View for Pushed<String> {
    type V = Pushed<Text>;

    open spec fn view(&self) -> Pushed<Text> {
        match *self {
            Pushed::Mode { previous, asked } => Pushed::Mode { previous: previous@, asked: asked@ },
            Pushed::Model { previous, asked } => Pushed::Model {
                previous: text::maybe(previous),
                asked: asked@,
            },
        }
    }
}

impl View for Settles<String> {
    type V = Settles<Text>;

    open spec fn view(&self) -> Settles<Text> {
        Settles {
            turn_id: text::maybe(self.turn_id),
            status: self.status,
            last_error: text::maybe(self.last_error),
        }
    }
}

impl<C> View for Decided<String, Vec<C>> {
    type V = Decided<Text, Seq<C>>;

    open spec fn view(&self) -> Decided<Text, Seq<C>> {
        Decided {
            changes: self.changes@,
            provider_resume_cursor: match self.provider_resume_cursor {
                Some(cursor) => Some(cursor@),
                None => None,
            },
            settles: match self.settles {
                Some(settles) => Some(settles@),
                None => None,
            },
            reverts: pushed_view(self.reverts),
        }
    }
}

/// The view of a push that may be missing.
pub open spec fn pushed_view(pushed: Option<Pushed<String>>) -> Option<Pushed<Text>> {
    match pushed {
        Some(pushed) => Some(pushed@),
        None => None,
    }
}

impl View for Finished<String> {
    type V = Finished<Text>;

    open spec fn view(&self) -> Finished<Text> {
        Finished { turn_id: self.turn_id@, status: self.status@ }
    }
}

impl View for Activity<String> {
    type V = Activity<Text>;

    open spec fn view(&self) -> Activity<Text> {
        match *self {
            Activity::Failed { kind, summary } => Activity::Failed { kind: kind@, summary: summary@ },
            Activity::Unanswerable { request_id } => Activity::Unanswerable { request_id: request_id@ },
            Activity::UnanswerableUserInput { request_id } => Activity::UnanswerableUserInput {
                request_id: request_id@,
            },
            Activity::Resolved { asked, decision, turn_id } => Activity::Resolved {
                asked: asked@,
                decision: decision@,
                turn_id: text::maybe(turn_id),
            },
            Activity::UserInputResolved { request_id, answers, turn_id } => Activity::UserInputResolved {
                request_id: request_id@,
                answers: answers@,
                turn_id: text::maybe(turn_id),
            },
            Activity::Stopped { kind, summary, request_id, turn_id, detail } => Activity::Stopped {
                kind: kind@,
                summary: summary@,
                request_id: request_id@,
                turn_id: turn_id@,
                detail: detail@,
            },
        }
    }
}

impl View for Session<String> {
    type V = Session<Text>;

    open spec fn view(&self) -> Session<Text> {
        Session {
            status: self.status,
            runtime_mode: self.runtime_mode@,
            active_turn_id: text::maybe(self.active_turn_id),
            last_error: text::maybe(self.last_error),
        }
    }
}

impl View for Change<String> {
    type V = Change<Text>;

    open spec fn view(&self) -> Change<Text> {
        match *self {
            Change::AssistantMessage { message_id, turn_id, text } => Change::AssistantMessage {
                message_id: message_id@,
                turn_id: turn_id@,
                text: text@,
            },
            Change::Activity(activity) => Change::Activity(activity@),
            Change::Session(session) => Change::Session(session@),
            Change::InterruptRequested { turn_id } => Change::InterruptRequested { turn_id: turn_id@ },
        }
    }
}

impl<C> View for Effect<String, C> {
    type V = Effect<Text, C>;

    open spec fn view(&self) -> Effect<Text, C> {
        match *self {
            Effect::Apply(change) => Effect::Apply(change@),
            Effect::Relay(change) => Effect::Relay(change),
            Effect::Remember(cursor) => Effect::Remember(cursor@),
            Effect::CloseInput => Effect::CloseInput,
        }
    }
}

impl View for Wait<String> {
    type V = Wait<Text>;

    open spec fn view(&self) -> Wait<Text> {
        match *self {
            Wait::Open => Wait::Open,
            Wait::Poll => Wait::Poll,
            Wait::Select { signals, prompts } => Wait::Select { signals, prompts },
            Wait::Answer { asked, reply } => Wait::Answer { asked: asked@, reply: reply@ },
            Wait::Interrupt { request_id } => Wait::Interrupt { request_id: request_id@ },
            Wait::Retune { request_id, asked } => Wait::Retune { request_id: request_id@, asked: asked@ },
            Wait::Measure { request_id } => Wait::Measure { request_id: request_id@ },
            Wait::Baseline => Wait::Baseline,
            Wait::Checkpoint(finished) => Wait::Checkpoint(finished@),
            Wait::Send { text } => Wait::Send { text: text@ },
            Wait::ActiveTurn => Wait::ActiveTurn,
            Wait::Stop { asked_to_stop } => Wait::Stop { asked_to_stop },
            Wait::Detach { epoch } => Wait::Detach { epoch },
            Wait::Over => Wait::Over,
        }
    }
}

impl<C> View for Event<String, Vec<C>> {
    type V = Event<Text, Seq<C>>;

    open spec fn view(&self) -> Event<Text, Seq<C>> {
        match *self {
            Event::Opened(Ok(decided)) => Event::Opened(Ok(decided@)),
            Event::Opened(Err(why)) => Event::Opened(Err(why@)),
            Event::Polled(Some(signal)) => Event::Polled(Some(signal@)),
            Event::Polled(None) => Event::Polled(None),
            Event::Said(Some(decided)) => Event::Said(Some(decided@)),
            Event::Said(None) => Event::Said(None),
            Event::Signalled(Some(signal)) => Event::Signalled(Some(signal@)),
            Event::Signalled(None) => Event::Signalled(None),
            Event::Prompted(Some(prompt)) => Event::Prompted(Some(prompt@)),
            Event::Prompted(None) => Event::Prompted(None),
            Event::Wrote(Ok(())) => Event::Wrote(Ok(())),
            Event::Wrote(Err(error)) => Event::Wrote(Err(error@)),
            Event::Recorded => Event::Recorded,
            Event::Active(turn_id) => Event::Active(text::maybe(turn_id)),
            Event::Reaped { refused, death } => Event::Reaped {
                refused: text::maybe(refused),
                death: text::maybe(death),
            },
            Event::Detached(ours) => Event::Detached(ours),
        }
    }
}

// ---------------------------------------------------------------------------
// The state
// ---------------------------------------------------------------------------

/// The turn the agent is currently working on. `T` holds the tool calls that
/// were announced and not yet answered, by the id the agent minted.
#[verifier::ext_equal]
#[derive(Debug)]
pub struct InFlight<S, T> {
    pub turn_id: S,
    /// Minted at the first piece of assistant text and cleared when that message
    /// completes.
    pub assistant_message_id: Option<S>,
    pub tools: T,
    /// The id of the request that stopped this turn, once something has.
    pub stopped: Option<S>,
}

/// Where the machine is, which is what it is waiting for.
#[derive(Debug, PartialEq, Eq)]
pub enum Stage<S> {
    Opening,
    /// What the start decided ended a turn.
    OpenSettling { settles: Settles<S> },
    Polling,
    Selecting,
    Answering { asked: ApprovalRequest<S>, decision: Decision<S> },
    AnsweringUserInput { asked: ApprovalRequest<S>, answers: S },
    Interrupting { turn_id: S, request_id: S },
    /// A push has been written; `follows` is the one after it.
    Retuning { request_id: S, asked: Pushed<S>, follows: Option<Pushed<S>>, prompt: Prompt<S> },
    Baselining { prompt: Prompt<S> },
    Sending { turn_id: S },
    /// What the agent said ended a turn.
    Settling { settles: Settles<S>, reverts: Option<Pushed<S>> },
    Measuring,
    Checkpointing,
    Steering,
    Stopping,
    Detaching { refused: Option<S>, death: Option<S> },
    /// The agent could not be started, and the slot is given up.
    Abandoning,
    /// The last checkpoint of a turn the agent died in.
    Closing,
    Over,
}

impl View for Stage<String> {
    type V = Stage<Text>;

    open spec fn view(&self) -> Stage<Text> {
        match *self {
            Stage::Opening => Stage::Opening,
            Stage::OpenSettling { settles } => Stage::OpenSettling { settles: settles@ },
            Stage::Polling => Stage::Polling,
            Stage::Selecting => Stage::Selecting,
            Stage::Answering { asked, decision } => Stage::Answering { asked: asked@, decision: decision@ },
            Stage::AnsweringUserInput { asked, answers } => Stage::AnsweringUserInput {
                asked: asked@,
                answers: answers@,
            },
            Stage::Interrupting { turn_id, request_id } => Stage::Interrupting {
                turn_id: turn_id@,
                request_id: request_id@,
            },
            Stage::Retuning { request_id, asked, follows, prompt } => Stage::Retuning {
                request_id: request_id@,
                asked: asked@,
                follows: pushed_view(follows),
                prompt: prompt@,
            },
            Stage::Baselining { prompt } => Stage::Baselining { prompt: prompt@ },
            Stage::Sending { turn_id } => Stage::Sending { turn_id: turn_id@ },
            Stage::Settling { settles, reverts } => Stage::Settling {
                settles: settles@,
                reverts: pushed_view(reverts),
            },
            Stage::Measuring => Stage::Measuring,
            Stage::Checkpointing => Stage::Checkpointing,
            Stage::Steering => Stage::Steering,
            Stage::Stopping => Stage::Stopping,
            Stage::Detaching { refused, death } => Stage::Detaching {
                refused: text::maybe(refused),
                death: text::maybe(death),
            },
            Stage::Abandoning => Stage::Abandoning,
            Stage::Closing => Stage::Closing,
            Stage::Over => Stage::Over,
        }
    }
}

impl View for InFlight<String, Keyed<String>> {
    type V = InFlight<Text, Map<Text, Text>>;

    open spec fn view(&self) -> InFlight<Text, Map<Text, Text>> {
        InFlight {
            turn_id: self.turn_id@,
            assistant_message_id: text::maybe(self.assistant_message_id),
            tools: Map::new(|id: Text| keyed::has(self.tools@, id), |id: Text| (keyed::find(self.tools@, id)->0)@),
            stopped: text::maybe(self.stopped),
        }
    }
}

/// The whole state of a session, as the contracts see it.
#[verifier::ext_equal]
pub struct Model {
    /// What the child in front of this session is running under.
    pub mode: Text,
    pub model: Option<Text>,
    pub provider: ProviderIdentity<Text>,
    pub steers: bool,
    pub epoch: u64,
    pub turn: Option<InFlight<Text, Map<Text, Text>>>,
    /// The requests the agent has stopped for, in the order of their ids.
    pub outstanding: Seq<(Text, ApprovalRequest<Text>)>,
    pub interrupts: nat,
    pub measurements: nat,
    pub retunes: nat,
    /// Pushes written to the agent and not yet answered.
    pub pushed: Map<Text, Pushed<Text>>,
    pub unmeasured: bool,
    pub finished: Option<Finished<Text>>,
    pub waiting: Option<Prompt<Text>>,
    pub accepting: bool,
    pub listening: bool,
    pub asked_to_stop: bool,
    pub send_failure: Option<Text>,
    pub stage: Stage<Text>,
}

/// A state, what it owes, and what it waits for.
pub type Outcome<C> = (Model, Seq<Effect<Text, C>>, Wait<Text>);

// ---------------------------------------------------------------------------
// What each thing that happens means
// ---------------------------------------------------------------------------

/// The id of the `n`th request of a kind.
pub open spec fn minted(kind: Text, n: nat) -> Text {
    kind + text::decimal(n)
}

/// The row that says something failed.
pub open spec fn failed<C>(kind: Text, summary: Text) -> Effect<Text, C> {
    Effect::Apply(Change::Activity(Activity::Failed { kind, summary }))
}

/// The rows that say the developer stopped a turn: the event that settles it,
/// then the record of it.
pub open spec fn stop_rows<C>(turn_id: Text, request_id: Text) -> Seq<Effect<Text, C>> {
    seq![
        Effect::Apply(Change::InterruptRequested { turn_id }),
        Effect::Apply(
            Change::Activity(
                Activity::Stopped {
                    kind: "turn.interrupted"@,
                    summary: "The developer stopped the turn."@,
                    request_id,
                    turn_id,
                    detail: "The developer stopped the turn. Anything the agent had already said is kept."@,
                },
            ),
        ),
    ]
}

/// The row that closes a request nobody will answer any more.
pub open spec fn abandoned<C>(asked: ApprovalRequest<Text>, turn_id: Option<Text>) -> Effect<Text, C> {
    if asked.question {
        Effect::Apply(Change::Activity(Activity::UnanswerableUserInput { request_id: asked.request_id }))
    } else {
        Effect::Apply(Change::Activity(Activity::Resolved { asked, decision: Decision::Cancel, turn_id }))
    }
}

/// What a driver's decision owes at once: its changes in order, then its
/// continuation where that belongs to this provider.
pub open spec fn spent<C>(
    provider: ProviderIdentity<Text>,
    changes: Seq<C>,
    cursor: Option<ResumeCursor<Text>>,
) -> Seq<Effect<Text, C>> {
    let relayed = Seq::new(changes.len(), |i: int| Effect::Relay(changes[i]));
    match cursor {
        Some(cursor) => if cursor.provider == provider {
            relayed.push(Effect::Remember(cursor))
        } else {
            relayed
        },
        None => relayed,
    }
}

/// What the agent could not be told, when it is no longer reading.
pub open spec fn unreachable_sentence(asked: Pushed<Text>, error: Text) -> Text {
    "The agent could not be told which "@ + asked.kind()
        + " this turn wants, because it is no longer reading: "@ + error
}

impl Pushed<Text> {
    /// Which of the two this is, in the words of the developer's own picker.
    pub open spec fn kind(self) -> Text {
        match self {
            Pushed::Mode { .. } => "runtime mode"@,
            Pushed::Model { .. } => "model"@,
        }
    }

    /// What the developer is told when the agent would not take it.
    pub open spec fn refusal(self, why: Text) -> Text {
        match self {
            Pushed::Mode { asked, previous } => "The agent would not change to the '"@ + asked
                + "' runtime mode and is still running under '"@ + previous + "': "@ + why,
            Pushed::Model { asked, previous: Some(previous) } => "The agent would not change to the '"@ + asked
                + "' model and is still running '"@ + previous + "': "@ + why,
            Pushed::Model { asked, previous: None } => "The agent would not change to the '"@ + asked
                + "' model and is still running the one it started with: "@ + why,
        }
    }
}

impl Model {
    /// The same state at another stage.
    pub open spec fn at(self, stage: Stage<Text>) -> Model {
        Model { stage, ..self }
    }

    /// The turn in flight.
    pub open spec fn turn_id(self) -> Option<Text> {
        match self.turn {
            Some(turn) => Some(turn.turn_id),
            None => None,
        }
    }

    /// What a session in this state says while it works on a turn.
    pub open spec fn running<C>(self, turn_id: Text) -> Effect<Text, C> {
        Effect::Apply(
            Change::Session(
                Session {
                    status: SessionStatus::Running,
                    runtime_mode: self.mode,
                    active_turn_id: Some(turn_id),
                    last_error: None,
                },
            ),
        )
    }

    /// Takes the capture to what the child was asked to become.
    pub open spec fn applied(self, asked: Pushed<Text>) -> Model {
        match asked {
            Pushed::Mode { asked, .. } => Model { mode: asked, ..self },
            Pushed::Model { asked, .. } => Model { model: Some(asked), ..self },
        }
    }

    /// Puts the capture back to what the child is really running under.
    pub open spec fn reverted(self, asked: Pushed<Text>) -> Model {
        match asked {
            Pushed::Mode { previous, .. } => Model { mode: previous, ..self },
            Pushed::Model { previous, .. } => Model { model: previous, ..self },
        }
    }

    /// The top of the loop: look for a signal that is already there.
    pub open spec fn around<C>(self, effects: Seq<Effect<Text, C>>) -> Outcome<C> {
        (Model { stage: Stage::Polling, ..self }, effects, Wait::Poll)
    }

    /// The rows an ending owes before the agent is reaped: the reply that will
    /// never be finished, then every request that will never be answered.
    pub open spec fn ending_rows<C>(self) -> Seq<Effect<Text, C>> {
        let reply: Seq<Effect<Text, C>> = match self.turn {
            Some(InFlight { turn_id, assistant_message_id: Some(message_id), .. }) => seq![
                Effect::Apply(Change::AssistantMessage { message_id, turn_id, text: ""@ }),
            ],
            _ => seq![],
        };
        reply + Seq::new(self.outstanding.len(), |i: int| abandoned(self.outstanding[i].1, self.turn_id()))
    }

    /// Leaves the loop: closes what is open and reaps the agent.
    pub open spec fn finish<C>(self) -> Outcome<C> {
        (
            Model {
                turn: match self.turn {
                    Some(turn) => Some(InFlight { assistant_message_id: None, ..turn }),
                    None => None,
                },
                outstanding: Seq::empty(),
                stage: Stage::Stopping,
                ..self
            },
            self.ending_rows(),
            Wait::Stop { asked_to_stop: self.asked_to_stop },
        )
    }

    /// Whether an interrupt for `wanted` stops anything: a turn is in flight, it
    /// is the one named, and nothing has stopped it yet.
    pub open spec fn interruptible(self, wanted: Option<Text>) -> bool {
        match self.turn {
            Some(turn) => (wanted is None || wanted == Some(turn.turn_id)) && turn.stopped is None,
            None => false,
        }
    }

    /// A signal from the developer.
    pub open spec fn signalled<C>(self, signal: Signal<Text>) -> Outcome<C> {
        match signal {
            Signal::Answer { request_id, decision } => match keyed::find(self.outstanding, request_id) {
                Some(asked) => (
                    Model {
                        outstanding: keyed::without(self.outstanding, request_id),
                        stage: Stage::Answering { asked, decision },
                        ..self
                    },
                    seq![],
                    Wait::Answer { asked, reply: Reply::Decided(decision) },
                ),
                None => self.around(
                    seq![Effect::Apply(Change::Activity(Activity::Unanswerable { request_id }))],
                ),
            },
            Signal::AnswerUserInput { request_id, answers } => match keyed::find(self.outstanding, request_id) {
                Some(asked) => (
                    Model {
                        outstanding: keyed::without(self.outstanding, request_id),
                        stage: Stage::AnsweringUserInput { asked, answers },
                        ..self
                    },
                    seq![],
                    Wait::Answer { asked, reply: Reply::Answers(answers) },
                ),
                None => self.around(
                    seq![Effect::Apply(Change::Activity(Activity::UnanswerableUserInput { request_id }))],
                ),
            },
            Signal::Interrupt { turn_id } => if self.interruptible(turn_id) {
                let request_id = minted("interrupt-"@, self.interrupts + 1);
                (
                    Model {
                        interrupts: self.interrupts + 1,
                        stage: Stage::Interrupting { turn_id: self.turn->0.turn_id, request_id },
                        ..self
                    },
                    seq![],
                    Wait::Interrupt { request_id },
                )
            } else {
                self.around(seq![])
            },
            Signal::Stop => Model { asked_to_stop: true, ..self }.finish(),
        }
    }

    /// The reply to an approval has been written, or could not be.
    pub open spec fn answered<C>(
        self,
        asked: ApprovalRequest<Text>,
        decision: Decision<Text>,
        wrote: Result<(), Text>,
    ) -> Outcome<C> {
        let failure: Seq<Effect<Text, C>> = match wrote {
            Err(error) => seq![
                failed(
                    "session.failed"@,
                    "The decision could not be sent to the agent, which is no longer reading: "@ + error,
                ),
            ],
            Ok(_) => seq![],
        };
        let resolved = Effect::Apply(
            Change::Activity(Activity::Resolved { asked, decision, turn_id: self.turn_id() }),
        );
        if wrote is Ok && decision is Cancel && self.turn is Some && self.turn->0.stopped is None {
            Model {
                turn: Some(InFlight { stopped: Some(asked.request_id), ..self.turn->0 }),
                ..self
            }.around(failure.push(resolved) + stop_rows(self.turn->0.turn_id, asked.request_id))
        } else {
            self.around(failure.push(resolved))
        }
    }

    /// The reply to a question has been written, or could not be.
    pub open spec fn answered_user_input<C>(
        self,
        asked: ApprovalRequest<Text>,
        answers: Text,
        wrote: Result<(), Text>,
    ) -> Outcome<C> {
        let failure: Seq<Effect<Text, C>> = match wrote {
            Err(error) => seq![
                failed(
                    "session.failed"@,
                    "The answers could not be sent to the agent, which is no longer reading: "@ + error,
                ),
            ],
            Ok(_) => seq![],
        };
        self.around(
            failure.push(
                Effect::Apply(
                    Change::Activity(
                        Activity::UserInputResolved {
                            request_id: asked.request_id,
                            answers,
                            turn_id: self.turn_id(),
                        },
                    ),
                ),
            ),
        )
    }

    /// The stop has been written, or could not be. Only a stop that was written
    /// is recorded and said.
    pub open spec fn interrupted<C>(
        self,
        turn_id: Text,
        request_id: Text,
        wrote: Result<(), Text>,
    ) -> Outcome<C> {
        match wrote {
            Err(error) => self.around(
                seq![
                    failed(
                        "turn.interrupt-failed"@,
                        "The agent could not be asked to stop, because it is no longer reading: "@ + error,
                    ),
                ],
            ),
            Ok(_) => match self.turn {
                None => self.around(seq![]),
                Some(turn) => Model {
                    turn: Some(
                        InFlight {
                            stopped: if turn.stopped is None { Some(request_id) } else { turn.stopped },
                            ..turn
                        },
                    ),
                    ..self
                }.around(stop_rows(turn_id, request_id)),
            },
        }
    }

    /// The push of a mode that has moved.
    pub open spec fn mode_push(self, wanted: Retune<Text>) -> Option<Pushed<Text>> {
        if wanted.runtime_mode != self.mode {
            Some(Pushed::Mode { previous: self.mode, asked: wanted.runtime_mode })
        } else {
            None
        }
    }

    /// The push of a model that is named and has moved.
    pub open spec fn model_push(self, wanted: Retune<Text>) -> Option<Pushed<Text>> {
        match wanted.model {
            Some(asked) => if self.model != Some(asked) {
                Some(Pushed::Model { previous: self.model, asked })
            } else {
                None
            },
            None => None,
        }
    }

    /// The turn is announced, and its baseline taken.
    pub open spec fn announce<C>(self, effects: Seq<Effect<Text, C>>, prompt: Prompt<Text>) -> Outcome<C> {
        (
            Model { stage: Stage::Baselining { prompt }, ..self },
            effects.push(self.running(prompt.turn_id)),
            Wait::Baseline,
        )
    }

    /// Writes the next push, or announces the turn where there is none.
    pub open spec fn push_next<C>(
        self,
        effects: Seq<Effect<Text, C>>,
        asked: Option<Pushed<Text>>,
        follows: Option<Pushed<Text>>,
        prompt: Prompt<Text>,
    ) -> Outcome<C> {
        match asked {
            Some(asked) => {
                let request_id = minted("retune-"@, self.retunes + 1);
                (
                    Model {
                        retunes: self.retunes + 1,
                        stage: Stage::Retuning { request_id, asked, follows, prompt },
                        ..self
                    },
                    effects,
                    Wait::Retune { request_id, asked },
                )
            },
            None => self.announce(effects, prompt),
        }
    }

    /// A turn begins: the mode and the model it wants are pushed where they have
    /// moved, the mode first.
    pub open spec fn begin<C>(self, prompt: Prompt<Text>) -> Outcome<C> {
        match (self.mode_push(prompt.wanted), self.model_push(prompt.wanted)) {
            (Some(mode), model) => self.push_next(seq![], Some(mode), model, prompt),
            (None, model) => self.push_next(seq![], model, None, prompt),
        }
    }

    /// A push has been written, or could not be. The capture moves only when the
    /// write did.
    pub open spec fn retuned<C>(
        self,
        request_id: Text,
        asked: Pushed<Text>,
        follows: Option<Pushed<Text>>,
        prompt: Prompt<Text>,
        wrote: Result<(), Text>,
    ) -> Outcome<C> {
        match wrote {
            Ok(_) => Model {
                pushed: self.pushed.insert(request_id, asked),
                ..self.applied(asked)
            }.push_next(seq![], follows, None, prompt),
            Err(error) => self.push_next(
                seq![failed("session.retune-failed"@, unreachable_sentence(asked, error))],
                follows,
                None,
                prompt,
            ),
        }
    }

    /// The turn has been given to the agent, or could not be.
    pub open spec fn sent<C>(self, turn_id: Text, wrote: Result<(), Text>) -> Outcome<C> {
        match wrote {
            Err(error) => Model {
                send_failure: Some("The turn could not be sent to the agent: "@ + error),
                ..self
            }.finish(),
            Ok(_) => Model {
                turn: Some(
                    InFlight { turn_id, assistant_message_id: None, tools: Map::empty(), stopped: None },
                ),
                ..self
            }.around(seq![]),
        }
    }

    /// What spending a driver's decision owes at once.
    pub open spec fn spent<C>(self, decided: Decided<Text, Seq<C>>) -> Seq<Effect<Text, C>> {
        spent(self.provider, decided.changes, decided.provider_resume_cursor)
    }

    /// The ending of a turn, published only while the session still describes it.
    pub open spec fn settled<C>(self, settles: Settles<Text>, active: Option<Text>) -> Seq<Effect<Text, C>> {
        if active == settles.turn_id {
            seq![
                Effect::Apply(
                    Change::Session(
                        Session {
                            status: settles.status,
                            runtime_mode: self.mode,
                            active_turn_id: None,
                            last_error: settles.last_error,
                        },
                    ),
                ),
            ]
        } else {
            seq![]
        }
    }

    /// A turn that ended is recorded before the loop goes round.
    pub open spec fn record<C>(self, effects: Seq<Effect<Text, C>>) -> Outcome<C> {
        match self.finished {
            Some(finished) => (
                Model { finished: None, stage: Stage::Checkpointing, ..self },
                effects,
                Wait::Checkpoint(finished),
            ),
            None => self.around(effects),
        }
    }

    /// What follows a decision that has been spent: the capture goes back where a
    /// push was refused, the window is measured where that was asked for, and a
    /// turn that ended is recorded.
    pub open spec fn follow<C>(self, effects: Seq<Effect<Text, C>>, reverts: Option<Pushed<Text>>) -> Outcome<C> {
        let back = match reverts {
            Some(refused) => self.reverted(refused),
            None => self,
        };
        let said = if reverts is Some && self.turn is Some {
            effects.push(back.running(self.turn->0.turn_id))
        } else {
            effects
        };
        if self.unmeasured {
            let request_id = minted("context-"@, self.measurements + 1);
            (
                Model {
                    unmeasured: false,
                    measurements: self.measurements + 1,
                    stage: Stage::Measuring,
                    ..back
                },
                said,
                Wait::Measure { request_id },
            )
        } else {
            back.record(said)
        }
    }

    /// The agent said something.
    pub open spec fn said<C>(self, decided: Decided<Text, Seq<C>>) -> Outcome<C> {
        match decided.settles {
            Some(settles) => (
                Model { stage: Stage::Settling { settles, reverts: decided.reverts }, ..self },
                self.spent(decided),
                Wait::ActiveTurn,
            ),
            None => self.follow(self.spent(decided), decided.reverts),
        }
    }

    /// The agent started, or could not be.
    pub open spec fn opened<C>(self, opened: Result<Decided<Text, Seq<C>>, Text>) -> Outcome<C> {
        match opened {
            Err(why) => (
                Model { stage: Stage::Abandoning, ..self },
                seq![
                    failed("session.failed"@, why),
                    Effect::Apply(
                        Change::Session(
                            Session {
                                status: SessionStatus::Error,
                                runtime_mode: self.mode,
                                active_turn_id: None,
                                last_error: Some(why),
                            },
                        ),
                    ),
                ],
                Wait::Detach { epoch: self.epoch },
            ),
            Ok(decided) => match decided.settles {
                Some(settles) => (
                    Model { stage: Stage::OpenSettling { settles }, ..self },
                    self.spent(decided),
                    Wait::ActiveTurn,
                ),
                None => self.around(self.spent(decided)),
            },
        }
    }

    /// No signal was waiting: the next turn begins, or the loop waits for
    /// whatever comes first.
    pub open spec fn idle<C>(self) -> Outcome<C> {
        if self.accepting && self.turn is None && self.waiting is Some {
            Model { waiting: None, ..self }.begin(self.waiting->0)
        } else {
            (
                Model { stage: Stage::Selecting, ..self },
                seq![],
                Wait::Select {
                    signals: self.listening,
                    prompts: self.accepting && self.waiting is None,
                },
            )
        }
    }

    /// A prompt arrived, or the channel closed. A driver that steers takes it
    /// into the turn in flight; otherwise it waits for its own turn.
    pub open spec fn prompted<C>(self, prompt: Option<Prompt<Text>>) -> Outcome<C> {
        match prompt {
            Some(prompt) => if self.steers && self.turn is Some {
                (Model { stage: Stage::Steering, ..self }, seq![], Wait::Send { text: prompt.text })
            } else {
                Model { waiting: Some(prompt), ..self }.around(seq![])
            },
            None => Model { accepting: false, ..self }.around(seq![Effect::CloseInput]),
        }
    }

    /// A steer has been given to the agent, or could not be.
    pub open spec fn steered<C>(self, wrote: Result<(), Text>) -> Outcome<C> {
        match wrote {
            Err(error) => self.around(
                seq![failed("turn.steer-failed"@, "The steer could not be sent to the agent: "@ + error)],
            ),
            Ok(_) => self.around(seq![]),
        }
    }

    /// The agent has been reaped. A refusal has put its own row up, so a death
    /// is said only without one.
    pub open spec fn reaped<C>(self, refused: Option<Text>, death: Option<Text>) -> Outcome<C> {
        let unsent: Seq<Effect<Text, C>> = match self.send_failure {
            Some(why) => seq![failed("session.failed"@, why)],
            None => seq![],
        };
        let unresumed: Seq<Effect<Text, C>> = match refused {
            Some(why) => seq![failed("session.resume-failed"@, why)],
            None => seq![],
        };
        let died: Seq<Effect<Text, C>> = match death {
            Some(why) => if refused is None { seq![failed("session.failed"@, why)] } else { seq![] },
            None => seq![],
        };
        (
            Model { stage: Stage::Detaching { refused, death }, ..self },
            unsent + unresumed + died,
            Wait::Detach { epoch: self.epoch },
        )
    }

    /// Why the session failed: a refusal is the cause of a write that failed
    /// after it, and a failed write of a death after that.
    pub open spec fn failure(self, refused: Option<Text>, death: Option<Text>) -> Option<Text> {
        if refused is Some {
            refused
        } else if self.send_failure is Some {
            self.send_failure
        } else {
            death
        }
    }

    /// The slot has been given up. The ending is published only where the
    /// conversation was still this session's, and a turn that was cut short is
    /// recorded only where moreover nobody asked for that.
    pub open spec fn detached<C>(self, refused: Option<Text>, death: Option<Text>, ours: bool) -> Outcome<C> {
        let failure = self.failure(refused, death);
        let ending: Seq<Effect<Text, C>> = if ours {
            seq![
                Effect::Apply(
                    Change::Session(
                        Session {
                            status: if failure is Some { SessionStatus::Error } else { SessionStatus::Stopped },
                            runtime_mode: self.mode,
                            active_turn_id: None,
                            last_error: failure,
                        },
                    ),
                ),
            ]
        } else {
            seq![]
        };
        if self.turn is Some && ours && !self.asked_to_stop {
            (
                Model { turn: None, stage: Stage::Closing, ..self },
                ending,
                Wait::Checkpoint(Finished { turn_id: self.turn->0.turn_id, status: "error"@ }),
            )
        } else {
            (Model { turn: None, stage: Stage::Over, ..self }, ending, Wait::Over)
        }
    }

    /// Whether this is an answer to what the state waits for.
    pub open spec fn expects<C>(self, event: Event<Text, Seq<C>>) -> bool {
        match self.stage {
            Stage::Opening => event is Opened,
            Stage::OpenSettling { .. } => event is Active,
            Stage::Polling => event is Polled,
            Stage::Selecting => event is Said || (event is Signalled && self.listening)
                || (event is Prompted && self.accepting && self.waiting is None),
            Stage::Answering { .. } => event is Wrote,
            Stage::AnsweringUserInput { .. } => event is Wrote,
            Stage::Interrupting { .. } => event is Wrote,
            Stage::Retuning { .. } => event is Wrote,
            Stage::Baselining { .. } => event is Recorded,
            Stage::Sending { .. } => event is Wrote,
            Stage::Settling { .. } => event is Active,
            Stage::Measuring => event is Wrote,
            Stage::Checkpointing => event is Recorded,
            Stage::Steering => event is Wrote,
            Stage::Stopping => event is Reaped,
            Stage::Detaching { .. } => event is Detached,
            Stage::Abandoning => event is Detached,
            Stage::Closing => event is Recorded,
            Stage::Over => false,
        }
    }

    /// What an event means in this state.
    pub open spec fn step<C>(self, event: Event<Text, Seq<C>>) -> Outcome<C> {
        match (self.stage, event) {
            (Stage::Opening, Event::Opened(opened)) => self.opened(opened),
            (Stage::OpenSettling { settles }, Event::Active(active)) => self.around(self.settled(settles, active)),
            (Stage::Polling, Event::Polled(Some(signal))) => self.signalled(signal),
            (Stage::Polling, Event::Polled(None)) => self.idle(),
            (Stage::Selecting, Event::Said(Some(decided))) => self.said(decided),
            (Stage::Selecting, Event::Said(None)) => self.finish(),
            (Stage::Selecting, Event::Signalled(Some(signal))) => self.signalled(signal),
            (Stage::Selecting, Event::Signalled(None)) => Model { listening: false, ..self }.around(seq![]),
            (Stage::Selecting, Event::Prompted(prompt)) => self.prompted(prompt),
            (Stage::Answering { asked, decision }, Event::Wrote(wrote)) => self.answered(asked, decision, wrote),
            (Stage::AnsweringUserInput { asked, answers }, Event::Wrote(wrote)) => self.answered_user_input(
                asked,
                answers,
                wrote,
            ),
            (Stage::Interrupting { turn_id, request_id }, Event::Wrote(wrote)) => self.interrupted(
                turn_id,
                request_id,
                wrote,
            ),
            (Stage::Retuning { request_id, asked, follows, prompt }, Event::Wrote(wrote)) => self.retuned(
                request_id,
                asked,
                follows,
                prompt,
                wrote,
            ),
            (Stage::Baselining { prompt }, Event::Recorded) => (
                Model { stage: Stage::Sending { turn_id: prompt.turn_id }, ..self },
                seq![],
                Wait::Send { text: prompt.text },
            ),
            (Stage::Sending { turn_id }, Event::Wrote(wrote)) => self.sent(turn_id, wrote),
            (Stage::Settling { settles, reverts }, Event::Active(active)) => self.follow(
                self.settled(settles, active),
                reverts,
            ),
            (Stage::Measuring, Event::Wrote(_)) => self.record(seq![]),
            (Stage::Checkpointing, Event::Recorded) => self.around(seq![]),
            (Stage::Steering, Event::Wrote(wrote)) => self.steered(wrote),
            (Stage::Stopping, Event::Reaped { refused, death }) => self.reaped(refused, death),
            (Stage::Detaching { refused, death }, Event::Detached(ours)) => self.detached(refused, death, ours),
            (_, _) => (Model { stage: Stage::Over, ..self }, seq![], Wait::Over),
        }
    }
}

// ---------------------------------------------------------------------------
// Where the machine stood is read only to tell what an event answers
// ---------------------------------------------------------------------------

pub(crate) proof fn opened_from_anywhere<C>(m: Model, stage: Stage<Text>, opened: Result<Decided<Text, Seq<C>>, Text>)
    ensures
        m.at(stage).opened(opened) == m.opened(opened),
{
}

pub(crate) proof fn finish_from_anywhere<C>(m: Model, stage: Stage<Text>)
    ensures
        m.at(stage).finish::<C>() == m.finish::<C>(),
{
    assert(m.at(stage).ending_rows::<C>() =~= m.ending_rows::<C>());
}

pub(crate) proof fn signalled_from_anywhere<C>(m: Model, stage: Stage<Text>, signal: Signal<Text>)
    ensures
        m.at(stage).signalled::<C>(signal) == m.signalled::<C>(signal),
{
    finish_from_anywhere::<C>(Model { asked_to_stop: true, ..m }, stage);
}

pub(crate) proof fn idle_from_anywhere<C>(m: Model, stage: Stage<Text>)
    ensures
        m.at(stage).idle::<C>() == m.idle::<C>(),
{
}

pub(crate) proof fn reaped_from_anywhere<C>(m: Model, stage: Stage<Text>, refused: Option<Text>, death: Option<Text>)
    ensures
        m.at(stage).reaped::<C>(refused, death) == m.reaped::<C>(refused, death),
{
}

pub(crate) proof fn detached_from_anywhere<C>(
    m: Model,
    stage: Stage<Text>,
    refused: Option<Text>,
    death: Option<Text>,
    ours: bool,
)
    ensures
        m.at(stage).detached::<C>(refused, death, ours) == m.detached::<C>(refused, death, ours),
{
}

} // verus!
