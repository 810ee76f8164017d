//! What a session does for its developer, told by what happened to it and what it
//! then owes.

use crate::config::{ClaudeSettings, CodexSettings, OpenCodeSettings};
use crate::keyed;
use crate::provider::DriverKind;
use crate::session;
use crate::session::model::{
    Activity, ApprovalRequest, Change, Decided, Decision, Effect, Event, Finished, InFlight, Model, Prompt, Pushed, Reply,
    Session, Settles, Signal, Stage, Text, Wait,
};
use crate::settling::{SessionStatus, TurnState};
use crate::text;
use vstd::prelude::*;

verus! {

// ---------------------------------------------------------------------------
// Endings
// ---------------------------------------------------------------------------

/// The end of a turn is published as its driver reported it: with that status and
/// that error, for a session that describes no turn any more.
pub proof fn an_ending_is_published_as_it_was_reported<C>(m: Model, settles: Settles<Text>, active: Option<Text>)
    requires
        m.stage matches Stage::Settling { settles: held, .. } && held == settles || m.stage == (Stage::OpenSettling {
            settles,
        }),
    ensures
        active == settles.turn_id ==> {
            let said = m.step::<C>(Event::Active(active)).1;
            &&& said.len() > 0
            &&& said[0] matches Effect::Apply(Change::Session(session)) && {
                &&& session.status == settles.status
                &&& session.last_error == settles.last_error
                &&& session.active_turn_id is None
                &&& session.runtime_mode == m.mode
            }
        },
        active != settles.turn_id ==> {
            let said = m.step::<C>(Event::Active(active)).1;
            forall|i: int|
                0 <= i < said.len() ==> ((#[trigger] said[i]) matches Effect::Apply(Change::Session(session))
                    ==> session.status is Running)
        },
{
}

/// From the report to the row: whatever else a driver's decision carries, the turn
/// it ends settles by the status that it reported.
pub proof fn a_reported_ending_reaches_the_conversation<C>(m: Model, decided: Decided<Text, Seq<C>>)
    requires
        m.stage is Selecting || m.stage is Opening,
        decided.settles is Some,
    ensures
        ({
            let reported = decided.settles->0;
            let heard = if m.stage is Opening {
                m.step(Event::Opened(Ok(decided)))
            } else {
                m.step(Event::Said(Some(decided)))
            };
            let told = heard.0.step::<C>(Event::Active(reported.turn_id));
            &&& heard.2 is ActiveTurn
            &&& heard.0.turn == m.turn
            &&& told.1[0] matches Effect::Apply(Change::Session(session)) && {
                &&& session.status == reported.status
                &&& session.last_error == reported.last_error
                &&& reported.status is Error ==> session.status.settlement() == Some(TurnState::Error)
                &&& reported.status is Interrupted ==> session.status.settlement() == Some(TurnState::Interrupted)
                &&& reported.status is Ready ==> session.status.settlement() == Some(TurnState::Completed)
            }
        }),
{
}

/// A turn that ended is recorded with the status it ended with, once, before the
/// loop goes round.
pub proof fn a_turn_that_ended_is_recorded_once<C>(m: Model, finished: Finished<Text>, wrote: Result<(), Text>)
    requires
        m.finished == Some(finished),
    ensures
        ({
            let recording = m.at(Stage::Measuring).step::<C>(Event::Wrote(wrote));
            let after = recording.0.step::<C>(Event::Recorded);
            &&& recording.2 == (Wait::Checkpoint(finished))
            &&& recording.1.len() == 0
            &&& recording.0.finished is None
            &&& after.2 is Poll
            &&& after.1.len() == 0
            &&& after.0 == (Model { finished: None, stage: Stage::Polling, ..m })
        }),
{
}

/// What the agent says is relayed as its driver decided it, and where nothing else
/// is asked for, the loop goes round with the session as it was.
pub proof fn what_the_agent_says_is_relayed<C>(m: Model, decided: Decided<Text, Seq<C>>)
    requires
        m.stage is Selecting,
    ensures
        ({
            let (n, said, wait) = m.step(Event::Said(Some(decided)));
            let told = decided.changes.len();
            &&& told <= said.len()
            &&& forall|i: int| 0 <= i < told ==> #[trigger] said[i] == Effect::<Text, C>::Relay(decided.changes[i])
            &&& forall|i: int|
                told <= i < said.len() ==> (#[trigger] said[i] matches Effect::Remember(cursor) ==> Some(cursor)
                    == decided.provider_resume_cursor && cursor.provider == m.provider)
            &&& n.outstanding == m.outstanding
            &&& n.turn == m.turn
            &&& n.waiting == m.waiting
            &&& decided.settles is None && decided.reverts is None && !m.unmeasured && m.finished is None ==> {
                &&& wait is Poll
                &&& n == (Model { stage: Stage::Polling, ..m })
            }
            &&& decided.settles is None && !m.unmeasured ==> (m.finished matches Some(finished) ==> wait
                == Wait::Checkpoint(finished))
            &&& decided.settles is None && m.unmeasured ==> {
                &&& wait is Measure
                &&& !n.unmeasured
                &&& n.finished == m.finished
            }
        }),
{
}

/// A push that the agent refused takes the session back to what its child really
/// runs under, and a turn in flight is announced again under that.
pub proof fn a_refused_push_goes_back_to_what_runs<C>(m: Model, decided: Decided<Text, Seq<C>>)
    requires
        m.stage is Selecting,
        decided.settles is None,
        decided.reverts is Some,
    ensures
        ({
            let (n, said, wait) = m.step(Event::Said(Some(decided)));
            &&& decided.reverts matches Some(Pushed::Mode { previous, .. }) ==> n.mode == previous && n.model == m.model
            &&& decided.reverts matches Some(Pushed::Model { previous, .. }) ==> n.model == previous && n.mode == m.mode
            &&& m.turn matches Some(turn) ==> said.len() > 0 && said.last() == Effect::<Text, C>::Apply(
                Change::Session(
                    Session {
                        status: SessionStatus::Running,
                        runtime_mode: n.mode,
                        active_turn_id: Some(turn.turn_id),
                        last_error: None,
                    },
                ),
            )
        }),
{
}

// ---------------------------------------------------------------------------
// Turns
// ---------------------------------------------------------------------------

/// A turn is given to the agent as it was asked for: it is announced as running,
/// its own text is written, and once that was done it is the turn in flight, with
/// nothing said and nothing stopped yet.
pub proof fn a_turn_is_given_as_it_was_asked_for<C>(m: Model, prompt: Prompt<Text>)
    requires
        m.stage is Polling,
        m.accepting,
        m.turn is None,
        m.waiting == Some(prompt),
        prompt.wanted.runtime_mode == m.mode,
        prompt.wanted.model is None || prompt.wanted.model == m.model,
    ensures
        ({
            let announced = m.step::<C>(Event::Polled(None));
            let written = announced.0.step::<C>(Event::Recorded);
            let given = written.0.step::<C>(Event::Wrote(Ok(())));
            &&& announced.1 == seq![
                Effect::<Text, C>::Apply(
                    Change::Session(
                        Session {
                            status: SessionStatus::Running,
                            runtime_mode: m.mode,
                            active_turn_id: Some(prompt.turn_id),
                            last_error: None,
                        },
                    ),
                ),
            ]
            &&& announced.2 is Baseline
            &&& announced.0.waiting is None
            &&& written.1.len() == 0
            &&& written.2 == (Wait::Send { text: prompt.text })
            &&& given.0.turn == Some(
                InFlight {
                    turn_id: prompt.turn_id,
                    assistant_message_id: None,
                    tools: Map::<Text, Text>::empty(),
                    stopped: None,
                },
            )
            &&& given.1.len() == 0
            &&& given.2 is Poll
            &&& given.0.mode == m.mode && given.0.model == m.model
            &&& given.0.outstanding == m.outstanding
        }),
{
}

/// A turn that could not be given to the agent ends the session, which says why.
pub proof fn a_turn_that_was_not_given_ends_the_session<C>(m: Model, turn_id: Text, error: Text, ours: bool)
    requires
        m.stage == (Stage::Sending { turn_id }),
    ensures
        ({
            let failed = m.step::<C>(Event::Wrote(Err(error)));
            let why = "The turn could not be sent to the agent: "@ + error;
            let reaped = failed.0.step::<C>(Event::Reaped { refused: None, death: None });
            let ended = reaped.0.step::<C>(Event::Detached(true));
            &&& failed.2 == (Wait::<Text>::Stop { asked_to_stop: m.asked_to_stop })
            &&& reaped.1 == seq![
                Effect::<Text, C>::Apply(Change::Activity(Activity::Failed { kind: "session.failed"@, summary: why })),
            ]
            &&& reaped.2 == (Wait::<Text>::Detach { epoch: m.epoch })
            &&& ended.1[0] matches Effect::Apply(Change::Session(session)) && session.status is Error
                && session.last_error == Some(why)
        }),
{
}

/// A mode that has moved is pushed before a model that has, each from what the
/// child runs under to what the turn wants; the session believes a push only once
/// it was written, and says so where it was not.
pub proof fn a_turn_moves_its_agent_first<C>(m: Model, prompt: Prompt<Text>, error: Text)
    requires
        m.stage is Polling,
        m.accepting,
        m.turn is None,
        m.waiting == Some(prompt),
    ensures
        ({
            let begun = m.step::<C>(Event::Polled(None));
            let moved = prompt.wanted.runtime_mode != m.mode;
            let switched = prompt.wanted.model is Some && prompt.wanted.model != m.model;
            &&& moved ==> {
                let push = Pushed::Mode { previous: m.mode, asked: prompt.wanted.runtime_mode };
                let done = begun.0.step::<C>(Event::Wrote(Ok(())));
                let failed = begun.0.step::<C>(Event::Wrote(Err(error)));
                &&& begun.1.len() == 0
                &&& begun.2 matches Wait::Retune { request_id, asked } && asked == push && done.0.pushed.contains_pair(
                    request_id,
                    push,
                )
                &&& done.0.mode == prompt.wanted.runtime_mode
                &&& failed.0.mode == m.mode
                &&& failed.0.pushed == m.pushed
                &&& failed.1[0] == Effect::<Text, C>::Apply(
                    Change::Activity(
                        Activity::Failed {
                            kind: "session.retune-failed"@,
                            summary: "The agent could not be told which "@ + "runtime mode"@
                                + " this turn wants, because it is no longer reading: "@ + error,
                        },
                    ),
                )
                &&& switched ==> {
                    &&& done.2 matches Wait::Retune { asked, .. } && asked == (Pushed::Model {
                        previous: m.model,
                        asked: prompt.wanted.model->0,
                    })
                    &&& failed.2 matches Wait::Retune { asked, .. } && asked == (Pushed::Model {
                        previous: m.model,
                        asked: prompt.wanted.model->0,
                    })
                }
                &&& !switched ==> done.2 is Baseline && failed.2 is Baseline
            }
            &&& !moved && switched ==> {
                let push = Pushed::Model { previous: m.model, asked: prompt.wanted.model->0 };
                let done = begun.0.step::<C>(Event::Wrote(Ok(())));
                let failed = begun.0.step::<C>(Event::Wrote(Err(error)));
                &&& begun.1.len() == 0
                &&& begun.2 matches Wait::Retune { request_id, asked } && asked == push && done.0.pushed.contains_pair(
                    request_id,
                    push,
                )
                &&& done.0.model == prompt.wanted.model
                &&& done.2 is Baseline
                &&& failed.0.model == m.model
                &&& failed.0.pushed == m.pushed
                &&& failed.2 is Baseline
                &&& failed.1[0] == Effect::<Text, C>::Apply(
                    Change::Activity(
                        Activity::Failed {
                            kind: "session.retune-failed"@,
                            summary: "The agent could not be told which "@ + "model"@
                                + " this turn wants, because it is no longer reading: "@ + error,
                        },
                    ),
                )
            }
            &&& !moved && !switched ==> begun.2 is Baseline
        }),
{
}

/// What the developer is told of a push that the agent would not take: what was
/// asked for, what is still running, and why.
pub proof fn a_refused_push_names_both(mode: Text, model: Text, asked: Text, why: Text)
    ensures
        (Pushed::Mode { previous: mode, asked }).refusal(why) == "The agent would not change to the '"@ + asked
            + "' runtime mode and is still running under '"@ + mode + "': "@ + why,
        (Pushed::Model { previous: Some(model), asked }).refusal(why) == "The agent would not change to the '"@ + asked
            + "' model and is still running '"@ + model + "': "@ + why,
        (Pushed::Model { previous: None, asked }).refusal(why) == "The agent would not change to the '"@ + asked
            + "' model and is still running the one it started with: "@ + why,
{
}

/// A prompt that comes while a turn runs joins it where the driver steers, and
/// otherwise waits for a turn of its own. Once there will be no more prompts the
/// agent is told so, and none is taken again.
pub proof fn a_prompt_steers_or_waits<C>(m: Model, prompt: Prompt<Text>, error: Text)
    requires
        m.stage is Selecting,
    ensures
        ({
            let (n, said, wait) = m.step::<C>(Event::Prompted(Some(prompt)));
            &&& said.len() == 0
            &&& n.turn == m.turn
            &&& m.steers && m.turn is Some ==> {
                let failed = n.step::<C>(Event::Wrote(Err(error)));
                let done = n.step::<C>(Event::Wrote(Ok(())));
                &&& wait == (Wait::Send { text: prompt.text })
                &&& n.waiting == m.waiting
                &&& done.1.len() == 0 && done.2 is Poll && done.0.turn == m.turn
                &&& failed.1 == seq![
                    Effect::<Text, C>::Apply(
                        Change::Activity(
                            Activity::Failed {
                                kind: "turn.steer-failed"@,
                                summary: "The steer could not be sent to the agent: "@ + error,
                            },
                        ),
                    ),
                ]
                &&& failed.2 is Poll && failed.0.turn == m.turn
            }
            &&& !(m.steers && m.turn is Some) ==> wait is Poll && n.waiting == Some(prompt)
        }),
        ({
            let (n, said, wait) = m.step::<C>(Event::Prompted(None));
            &&& said == seq![Effect::<Text, C>::CloseInput]
            &&& wait is Poll
            &&& n == (Model { accepting: false, stage: Stage::Polling, ..m })
        }),
{
}

/// With nothing to begin, a session listens to its agent, to its developer while
/// there is one, and for a prompt while it has none waiting and more may come.
pub proof fn an_idle_session_listens<C>(m: Model)
    requires
        m.stage is Polling,
        !m.accepting || m.turn is Some || m.waiting is None,
    ensures
        ({
            let (n, said, wait) = m.step::<C>(Event::Polled(None));
            &&& said.len() == 0
            &&& wait matches Wait::Select { signals, prompts } && signals == m.listening && prompts == (m.accepting
                && m.waiting is None)
            &&& n == (Model { stage: Stage::Selecting, ..m })
        }),
        ({
            let (n, said, wait) = m.at(Stage::Selecting).step::<C>(Event::Signalled(None));
            &&& said.len() == 0
            &&& wait is Poll
            &&& n == (Model { listening: false, stage: Stage::Polling, ..m })
        }),
{
}

/// An agent that stopped producing is reaped, and nobody asked for that.
pub proof fn a_silent_agent_is_reaped<C>(m: Model)
    requires
        m.stage is Selecting,
    ensures
        m.step::<C>(Event::Said(None)).2 == (Wait::<Text>::Stop { asked_to_stop: m.asked_to_stop }),
        m.step::<C>(Event::Said(None)).0.outstanding.len() == 0,
        m.step::<C>(Event::Said(None)).0.asked_to_stop == m.asked_to_stop,
{
}

// ---------------------------------------------------------------------------
// Answers
// ---------------------------------------------------------------------------

/// Whichever way a signal comes in, it means the same.
pub proof fn a_signal_is_heard_either_way<C>(m: Model, signal: Signal<Text>)
    ensures
        m.at(Stage::Polling).step::<C>(Event::Polled(Some(signal))) == m.at(Stage::Selecting).step::<C>(
            Event::Signalled(Some(signal)),
        ),
{
    assert(m.at(Stage::Polling).at(Stage::Selecting) == m.at(Stage::Selecting));
    crate::session::model::signalled_from_anywhere::<C>(m.at(Stage::Polling), Stage::Selecting, signal);
}

/// What the developer decides about a request is what the agent is told about that
/// request; every other request stays open.
pub proof fn a_decision_reaches_its_own_request<C>(m: Model, request_id: Text, decision: Decision<Text>, other: Text)
    requires
        m.stage is Polling,
        keyed::ascending(m.outstanding),
        keyed::has(m.outstanding, request_id),
    ensures
        ({
            let (n, said, wait) = m.step::<C>(Event::Polled(Some(Signal::Answer { request_id, decision })));
            &&& said.len() == 0
            &&& wait matches Wait::Answer { asked, reply } && reply == Reply::Decided(decision) && m.outstanding.contains(
                (request_id, asked),
            ) && n.stage == (Stage::Answering { asked, decision })
            &&& keyed::find(n.outstanding, request_id) is None
            &&& other != request_id ==> keyed::find(n.outstanding, other) == keyed::find(m.outstanding, other)
            &&& n.turn == m.turn
        }),
{
    keyed::taken_out(m.outstanding, request_id, request_id);
    keyed::taken_out(m.outstanding, request_id, other);
    let at = keyed::place(m.outstanding, request_id);
    assert(m.outstanding[at] == (request_id, m.outstanding[at].1));
}

/// What the developer answers to a question is what the agent is told about that
/// question; every other request stays open.
pub proof fn an_answer_reaches_its_own_question<C>(m: Model, request_id: Text, answers: Text, other: Text)
    requires
        m.stage is Polling,
        keyed::ascending(m.outstanding),
        keyed::has(m.outstanding, request_id),
    ensures
        ({
            let (n, said, wait) = m.step::<C>(Event::Polled(Some(Signal::AnswerUserInput { request_id, answers })));
            &&& said.len() == 0
            &&& wait matches Wait::Answer { asked, reply } && reply == Reply::Answers(answers) && m.outstanding.contains(
                (request_id, asked),
            ) && n.stage == (Stage::AnsweringUserInput { asked, answers })
            &&& keyed::find(n.outstanding, request_id) is None
            &&& other != request_id ==> keyed::find(n.outstanding, other) == keyed::find(m.outstanding, other)
            &&& n.turn == m.turn
        }),
{
    keyed::taken_out(m.outstanding, request_id, request_id);
    keyed::taken_out(m.outstanding, request_id, other);
    let at = keyed::place(m.outstanding, request_id);
    assert(m.outstanding[at] == (request_id, m.outstanding[at].1));
}

/// An answer to something this session is not waiting on is written to nobody: the
/// conversation is told that it cannot be answered, and nothing else changes.
pub proof fn an_answer_to_nothing_is_told_so<C>(m: Model, request_id: Text, decision: Decision<Text>, answers: Text)
    requires
        m.stage is Polling,
        !keyed::has(m.outstanding, request_id),
    ensures
        m.step::<C>(Event::Polled(Some(Signal::Answer { request_id, decision }))) == (
            m,
            seq![Effect::<Text, C>::Apply(Change::Activity(Activity::Unanswerable { request_id }))],
            Wait::<Text>::Poll,
        ),
        m.step::<C>(Event::Polled(Some(Signal::AnswerUserInput { request_id, answers }))) == (
            m,
            seq![Effect::<Text, C>::Apply(Change::Activity(Activity::UnanswerableUserInput { request_id }))],
            Wait::<Text>::Poll,
        ),
{
}

/// A decision that was written is shown on its own request. A cancellation stops
/// the turn in flight, under that request, where nothing stopped it before; no
/// other decision does.
pub proof fn a_written_decision_is_the_one_shown<C>(m: Model, asked: ApprovalRequest<Text>, decision: Decision<Text>)
    requires
        m.stage == (Stage::Answering { asked, decision }),
    ensures
        ({
            let (n, said, wait) = m.step::<C>(Event::Wrote(Ok(())));
            &&& wait is Poll
            &&& n.outstanding == m.outstanding
            &&& said.len() > 0
            &&& said[0] matches Effect::Apply(Change::Activity(Activity::Resolved { asked: shown, decision: given, turn_id }))
                && shown == asked && given == decision && (turn_id is None <==> m.turn is None) && (m.turn matches Some(
                turn,
            ) ==> turn_id == Some(turn.turn_id))
            &&& if decision is Cancel && m.turn is Some && m.turn->0.stopped is None {
                &&& said.len() == 3
                &&& said[1] == Effect::<Text, C>::Apply(Change::InterruptRequested { turn_id: m.turn->0.turn_id })
                &&& said[2] matches Effect::Apply(Change::Activity(Activity::Stopped { request_id, turn_id, kind, .. }))
                    && request_id == asked.request_id && turn_id == m.turn->0.turn_id && kind == "turn.interrupted"@
                &&& n.turn == Some(InFlight { stopped: Some(asked.request_id), ..m.turn->0 })
            } else {
                said.len() == 1 && n.turn == m.turn
            }
        }),
{
}

/// A reply that could not be written closes its request all the same, says why it
/// did not arrive, and stops no turn.
pub proof fn a_reply_that_was_not_written_stops_nothing<C>(
    m: Model,
    asked: ApprovalRequest<Text>,
    decision: Decision<Text>,
    answers: Text,
    error: Text,
)
    ensures
        ({
            let (n, said, wait) = m.at(Stage::Answering { asked, decision }).step::<C>(Event::Wrote(Err(error)));
            &&& wait is Poll
            &&& n == (Model { stage: Stage::Polling, ..m })
            &&& said.len() == 2
            &&& said[0] == Effect::<Text, C>::Apply(
                Change::Activity(
                    Activity::Failed {
                        kind: "session.failed"@,
                        summary: "The decision could not be sent to the agent, which is no longer reading: "@ + error,
                    },
                ),
            )
            &&& said[1] matches Effect::Apply(Change::Activity(Activity::Resolved { asked: shown, decision: given, .. }))
                && shown == asked && given == decision
        }),
        ({
            let (n, said, wait) = m.at(Stage::AnsweringUserInput { asked, answers }).step::<C>(Event::Wrote(Err(error)));
            &&& wait is Poll
            &&& n == (Model { stage: Stage::Polling, ..m })
            &&& said.len() == 2
            &&& said[0] == Effect::<Text, C>::Apply(
                Change::Activity(
                    Activity::Failed {
                        kind: "session.failed"@,
                        summary: "The answers could not be sent to the agent, which is no longer reading: "@ + error,
                    },
                ),
            )
            &&& said[1] matches Effect::Apply(
                Change::Activity(Activity::UserInputResolved { request_id, answers: given, .. }),
            ) && request_id == asked.request_id && given == answers
        }),
{
}

/// An answered question is shown with its own answers, and the turn goes on.
pub proof fn an_answered_question_shows_its_answers<C>(m: Model, asked: ApprovalRequest<Text>, answers: Text)
    requires
        m.stage == (Stage::AnsweringUserInput { asked, answers }),
    ensures
        ({
            let (n, said, wait) = m.step::<C>(Event::Wrote(Ok(())));
            &&& wait is Poll
            &&& n == (Model { stage: Stage::Polling, ..m })
            &&& said.len() == 1
            &&& said[0] matches Effect::Apply(
                Change::Activity(Activity::UserInputResolved { request_id, answers: given, turn_id }),
            ) && request_id == asked.request_id && given == answers && (turn_id is None <==> m.turn is None) && (
            m.turn matches Some(turn) ==> turn_id == Some(turn.turn_id))
        }),
{
}

// ---------------------------------------------------------------------------
// Stops
// ---------------------------------------------------------------------------

/// A stop of the turn in flight is asked of the agent under an id of its own, and
/// shown for that turn once it was written; where it was not, the turn goes on and
/// the conversation is told why.
pub proof fn a_stop_is_of_the_turn_in_flight<C>(m: Model, wanted: Option<Text>, error: Text)
    requires
        m.stage is Polling,
        m.turn is Some,
        m.turn->0.stopped is None,
        wanted is None || wanted == Some(m.turn->0.turn_id),
    ensures
        ({
            let asked = m.step::<C>(Event::Polled(Some(Signal::Interrupt { turn_id: wanted })));
            let done = asked.0.step::<C>(Event::Wrote(Ok(())));
            let failed = asked.0.step::<C>(Event::Wrote(Err(error)));
            let turn = m.turn->0;
            &&& asked.1.len() == 0
            &&& asked.2 matches Wait::Interrupt { request_id } && {
                &&& done.0.turn == Some(InFlight { stopped: Some(request_id), ..turn })
                &&& done.1.len() == 2
                &&& done.1[0] == Effect::<Text, C>::Apply(Change::InterruptRequested { turn_id: turn.turn_id })
                &&& done.1[1] == Effect::<Text, C>::Apply(
                    Change::Activity(
                        Activity::Stopped {
                            kind: "turn.interrupted"@,
                            summary: "The developer stopped the turn."@,
                            request_id,
                            turn_id: turn.turn_id,
                            detail: "The developer stopped the turn. Anything the agent had already said is kept."@,
                        },
                    ),
                )
            }
            &&& done.2 is Poll
            &&& failed.0.turn == m.turn
            &&& failed.2 is Poll
            &&& failed.1 == seq![
                Effect::<Text, C>::Apply(
                    Change::Activity(
                        Activity::Failed {
                            kind: "turn.interrupt-failed"@,
                            summary: "The agent could not be asked to stop, because it is no longer reading: "@ + error,
                        },
                    ),
                ),
            ]
        }),
{
}

/// A stop of another turn, of one that is stopping already, or of none, is written
/// to nobody and leaves the session as it was.
pub proof fn a_stop_of_another_turn_is_not_written<C>(m: Model, wanted: Option<Text>)
    requires
        m.stage is Polling,
        m.turn is None || m.turn->0.stopped is Some || (wanted is Some && wanted->0 != m.turn->0.turn_id),
    ensures
        m.step::<C>(Event::Polled(Some(Signal::Interrupt { turn_id: wanted }))) == (
            m,
            Seq::<Effect<Text, C>>::empty(),
            Wait::<Text>::Poll,
        ),
{
}

/// A session that is ended closes each request that is open: an approval as
/// cancelled, a question as one that cannot be answered. The reply that streamed
/// stands as far as it came.
pub proof fn an_ending_closes_each_request_by_its_kind<C>(m: Model, i: int)
    requires
        m.stage is Polling,
        0 <= i < m.outstanding.len(),
    ensures
        ({
            let (n, said, wait) = m.step::<C>(Event::Polled(Some(Signal::Stop)));
            let streaming = m.turn is Some && m.turn->0.assistant_message_id is Some;
            let at: int = if streaming { i + 1 } else { i };
            let asked = m.outstanding[i].1;
            &&& wait == (Wait::<Text>::Stop { asked_to_stop: true })
            &&& n.asked_to_stop
            &&& n.outstanding.len() == 0
            &&& said.len() == m.outstanding.len() + (if streaming { 1int } else { 0 })
            &&& asked.question ==> said[at] == Effect::<Text, C>::Apply(
                Change::Activity(Activity::UnanswerableUserInput { request_id: asked.request_id }),
            )
            &&& !asked.question ==> (said[at] matches Effect::Apply(
                Change::Activity(Activity::Resolved { asked: shown, decision, .. }),
            ) && shown == asked && decision is Cancel)
            &&& streaming ==> said[0] == Effect::<Text, C>::Apply(
                Change::AssistantMessage {
                    message_id: m.turn->0.assistant_message_id->0,
                    turn_id: m.turn->0.turn_id,
                    text: Seq::empty(),
                },
            )
        }),
{
    reveal_strlit("");
    assert(""@ =~= Seq::<char>::empty());
}

// ---------------------------------------------------------------------------
// Beginnings and ends
// ---------------------------------------------------------------------------

/// An agent that could not be started is told of twice: in the work log and as the
/// error of the session, and then the slot is given up.
pub proof fn an_agent_that_did_not_start_says_why<C>(m: Model, why: Text, ours: bool)
    requires
        m.stage is Opening,
    ensures
        ({
            let (n, said, wait) = m.step::<C>(Event::Opened(Err(why)));
            &&& said.len() == 2
            &&& said[0] == Effect::<Text, C>::Apply(
                Change::Activity(Activity::Failed { kind: "session.failed"@, summary: why }),
            )
            &&& said[1] matches Effect::Apply(Change::Session(session)) && session.status is Error && session.last_error
                == Some(why) && session.active_turn_id is None && session.runtime_mode == m.mode
            &&& wait == (Wait::<Text>::Detach { epoch: m.epoch })
            &&& n.step::<C>(Event::Detached(ours)).2 is Over
            &&& n.step::<C>(Event::Detached(ours)).1.len() == 0
        }),
{
}

/// An agent that started goes into the loop with what it decided relayed.
pub proof fn an_agent_that_started_goes_into_the_loop<C>(m: Model, decided: Decided<Text, Seq<C>>)
    requires
        m.stage is Opening,
        decided.settles is None,
    ensures
        ({
            let (n, said, wait) = m.step(Event::Opened(Ok(decided)));
            &&& wait is Poll
            &&& n == (Model { stage: Stage::Polling, ..m })
            &&& decided.changes.len() <= said.len() <= decided.changes.len() + 1
            &&& forall|i: int|
                0 <= i < decided.changes.len() ==> #[trigger] said[i] == Effect::<Text, C>::Relay(decided.changes[i])
        }),
{
}

/// What an ending says of a reaped agent: a turn that could not be sent, a resume
/// that was refused, and a death that no refusal explains, in that order.
pub proof fn a_reaped_agent_is_explained<C>(m: Model, refused: Option<Text>, death: Option<Text>)
    requires
        m.stage is Stopping,
    ensures
        ({
            let (n, said, wait) = m.step::<C>(Event::Reaped { refused, death });
            let unsent: int = if m.send_failure is Some { 1 } else { 0 };
            let unresumed: int = if refused is Some { 1 } else { 0 };
            &&& wait == (Wait::<Text>::Detach { epoch: m.epoch })
            &&& said.len() == unsent + unresumed + (if death is Some && refused is None { 1int } else { 0 })
            &&& m.send_failure matches Some(why) ==> said[0] == Effect::<Text, C>::Apply(
                Change::Activity(Activity::Failed { kind: "session.failed"@, summary: why }),
            )
            &&& refused matches Some(why) ==> said[unsent] == Effect::<Text, C>::Apply(
                Change::Activity(Activity::Failed { kind: "session.resume-failed"@, summary: why }),
            )
            &&& refused is None ==> (death matches Some(why) ==> said[unsent] == Effect::<Text, C>::Apply(
                Change::Activity(Activity::Failed { kind: "session.failed"@, summary: why }),
            ))
            &&& n.turn == m.turn
        }),
{
}

/// The session's own ending is an error where something failed and a plain stop
/// where nothing did; a turn that the agent died in is recorded as an error, unless
/// the developer ended the session or the conversation has another.
pub proof fn the_ending_of_a_session_is_its_own<C>(m: Model, refused: Option<Text>, death: Option<Text>, ours: bool)
    requires
        m.stage == (Stage::Detaching { refused, death }),
    ensures
        ({
            let (n, said, wait) = m.step::<C>(Event::Detached(ours));
            &&& !ours ==> said.len() == 0 && wait is Over
            &&& ours ==> said.len() == 1 && (said[0] matches Effect::Apply(Change::Session(session)) && {
                &&& session.active_turn_id is None
                &&& session.runtime_mode == m.mode
                &&& refused is Some ==> session.status is Error && session.last_error == refused
                &&& refused is None && m.send_failure is Some ==> session.status is Error && session.last_error
                    == m.send_failure
                &&& refused is None && m.send_failure is None && death is Some ==> session.status is Error
                    && session.last_error == death
                &&& refused is None && m.send_failure is None && death is None ==> session.status is Stopped
                    && session.last_error is None
            })
            &&& n.turn is None
            &&& ours && !m.asked_to_stop ==> (m.turn matches Some(turn) ==> wait == (Wait::Checkpoint(
                Finished { turn_id: turn.turn_id, status: "error"@ },
            )) && n.step::<C>(Event::Recorded).2 is Over)
            &&& m.turn is None || m.asked_to_stop ==> wait is Over
        }),
{
}

/// What no step changes: whose continuation the session keeps, whether its driver
/// steers, and which of the conversation's sessions it is.
pub proof fn a_session_stays_itself<C>(m: Model, event: Event<Text, Seq<C>>)
    requires
        m.expects(event),
    ensures
        m.step(event).0.provider == m.provider,
        m.step(event).0.steers == m.steers,
        m.step(event).0.epoch == m.epoch,
        m.asked_to_stop ==> m.step(event).0.asked_to_stop,
        m.step(event).0.asked_to_stop && !m.asked_to_stop ==> event == Event::<Text, Seq<C>>::Polled(Some(Signal::Stop))
            || event == Event::<Text, Seq<C>>::Signalled(Some(Signal::Stop)),
        m.step(event).0.accepting != m.accepting ==> event == Event::<Text, Seq<C>>::Prompted(None),
        m.step(event).0.listening != m.listening ==> event == Event::<Text, Seq<C>>::Signalled(None),
{
}

/// A request leaves the open ones only by being answered, or with the session.
pub proof fn an_open_request_stays_open<C>(m: Model, event: Event<Text, Seq<C>>)
    requires
        m.expects(event),
        m.step(event).0.outstanding != m.outstanding,
    ensures
        m.step(event).2 is Answer || m.step(event).2 is Stop,
{
}

/// A turn leaves a session only with the session: until then a step changes it in
/// nothing but what stopped it.
#[verifier::rlimit(60)]
#[verifier::spinoff_prover]
pub proof fn a_turn_in_flight_stays_in_flight<C>(m: Model, event: Event<Text, Seq<C>>)
    requires
        m.expects(event),
        m.turn is Some,
        !(m.stage is Detaching),
        !(m.stage is Sending),
    ensures
        m.step(event).0.turn matches Some(turn) && {
            &&& turn.turn_id == m.turn->0.turn_id
            &&& turn.tools == m.turn->0.tools
            &&& m.turn->0.stopped is Some ==> turn.stopped == m.turn->0.stopped
            &&& turn.assistant_message_id == m.turn->0.assistant_message_id || m.step(event).2 is Stop
        },
{
}

/// The ids that a session mints count what it asked: a stop, a measurement and a push
/// are each named by the next number of their own kind, and nothing else counts.
#[verifier::rlimit(60)]
#[verifier::spinoff_prover]
pub proof fn an_id_counts_what_was_asked<C>(m: Model, event: Event<Text, Seq<C>>)
    requires
        m.expects(event),
    ensures
        ({
            let (n, _, wait) = m.step(event);
            &&& wait matches Wait::Interrupt { request_id } ==> request_id == "interrupt-"@ + text::decimal(
                (m.interrupts + 1) as nat,
            ) && n.interrupts == m.interrupts + 1
            &&& wait matches Wait::Measure { request_id } ==> request_id == "context-"@ + text::decimal(
                (m.measurements + 1) as nat,
            ) && n.measurements == m.measurements + 1 && m.unmeasured && !n.unmeasured
            &&& wait matches Wait::Retune { request_id, .. } ==> request_id == "retune-"@ + text::decimal(
                (m.retunes + 1) as nat,
            ) && n.retunes == m.retunes + 1
            &&& !(wait is Interrupt) ==> n.interrupts == m.interrupts
            &&& !(wait is Measure) ==> n.measurements == m.measurements
            &&& !(wait is Retune) ==> n.retunes == m.retunes
        }),
{
}

/// An agent that did not start is let go of, and then the session is over.
pub proof fn an_agent_that_did_not_start_is_let_go<C>(m: Model, why: Text, ours: bool)
    requires
        m.stage is Opening,
    ensures
        ({
            let abandoned = m.step(Event::<Text, Seq<C>>::Opened(Err(why)));
            &&& abandoned.2 == (Wait::<Text>::Detach { epoch: m.epoch })
            &&& abandoned.0.expects(Event::<Text, Seq<C>>::Detached(ours))
            &&& abandoned.0.step(Event::<Text, Seq<C>>::Detached(ours)).2 is Over
            &&& abandoned.0.step(Event::<Text, Seq<C>>::Detached(ours)).1.len() == 0
        }),
{
}

/// A session starts as its conversation is: its id, its model, its mode and its
/// provider, in the folder that was given, by the driver that was prepared; and it
/// resumes only where that provider left off.
pub proof fn a_session_starts_as_its_conversation_is(
    thread: session::Thread,
    workspace_root: &str,
    prepared: session::PreparedDriver,
    start: session::Start,
)
    requires
        call_ensures(session::starting, (&thread, workspace_root, prepared), start),
    ensures
        start.thread_id@ == thread.id@,
        start.workspace_root@ == workspace_root@,
        start.model == thread.model,
        start.runtime_mode@ == thread.runtime_mode@,
        start.provider == thread.provider,
        start.driver == prepared.driver,
        start.resume_cursor is Some <==> thread.provider_resume_cursor is Some
            && thread.provider_resume_cursor->0.provider.instance_id@ == thread.provider.instance_id@
            && thread.provider_resume_cursor->0.provider.driver@ == thread.provider.driver@,
        start.resume_cursor is Some ==> start.resume_cursor == thread.provider_resume_cursor,
{
}

/// A prompt is the turn and the text that were given, on the mode and the model that
/// the session was started with.
pub proof fn a_prompt_is_what_was_given(start: session::Start, turn_id: String, said: String, out: Prompt<String>)
    requires
        call_ensures(session::prompt, (&start, turn_id, said), out),
    ensures
        out.turn_id == turn_id,
        out.text == said,
        out.wanted@.runtime_mode == start.runtime_mode@,
        out.wanted@.model == text::maybe(start.model),
{
}

/// A driver that was resolved is used as it is, and what could not be resolved is told
/// by the instance and the conversation that it is about.
pub proof fn what_cannot_serve_says_so(
    thread: session::Thread,
    resolved: Result<session::PreparedDriver, session::InstanceUnavailable>,
    out: Result<session::PreparedDriver, String>,
)
    requires
        call_ensures(session::prepare, (&thread, resolved), out),
    ensures
        resolved matches Ok(instance) ==> out == Ok::<session::PreparedDriver, String>(instance),
        resolved is Err ==> out is Err,
        resolved matches Err(session::InstanceUnavailable::Unknown) ==> out->Err_0@ == "Provider instance '"@
            + thread.provider.instance_id@ + "' is not registered, so thread '"@ + thread.id@ + "' cannot start a turn."@,
        resolved matches Err(session::InstanceUnavailable::Disabled) ==> out->Err_0@ == "Provider instance '"@
            + thread.provider.instance_id@ + "' is disabled, so thread '"@ + thread.id@ + "' cannot start a turn."@,
        resolved matches Err(session::InstanceUnavailable::Mismatched { configured, recorded }) ==> out->Err_0@
            == "Provider instance '"@ + thread.provider.instance_id@ + "' is registered for driver '"@ + configured@
            + "', but thread '"@ + thread.id@ + "' records '"@ + recorded@ + "'."@,
{
}

/// Settings are given to their own driver alone; to another they are told by both
/// names.
pub proof fn settings_are_for_their_own_driver(
    start: session::DriverStart,
    codex: Result<&CodexSettings, String>,
    claude: Result<&ClaudeSettings, String>,
    opencode: Result<&OpenCodeSettings, String>,
)
    requires
        call_ensures(session::DriverStart::codex, (&start,), codex),
        call_ensures(session::DriverStart::claude, (&start,), claude),
        call_ensures(session::DriverStart::opencode, (&start,), opencode),
    ensures
        codex is Ok <==> start is Codex,
        claude is Ok <==> start is Claude,
        opencode is Ok <==> start is OpenCode,
        codex matches Ok(given) ==> session::DriverStart::Codex(*given) == start,
        claude matches Ok(given) ==> session::DriverStart::Claude(*given) == start,
        opencode matches Ok(given) ==> session::DriverStart::OpenCode(*given) == start,
        start is Claude ==> codex->Err_0@ == DriverKind::Codex.label() + " settings were paired with the "@
            + DriverKind::Claude.label() + " driver"@,
        start is OpenCode ==> codex->Err_0@ == DriverKind::OpenCode.label() + " settings were paired with the "@
            + DriverKind::Codex.label() + " driver"@,
        start is OpenCode ==> claude->Err_0@ == DriverKind::OpenCode.label() + " settings were paired with the "@
            + DriverKind::Claude.label() + " driver"@,
        start is Codex ==> claude->Err_0@ == "the Codex turn driver has not landed yet"@,
        !(start is OpenCode) ==> opencode->Err_0@ == "OpenCode settings were paired with another driver"@,
{
}

/// A prompt that could not be queued says whether the agent is behind or gone.
pub proof fn a_prompt_that_was_not_queued_says_why(failure: session::QueueFailure, out: String)
    requires
        call_ensures(session::queue_failure, (failure,), out),
    ensures
        failure is Full ==> out@
            == "The agent has not read the turns already sent to it, so this one was not queued."@,
        failure is Closed ==> out@ == "The agent session has ended and could not be sent this turn."@,
{
}

} // verus!
