//! What holds of every session, whichever agent is behind it.

use crate::keyed;
use crate::session::model;
use crate::session::model::{
    Activity, ApprovalRequest, Change, Decided, Decision, Effect, Event, Model, Retune, Session, Signal, Stage, Text,
    Wait,
};
use crate::settling::SessionStatus;
use crate::text;
use vstd::prelude::*;

verus! {

/// A push the agent refuses leaves the session's account of its child as it was
/// before the push was written.
pub proof fn a_refused_push_is_undone(m: Model, wanted: Retune<Text>)
    ensures
        m.mode_push(wanted) matches Some(push) ==> m.applied(push).reverted(push) == m,
        m.model_push(wanted) matches Some(push) ==> m.applied(push).reverted(push) == m,
{
}

/// A push that was written takes the account to what the turn wanted, and
/// nothing is pushed for a value that has not moved.
pub proof fn a_push_is_what_the_turn_wanted(m: Model, wanted: Retune<Text>)
    ensures
        m.mode_push(wanted) is None <==> wanted.runtime_mode == m.mode,
        m.mode_push(wanted) matches Some(push) ==> m.applied(push).mode == wanted.runtime_mode
            && m.applied(push).model == m.model,
        m.model_push(wanted) is None <==> (wanted.model is None || wanted.model == m.model),
        m.model_push(wanted) matches Some(push) ==> m.applied(push).model == wanted.model
            && m.applied(push).mode == m.mode,
{
}

/// A turn that wants what the child already runs under is announced without a
/// push.
pub proof fn an_unmoved_turn_is_announced_at_once<C>(m: Model, prompt: model::Prompt<Text>)
    requires
        prompt.wanted.runtime_mode == m.mode,
        prompt.wanted.model is None || prompt.wanted.model == m.model,
    ensures
        m.begin::<C>(prompt) == m.announce::<C>(seq![], prompt),
{
}

/// An interrupt with no turn to stop, for another turn than the one running, or
/// for a turn that is already stopping, is a no-op: nothing is written, nothing is
/// said, and no id is spent on it.
pub proof fn an_interrupt_that_stops_nothing_changes_nothing<C>(m: Model, wanted: Option<Text>)
    requires
        m.turn is None || m.turn->0.stopped is Some || (wanted is Some && wanted != m.turn_id()),
    ensures
        m.signalled::<C>(Signal::Interrupt { turn_id: wanted }) == (m.at(Stage::Polling), Seq::<Effect<Text, C>>::empty(), Wait::<
            Text,
        >::Poll),
{
}

/// An interrupt that does stop the turn is written before it is recorded: until
/// the write has succeeded the turn is not marked as stopped.
pub proof fn a_stop_is_recorded_only_once_it_was_written<C>(m: Model, wanted: Option<Text>, error: Text)
    requires
        m.interruptible(wanted),
    ensures
        ({
            let (asked, said, wait) = m.signalled::<C>(Signal::Interrupt { turn_id: wanted });
            &&& asked.turn == m.turn
            &&& said.len() == 0
            &&& wait matches Wait::Interrupt { request_id } && asked.stage == (Stage::Interrupting {
                turn_id: m.turn->0.turn_id,
                request_id,
            })
            &&& asked.step::<C>(Event::Wrote(Err(error))).0.turn == m.turn
            &&& asked.step::<C>(Event::Wrote(Ok(()))).0.turn->0.stopped == Some(wait->Interrupt_request_id)
            &&& asked.step::<C>(Event::Wrote(Ok(()))).1 == model::stop_rows::<C>(
                m.turn->0.turn_id,
                wait->Interrupt_request_id,
            )
        }),
{
}

/// A decision reaches the agent before anything about it is published, and the
/// request can be answered only once.
pub proof fn a_decision_is_written_before_it_is_published<C>(m: Model, request_id: Text, decision: Decision<Text>)
    requires
        keyed::ascending(m.outstanding),
        keyed::has(m.outstanding, request_id),
    ensures
        ({
            let (asked, said, wait) = m.signalled::<C>(Signal::Answer { request_id, decision });
            &&& said.len() == 0
            &&& wait == (Wait::Answer {
                asked: keyed::find(m.outstanding, request_id)->0,
                reply: model::Reply::Decided(decision),
            })
            &&& !keyed::has(asked.outstanding, request_id)
        }),
{
    let at = keyed::place(m.outstanding, request_id);
    let after = m.outstanding.remove(at);
    if keyed::has(after, request_id) {
        let k = keyed::place(after, request_id);
        let i: int = if k < at { k } else { k + 1 };
        assert(after[k] == m.outstanding[i]);
        keyed::found(m.outstanding, i);
        keyed::found(m.outstanding, at);
        assert(false);
    }
}

/// Whatever became of the write, the answered request is resolved in the
/// conversation, exactly once.
pub proof fn an_answer_closes_the_panel_either_way<C>(
    m: Model,
    asked: ApprovalRequest<Text>,
    decision: Decision<Text>,
    wrote: Result<(), Text>,
)
    ensures
        ({
            let said = m.answered::<C>(asked, decision, wrote).1;
            let at: int = if wrote is Err { 1 } else { 0 };
            &&& at < said.len()
            &&& forall|i: int|
                0 <= i < said.len() ==> ((#[trigger] said[i]) is Apply && said[i]->Apply_0 is Activity
                    && said[i]->Apply_0->Activity_0 is Resolved) == (i == at)
            &&& said[at] == Effect::<Text, C>::Apply(
                Change::Activity(Activity::Resolved { asked, decision, turn_id: m.turn_id() }),
            )
        }),
{
}

/// Ending a session closes every request the agent was still waiting on: each
/// gets its own row, in the order of the ids, and none is left.
pub proof fn an_ending_closes_every_open_request<C>(m: Model)
    ensures
        m.finish::<C>().0.outstanding.len() == 0,
        forall|i: int|
            0 <= i < m.outstanding.len() ==> m.finish::<C>().1.contains(
                model::abandoned::<C>((#[trigger] m.outstanding[i]).1, m.turn_id()),
            ),
{
    let rows = m.ending_rows::<C>();
    assert forall|i: int| 0 <= i < m.outstanding.len() implies rows.contains(
        model::abandoned::<C>((#[trigger] m.outstanding[i]).1, m.turn_id()),
    ) by {
        let shift = rows.len() - m.outstanding.len();
        assert(rows[shift + i] == model::abandoned::<C>(m.outstanding[i].1, m.turn_id()));
    }
}

/// Ending a session leaves no reply streaming.
pub proof fn an_ending_leaves_no_reply_streaming<C>(m: Model)
    ensures
        m.finish::<C>().0.turn matches Some(turn) ==> turn.assistant_message_id is None,
        m.turn matches Some(turn) ==> turn.assistant_message_id is Some ==> m.finish::<C>().1[0] == Effect::<Text, C>::Apply(
            Change::AssistantMessage {
                message_id: turn.assistant_message_id->0,
                turn_id: turn.turn_id,
                text: ""@,
            },
        ),
{
}

/// A turn is on its way to the agent, and not there yet.
pub open spec fn beginning(stage: Stage<Text>) -> bool {
    stage is Retuning || stage is Baselining || stage is Sending
}

/// How many steps are left of an ending.
pub open spec fn steps_to_the_end(stage: Stage<Text>) -> nat {
    match stage {
        Stage::Stopping => 3,
        Stage::Detaching { .. } => 2,
        Stage::Abandoning => 1,
        Stage::Closing => 1,
        Stage::Over => 0,
        _ => 4,
    }
}

/// The session is past its loop.
pub open spec fn ending(stage: Stage<Text>) -> bool {
    steps_to_the_end(stage) < 4
}

/// What every reachable state keeps: no turn is given to the agent while another
/// is in flight, and a session that was asked to stop has left its loop.
pub open spec fn sound(m: Model) -> bool {
    &&& beginning(m.stage) ==> m.turn is None
    &&& m.stage is Opening ==> m.turn is None
    &&& m.stage is OpenSettling ==> m.turn is None
    &&& m.asked_to_stop ==> ending(m.stage)
}

/// Every step keeps a session sound.
pub proof fn every_step_keeps_a_session_sound<C>(m: Model, event: Event<Text, Seq<C>>)
    requires
        sound(m),
        m.expects(event),
    ensures
        sound(m.step(event).0),
{
}

/// A turn is given to the agent only after its baseline was taken, and only while
/// no other turn is in flight; the one exception is a driver that steers, whose
/// prompt joins the turn in flight.
pub proof fn a_prompt_is_sent_only_after_its_baseline<C>(m: Model, event: Event<Text, Seq<C>>)
    requires
        sound(m),
        m.expects(event),
        m.step(event).2 is Send,
    ensures
        match m.stage {
            Stage::Baselining { prompt } => {
                &&& m.turn is None
                &&& m.step(event).2 == (Wait::Send { text: prompt.text })
                &&& m.step(event).0.stage == (Stage::Sending { turn_id: prompt.turn_id })
            },
            _ => m.steers && m.turn is Some && m.step(event).0.turn == m.turn,
        },
{
}

/// A baseline is taken only for a turn that was announced in the same step, with
/// the mode its child is running under.
pub proof fn a_baseline_follows_the_announcement<C>(m: Model, event: Event<Text, Seq<C>>)
    requires
        m.expects(event),
        m.step(event).2 is Baseline,
    ensures
        m.step(event).0.stage matches Stage::Baselining { prompt } && m.step(event).1.last() == m.step(
            event,
        ).0.running::<C>(prompt.turn_id),
{
}

/// A session that has left its loop never waits for the agent, a prompt or a
/// signal again, and is over after at most three more steps.
pub proof fn an_ending_is_bounded<C>(m: Model, event: Event<Text, Seq<C>>)
    requires
        ending(m.stage),
        m.expects(event),
    ensures
        steps_to_the_end(m.step(event).0.stage) < steps_to_the_end(m.stage),
        !(m.step(event).2 is Select || m.step(event).2 is Poll || m.step(event).2 is Send),
{
}

/// A stop is honoured at once: whatever the loop was doing, the agent is reaped
/// next and told that the developer asked.
pub proof fn a_stop_ends_the_loop<C>(m: Model)
    ensures
        m.signalled::<C>(Signal::Stop).0.stage is Stopping,
        m.signalled::<C>(Signal::Stop).2 == (Wait::<Text>::Stop { asked_to_stop: true }),
{
}

/// A session whose slot the conversation has given to another says nothing of its
/// own ending and records nothing.
pub proof fn a_replaced_session_says_nothing_of_its_ending<C>(m: Model, refused: Option<Text>, death: Option<Text>)
    ensures
        m.detached::<C>(refused, death, false).1.len() == 0,
        m.detached::<C>(refused, death, false).2 is Over,
{
}

/// A session the developer ended gets no checkpoint.
pub proof fn a_session_asked_to_stop_records_nothing<C>(m: Model, refused: Option<Text>, death: Option<Text>, ours: bool)
    requires
        m.asked_to_stop,
    ensures
        m.detached::<C>(refused, death, ours).2 is Over,
{
}

/// The ending is an error exactly when something failed, and then it says what: a
/// refused resume before a failed write, a failed write before a death.
pub proof fn an_ending_says_why<C>(m: Model, refused: Option<Text>, death: Option<Text>)
    ensures
        m.detached::<C>(refused, death, true).1 == seq![
            Effect::<Text, C>::Apply(
                Change::Session(
                    Session {
                        status: if m.failure(refused, death) is Some {
                            SessionStatus::Error
                        } else {
                            SessionStatus::Stopped
                        },
                        runtime_mode: m.mode,
                        active_turn_id: None,
                        last_error: m.failure(refused, death),
                    },
                ),
            ),
        ],
        m.failure(refused, death) is None <==> refused is None && m.send_failure is None && death is None,
        refused is Some ==> m.failure(refused, death) == refused,
        refused is None && m.send_failure is Some ==> m.failure(refused, death) == m.send_failure,
{
}

/// The end of a turn is published only while the session still describes that
/// turn.
pub proof fn a_late_ending_is_not_published<C>(m: Model, settles: model::Settles<Text>, active: Option<Text>)
    requires
        active != settles.turn_id,
    ensures
        m.settled::<C>(settles, active).len() == 0,
{
}

/// Every mode a session reports is one its child is running under: the one before
/// the step or the one after it.
pub proof fn a_session_reports_the_mode_it_runs_under<C>(m: Model, event: Event<Text, Seq<C>>, i: int)
    requires
        m.expects(event),
        0 <= i < m.step(event).1.len(),
    ensures
        m.step(event).1[i] matches Effect::Apply(Change::Session(session)) ==> session.runtime_mode == m.mode
            || session.runtime_mode == m.step(event).0.mode,
{
}

/// A prompt that waits is neither lost nor replaced: it stays until the turn it
/// asks for begins.
pub proof fn a_waiting_prompt_is_kept_until_its_turn<C>(m: Model, event: Event<Text, Seq<C>>)
    requires
        m.expects(event),
        m.waiting is Some,
    ensures
        match m.step(event).0.waiting {
            Some(prompt) => prompt == m.waiting->0,
            None => match m.step(event).0.stage {
                Stage::Retuning { prompt, .. } => prompt == m.waiting->0,
                Stage::Baselining { prompt } => prompt == m.waiting->0,
                _ => false,
            },
        },
{
}

/// Counters never go back, so that with [`minted_ids_are_distinct`] no two
/// requests of a session share an id.
pub proof fn counters_never_go_back<C>(m: Model, event: Event<Text, Seq<C>>)
    requires
        m.expects(event),
    ensures
        m.step(event).0.interrupts >= m.interrupts,
        m.step(event).0.measurements >= m.measurements,
        m.step(event).0.retunes >= m.retunes,
        m.step(event).2 matches Wait::Interrupt { request_id } ==> {
            &&& request_id == model::minted("interrupt-"@, m.step(event).0.interrupts)
            &&& m.step(event).0.interrupts == m.interrupts + 1
        },
        m.step(event).2 matches Wait::Measure { request_id } ==> {
            &&& request_id == model::minted("context-"@, m.step(event).0.measurements)
            &&& m.step(event).0.measurements == m.measurements + 1
        },
        m.step(event).2 matches Wait::Retune { request_id, .. } ==> {
            &&& request_id == model::minted("retune-"@, m.step(event).0.retunes)
            &&& m.step(event).0.retunes == m.retunes + 1
        },
{
}

/// Two ids of one kind are alike only where their counts are.
pub proof fn minted_ids_are_distinct(kind: Text, a: nat, b: nat)
    requires
        model::minted(kind, a) == model::minted(kind, b),
    ensures
        a == b,
{
    assert(model::minted(kind, a).skip(kind.len() as int) =~= text::decimal(a));
    assert(model::minted(kind, b).skip(kind.len() as int) =~= text::decimal(b));
    text::decimals_are_distinct(a, b);
}

/// Ids of different kinds are never alike.
pub proof fn kinds_of_ids_do_not_mix(a: nat, b: nat)
    ensures
        model::minted("interrupt-"@, a) != model::minted("context-"@, b),
        model::minted("interrupt-"@, a) != model::minted("retune-"@, b),
        model::minted("context-"@, a) != model::minted("retune-"@, b),
{
    reveal_strlit("interrupt-");
    reveal_strlit("context-");
    reveal_strlit("retune-");
    assert(model::minted("interrupt-"@, a)[0] == 'i');
    assert(model::minted("context-"@, b)[0] == 'c');
    assert(model::minted("context-"@, a)[0] == 'c');
    assert(model::minted("retune-"@, b)[0] == 'r');
}

/// A continuation that belongs to another provider instance is never remembered,
/// and one that belongs to this one always is.
pub proof fn a_continuation_stays_with_its_provider<C>(m: Model, decided: Decided<Text, Seq<C>>)
    ensures
        decided.provider_resume_cursor matches Some(cursor) ==> {
            &&& cursor.provider == m.provider ==> m.spent(decided).last() == Effect::<Text, C>::Remember(cursor)
            &&& cursor.provider != m.provider ==> m.spent(decided).len() == decided.changes.len()
        },
        forall|i: int|
            0 <= i < decided.changes.len() ==> #[trigger] m.spent(decided)[i] == Effect::<Text, C>::Relay(
                decided.changes[i],
            ),
{
}

} // verus!
