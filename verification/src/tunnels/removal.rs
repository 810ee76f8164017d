//! Taking an exposure apart: forgetting laplus's own setup, and deleting the
//! Cloudflare resources laplus created.
//!
//! A forget is never a Cloudflare change. A deletion removes the DNS record, then
//! the tunnel, and then does what a forget does. Everything that only reads comes
//! before anything that spends, so that a request without the authority it needs
//! is refused while the confirmation is still spendable and the connector still
//! serves.

use crate::public_exposure::{MutationIntent, MutationState, MutationStep, Refusal, RefusalReason};
use crate::text;
use crate::tunnels;
use crate::tunnels::{Answer, JournalEntry, Refused, Text};
use vstd::prelude::*;

verus! {

// ---------------------------------------------------------------------------
// How far a cleanup has got
// ---------------------------------------------------------------------------

/// Whether a step of a cleanup is done. What is on this machine is looked at; what
/// is at Cloudflare leaves nothing here, so for that the journal is the
/// observation.
pub open spec fn is_done(
    journal: Seq<JournalEntry<Text>>,
    intent: MutationIntent,
    holds_configuration: bool,
    holds_credentials: bool,
    step: MutationStep,
) -> bool {
    match step {
        MutationStep::ConfigurationRemove => !holds_configuration,
        MutationStep::CredentialRemove => !holds_credentials,
        remote => tunnels::any_completed(journal, intent, remote),
    }
}

/// The steps of a cleanup that are done.
pub open spec fn done_steps(
    journal: Seq<JournalEntry<Text>>,
    intent: MutationIntent,
    holds_configuration: bool,
    holds_credentials: bool,
) -> Seq<MutationStep> {
    tunnels::steps_of(intent).filter(
        |step: MutationStep| is_done(journal, intent, holds_configuration, holds_credentials, step),
    )
}

/// One cleanup: what it is for, and which of its steps are done.
#[derive(Debug)]
pub struct Cleanup {
    pub intent: MutationIntent,
    pub completed: Vec<MutationStep>,
}

impl Cleanup {
    /// A cleanup as an earlier attempt left it.
    pub fn resumed(
        journal: &Vec<JournalEntry<String>>,
        intent: MutationIntent,
        holds_configuration: bool,
        holds_credentials: bool,
    ) -> (out: Cleanup)
        ensures
            out.intent == intent,
            out.completed@ == done_steps(tunnels::journal_view(journal@), intent, holds_configuration, holds_credentials),
    {
        let ghost seen = tunnels::journal_view(journal@);
        let ghost done = |step: MutationStep| is_done(seen, intent, holds_configuration, holds_credentials, step);
        let steps = tunnels::mutation_steps(intent);
        let mut completed: Vec<MutationStep> = Vec::new();
        let mut i: usize = 0;
        proof {
            assert(steps@.take(0).filter(done) =~= Seq::<MutationStep>::empty()) by {
                reveal(Seq::filter);
            }
        }
        while i < steps.len()
            invariant
                i <= steps@.len(),
                seen == tunnels::journal_view(journal@),
                done == (|step: MutationStep| is_done(seen, intent, holds_configuration, holds_credentials, step)),
                completed@ == steps@.take(i as int).filter(done),
            decreases steps@.len() - i,
        {
            let step = steps[i];
            proof {
                assert(steps@.take(i + 1) =~= steps@.take(i as int).push(step));
                steps@.take(i as int).lemma_filter_push(step, done);
            }
            let finished: bool = match step {
                MutationStep::ConfigurationRemove => !holds_configuration,
                MutationStep::CredentialRemove => !holds_credentials,
                remote => tunnels::any_completed_step(journal, intent, remote),
            };
            if finished {
                completed.push(step);
            }
            i += 1;
        }
        proof {
            assert(steps@.take(i as int) =~= steps@);
        }
        Cleanup { intent, completed }
    }

    /// Whether a step has already happened, and so must not happen again.
    pub fn holds(&self, step: MutationStep) -> (out: bool)
        ensures
            out == self.completed@.contains(step),
    {
        tunnels::holds(&self.completed, step)
    }

    /// A step has happened.
    pub fn did(&mut self, step: MutationStep)
        ensures
            final(self).intent == old(self).intent,
            final(self).completed@ == old(self).completed@.push(step),
    {
        self.completed.push(step);
    }

    /// What is left to do.
    pub fn remaining(&self) -> (out: Vec<MutationStep>)
        ensures
            out@ == tunnels::remaining(tunnels::steps_of(self.intent), self.completed@),
    {
        let steps = tunnels::mutation_steps(self.intent);
        tunnels::remaining_steps(&steps, &self.completed)
    }

    /// A refusal that names exactly what this cleanup did and did not do.
    pub fn refusing(&self, refusal: Refusal) -> (out: Refusal)
        ensures
            out@ == refusal@.after(tunnels::steps_of(self.intent), self.completed@),
    {
        let left = self.remaining();
        let out = refusal.after(self.completed.as_slice(), left.as_slice());
        proof {
            assert(out@ =~= refusal@.after(tunnels::steps_of(self.intent), self.completed@));
        }
        out
    }
}

/// What is done of a cleanup is part of it, and nothing of it is done twice.
pub proof fn done_steps_are_of_the_cleanup(
    journal: Seq<JournalEntry<Text>>,
    intent: MutationIntent,
    holds_configuration: bool,
    holds_credentials: bool,
)
    ensures
        forall|step: MutationStep|
            #[trigger] done_steps(journal, intent, holds_configuration, holds_credentials).contains(step) <==> (
            tunnels::steps_of(intent).contains(step) && is_done(journal, intent, holds_configuration, holds_credentials, step)),
{
    let done = |step: MutationStep| is_done(journal, intent, holds_configuration, holds_credentials, step);
    let steps = tunnels::steps_of(intent);
    let kept = steps.filter(done);
    steps.filter_lemma(done);
    assert forall|step: MutationStep| #[trigger] kept.contains(step) <==> (steps.contains(step) && done(step)) by {
        if kept.contains(step) {
            let k = choose|k: int| 0 <= k < kept.len() && kept[k] == step;
            assert(done(kept[k]));
            steps.lemma_filter_contains_rev(done, step);
        }
        if steps.contains(step) && done(step) {
            let i = choose|i: int| 0 <= i < steps.len() && steps[i] == step;
            assert(done(steps[i]));
            assert(kept.contains(steps[i]));
        }
    }
}

// ---------------------------------------------------------------------------
// What a removal is made of
// ---------------------------------------------------------------------------

/// What to do next.
#[derive(Debug, PartialEq, Eq)]
pub enum Action<S, R> {
    /// Take the DNS authority the request carries: [`Event::Tried`].
    Authorize,
    /// Look for the DNS record: [`Event::Located`].
    Lookup { record: S },
    /// Write down where the record is: [`Event::Wrote`].
    Remember { record: S },
    /// Spend the confirmation: [`Event::Spent`].
    Spend { tunnel_id: S },
    /// Stop the connector: [`Event::Wrote`].
    StopConnector,
    /// Journal and delete the DNS record, where it was located:
    /// [`Event::Tried`].
    DeleteRecord { detail: Option<S>, located: bool },
    /// Journal and delete the tunnel: [`Event::Tried`].
    DeleteTunnel { tunnel_id: S },
    /// Journal and remove the configuration: [`Event::Tried`].
    RemoveConfiguration { detail: S },
    /// Journal and remove the credential: [`Event::Tried`].
    RemoveCredential { detail: S },
    /// Forget the endpoint that is recorded: [`Event::Wrote`].
    ForgetEndpoint,
    /// Forget the selection: [`Event::Tried`].
    ForgetSelection,
    /// Do what [`tunnels::finish`] says of this intent, and answer.
    Answer(Answer<R>),
}

/// What came of it.
#[derive(Debug, PartialEq, Eq)]
pub enum Event<R> {
    /// Whether the record is there.
    Located(Result<bool, R>),
    Spent(bool),
    Tried(Result<(), R>),
    Wrote(bool),
}

/// Where the removal is.
#[derive(Debug, Clone, Copy, PartialEq, Eq, Structural)]
pub enum Stage {
    Authorizing,
    Looking,
    Remembering,
    Confirming,
    Stopping,
    DeletingRecord,
    DeletingTunnel,
    StoppingLocally,
    RemovingConfiguration,
    RemovingCredential,
    ForgettingEndpoint,
    ForgettingSelection,
    Over,
}

impl View for Action<String, Refusal> {
    type V = Action<Text, Refused>;

    open spec fn view(&self) -> Action<Text, Refused> {
        match *self {
            Action::Authorize => Action::Authorize,
            Action::Lookup { record } => Action::Lookup { record: record@ },
            Action::Remember { record } => Action::Remember { record: record@ },
            Action::Spend { tunnel_id } => Action::Spend { tunnel_id: tunnel_id@ },
            Action::StopConnector => Action::StopConnector,
            Action::DeleteRecord { detail, located } => Action::DeleteRecord { detail: text::maybe(detail), located },
            Action::DeleteTunnel { tunnel_id } => Action::DeleteTunnel { tunnel_id: tunnel_id@ },
            Action::RemoveConfiguration { detail } => Action::RemoveConfiguration { detail: detail@ },
            Action::RemoveCredential { detail } => Action::RemoveCredential { detail: detail@ },
            Action::ForgetEndpoint => Action::ForgetEndpoint,
            Action::ForgetSelection => Action::ForgetSelection,
            Action::Answer(answer) => Action::Answer(answer@),
        }
    }
}

impl View for Event<Refusal> {
    type V = Event<Refused>;

    open spec fn view(&self) -> Event<Refused> {
        match *self {
            Event::Located(Ok(found)) => Event::Located(Ok(found)),
            Event::Located(Err(refusal)) => Event::Located(Err(refusal@)),
            Event::Spent(spent) => Event::Spent(spent),
            Event::Tried(outcome) => Event::Tried(tunnels::tried(outcome)),
            Event::Wrote(written) => Event::Wrote(written),
        }
    }
}

/// A removal in progress, as the contracts see it.
#[verifier::ext_equal]
pub struct Model {
    pub intent: MutationIntent,
    /// The tunnel a deletion is for.
    pub tunnel_id: Text,
    /// The DNS record that is still to be deleted.
    pub record: Option<Text>,
    /// Whether it is known where that record is.
    pub located: bool,
    /// What must not appear in an answer.
    pub secret: Text,
    pub configuration_path: Text,
    pub credential_path: Text,
    pub completed: Seq<MutationStep>,
    pub stage: Stage,
}

/// The next state, how the step that just ended is settled, and what to do.
pub type Outcome = (Model, Option<MutationState>, Action<Text, Refused>);

/// What is said when the connector will not stop.
pub open spec fn unstoppable() -> Refused {
    Refused::rejected(
        RefusalReason::LocalSetupFailed,
        "laplus could not stop its Cloudflare connector, so it did not remove the configuration and credential it is running from."@,
    )
}

impl Model {
    /// The removal is over.
    pub open spec fn over(self, settled: Option<MutationState>, answer: Answer<Refused>) -> Outcome {
        (Model { stage: Stage::Over, ..self }, settled, Action::Answer(answer))
    }

    /// A refusal that names what is done and what is left, without the secret.
    pub open spec fn refused(self, settled: Option<MutationState>, refusal: Refused) -> Outcome {
        self.over(
            settled,
            Answer::Refused(refusal.after(tunnels::steps_of(self.intent), self.completed).redacting(self.secret)),
        )
    }

    /// The confirmation is next.
    pub open spec fn confirm(self) -> Outcome {
        (Model { stage: Stage::Confirming, ..self }, None, Action::Spend { tunnel_id: self.tunnel_id })
    }

    /// The DNS record is next, unless it is gone.
    pub open spec fn delete_record(self, settled: Option<MutationState>) -> Outcome {
        if self.completed.contains(MutationStep::DnsRecordDelete) {
            self.delete_tunnel(settled)
        } else {
            (
                Model { stage: Stage::DeletingRecord, ..self },
                settled,
                Action::DeleteRecord { detail: self.record, located: self.located },
            )
        }
    }

    /// The tunnel is next, unless it is gone.
    pub open spec fn delete_tunnel(self, settled: Option<MutationState>) -> Outcome {
        if self.completed.contains(MutationStep::TunnelDelete) {
            self.stop_locally(settled)
        } else {
            (
                Model { stage: Stage::DeletingTunnel, ..self },
                settled,
                Action::DeleteTunnel { tunnel_id: self.tunnel_id },
            )
        }
    }

    /// The connector is stopped before what it runs from is removed.
    pub open spec fn stop_locally(self, settled: Option<MutationState>) -> Outcome {
        (Model { stage: Stage::StoppingLocally, ..self }, settled, Action::StopConnector)
    }

    /// The configuration is next, unless it is gone.
    pub open spec fn remove_configuration(self, settled: Option<MutationState>) -> Outcome {
        if self.completed.contains(MutationStep::ConfigurationRemove) {
            self.remove_credential(settled)
        } else {
            (
                Model { stage: Stage::RemovingConfiguration, ..self },
                settled,
                Action::RemoveConfiguration { detail: self.configuration_path },
            )
        }
    }

    /// The credential is next, unless it is gone.
    pub open spec fn remove_credential(self, settled: Option<MutationState>) -> Outcome {
        if self.completed.contains(MutationStep::CredentialRemove) {
            self.forget(settled)
        } else {
            (
                Model { stage: Stage::RemovingCredential, ..self },
                settled,
                Action::RemoveCredential { detail: self.credential_path },
            )
        }
    }

    /// The record of the endpoint is next.
    pub open spec fn forget(self, settled: Option<MutationState>) -> Outcome {
        (Model { stage: Stage::ForgettingEndpoint, ..self }, settled, Action::ForgetEndpoint)
    }

    /// A step is done.
    pub open spec fn did(self, step: MutationStep) -> Model {
        Model { completed: self.completed.push(step), ..self }
    }

    /// Where a forget begins.
    pub open spec fn begin_forget(completed: Seq<MutationStep>, configuration_path: Text, credential_path: Text) -> Outcome {
        Model {
            intent: MutationIntent::Forget,
            tunnel_id: Seq::empty(),
            record: None,
            located: false,
            secret: Seq::empty(),
            configuration_path,
            credential_path,
            completed,
            stage: Stage::StoppingLocally,
        }.stop_locally(None)
    }

    /// Where a deletion begins: with the authority to delete the DNS record, where
    /// there is one left.
    pub open spec fn begin_deletion(
        tunnel_id: Text,
        dns_record_name: Option<Text>,
        addressed: bool,
        secret: Text,
        completed: Seq<MutationStep>,
        configuration_path: Text,
        credential_path: Text,
    ) -> Outcome {
        let model = Model {
            intent: MutationIntent::DeleteEverywhere,
            tunnel_id,
            record: if completed.contains(MutationStep::DnsRecordDelete) { None } else { dns_record_name },
            located: addressed,
            secret,
            configuration_path,
            credential_path,
            completed,
            stage: Stage::Authorizing,
        };
        match model.record {
            Some(_) => (model, None, Action::Authorize),
            None => Model { located: false, ..model }.confirm(),
        }
    }

    /// Whether this answers what the removal waits for.
    pub open spec fn expects(self, event: Event<Refused>) -> bool {
        match self.stage {
            Stage::Authorizing => event is Tried && self.record is Some,
            Stage::Looking => event is Located && self.record is Some,
            Stage::Remembering => event is Wrote,
            Stage::Confirming => event is Spent,
            Stage::Stopping => event is Wrote,
            Stage::DeletingRecord => event is Tried,
            Stage::DeletingTunnel => event is Tried,
            Stage::StoppingLocally => event is Wrote,
            Stage::RemovingConfiguration => event is Tried,
            Stage::RemovingCredential => event is Tried,
            Stage::ForgettingEndpoint => event is Wrote,
            Stage::ForgettingSelection => event is Tried,
            Stage::Over => false,
        }
    }

    /// What an event means.
    pub open spec fn step(self, event: Event<Refused>) -> Outcome {
        match (self.stage, event) {
            (Stage::Authorizing, Event::Tried(Err(refusal))) => self.refused(None, refusal),
            (Stage::Authorizing, Event::Tried(Ok(_))) => if self.located {
                self.confirm()
            } else {
                (Model { stage: Stage::Looking, ..self }, None, Action::Lookup { record: self.record->0 })
            },
            (Stage::Looking, Event::Located(Err(refusal))) => self.refused(None, refusal),
            (Stage::Looking, Event::Located(Ok(found))) => if found {
                (
                    Model { located: true, stage: Stage::Remembering, ..self },
                    None,
                    Action::Remember { record: self.record->0 },
                )
            } else {
                self.confirm()
            },
            (Stage::Remembering, Event::Wrote(_)) => self.confirm(),
            (Stage::Confirming, Event::Spent(spent)) => if spent {
                (Model { stage: Stage::Stopping, ..self }, None, Action::StopConnector)
            } else {
                self.over(None, Answer::Unconfirmed)
            },
            (Stage::Stopping, Event::Wrote(stopped)) => if stopped {
                self.delete_record(None)
            } else {
                self.refused(None, unstoppable())
            },
            (Stage::DeletingRecord, Event::Tried(Ok(_))) => self.did(MutationStep::DnsRecordDelete).delete_tunnel(
                Some(MutationState::Completed),
            ),
            (Stage::DeletingTunnel, Event::Tried(Ok(_))) => self.did(MutationStep::TunnelDelete).stop_locally(
                Some(MutationState::Completed),
            ),
            (Stage::StoppingLocally, Event::Wrote(stopped)) => if stopped {
                self.remove_configuration(None)
            } else {
                self.over(None, Answer::Refused(unstoppable().redacting(self.secret)))
            },
            (Stage::RemovingConfiguration, Event::Tried(Ok(_))) => self.did(
                MutationStep::ConfigurationRemove,
            ).remove_credential(Some(MutationState::Completed)),
            (Stage::RemovingCredential, Event::Tried(Ok(_))) => self.did(MutationStep::CredentialRemove).forget(
                Some(MutationState::Completed),
            ),
            (Stage::DeletingRecord, Event::Tried(Err(refusal))) => self.refused(Some(MutationState::Failed), refusal),
            (Stage::DeletingTunnel, Event::Tried(Err(refusal))) => self.refused(Some(MutationState::Failed), refusal),
            (Stage::RemovingConfiguration, Event::Tried(Err(refusal))) => self.refused(
                Some(MutationState::Failed),
                refusal,
            ),
            (Stage::RemovingCredential, Event::Tried(Err(refusal))) => self.refused(
                Some(MutationState::Failed),
                refusal,
            ),
            (Stage::ForgettingEndpoint, Event::Wrote(written)) => if written {
                (Model { stage: Stage::ForgettingSelection, ..self }, None, Action::ForgetSelection)
            } else {
                self.over(None, Answer::Failed)
            },
            (Stage::ForgettingSelection, Event::Tried(Err(refusal))) => self.over(
                None,
                Answer::Refused(refusal.redacting(self.secret)),
            ),
            (Stage::ForgettingSelection, Event::Tried(Ok(_))) => self.over(None, Answer::Done),
            (_, _) => self.over(None, Answer::Failed),
        }
    }
}

// ---------------------------------------------------------------------------
// The removal
// ---------------------------------------------------------------------------

/// A removal in progress.
#[derive(Debug)]
pub struct Removal {
    pub cleanup: Cleanup,
    pub tunnel_id: String,
    pub record: Option<String>,
    pub located: bool,
    pub secret: String,
    pub configuration_path: String,
    pub credential_path: String,
    pub stage: Stage,
}

impl View for Removal {
    type V = Model;

    open spec fn view(&self) -> Model {
        Model {
            intent: self.cleanup.intent,
            tunnel_id: self.tunnel_id@,
            record: text::maybe(self.record),
            located: self.located,
            secret: self.secret@,
            configuration_path: self.configuration_path@,
            credential_path: self.credential_path@,
            completed: self.cleanup.completed@,
            stage: self.stage,
        }
    }
}

/// How the step that just ended is settled, and what to do next.
#[derive(Debug)]
pub struct Turn {
    pub settled: Option<MutationState>,
    pub action: Action<String, Refusal>,
}

impl Turn {
    /// Whether this turn, and the state it leaves, are the outcome given.
    pub open spec fn meets(&self, state: Model, outcome: Outcome) -> bool {
        &&& state =~~= outcome.0
        &&& self.settled == outcome.1
        &&& self.action@ =~~= outcome.2
    }
}

/// What is said when the connector will not stop.
fn stop_refusal() -> (out: Refusal)
    ensures
        out@ == unstoppable(),
{
    let out = Refusal::rejected(
        RefusalReason::LocalSetupFailed,
        "laplus could not stop its Cloudflare connector, so it did not remove the configuration and credential it is running from.",
    );
    proof {
        assert(out@ =~= unstoppable());
    }
    out
}

fn redact(refusal: Refusal, secret: &str) -> (out: Refusal)
    ensures
        out@ == refusal@.redacting(secret@),
{
    let out = refusal.redacting(secret);
    proof {
        assert(out@ =~= refusal@.redacting(secret@));
    }
    out
}

impl Removal {
    /// Begins a forget.
    pub fn forget(cleanup: Cleanup, configuration_path: String, credential_path: String) -> (out: (Removal, Turn))
        requires
            cleanup.intent == MutationIntent::Forget,
        ensures
            out.1.meets(
                out.0@,
                Model::begin_forget(cleanup.completed@, configuration_path@, credential_path@),
            ),
    {
        let removal = Removal {
            cleanup,
            tunnel_id: String::new(),
            record: None,
            located: false,
            secret: String::new(),
            configuration_path,
            credential_path,
            stage: Stage::StoppingLocally,
        };
        (removal, Turn { settled: None, action: Action::StopConnector })
    }

    /// Begins the deletion of a tunnel that has been offered. `addressed` says
    /// whether it is known where its DNS record is.
    pub fn delete(
        cleanup: Cleanup,
        tunnel_id: String,
        dns_record_name: Option<String>,
        addressed: bool,
        secret: String,
        configuration_path: String,
        credential_path: String,
    ) -> (out: (Removal, Turn))
        requires
            cleanup.intent == MutationIntent::DeleteEverywhere,
        ensures
            out.1.meets(
                out.0@,
                Model::begin_deletion(
                    tunnel_id@,
                    text::maybe(dns_record_name),
                    addressed,
                    secret@,
                    cleanup.completed@,
                    configuration_path@,
                    credential_path@,
                ),
            ),
    {
        let record = if cleanup.holds(MutationStep::DnsRecordDelete) { None } else { dns_record_name };
        let outstanding: bool = record.is_some();
        let mut removal = Removal {
            cleanup,
            tunnel_id,
            record,
            located: addressed && outstanding,
            secret,
            configuration_path,
            credential_path,
            stage: Stage::Authorizing,
        };
        if outstanding {
            (removal, Turn { settled: None, action: Action::Authorize })
        } else {
            let turn = removal.confirm();
            (removal, turn)
        }
    }

    fn over(&mut self, settled: Option<MutationState>, answer: Answer<Refusal>) -> (out: Turn)
        ensures
            out.meets(final(self)@, old(self)@.over(settled, answer@)),
    {
        self.stage = Stage::Over;
        Turn { settled, action: Action::Answer(answer) }
    }

    fn refused(&mut self, settled: Option<MutationState>, refusal: Refusal) -> (out: Turn)
        ensures
            out.meets(final(self)@, old(self)@.refused(settled, refusal@)),
    {
        let named = self.cleanup.refusing(refusal);
        let told = redact(named, &self.secret);
        self.over(settled, Answer::Refused(told))
    }

    fn confirm(&mut self) -> (out: Turn)
        ensures
            out.meets(final(self)@, old(self)@.confirm()),
    {
        self.stage = Stage::Confirming;
        Turn { settled: None, action: Action::Spend { tunnel_id: self.tunnel_id.clone() } }
    }

    fn delete_record(&mut self, settled: Option<MutationState>) -> (out: Turn)
        ensures
            out.meets(final(self)@, old(self)@.delete_record(settled)),
    {
        if self.cleanup.holds(MutationStep::DnsRecordDelete) {
            self.delete_tunnel(settled)
        } else {
            self.stage = Stage::DeletingRecord;
            Turn {
                settled,
                action: Action::DeleteRecord { detail: text::copy_maybe(&self.record), located: self.located },
            }
        }
    }

    fn delete_tunnel(&mut self, settled: Option<MutationState>) -> (out: Turn)
        ensures
            out.meets(final(self)@, old(self)@.delete_tunnel(settled)),
    {
        if self.cleanup.holds(MutationStep::TunnelDelete) {
            self.stop_locally(settled)
        } else {
            self.stage = Stage::DeletingTunnel;
            Turn { settled, action: Action::DeleteTunnel { tunnel_id: self.tunnel_id.clone() } }
        }
    }

    fn stop_locally(&mut self, settled: Option<MutationState>) -> (out: Turn)
        ensures
            out.meets(final(self)@, old(self)@.stop_locally(settled)),
    {
        self.stage = Stage::StoppingLocally;
        Turn { settled, action: Action::StopConnector }
    }

    fn remove_configuration(&mut self, settled: Option<MutationState>) -> (out: Turn)
        ensures
            out.meets(final(self)@, old(self)@.remove_configuration(settled)),
    {
        if self.cleanup.holds(MutationStep::ConfigurationRemove) {
            self.remove_credential(settled)
        } else {
            self.stage = Stage::RemovingConfiguration;
            Turn { settled, action: Action::RemoveConfiguration { detail: self.configuration_path.clone() } }
        }
    }

    fn remove_credential(&mut self, settled: Option<MutationState>) -> (out: Turn)
        ensures
            out.meets(final(self)@, old(self)@.remove_credential(settled)),
    {
        if self.cleanup.holds(MutationStep::CredentialRemove) {
            self.forget_endpoint(settled)
        } else {
            self.stage = Stage::RemovingCredential;
            Turn { settled, action: Action::RemoveCredential { detail: self.credential_path.clone() } }
        }
    }

    fn forget_endpoint(&mut self, settled: Option<MutationState>) -> (out: Turn)
        ensures
            out.meets(final(self)@, old(self)@.forget(settled)),
    {
        self.stage = Stage::ForgettingEndpoint;
        Turn { settled, action: Action::ForgetEndpoint }
    }

    /// A step that can be refused is over.
    fn tried(&mut self, outcome: Result<(), Refusal>) -> (out: Turn)
        requires
            old(self)@.expects(Event::Tried(tunnels::tried(outcome))),
        ensures
            out.meets(final(self)@, old(self)@.step(Event::Tried(tunnels::tried(outcome)))),
    {
        match outcome {
            Err(refusal) => match self.stage {
                Stage::Authorizing => self.refused(None, refusal),
                Stage::ForgettingSelection => {
                    let told = redact(refusal, &self.secret);
                    self.over(None, Answer::Refused(told))
                },
                _ => self.refused(Some(MutationState::Failed), refusal),
            },
            Ok(_) => match self.stage {
                Stage::Authorizing => {
                    if self.located {
                        self.confirm()
                    } else {
                        self.stage = Stage::Looking;
                        let record = self.outstanding();
                        Turn { settled: None, action: Action::Lookup { record } }
                    }
                },
                Stage::DeletingRecord => {
                    self.cleanup.did(MutationStep::DnsRecordDelete);
                    self.delete_tunnel(Some(MutationState::Completed))
                },
                Stage::DeletingTunnel => {
                    self.cleanup.did(MutationStep::TunnelDelete);
                    self.stop_locally(Some(MutationState::Completed))
                },
                Stage::RemovingConfiguration => {
                    self.cleanup.did(MutationStep::ConfigurationRemove);
                    self.remove_credential(Some(MutationState::Completed))
                },
                Stage::RemovingCredential => {
                    self.cleanup.did(MutationStep::CredentialRemove);
                    self.forget_endpoint(Some(MutationState::Completed))
                },
                Stage::ForgettingSelection => self.over(None, Answer::Done),
                _ => self.over(None, Answer::Failed),
            },
        }
    }

    fn outstanding(&self) -> (out: String)
        requires
            self.record is Some,
        ensures
            Some(out@) == text::maybe(self.record),
    {
        match &self.record {
            Some(record) => record.clone(),
            None => String::new(),
        }
    }

    /// Takes what came of the last thing, and says what to do next.
    pub fn step(&mut self, event: Event<Refusal>) -> (out: Turn)
        requires
            old(self)@.expects(event@),
        ensures
            out.meets(final(self)@, old(self)@.step(event@)),
    {
        match event {
            Event::Tried(outcome) => self.tried(outcome),
            Event::Located(Err(refusal)) => self.refused(None, refusal),
            Event::Located(Ok(found)) => {
                if found {
                    self.located = true;
                    self.stage = Stage::Remembering;
                    let record = self.outstanding();
                    Turn { settled: None, action: Action::Remember { record } }
                } else {
                    self.confirm()
                }
            },
            Event::Spent(spent) => {
                if spent {
                    self.stage = Stage::Stopping;
                    Turn { settled: None, action: Action::StopConnector }
                } else {
                    self.over(None, Answer::Unconfirmed)
                }
            },
            Event::Wrote(written) => match self.stage {
                Stage::Remembering => self.confirm(),
                Stage::Stopping => {
                    if written {
                        self.delete_record(None)
                    } else {
                        self.refused(None, stop_refusal())
                    }
                },
                Stage::StoppingLocally => {
                    if written {
                        self.remove_configuration(None)
                    } else {
                        let told = redact(stop_refusal(), &self.secret);
                        self.over(None, Answer::Refused(told))
                    }
                },
                _ => {
                    if written {
                        self.stage = Stage::ForgettingSelection;
                        Turn { settled: None, action: Action::ForgetSelection }
                    } else {
                        self.over(None, Answer::Failed)
                    }
                },
            },
        }
    }
}

// ---------------------------------------------------------------------------
// What a removal promises
// ---------------------------------------------------------------------------

/// The stages that only a deletion has.
pub open spec fn beyond_a_forget(stage: Stage) -> bool {
    stage is Authorizing || stage is Looking || stage is Remembering || stage is Confirming || stage is Stopping
        || stage is DeletingRecord || stage is DeletingTunnel
}

/// Whether an action changes something at Cloudflare.
pub open spec fn at_cloudflare(action: Action<Text, Refused>) -> bool {
    action is DeleteRecord || action is DeleteTunnel
}

/// What every reachable removal keeps: a forget is never where only a deletion can
/// be, and a step is in progress only when every earlier one is done and it is
/// not.
pub open spec fn sound(m: Model) -> bool {
    &&& m.intent == MutationIntent::Forget || m.intent == MutationIntent::DeleteEverywhere
    &&& beyond_a_forget(m.stage) ==> m.intent == MutationIntent::DeleteEverywhere
    &&& m.stage is DeletingRecord ==> !m.completed.contains(MutationStep::DnsRecordDelete)
    &&& m.stage is DeletingTunnel ==> m.completed.contains(MutationStep::DnsRecordDelete) && !m.completed.contains(
        MutationStep::TunnelDelete,
    )
    &&& m.intent == MutationIntent::DeleteEverywhere && !beyond_a_forget(m.stage) && !(m.stage is Over)
        ==> m.completed.contains(MutationStep::DnsRecordDelete) && m.completed.contains(MutationStep::TunnelDelete)
    &&& m.stage is RemovingConfiguration ==> !m.completed.contains(MutationStep::ConfigurationRemove)
    &&& m.stage is RemovingCredential ==> m.completed.contains(MutationStep::ConfigurationRemove)
        && !m.completed.contains(MutationStep::CredentialRemove)
    &&& (m.stage is ForgettingEndpoint || m.stage is ForgettingSelection) ==> m.completed.contains(
        MutationStep::ConfigurationRemove,
    ) && m.completed.contains(MutationStep::CredentialRemove)
}

proof fn pushing_keeps(completed: Seq<MutationStep>, step: MutationStep)
    ensures
        forall|other: MutationStep|
            #[trigger] completed.push(step).contains(other) == (other == step || completed.contains(other)),
{
    assert forall|other: MutationStep| #[trigger] completed.push(step).contains(other) == (other == step
        || completed.contains(other)) by {
        if completed.contains(other) {
            let i = choose|i: int| 0 <= i < completed.len() && completed[i] == other;
            assert(completed.push(step)[i] == other);
        }
        assert(completed.push(step)[completed.len() as int] == step);
    }
}

/// Every removal begins sound.
pub proof fn a_removal_begins_sound(
    tunnel_id: Text,
    dns_record_name: Option<Text>,
    addressed: bool,
    secret: Text,
    completed: Seq<MutationStep>,
    configuration_path: Text,
    credential_path: Text,
)
    ensures
        sound(Model::begin_forget(completed, configuration_path, credential_path).0),
        sound(
            Model::begin_deletion(
                tunnel_id,
                dns_record_name,
                addressed,
                secret,
                completed,
                configuration_path,
                credential_path,
            ).0,
        ),
{
}

/// Every step keeps a removal sound.
pub proof fn every_step_keeps_a_removal_sound(m: Model, event: Event<Refused>)
    requires
        sound(m),
        m.expects(event),
    ensures
        sound(m.step(event).0),
{
    pushing_keeps(m.completed, MutationStep::DnsRecordDelete);
    pushing_keeps(m.completed, MutationStep::TunnelDelete);
    pushing_keeps(m.completed, MutationStep::ConfigurationRemove);
    pushing_keeps(m.completed, MutationStep::CredentialRemove);
}

/// A forget changes nothing at Cloudflare, at any point of it.
pub proof fn a_forget_never_touches_cloudflare(m: Model, event: Event<Refused>)
    requires
        sound(m),
        m.intent == MutationIntent::Forget,
        m.expects(event),
    ensures
        !at_cloudflare(m.step(event).2),
        m.step(event).0.intent == MutationIntent::Forget,
{
}

/// Nothing is stopped, deleted or removed by a deletion before its confirmation
/// was spent: until then it only reads.
pub proof fn a_deletion_only_reads_until_it_is_confirmed(m: Model, event: Event<Refused>)
    requires
        m.stage is Authorizing || m.stage is Looking || m.stage is Remembering || m.stage is Confirming,
        m.expects(event),
    ensures
        ({
            let action = m.step(event).2;
            ||| action is Lookup || action is Remember || action is Spend || action is Answer
            ||| m.stage is Confirming && event == Event::<Refused>::Spent(true) && action is StopConnector
        }),
        m.step(event).1 is None,
        m.step(event).0.completed == m.completed,
{
}

/// A deletion that was not confirmed ends there.
pub proof fn an_unconfirmed_deletion_ends(m: Model)
    requires
        m.stage is Confirming,
    ensures
        m.step(Event::Spent(false)).2 == Action::<Text, Refused>::Answer(Answer::Unconfirmed),
        m.step(Event::Spent(false)).0.stage is Over,
{
}

/// No step is repeated, and the DNS record goes before the tunnel.
pub proof fn no_step_is_repeated(m: Model, event: Event<Refused>)
    requires
        sound(m),
        m.expects(event),
    ensures
        ({
            let (next, _, action) = m.step(event);
            &&& action is DeleteRecord ==> !next.completed.contains(MutationStep::DnsRecordDelete)
            &&& action is DeleteTunnel ==> next.completed.contains(MutationStep::DnsRecordDelete)
                && !next.completed.contains(MutationStep::TunnelDelete)
            &&& action is RemoveConfiguration ==> !next.completed.contains(MutationStep::ConfigurationRemove)
            &&& action is RemoveCredential ==> next.completed.contains(MutationStep::ConfigurationRemove)
                && !next.completed.contains(MutationStep::CredentialRemove)
        }),
{
    every_step_keeps_a_removal_sound(m, event);
}

/// A tunnel that is deleted is the one the deletion was begun for.
pub proof fn a_deletion_deletes_its_own_tunnel(m: Model, event: Event<Refused>)
    requires
        m.expects(event),
    ensures
        m.step(event).2 matches Action::DeleteTunnel { tunnel_id } ==> tunnel_id == m.tunnel_id,
        m.step(event).0.tunnel_id == m.tunnel_id,
{
}

/// A removal that answers that it is done has done every step of it.
pub proof fn a_finished_removal_left_nothing(m: Model, event: Event<Refused>)
    requires
        sound(m),
        m.expects(event),
        m.step(event).2 == Action::<Text, Refused>::Answer(Answer::Done),
    ensures
        tunnels::remaining(tunnels::steps_of(m.intent), m.completed).len() == 0,
{
    let steps = tunnels::steps_of(m.intent);
    let left = tunnels::remaining(steps, m.completed);
    assert(m.stage is ForgettingSelection);
    assert forall|step: MutationStep| steps.contains(step) implies m.completed.contains(step) by {
        let i = choose|i: int| 0 <= i < steps.len() && steps[i] == step;
        assert(steps[i] == step);
    }
    tunnels::done_and_left_are_all_of_it(steps, m.completed);
    if left.len() > 0 {
        assert(left.contains(left[0]));
    }
}

} // verus!
