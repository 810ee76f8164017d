//! Dedicating an inactive existing tunnel to this environment.
//!
//! The offer is evidence about the past: a connector can start between the listing
//! and the button, so activity is read again before the first mutation, and a
//! tunnel that has become active is registered as somebody else's. A repeat is a
//! reconciliation: a tunnel laplus already runs is not read as active. And a
//! partial adoption resumes: a credential on disk is the mutation having happened.

use crate::public_exposure::{MutationIntent, MutationState, MutationStep, Refusal, RefusalReason, TunnelOwnership};
use crate::text;
use crate::tunnels;
use crate::tunnels::{Answer, Endpoint, Refused, Text};
use vstd::prelude::*;

verus! {

/// The tunnel that was chosen from the listing.
#[derive(Debug, PartialEq, Eq)]
pub struct Selection<S> {
    pub tunnel_id: S,
    pub https_origin: S,
    /// Whether it was inactive when it was listed.
    pub adoptable: bool,
}

/// What is known before anything is done.
#[derive(Debug, PartialEq, Eq)]
pub struct Facts<S> {
    pub selection: Option<Selection<S>>,
    pub recorded: Option<Endpoint<S>>,
    /// The tunnel the connector is configured for.
    pub dedicated_tunnel_id: Option<S>,
    /// Whether the credential on disk is the chosen tunnel's.
    pub credential_held: bool,
    pub credential_path: S,
    pub configuration_path: S,
}

/// What to do next.
#[derive(Debug, PartialEq, Eq)]
pub enum Action<S, R> {
    /// Read again whether the tunnel is active: [`Event::Rechecked`].
    Recheck { tunnel_id: S },
    /// Mark the selection as somebody else's: [`Event::Tried`].
    Reclassify,
    /// Record the hostname as somebody else's and begin to verify it:
    /// [`Event::Wrote`].
    RecordExternal { https_origin: S },
    /// Journal and retrieve the run credential: [`Event::Tried`].
    Retrieve { tunnel_id: S, detail: S },
    /// Journal and write the configuration: [`Event::Tried`].
    Configure { tunnel_id: S, https_origin: S, detail: S },
    /// Record the endpoint: [`Event::Wrote`].
    Register { endpoint: Endpoint<S>, credential_path: S, configuration_path: S },
    /// Confirm the adoption to the account: [`Event::Tried`].
    Confirm,
    /// Do what [`tunnels::finish`] says of an adoption, and answer.
    Answer(Answer<R>),
}

/// What came of it.
#[derive(Debug, PartialEq, Eq)]
pub enum Event<R> {
    /// Whether the tunnel is active.
    Rechecked(Result<bool, R>),
    Tried(Result<(), R>),
    Wrote(bool),
}

/// Where the adoption is.
#[derive(Debug, Clone, Copy, PartialEq, Eq, Structural)]
pub enum Stage {
    Rechecking,
    Reclassifying,
    RecordingExternal,
    Retrieving,
    Configuring,
    Registering,
    Confirming,
    Over,
}

impl View for Selection<String> {
    type V = Selection<Text>;

    open spec fn view(&self) -> Selection<Text> {
        Selection { tunnel_id: self.tunnel_id@, https_origin: self.https_origin@, adoptable: self.adoptable }
    }
}

impl View for Facts<String> {
    type V = Facts<Text>;

    open spec fn view(&self) -> Facts<Text> {
        Facts {
            selection: match self.selection {
                Some(selection) => Some(selection@),
                None => None,
            },
            recorded: tunnels::endpoint_view(self.recorded),
            dedicated_tunnel_id: text::maybe(self.dedicated_tunnel_id),
            credential_held: self.credential_held,
            credential_path: self.credential_path@,
            configuration_path: self.configuration_path@,
        }
    }
}

impl View for Action<String, Refusal> {
    type V = Action<Text, Refused>;

    open spec fn view(&self) -> Action<Text, Refused> {
        match *self {
            Action::Recheck { tunnel_id } => Action::Recheck { tunnel_id: tunnel_id@ },
            Action::Reclassify => Action::Reclassify,
            Action::RecordExternal { https_origin } => Action::RecordExternal { https_origin: https_origin@ },
            Action::Retrieve { tunnel_id, detail } => Action::Retrieve { tunnel_id: tunnel_id@, detail: detail@ },
            Action::Configure { tunnel_id, https_origin, detail } => Action::Configure {
                tunnel_id: tunnel_id@,
                https_origin: https_origin@,
                detail: detail@,
            },
            Action::Register { endpoint, credential_path, configuration_path } => Action::Register {
                endpoint: endpoint@,
                credential_path: credential_path@,
                configuration_path: configuration_path@,
            },
            Action::Confirm => Action::Confirm,
            Action::Answer(answer) => Action::Answer(answer@),
        }
    }
}

impl View for Event<Refusal> {
    type V = Event<Refused>;

    open spec fn view(&self) -> Event<Refused> {
        match *self {
            Event::Rechecked(Ok(active)) => Event::Rechecked(Ok(active)),
            Event::Rechecked(Err(refusal)) => Event::Rechecked(Err(refusal@)),
            Event::Tried(outcome) => Event::Tried(tunnels::tried(outcome)),
            Event::Wrote(written) => Event::Wrote(written),
        }
    }
}

// ---------------------------------------------------------------------------
// What an adoption means
// ---------------------------------------------------------------------------

/// An adoption in progress, as the contracts see it.
#[verifier::ext_equal]
pub struct Model {
    pub selection: Selection<Text>,
    pub credential_path: Text,
    pub configuration_path: Text,
    pub completed: Seq<MutationStep>,
    pub stage: Stage,
}

/// The next state, how the step that just ended is settled, and what to do.
pub type Outcome = (Model, Option<MutationState>, Action<Text, Refused>);

/// Why an adoption does not begin.
pub open spec fn obstacle(facts: Facts<Text>) -> Option<Refused> {
    match facts.selection {
        None => Some(
            Refused::precondition(
                RefusalReason::SelectionStale,
                "Choose a tunnel and give its hostname before dedicating one."@,
            ),
        ),
        Some(selection) => if !selection.adoptable {
            Some(
                Refused::precondition(
                    RefusalReason::OwnershipConflict,
                    "That tunnel is already serving connections, so it is externally managed. laplus can verify and advertise its hostname but never operate it."@,
                ),
            )
        } else {
            match facts.recorded {
                Some(endpoint) => if endpoint.ownership != TunnelOwnership::External && endpoint.tunnel_id != Some(
                    selection.tunnel_id,
                ) {
                    Some(
                        Refused::precondition(
                            RefusalReason::OwnershipConflict,
                            "This environment already has a "@ + endpoint.ownership.word()
                                + " Cloudflare tunnel. Forget it before dedicating another."@,
                        ),
                    )
                } else {
                    None
                },
                None => None,
            }
        },
    }
}

/// Whether laplus already runs the chosen tunnel, by either record of it.
pub open spec fn already_running(facts: Facts<Text>, tunnel_id: Text) -> bool {
    ||| facts.recorded matches Some(endpoint) && endpoint.ownership == TunnelOwnership::Adopted && endpoint.tunnel_id
        == Some(tunnel_id)
    ||| facts.dedicated_tunnel_id == Some(tunnel_id)
}

/// What is said when a connector started serving the tunnel meanwhile.
pub open spec fn became_active(completed: Seq<MutationStep>) -> Refused {
    Refused::precondition(
        RefusalReason::TunnelBecameActive,
        "A connector started serving that tunnel, so it is externally managed. laplus registered the hostname as an external tunnel endpoint instead and will verify and advertise it without operating the tunnel."@,
    ).after(tunnels::adoption_steps(), completed)
}

impl Model {
    /// The adoption is over.
    pub open spec fn over(self, settled: Option<MutationState>, answer: Answer<Refused>) -> Outcome {
        (Model { stage: Stage::Over, ..self }, settled, Action::Answer(answer))
    }

    /// The mutations, each skipped where it has happened.
    pub open spec fn proceed(self, settled: Option<MutationState>) -> Outcome {
        if !self.completed.contains(MutationStep::Credential) {
            (
                Model { stage: Stage::Retrieving, ..self },
                settled,
                Action::Retrieve { tunnel_id: self.selection.tunnel_id, detail: self.credential_path },
            )
        } else {
            (
                Model { stage: Stage::Configuring, ..self },
                settled,
                Action::Configure {
                    tunnel_id: self.selection.tunnel_id,
                    https_origin: self.selection.https_origin,
                    detail: self.configuration_path,
                },
            )
        }
    }

    /// Where an adoption that meets no obstacle begins.
    pub open spec fn begin(facts: Facts<Text>) -> Outcome {
        let selection = facts.selection->0;
        let model = Model {
            selection,
            credential_path: facts.credential_path,
            configuration_path: facts.configuration_path,
            completed: if facts.credential_held { seq![MutationStep::Credential] } else { Seq::empty() },
            stage: Stage::Rechecking,
        };
        if already_running(facts, selection.tunnel_id) {
            model.proceed(None)
        } else {
            (model, None, Action::Recheck { tunnel_id: selection.tunnel_id })
        }
    }

    /// What the adopted tunnel is recorded as: configured and run by laplus, and
    /// neither allocated nor routed by it.
    pub open spec fn endpoint(self) -> Endpoint<Text> {
        Endpoint {
            https_origin: self.selection.https_origin,
            ownership: TunnelOwnership::Adopted,
            tunnel_id: Some(self.selection.tunnel_id),
            dns_record_name: None,
        }
    }

    /// Whether this answers what the adoption waits for.
    pub open spec fn expects(self, event: Event<Refused>) -> bool {
        match self.stage {
            Stage::Rechecking => event is Rechecked,
            Stage::Reclassifying => event is Tried,
            Stage::RecordingExternal => event is Wrote,
            Stage::Retrieving => event is Tried,
            Stage::Configuring => event is Tried,
            Stage::Registering => event is Wrote,
            Stage::Confirming => event is Tried,
            Stage::Over => false,
        }
    }

    /// What an event means.
    pub open spec fn step(self, event: Event<Refused>) -> Outcome {
        match (self.stage, event) {
            (Stage::Rechecking, Event::Rechecked(Err(refusal))) => self.over(None, Answer::Refused(refusal)),
            (Stage::Rechecking, Event::Rechecked(Ok(active))) => if active {
                (Model { stage: Stage::Reclassifying, ..self }, None, Action::Reclassify)
            } else {
                self.proceed(None)
            },
            (Stage::Reclassifying, Event::Tried(Err(refusal))) => self.over(None, Answer::Refused(refusal)),
            (Stage::Reclassifying, Event::Tried(Ok(_))) => (
                Model { stage: Stage::RecordingExternal, ..self },
                None,
                Action::RecordExternal { https_origin: self.selection.https_origin },
            ),
            (Stage::RecordingExternal, Event::Wrote(written)) => if written {
                self.over(None, Answer::Refused(became_active(self.completed)))
            } else {
                self.over(None, Answer::Failed)
            },
            (Stage::Retrieving, Event::Tried(Err(refusal))) => self.over(
                Some(MutationState::Failed),
                Answer::Refused(refusal.after(tunnels::adoption_steps(), self.completed)),
            ),
            (Stage::Retrieving, Event::Tried(Ok(_))) => Model {
                completed: self.completed.push(MutationStep::Credential),
                ..self
            }.proceed(Some(MutationState::Completed)),
            (Stage::Configuring, Event::Tried(Err(refusal))) => self.over(
                Some(MutationState::Failed),
                Answer::Refused(refusal.after(tunnels::adoption_steps(), self.completed)),
            ),
            (Stage::Configuring, Event::Tried(Ok(_))) => (
                Model {
                    completed: self.completed.push(MutationStep::Configuration),
                    stage: Stage::Registering,
                    ..self
                },
                Some(MutationState::Completed),
                Action::Register {
                    endpoint: self.endpoint(),
                    credential_path: self.credential_path,
                    configuration_path: self.configuration_path,
                },
            ),
            (Stage::Registering, Event::Wrote(written)) => if written {
                (Model { stage: Stage::Confirming, ..self }, None, Action::Confirm)
            } else {
                self.over(None, Answer::Failed)
            },
            (Stage::Confirming, Event::Tried(Err(refusal))) => self.over(None, Answer::Refused(refusal)),
            (Stage::Confirming, Event::Tried(Ok(_))) => self.over(None, Answer::Done),
            (_, _) => self.over(None, Answer::Failed),
        }
    }
}

// ---------------------------------------------------------------------------
// The adoption
// ---------------------------------------------------------------------------

/// An adoption in progress.
#[derive(Debug)]
pub struct Adoption {
    pub selection: Selection<String>,
    pub credential_path: String,
    pub configuration_path: String,
    pub completed: Vec<MutationStep>,
    pub stage: Stage,
}

impl View for Adoption {
    type V = Model;

    open spec fn view(&self) -> Model {
        Model {
            selection: self.selection@,
            credential_path: self.credential_path@,
            configuration_path: self.configuration_path@,
            completed: self.completed@,
            stage: self.stage,
        }
    }
}

/// How the step that just ended is settled, and what to do next.
#[derive(Debug)]
pub struct Turn {
    pub settled: Option<MutationState>,
    pub action: Action<String, Refusal>,
}

impl Turn {
    /// Whether this turn, and the state it leaves, are the outcome given.
    pub open spec fn meets(&self, state: Model, outcome: Outcome) -> bool {
        &&& state =~~= outcome.0
        &&& self.settled == outcome.1
        &&& self.action@ =~~= outcome.2
    }
}

fn refuse(reason: RefusalReason, message: &str) -> (out: Refusal)
    ensures
        out@ == Refused::precondition(reason, message@),
{
    let out = Refusal::precondition(reason, message);
    proof {
        assert(out@ =~= Refused::precondition(reason, message@));
    }
    out
}

impl Adoption {
    /// Begins an adoption, or says why it does not begin.
    pub fn begin(facts: Facts<String>) -> (out: Result<(Adoption, Turn), Refusal>)
        ensures
            match out {
                Err(refusal) => obstacle(facts@) == Some(refusal@),
                Ok((adoption, turn)) => obstacle(facts@) is None && turn.meets(adoption@, Model::begin(facts@)),
            },
    {
        let selection = match facts.selection {
            Some(selection) => selection,
            None => {
                return Err(
                    refuse(
                        RefusalReason::SelectionStale,
                        "Choose a tunnel and give its hostname before dedicating one.",
                    ),
                );
            },
        };
        if !selection.adoptable {
            return Err(
                refuse(
                    RefusalReason::OwnershipConflict,
                    "That tunnel is already serving connections, so it is externally managed. laplus can verify and advertise its hostname but never operate it.",
                ),
            );
        }
        let mut adopted: bool = false;
        if let Some(endpoint) = &facts.recorded {
            let same: bool = match &endpoint.tunnel_id {
                Some(tunnel_id) => text::same(tunnel_id, &selection.tunnel_id),
                None => false,
            };
            if endpoint.ownership != TunnelOwnership::External && !same {
                let message = text::glue3(
                    "This environment already has a ",
                    endpoint.ownership.as_str(),
                    " Cloudflare tunnel. Forget it before dedicating another.",
                );
                return Err(refuse(RefusalReason::OwnershipConflict, &message));
            }
            adopted = endpoint.ownership == TunnelOwnership::Adopted && same;
        }
        let dedicated: bool = match &facts.dedicated_tunnel_id {
            Some(tunnel_id) => text::same(tunnel_id, &selection.tunnel_id),
            None => false,
        };
        let mut completed: Vec<MutationStep> = Vec::new();
        if facts.credential_held {
            completed.push(MutationStep::Credential);
        }
        let tunnel_id = selection.tunnel_id.clone();
        let mut adoption = Adoption {
            selection,
            credential_path: facts.credential_path,
            configuration_path: facts.configuration_path,
            completed,
            stage: Stage::Rechecking,
        };
        proof {
            assert(adoption@.completed =~= if facts@.credential_held {
                seq![MutationStep::Credential]
            } else {
                Seq::empty()
            });
        }
        if adopted || dedicated {
            let turn = adoption.proceed(None);
            Ok((adoption, turn))
        } else {
            Ok((adoption, Turn { settled: None, action: Action::Recheck { tunnel_id } }))
        }
    }

    fn over(&mut self, settled: Option<MutationState>, answer: Answer<Refusal>) -> (out: Turn)
        ensures
            out.meets(final(self)@, old(self)@.over(settled, answer@)),
    {
        self.stage = Stage::Over;
        Turn { settled, action: Action::Answer(answer) }
    }

    fn refused_after(&mut self, settled: Option<MutationState>, refusal: Refusal) -> (out: Turn)
        ensures
            out.meets(
                final(self)@,
                old(self)@.over(settled, Answer::Refused(refusal@.after(tunnels::adoption_steps(), old(self)@.completed))),
            ),
    {
        let steps = tunnels::mutation_steps(MutationIntent::Adopt);
        let left = tunnels::remaining_steps(&steps, &self.completed);
        let refusal = refusal.after(self.completed.as_slice(), left.as_slice());
        self.over(settled, Answer::Refused(refusal))
    }

    fn proceed(&mut self, settled: Option<MutationState>) -> (out: Turn)
        ensures
            out.meets(final(self)@, old(self)@.proceed(settled)),
    {
        if !tunnels::holds(&self.completed, MutationStep::Credential) {
            self.stage = Stage::Retrieving;
            Turn {
                settled,
                action: Action::Retrieve {
                    tunnel_id: self.selection.tunnel_id.clone(),
                    detail: self.credential_path.clone(),
                },
            }
        } else {
            self.stage = Stage::Configuring;
            Turn {
                settled,
                action: Action::Configure {
                    tunnel_id: self.selection.tunnel_id.clone(),
                    https_origin: self.selection.https_origin.clone(),
                    detail: self.configuration_path.clone(),
                },
            }
        }
    }

    /// Takes what came of the last thing, and says what to do next.
    pub fn step(&mut self, event: Event<Refusal>) -> (out: Turn)
        requires
            old(self)@.expects(event@),
        ensures
            out.meets(final(self)@, old(self)@.step(event@)),
    {
        match (self.stage, event) {
            (Stage::Rechecking, Event::Rechecked(Err(refusal))) => self.over(None, Answer::Refused(refusal)),
            (Stage::Rechecking, Event::Rechecked(Ok(active))) => {
                if active {
                    self.stage = Stage::Reclassifying;
                    Turn { settled: None, action: Action::Reclassify }
                } else {
                    self.proceed(None)
                }
            },
            (Stage::Reclassifying, Event::Tried(Err(refusal))) => self.over(None, Answer::Refused(refusal)),
            (Stage::Reclassifying, Event::Tried(Ok(_))) => {
                self.stage = Stage::RecordingExternal;
                Turn {
                    settled: None,
                    action: Action::RecordExternal { https_origin: self.selection.https_origin.clone() },
                }
            },
            (Stage::RecordingExternal, Event::Wrote(written)) => {
                if written {
                    let refusal = refuse(
                        RefusalReason::TunnelBecameActive,
                        "A connector started serving that tunnel, so it is externally managed. laplus registered the hostname as an external tunnel endpoint instead and will verify and advertise it without operating the tunnel.",
                    );
                    self.refused_after(None, refusal)
                } else {
                    self.over(None, Answer::Failed)
                }
            },
            (Stage::Retrieving, Event::Tried(Err(refusal))) => self.refused_after(
                Some(MutationState::Failed),
                refusal,
            ),
            (Stage::Retrieving, Event::Tried(Ok(_))) => {
                self.completed.push(MutationStep::Credential);
                self.proceed(Some(MutationState::Completed))
            },
            (Stage::Configuring, Event::Tried(Err(refusal))) => self.refused_after(
                Some(MutationState::Failed),
                refusal,
            ),
            (Stage::Configuring, Event::Tried(Ok(_))) => {
                self.completed.push(MutationStep::Configuration);
                self.stage = Stage::Registering;
                Turn {
                    settled: Some(MutationState::Completed),
                    action: Action::Register {
                        endpoint: Endpoint {
                            https_origin: self.selection.https_origin.clone(),
                            ownership: TunnelOwnership::Adopted,
                            tunnel_id: Some(self.selection.tunnel_id.clone()),
                            dns_record_name: None,
                        },
                        credential_path: self.credential_path.clone(),
                        configuration_path: self.configuration_path.clone(),
                    },
                }
            },
            (Stage::Registering, Event::Wrote(written)) => {
                if written {
                    self.stage = Stage::Confirming;
                    Turn { settled: None, action: Action::Confirm }
                } else {
                    self.over(None, Answer::Failed)
                }
            },
            (Stage::Confirming, Event::Tried(Err(refusal))) => self.over(None, Answer::Refused(refusal)),
            (Stage::Confirming, Event::Tried(Ok(_))) => self.over(None, Answer::Done),
            (_, _) => self.over(None, Answer::Failed),
        }
    }
}

// ---------------------------------------------------------------------------
// What an adoption promises
// ---------------------------------------------------------------------------

/// Adoption is not a way to earn a deletion: what it records is always `adopted`,
/// with no DNS record, and is never offered for deletion.
pub proof fn an_adopted_tunnel_is_never_deletable(m: Model, event: Event<Refused>)
    requires
        m.expects(event),
    ensures
        m.step(event).2 matches Action::Register { endpoint, .. } ==> {
            &&& endpoint.ownership == TunnelOwnership::Adopted
            &&& endpoint.dns_record_name is None
            &&& tunnels::deletion_offer(Some(endpoint)) is Err
        },
{
}

/// No step of an adoption is done twice.
pub open spec fn sound(m: Model) -> bool {
    &&& m.completed.no_duplicates()
    &&& forall|i: int| 0 <= i < m.completed.len() ==> tunnels::adoption_steps().contains(#[trigger] m.completed[i])
    &&& m.stage is Retrieving ==> !m.completed.contains(MutationStep::Credential)
    &&& (m.stage is Rechecking || m.stage is Retrieving || m.stage is Configuring || m.stage is Reclassifying
        || m.stage is RecordingExternal) ==> !m.completed.contains(MutationStep::Configuration)
    &&& m.stage is Configuring ==> m.completed.contains(MutationStep::Credential)
}

/// Every adoption begins sound.
pub proof fn an_adoption_begins_sound(facts: Facts<Text>)
    requires
        obstacle(facts) is None,
    ensures
        sound(Model::begin(facts).0),
{
    assert(tunnels::adoption_steps()[0] == MutationStep::Credential);
    let completed: Seq<MutationStep> = if facts.credential_held { seq![MutationStep::Credential] } else { Seq::empty() };
    if facts.credential_held {
        assert(completed[0] == MutationStep::Credential);
    }
}

/// Every step keeps an adoption sound: the credential is retrieved once and
/// before the configuration is written.
pub proof fn every_step_keeps_an_adoption_sound(m: Model, event: Event<Refused>)
    requires
        sound(m),
        m.expects(event),
    ensures
        sound(m.step(event).0),
{
    assert(tunnels::adoption_steps()[0] == MutationStep::Credential);
    assert(tunnels::adoption_steps()[1] == MutationStep::Configuration);
    let credited = m.completed.push(MutationStep::Credential);
    assert(credited[m.completed.len() as int] == MutationStep::Credential);
    assert forall|step: MutationStep| credited.contains(step) == (step == MutationStep::Credential
        || m.completed.contains(step)) by {
        if m.completed.contains(step) {
            let i = choose|i: int| 0 <= i < m.completed.len() && m.completed[i] == step;
            assert(credited[i] == step);
        }
    }
    let configured = m.completed.push(MutationStep::Configuration);
    assert forall|i: int| 0 <= i < credited.len() && m.stage is Retrieving implies tunnels::adoption_steps().contains(
        #[trigger] credited[i],
    ) by {
        if i < m.completed.len() {
            assert(credited[i] == m.completed[i]);
        }
    }
    assert forall|i: int| 0 <= i < configured.len() implies tunnels::adoption_steps().contains(#[trigger] configured[i]) by {
        if i < m.completed.len() {
            assert(configured[i] == m.completed[i]);
        }
    }
}

/// A tunnel that turns out to be active is never configured: its hostname is
/// registered as somebody else's and the request is told so, naming what an
/// earlier attempt left.
pub proof fn an_active_tunnel_is_left_alone(m: Model)
    requires
        m.stage is Rechecking,
    ensures
        ({
            let seen = m.step(Event::Rechecked(Ok(true)));
            let reclassified = seen.0.step(Event::Tried(Ok(())));
            let recorded = reclassified.0.step(Event::Wrote(true));
            &&& seen.2 is Reclassify
            &&& reclassified.2 == (Action::<Text, Refused>::RecordExternal { https_origin: m.selection.https_origin })
            &&& recorded.2 == Action::<Text, Refused>::Answer(Answer::Refused(became_active(m.completed)))
            &&& recorded.0.completed == m.completed
        }),
{
}

/// A tunnel laplus already runs is not looked at for activity, so that its own
/// connections are never read as somebody else's.
pub proof fn a_tunnel_already_run_is_not_rechecked(facts: Facts<Text>)
    requires
        obstacle(facts) is None,
        already_running(facts, facts.selection->0.tunnel_id),
    ensures
        !(Model::begin(facts).2 is Recheck),
{
}

} // verus!
