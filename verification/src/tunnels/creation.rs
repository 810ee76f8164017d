//! Creating a stable tunnel for this environment, routing a hostname to it, and
//! running it.
//!
//! Three mutations at two places, and every one of them can be the last. Each is
//! skipped where what it would produce is there, and what that means differs: the
//! allocation shows in the credential on disk, the route in what is recorded or
//! journaled, the configuration in the connector. Nothing is rolled back, and a
//! repeat is a read.

use crate::public_exposure;
use crate::public_exposure::{MutationIntent, MutationState, MutationStep, Refusal, RefusalReason, TunnelOwnership};
use crate::text;
use crate::tunnels;
use crate::tunnels::{Answer, Endpoint, JournalEntry, Refused, Settlement, Text};
use crate::web;
use vstd::prelude::*;

verus! {

/// What the developer asked for, once both answers have been read.
#[derive(Debug, PartialEq, Eq)]
pub struct Request<S> {
    pub https_origin: S,
    /// The hostname the DNS record is for.
    pub dns_name: S,
    /// What the tunnel is called at Cloudflare.
    pub name: S,
}

/// What is known before anything is done.
#[derive(Debug, PartialEq, Eq)]
pub struct Facts<S, J> {
    pub recorded: Option<Endpoint<S>>,
    pub journal: J,
    /// The tunnel whose credential is on disk.
    pub held: Option<S>,
    /// Whether the connector is configured at all.
    pub configured: bool,
    /// Whether the connector serves the hostname that is asked for.
    pub serves: bool,
    /// The tunnel the connector is configured for.
    pub dedicated_tunnel_id: Option<S>,
    pub credential_path: S,
    pub configuration_path: S,
}

/// What to do next.
#[derive(Debug, PartialEq, Eq)]
pub enum Action<S, R> {
    /// Journal and allocate the tunnel: [`Event::Created`].
    Create { name: S },
    /// Journal and route the hostname: [`Event::Tried`].
    Route { tunnel_id: S, dns_name: S },
    /// Journal and write the configuration: [`Event::Tried`].
    Configure { tunnel_id: S, https_origin: S, detail: S },
    /// Record the endpoint: [`Event::Wrote`].
    Register { endpoint: Endpoint<S>, credential_path: S, configuration_path: S },
    /// Confirm the creation to the account: [`Event::Tried`].
    Confirm { tunnel_id: S, name: S, https_origin: S },
    /// Do what [`tunnels::finish`] says of a creation, and answer.
    Answer(Answer<R>),
}

/// What came of it.
#[derive(Debug, PartialEq, Eq)]
pub enum Event<S, R> {
    /// The tunnel that was allocated; or the refusal, and the tunnel that was
    /// allocated all the same.
    Created(Result<S, (R, Option<S>)>),
    Tried(Result<(), R>),
    Wrote(bool),
}

/// Where the creation is.
#[derive(Debug, PartialEq, Eq)]
pub enum Stage<S> {
    Creating,
    Routing { tunnel_id: S },
    Configuring { tunnel_id: S },
    Registering { tunnel_id: S },
    Confirming,
    Over,
}

impl View for Request<String> {
    type V = Request<Text>;

    open spec fn view(&self) -> Request<Text> {
        Request { https_origin: self.https_origin@, dns_name: self.dns_name@, name: self.name@ }
    }
}

impl View for Facts<String, Vec<JournalEntry<String>>> {
    type V = Facts<Text, Seq<JournalEntry<Text>>>;

    open spec fn view(&self) -> Facts<Text, Seq<JournalEntry<Text>>> {
        Facts {
            recorded: tunnels::endpoint_view(self.recorded),
            journal: tunnels::journal_view(self.journal@),
            held: text::maybe(self.held),
            configured: self.configured,
            serves: self.serves,
            dedicated_tunnel_id: text::maybe(self.dedicated_tunnel_id),
            credential_path: self.credential_path@,
            configuration_path: self.configuration_path@,
        }
    }
}

impl View for Action<String, Refusal> {
    type V = Action<Text, Refused>;

    open spec fn view(&self) -> Action<Text, Refused> {
        match *self {
            Action::Create { name } => Action::Create { name: name@ },
            Action::Route { tunnel_id, dns_name } => Action::Route { tunnel_id: tunnel_id@, dns_name: dns_name@ },
            Action::Configure { tunnel_id, https_origin, detail } => Action::Configure {
                tunnel_id: tunnel_id@,
                https_origin: https_origin@,
                detail: detail@,
            },
            Action::Register { endpoint, credential_path, configuration_path } => Action::Register {
                endpoint: endpoint@,
                credential_path: credential_path@,
                configuration_path: configuration_path@,
            },
            Action::Confirm { tunnel_id, name, https_origin } => Action::Confirm {
                tunnel_id: tunnel_id@,
                name: name@,
                https_origin: https_origin@,
            },
            Action::Answer(answer) => Action::Answer(answer@),
        }
    }
}

impl View for Event<String, Refusal> {
    type V = Event<Text, Refused>;

    open spec fn view(&self) -> Event<Text, Refused> {
        match *self {
            Event::Created(Ok(tunnel_id)) => Event::Created(Ok(tunnel_id@)),
            Event::Created(Err((refusal, tunnel_id))) => Event::Created(Err((refusal@, text::maybe(tunnel_id)))),
            Event::Tried(outcome) => Event::Tried(tunnels::tried(outcome)),
            Event::Wrote(written) => Event::Wrote(written),
        }
    }
}

impl View for Stage<String> {
    type V = Stage<Text>;

    open spec fn view(&self) -> Stage<Text> {
        match *self {
            Stage::Creating => Stage::Creating,
            Stage::Routing { tunnel_id } => Stage::Routing { tunnel_id: tunnel_id@ },
            Stage::Configuring { tunnel_id } => Stage::Configuring { tunnel_id: tunnel_id@ },
            Stage::Registering { tunnel_id } => Stage::Registering { tunnel_id: tunnel_id@ },
            Stage::Confirming => Stage::Confirming,
            Stage::Over => Stage::Over,
        }
    }
}

/// How a step is settled, as the contracts see it.
pub open spec fn settlement_view(settled: Option<Settlement<String>>) -> Option<Settlement<Text>> {
    match settled {
        Some(settled) => Some(Settlement { state: settled.state, detail: text::maybe(settled.detail) }),
        None => None,
    }
}

// ---------------------------------------------------------------------------
// What was asked for
// ---------------------------------------------------------------------------

/// The host of an `https` origin.
pub open spec fn host_of(https_origin: Text) -> Text {
    if "https://"@.is_prefix_of(https_origin) {
        https_origin.skip("https://"@.len() as int)
    } else {
        https_origin
    }
}

/// What a request for a tunnel means: what was asked for, or why not. Both answers
/// are checked before anything runs, the hostname first.
pub open spec fn requested(
    origin: Result<Text, Text>,
    name: Result<Text, Refused>,
) -> Result<Request<Text>, Refused> {
    match (origin, name) {
        (Err(message), _) => Err(Refused::rejected(RefusalReason::HostnameInvalid, message)),
        (Ok(_), Err(refusal)) => Err(refusal),
        (Ok(https_origin), Ok(name)) => Ok(Request { https_origin, dns_name: host_of(https_origin), name }),
    }
}

/// The view of a name that was read, or refused.
pub open spec fn name_view(name: Result<String, Refusal>) -> Result<Text, Refused> {
    match name {
        Ok(name) => Ok(name@),
        Err(refusal) => Err(refusal@),
    }
}

/// The view of a request that was read, or refused.
pub open spec fn request_view(request: Result<Request<String>, Refusal>) -> Result<Request<Text>, Refused> {
    match request {
        Ok(request) => Ok(request@),
        Err(refusal) => Err(refusal@),
    }
}

/// Reads a request for a tunnel: the hostname as it was typed, and the name as it
/// was normalised for Cloudflare.
pub fn read_request(hostname: &str, name: Result<String, Refusal>) -> (out: Result<Request<String>, Refusal>)
    ensures
        request_view(out) == requested(
            public_exposure::origin_of(web::parsed_url(public_exposure::hostname_url(hostname@))),
            name_view(name),
        ),
{
    let origin = public_exposure::normalize_hostname(hostname);
    request_of(origin, name)
}

/// Reads a request whose hostname has been normalised.
pub fn request_of(origin: Result<String, &'static str>, name: Result<String, Refusal>) -> (out: Result<
    Request<String>,
    Refusal,
>)
    ensures
        request_view(out) == requested(public_exposure::outcome_view(origin), name_view(name)),
{
    match origin {
        Err(message) => {
            let refusal = Refusal::rejected(RefusalReason::HostnameInvalid, message);
            proof {
                assert(refusal@ =~= Refused::rejected(RefusalReason::HostnameInvalid, message@));
            }
            Err(refusal)
        },
        Ok(https_origin) => {
            match name {
                Err(refusal) => Err(refusal),
                Ok(name) => {
                    let dns_name = match text::strip_prefix(&https_origin, "https://") {
                        Some(host) => host,
                        None => https_origin.clone(),
                    };
                    Ok(Request { https_origin, dns_name, name })
                },
            }
        },
    }
}

// ---------------------------------------------------------------------------
// What a creation means
// ---------------------------------------------------------------------------

/// Whether the credential on disk is this creation's: what is recorded says so, or
/// this creation's journal shows that an allocation began. Adoption can produce
/// neither.
pub open spec fn ours(facts: Facts<Text, Seq<JournalEntry<Text>>>) -> bool {
    ||| facts.recorded matches Some(endpoint) && endpoint.ownership == TunnelOwnership::LaplusCreated
        && endpoint.tunnel_id is Some && endpoint.tunnel_id == facts.held
    ||| tunnels::began(facts.journal, MutationIntent::Create, MutationStep::TunnelCreate)
}

/// The tunnel this creation has allocated already.
pub open spec fn allocated(facts: Facts<Text, Seq<JournalEntry<Text>>>) -> Option<Text> {
    if ours(facts) {
        facts.held
    } else {
        None
    }
}

/// Whether what is recorded is what this creation would resume.
pub open spec fn resuming(facts: Facts<Text, Seq<JournalEntry<Text>>>, request: Request<Text>) -> bool {
    facts.recorded matches Some(endpoint) && endpoint.ownership == TunnelOwnership::LaplusCreated
        && endpoint.https_origin == request.https_origin && endpoint.tunnel_id is Some && endpoint.tunnel_id == allocated(
        facts,
    )
}

/// Why a creation does not begin.
pub open spec fn obstacle(facts: Facts<Text, Seq<JournalEntry<Text>>>, request: Request<Text>) -> Option<Refused> {
    if facts.held is Some && !ours(facts) {
        Some(
            Refused::precondition(
                RefusalReason::OwnershipConflict,
                "laplus already holds the run credential of another dedicated tunnel. Forget that setup before creating a tunnel, so that this environment has one tunnel and one owner."@,
            ),
        )
    } else if facts.recorded is Some && facts.recorded->0.ownership != TunnelOwnership::External && !resuming(
        facts,
        request,
    ) {
        Some(
            Refused::precondition(
                RefusalReason::OwnershipConflict,
                "This environment already has a "@ + facts.recorded->0.ownership.word() + " Cloudflare tunnel at "@
                    + facts.recorded->0.https_origin + ". Forget it before creating another."@,
            ),
        )
    } else if facts.configured && (!facts.serves || facts.dedicated_tunnel_id is None) {
        Some(
            Refused::precondition(
                RefusalReason::OwnershipConflict,
                "laplus already runs a connector for this environment. Stop and forget it before creating a tunnel."@,
            ),
        )
    } else {
        None
    }
}

/// Whether the hostname is routed already, by what is recorded or by this
/// creation's journal.
pub open spec fn is_routed(facts: Facts<Text, Seq<JournalEntry<Text>>>, dns_name: Text) -> bool {
    ||| facts.recorded matches Some(endpoint) && endpoint.ownership == TunnelOwnership::LaplusCreated
        && endpoint.dns_record_name == Some(dns_name)
    ||| tunnels::completed_targeting(facts.journal, MutationIntent::Create, MutationStep::DnsRoute, dns_name)
}

/// A creation in progress, as the contracts see it.
#[verifier::ext_equal]
pub struct Model {
    pub request: Request<Text>,
    pub routed: bool,
    /// The tunnel the connector is configured for, where it serves the hostname.
    pub serving: Option<Text>,
    pub credential_path: Text,
    pub configuration_path: Text,
    pub completed: Seq<MutationStep>,
    pub stage: Stage<Text>,
}

/// The next state, how the step that just ended is settled, and what to do.
pub type Outcome = (Model, Option<Settlement<Text>>, Action<Text, Refused>);

/// A step that settled with nothing learned.
pub open spec fn plainly(state: MutationState) -> Option<Settlement<Text>> {
    Some(Settlement { state, detail: None })
}

impl Model {
    /// The creation is over.
    pub open spec fn over(self, settled: Option<Settlement<Text>>, answer: Answer<Refused>) -> Outcome {
        (Model { stage: Stage::Over, ..self }, settled, Action::Answer(answer))
    }

    /// A refusal that names what is done and what is left.
    pub open spec fn refused(self, settled: Option<Settlement<Text>>, refusal: Refused) -> Outcome {
        self.over(settled, Answer::Refused(refusal.after(tunnels::creation_steps(), self.completed)))
    }

    /// The tunnel is there; the route is next.
    pub open spec fn route(self, settled: Option<Settlement<Text>>, tunnel_id: Text) -> Outcome {
        let made = Model { completed: self.completed.push(MutationStep::TunnelCreate), ..self };
        if self.routed {
            made.configure(settled, tunnel_id)
        } else {
            (
                Model { stage: Stage::Routing { tunnel_id }, ..made },
                settled,
                Action::Route { tunnel_id, dns_name: self.request.dns_name },
            )
        }
    }

    /// The route is there; the configuration is next.
    pub open spec fn configure(self, settled: Option<Settlement<Text>>, tunnel_id: Text) -> Outcome {
        let made = Model { completed: self.completed.push(MutationStep::DnsRoute), ..self };
        if self.serving == Some(tunnel_id) {
            made.register(settled, tunnel_id)
        } else {
            (
                Model { stage: Stage::Configuring { tunnel_id }, ..made },
                settled,
                Action::Configure {
                    tunnel_id,
                    https_origin: self.request.https_origin,
                    detail: self.configuration_path,
                },
            )
        }
    }

    /// What the created tunnel is recorded as: the one ownership that authorizes a
    /// deletion, with the record laplus made.
    pub open spec fn endpoint(self, tunnel_id: Text) -> Endpoint<Text> {
        Endpoint {
            https_origin: self.request.https_origin,
            ownership: TunnelOwnership::LaplusCreated,
            tunnel_id: Some(tunnel_id),
            dns_record_name: Some(self.request.dns_name),
        }
    }

    /// The configuration is there; the record is next.
    pub open spec fn register(self, settled: Option<Settlement<Text>>, tunnel_id: Text) -> Outcome {
        let made = Model { completed: self.completed.push(MutationStep::Configuration), ..self };
        (
            Model { stage: Stage::Registering { tunnel_id }, ..made },
            settled,
            Action::Register {
                endpoint: self.endpoint(tunnel_id),
                credential_path: self.credential_path,
                configuration_path: self.configuration_path,
            },
        )
    }

    /// Where a creation that meets no obstacle begins.
    pub open spec fn begin(facts: Facts<Text, Seq<JournalEntry<Text>>>, request: Request<Text>) -> Outcome {
        let model = Model {
            request,
            routed: is_routed(facts, request.dns_name),
            serving: if facts.serves { facts.dedicated_tunnel_id } else { None },
            credential_path: facts.credential_path,
            configuration_path: facts.configuration_path,
            completed: Seq::empty(),
            stage: Stage::Creating,
        };
        match allocated(facts) {
            Some(tunnel_id) => model.route(None, tunnel_id),
            None => (model, None, Action::Create { name: request.name }),
        }
    }

    /// Whether this answers what the creation waits for.
    pub open spec fn expects(self, event: Event<Text, Refused>) -> bool {
        match self.stage {
            Stage::Creating => event is Created,
            Stage::Routing { .. } => event is Tried,
            Stage::Configuring { .. } => event is Tried,
            Stage::Registering { .. } => event is Wrote,
            Stage::Confirming => event is Tried,
            Stage::Over => false,
        }
    }

    /// What an event means.
    pub open spec fn step(self, event: Event<Text, Refused>) -> Outcome {
        match (self.stage, event) {
            (Stage::Creating, Event::Created(Ok(tunnel_id))) => self.route(
                Some(Settlement { state: MutationState::Completed, detail: Some(tunnel_id) }),
                tunnel_id,
            ),
            (Stage::Creating, Event::Created(Err((refusal, tunnel_id)))) => self.refused(
                Some(Settlement { state: MutationState::Failed, detail: tunnel_id }),
                refusal,
            ),
            (Stage::Routing { tunnel_id }, Event::Tried(Ok(_))) => self.configure(
                plainly(MutationState::Completed),
                tunnel_id,
            ),
            (Stage::Routing { .. }, Event::Tried(Err(refusal))) => self.refused(
                plainly(MutationState::Failed),
                refusal,
            ),
            (Stage::Configuring { tunnel_id }, Event::Tried(Ok(_))) => self.register(
                plainly(MutationState::Completed),
                tunnel_id,
            ),
            (Stage::Configuring { .. }, Event::Tried(Err(refusal))) => self.refused(
                plainly(MutationState::Failed),
                refusal,
            ),
            (Stage::Registering { tunnel_id }, Event::Wrote(written)) => if written {
                (
                    Model { stage: Stage::Confirming, ..self },
                    None,
                    Action::Confirm {
                        tunnel_id,
                        name: self.request.name,
                        https_origin: self.request.https_origin,
                    },
                )
            } else {
                self.over(None, Answer::Failed)
            },
            (Stage::Confirming, Event::Tried(Ok(_))) => self.over(None, Answer::Done),
            (Stage::Confirming, Event::Tried(Err(refusal))) => self.over(None, Answer::Refused(refusal)),
            (_, _) => self.over(None, Answer::Failed),
        }
    }
}

// ---------------------------------------------------------------------------
// The creation
// ---------------------------------------------------------------------------

/// A creation in progress.
#[derive(Debug)]
pub struct Creation {
    pub request: Request<String>,
    pub routed: bool,
    pub serving: Option<String>,
    pub credential_path: String,
    pub configuration_path: String,
    pub completed: Vec<MutationStep>,
    pub stage: Stage<String>,
}

impl View for Creation {
    type V = Model;

    open spec fn view(&self) -> Model {
        Model {
            request: self.request@,
            routed: self.routed,
            serving: text::maybe(self.serving),
            credential_path: self.credential_path@,
            configuration_path: self.configuration_path@,
            completed: self.completed@,
            stage: self.stage@,
        }
    }
}

/// How the step that just ended is settled, and what to do next.
#[derive(Debug)]
pub struct Turn {
    pub settled: Option<Settlement<String>>,
    pub action: Action<String, Refusal>,
}

impl Turn {
    /// Whether this turn, and the state it leaves, are the outcome given.
    pub open spec fn meets(&self, state: Model, outcome: Outcome) -> bool {
        &&& state =~~= outcome.0
        &&& settlement_view(self.settled) == outcome.1
        &&& self.action@ =~~= outcome.2
    }
}

fn refuse(reason: RefusalReason, message: &str) -> (out: Refusal)
    ensures
        out@ == Refused::precondition(reason, message@),
{
    let out = Refusal::precondition(reason, message);
    proof {
        assert(out@ =~= Refused::precondition(reason, message@));
    }
    out
}

/// A step that settled with nothing learned.
fn plain_settlement(state: MutationState) -> (out: Option<Settlement<String>>)
    ensures
        settlement_view(out) == plainly(state),
{
    Some(Settlement { state, detail: None })
}

impl Creation {
    /// Begins a creation, or says why it does not begin.
    pub fn begin(facts: Facts<String, Vec<JournalEntry<String>>>, request: Request<String>) -> (out: Result<
        (Creation, Turn),
        Refusal,
    >)
        ensures
            match out {
                Err(refusal) => obstacle(facts@, request@) == Some(refusal@),
                Ok((creation, turn)) => obstacle(facts@, request@) is None && turn.meets(
                    creation@,
                    Model::begin(facts@, request@),
                ),
            },
    {
        let recorded_ours: bool = match &facts.recorded {
            Some(endpoint) => endpoint.ownership == TunnelOwnership::LaplusCreated && endpoint.tunnel_id.is_some()
                && text::same_maybe(&endpoint.tunnel_id, &facts.held),
            None => false,
        };
        let ours: bool = recorded_ours || tunnels::has_begun(
            &facts.journal,
            MutationIntent::Create,
            MutationStep::TunnelCreate,
        );
        if facts.held.is_some() && !ours {
            return Err(
                refuse(
                    RefusalReason::OwnershipConflict,
                    "laplus already holds the run credential of another dedicated tunnel. Forget that setup before creating a tunnel, so that this environment has one tunnel and one owner.",
                ),
            );
        }
        let mut recorded_routed: bool = false;
        if let Some(endpoint) = &facts.recorded {
            let resuming: bool = endpoint.ownership == TunnelOwnership::LaplusCreated && text::same(
                &endpoint.https_origin,
                &request.https_origin,
            ) && endpoint.tunnel_id.is_some() && ours && text::same_maybe(&endpoint.tunnel_id, &facts.held);
            if endpoint.ownership != TunnelOwnership::External && !resuming {
                let message = text::glue5(
                    "This environment already has a ",
                    endpoint.ownership.as_str(),
                    " Cloudflare tunnel at ",
                    &endpoint.https_origin,
                    ". Forget it before creating another.",
                );
                return Err(refuse(RefusalReason::OwnershipConflict, &message));
            }
            recorded_routed = endpoint.ownership == TunnelOwnership::LaplusCreated
                && match &endpoint.dns_record_name {
                Some(name) => text::same(name, &request.dns_name),
                None => false,
            };
        }
        if facts.configured && (!facts.serves || facts.dedicated_tunnel_id.is_none()) {
            return Err(
                refuse(
                    RefusalReason::OwnershipConflict,
                    "laplus already runs a connector for this environment. Stop and forget it before creating a tunnel.",
                ),
            );
        }
        let routed: bool = recorded_routed || tunnels::completed_step_targeting(
            &facts.journal,
            MutationIntent::Create,
            MutationStep::DnsRoute,
            &request.dns_name,
        );
        let name = request.name.clone();
        let mut creation = Creation {
            request,
            routed,
            serving: if facts.serves { facts.dedicated_tunnel_id } else { None },
            credential_path: facts.credential_path,
            configuration_path: facts.configuration_path,
            completed: Vec::new(),
            stage: Stage::Creating,
        };
        let allocated = if ours { facts.held } else { None };
        match allocated {
            Some(tunnel_id) => {
                let turn = creation.route(None, tunnel_id);
                Ok((creation, turn))
            },
            None => Ok((creation, Turn { settled: None, action: Action::Create { name } })),
        }
    }

    fn over(&mut self, settled: Option<Settlement<String>>, answer: Answer<Refusal>) -> (out: Turn)
        ensures
            out.meets(final(self)@, old(self)@.over(settlement_view(settled), answer@)),
    {
        self.stage = Stage::Over;
        Turn { settled, action: Action::Answer(answer) }
    }

    fn refused(&mut self, settled: Option<Settlement<String>>, refusal: Refusal) -> (out: Turn)
        ensures
            out.meets(final(self)@, old(self)@.refused(settlement_view(settled), refusal@)),
    {
        let steps = tunnels::mutation_steps(MutationIntent::Create);
        let left = tunnels::remaining_steps(&steps, &self.completed);
        let refusal = refusal.after(self.completed.as_slice(), left.as_slice());
        self.over(settled, Answer::Refused(refusal))
    }

    fn route(&mut self, settled: Option<Settlement<String>>, tunnel_id: String) -> (out: Turn)
        ensures
            out.meets(final(self)@, old(self)@.route(settlement_view(settled), tunnel_id@)),
    {
        self.completed.push(MutationStep::TunnelCreate);
        if self.routed {
            self.configure(settled, tunnel_id)
        } else {
            self.stage = Stage::Routing { tunnel_id: tunnel_id.clone() };
            Turn { settled, action: Action::Route { tunnel_id, dns_name: self.request.dns_name.clone() } }
        }
    }

    fn configure(&mut self, settled: Option<Settlement<String>>, tunnel_id: String) -> (out: Turn)
        ensures
            out.meets(final(self)@, old(self)@.configure(settlement_view(settled), tunnel_id@)),
    {
        self.completed.push(MutationStep::DnsRoute);
        let configured: bool = match &self.serving {
            Some(serving) => text::same(serving, &tunnel_id),
            None => false,
        };
        if configured {
            self.register(settled, tunnel_id)
        } else {
            self.stage = Stage::Configuring { tunnel_id: tunnel_id.clone() };
            Turn {
                settled,
                action: Action::Configure {
                    tunnel_id,
                    https_origin: self.request.https_origin.clone(),
                    detail: self.configuration_path.clone(),
                },
            }
        }
    }

    fn register(&mut self, settled: Option<Settlement<String>>, tunnel_id: String) -> (out: Turn)
        ensures
            out.meets(final(self)@, old(self)@.register(settlement_view(settled), tunnel_id@)),
    {
        self.completed.push(MutationStep::Configuration);
        self.stage = Stage::Registering { tunnel_id: tunnel_id.clone() };
        Turn {
            settled,
            action: Action::Register {
                endpoint: Endpoint {
                    https_origin: self.request.https_origin.clone(),
                    ownership: TunnelOwnership::LaplusCreated,
                    tunnel_id: Some(tunnel_id),
                    dns_record_name: Some(self.request.dns_name.clone()),
                },
                credential_path: self.credential_path.clone(),
                configuration_path: self.configuration_path.clone(),
            },
        }
    }

    /// Takes what came of the last thing, and says what to do next.
    pub fn step(&mut self, event: Event<String, Refusal>) -> (out: Turn)
        requires
            old(self)@.expects(event@),
        ensures
            out.meets(final(self)@, old(self)@.step(event@)),
    {
        let mut stage = Stage::Over;
        std::mem::swap(&mut stage, &mut self.stage);
        match (stage, event) {
            (Stage::Creating, Event::Created(Ok(tunnel_id))) => {
                let settled = Settlement { state: MutationState::Completed, detail: Some(tunnel_id.clone()) };
                self.route(Some(settled), tunnel_id)
            },
            (Stage::Creating, Event::Created(Err((refusal, tunnel_id)))) => self.refused(
                Some(Settlement { state: MutationState::Failed, detail: tunnel_id }),
                refusal,
            ),
            (Stage::Routing { tunnel_id }, Event::Tried(Ok(_))) => self.configure(
                plain_settlement(MutationState::Completed),
                tunnel_id,
            ),
            (Stage::Routing { .. }, Event::Tried(Err(refusal))) => self.refused(
                plain_settlement(MutationState::Failed),
                refusal,
            ),
            (Stage::Configuring { tunnel_id }, Event::Tried(Ok(_))) => self.register(
                plain_settlement(MutationState::Completed),
                tunnel_id,
            ),
            (Stage::Configuring { .. }, Event::Tried(Err(refusal))) => self.refused(
                plain_settlement(MutationState::Failed),
                refusal,
            ),
            (Stage::Registering { tunnel_id }, Event::Wrote(written)) => {
                if written {
                    self.stage = Stage::Confirming;
                    Turn {
                        settled: None,
                        action: Action::Confirm {
                            tunnel_id,
                            name: self.request.name.clone(),
                            https_origin: self.request.https_origin.clone(),
                        },
                    }
                } else {
                    self.over(None, Answer::Failed)
                }
            },
            (Stage::Confirming, Event::Tried(Ok(_))) => self.over(None, Answer::Done),
            (Stage::Confirming, Event::Tried(Err(refusal))) => self.over(None, Answer::Refused(refusal)),
            (_, _) => self.over(None, Answer::Failed),
        }
    }
}

// ---------------------------------------------------------------------------
// What a creation promises
// ---------------------------------------------------------------------------

/// A credential that is not this creation's is never taken for its allocation, so
/// a borrowed tunnel is never recorded as one that laplus created.
pub proof fn a_borrowed_tunnel_is_never_laundered(facts: Facts<Text, Seq<JournalEntry<Text>>>, request: Request<Text>)
    requires
        facts.held is Some,
        !ours(facts),
    ensures
        obstacle(facts, request) is Some,
        allocated(facts) is None,
{
}

/// What a creation records is the tunnel it allocated, before or just now.
pub proof fn what_is_recorded_was_created(m: Model, event: Event<Text, Refused>)
    requires
        m.expects(event),
    ensures
        m.step(event).2 matches Action::Register { endpoint, .. } ==> {
            &&& endpoint.ownership == TunnelOwnership::LaplusCreated
            &&& match m.stage {
                Stage::Creating => event == Event::<Text, Refused>::Created(Ok(endpoint.tunnel_id->0)),
                Stage::Routing { tunnel_id } => endpoint.tunnel_id == Some(tunnel_id),
                Stage::Configuring { tunnel_id } => endpoint.tunnel_id == Some(tunnel_id),
                _ => false,
            }
        },
{
}

/// The tunnel a creation is about never changes once it has one.
pub proof fn a_creation_keeps_its_tunnel(m: Model, event: Event<Text, Refused>)
    requires
        m.expects(event),
    ensures
        tunnel_of(m.stage) is Some ==> tunnel_of(m.step(event).0.stage) is None || tunnel_of(m.step(event).0.stage)
            == tunnel_of(m.stage),
{
}

/// The tunnel a stage is about.
pub open spec fn tunnel_of(stage: Stage<Text>) -> Option<Text> {
    match stage {
        Stage::Routing { tunnel_id } => Some(tunnel_id),
        Stage::Configuring { tunnel_id } => Some(tunnel_id),
        Stage::Registering { tunnel_id } => Some(tunnel_id),
        _ => None,
    }
}

/// How many of the steps are done at a stage, in their order.
pub open spec fn progress(stage: Stage<Text>) -> int {
    match stage {
        Stage::Creating => 0,
        Stage::Routing { .. } => 1,
        Stage::Configuring { .. } => 2,
        Stage::Registering { .. } => 3,
        Stage::Confirming => 3,
        Stage::Over => 3,
    }
}

/// What is done is exactly the beginning of the list of steps.
pub open spec fn sound(m: Model) -> bool {
    !(m.stage is Over) ==> m.completed == tunnels::creation_steps().take(progress(m.stage))
}

/// Every creation begins sound.
pub proof fn a_creation_begins_sound(facts: Facts<Text, Seq<JournalEntry<Text>>>, request: Request<Text>)
    ensures
        sound(Model::begin(facts, request).0),
{
    prefixes_of_a_creation();
}

/// Every step keeps a creation sound: a step is begun only when every earlier one
/// is done, and none is done twice.
pub proof fn every_step_keeps_a_creation_sound(m: Model, event: Event<Text, Refused>)
    requires
        sound(m),
        m.expects(event),
    ensures
        sound(m.step(event).0),
{
    prefixes_of_a_creation();
}

proof fn prefixes_of_a_creation()
    ensures
        tunnels::creation_steps().take(0) == Seq::<MutationStep>::empty(),
        tunnels::creation_steps().take(1) == tunnels::creation_steps().take(0).push(MutationStep::TunnelCreate),
        tunnels::creation_steps().take(2) == tunnels::creation_steps().take(1).push(MutationStep::DnsRoute),
        tunnels::creation_steps().take(3) == tunnels::creation_steps().take(2).push(MutationStep::Configuration),
{
    assert(tunnels::creation_steps().take(0) =~= Seq::<MutationStep>::empty());
    assert(tunnels::creation_steps().take(1) =~= tunnels::creation_steps().take(0).push(MutationStep::TunnelCreate));
    assert(tunnels::creation_steps().take(2) =~= tunnels::creation_steps().take(1).push(MutationStep::DnsRoute));
    assert(tunnels::creation_steps().take(3) =~= tunnels::creation_steps().take(2).push(MutationStep::Configuration));
}

/// A repeat of a creation that is complete is a read: nothing is created, routed
/// or configured again.
pub proof fn a_repeat_is_a_read(facts: Facts<Text, Seq<JournalEntry<Text>>>, request: Request<Text>)
    requires
        facts.recorded matches Some(endpoint) && endpoint.ownership == TunnelOwnership::LaplusCreated
            && endpoint.https_origin == request.https_origin && endpoint.tunnel_id is Some && endpoint.dns_record_name
            == Some(request.dns_name),
        facts.held == facts.recorded->0.tunnel_id,
        facts.dedicated_tunnel_id == facts.held,
        facts.serves,
    ensures
        obstacle(facts, request) is None,
        Model::begin(facts, request).2 is Register,
        Model::begin(facts, request).0.completed == tunnels::creation_steps(),
{
    prefixes_of_a_creation();
    assert(tunnels::creation_steps().take(3) =~= tunnels::creation_steps());
}

} // verus!
