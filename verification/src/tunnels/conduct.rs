//! What the commands on a tunnel do for whoever gave them, told by what each was
//! asked and what came of its steps.

use crate::public_exposure;
use crate::public_exposure::{MutationIntent, MutationState, MutationStep, RefusalKind, RefusalReason, TunnelOwnership};
use crate::tunnels;
use crate::tunnels::adoption;
use crate::tunnels::creation;
use crate::tunnels::removal;
use crate::tunnels::report;
use crate::tunnels::report::CleanupState;
use crate::tunnels::{Answer, DeletionConfirmation, Endpoint, JournalEntry, Refused, Settlement, Text};
use vstd::prelude::*;

verus! {

/// Whether a refusal is another one, told together with what was done before it.
pub open spec fn tells(told: Refused, given: Refused, done: Seq<MutationStep>) -> bool {
    &&& told.kind == given.kind
    &&& told.reason == given.reason
    &&& told.message == given.message
    &&& told.completed == done
}

/// Whether what is left of a command is what was not done of it.
pub open spec fn leaves(left: Seq<MutationStep>, intent: MutationIntent, done: Seq<MutationStep>) -> bool {
    forall|step: MutationStep|
        #[trigger] left.contains(step) <==> consists_of(intent, step) && !done.contains(step)
}

/// Whether a step is one of a command.
pub open spec fn consists_of(intent: MutationIntent, step: MutationStep) -> bool {
    match step {
        MutationStep::Credential => intent is Adopt,
        MutationStep::Configuration => intent is Adopt || intent is Create,
        MutationStep::TunnelCreate => intent is Create,
        MutationStep::DnsRoute => intent is Create,
        MutationStep::DnsRecordDelete => intent is DeleteEverywhere,
        MutationStep::TunnelDelete => intent is DeleteEverywhere,
        MutationStep::ConfigurationRemove => intent is DeleteEverywhere || intent is Forget,
        MutationStep::CredentialRemove => intent is DeleteEverywhere || intent is Forget,
    }
}

/// A command is made of its own steps, in the order in which they are taken:
/// what runs at Cloudflare before what runs here, and what a setup makes in the
/// order in which each needs the one before.
pub proof fn a_command_is_its_own_steps(intent: MutationIntent, step: MutationStep)
    ensures
        tunnels::steps_of(intent).contains(step) <==> consists_of(intent, step),
        intent is Adopt ==> tunnels::steps_of(intent) == seq![MutationStep::Credential, MutationStep::Configuration],
        intent is Create ==> tunnels::steps_of(intent).len() == 3 && tunnels::steps_of(intent)[0]
            == MutationStep::TunnelCreate && tunnels::steps_of(intent)[1] == MutationStep::DnsRoute,
        intent is DeleteEverywhere ==> tunnels::steps_of(intent).len() == 4 && tunnels::steps_of(intent)[0]
            == MutationStep::DnsRecordDelete && tunnels::steps_of(intent)[1] == MutationStep::TunnelDelete
            && tunnels::steps_of(intent)[2] == MutationStep::ConfigurationRemove,
        intent is Forget ==> tunnels::steps_of(intent) == seq![
            MutationStep::ConfigurationRemove,
            MutationStep::CredentialRemove,
        ],
{
    assert(tunnels::adoption_steps()[0] == MutationStep::Credential);
    assert(tunnels::adoption_steps()[1] == MutationStep::Configuration);
    assert(tunnels::creation_steps()[0] == MutationStep::TunnelCreate);
    assert(tunnels::creation_steps()[1] == MutationStep::DnsRoute);
    assert(tunnels::creation_steps()[2] == MutationStep::Configuration);
    assert(tunnels::forget_steps()[0] == MutationStep::ConfigurationRemove);
    assert(tunnels::forget_steps()[1] == MutationStep::CredentialRemove);
    assert(tunnels::deletion_steps()[0] == MutationStep::DnsRecordDelete);
    assert(tunnels::deletion_steps()[1] == MutationStep::TunnelDelete);
    assert(tunnels::deletion_steps()[2] == MutationStep::ConfigurationRemove);
    assert(tunnels::deletion_steps()[3] == MutationStep::CredentialRemove);
    if tunnels::steps_of(intent).contains(step) {
        let i = choose|i: int| 0 <= i < tunnels::steps_of(intent).len() && tunnels::steps_of(intent)[i] == step;
        assert(0 <= i < 4);
    }
}

proof fn what_a_command_leaves(intent: MutationIntent, done: Seq<MutationStep>)
    ensures
        leaves(tunnels::remaining(tunnels::steps_of(intent), done), intent, done),
{
    tunnels::done_and_left_are_all_of_it(tunnels::steps_of(intent), done);
    assert forall|step: MutationStep| #[trigger]
        tunnels::remaining(tunnels::steps_of(intent), done).contains(step) <==> consists_of(intent, step)
            && !done.contains(step) by {
        a_command_is_its_own_steps(intent, step);
    }
}

/// A refusal told after some steps keeps its own words, and lists what was done
/// and what was not.
pub proof fn a_refusal_is_told_with_what_is_left(given: Refused, intent: MutationIntent, done: Seq<MutationStep>)
    ensures
        tells(given.after(tunnels::steps_of(intent), done), given, done),
        leaves(given.after(tunnels::steps_of(intent), done).remaining, intent, done),
{
    what_a_command_leaves(intent, done);
}

/// A refusal that asks for something first is told from one that says no, and
/// neither claims that anything was done.
pub proof fn a_refusal_is_of_its_kind(reason: RefusalReason, message: Text)
    ensures
        Refused::precondition(reason, message).kind == RefusalKind::Precondition,
        Refused::rejected(reason, message).kind == RefusalKind::Rejected,
        tells(Refused::precondition(reason, message), Refused::rejected(reason, message), Seq::empty()) == (
        RefusalKind::Precondition == RefusalKind::Rejected),
        Refused::precondition(reason, message).reason == reason,
        Refused::precondition(reason, message).message == message,
        Refused::rejected(reason, message).reason == reason,
        Refused::rejected(reason, message).message == message,
        Refused::precondition(reason, message).completed.len() == 0,
        Refused::precondition(reason, message).remaining.len() == 0,
        Refused::rejected(reason, message).completed.len() == 0,
        Refused::rejected(reason, message).remaining.len() == 0,
{
}

/// A journaled step that succeeded is settled as completed, and no other.
pub proof fn a_step_is_settled_by_its_outcome(succeeded: bool)
    ensures
        tunnels::settled(succeeded) == MutationState::Completed <==> succeeded,
        tunnels::settled(succeeded) == MutationState::Failed <==> !succeeded,
{
}

/// What the journal says of a step is what one of its own entries says.
pub proof fn the_journal_is_read_entry_by_entry(
    journal: Seq<JournalEntry<Text>>,
    intent: MutationIntent,
    step: MutationStep,
    detail: Text,
)
    ensures
        tunnels::began(journal, intent, step) <==> exists|entry: JournalEntry<Text>|
            #![trigger journal.contains(entry)]
            journal.contains(entry) && entry.intent == intent && entry.step == step,
        tunnels::any_completed(journal, intent, step) <==> exists|entry: JournalEntry<Text>|
            #![trigger journal.contains(entry)]
            journal.contains(entry) && entry.intent == intent && entry.step == step && entry.state
                == MutationState::Completed,
        tunnels::completed_targeting(journal, intent, step, detail) <==> exists|entry: JournalEntry<Text>|
            #![trigger journal.contains(entry)]
            journal.contains(entry) && entry.intent == intent && entry.step == step && entry.state
                == MutationState::Completed && entry.detail == Some(detail),
{
    if tunnels::began(journal, intent, step) {
        let i = choose|i: int| 0 <= i < journal.len() && (#[trigger] journal[i]).intent == intent && journal[i].step == step;
        assert(journal.contains(journal[i]));
    }
    if tunnels::any_completed(journal, intent, step) {
        let i = choose|i: int|
            0 <= i < journal.len() && (#[trigger] journal[i]).intent == intent && journal[i].step == step
                && journal[i].state == MutationState::Completed;
        assert(journal.contains(journal[i]));
    }
    if tunnels::completed_targeting(journal, intent, step, detail) {
        let i = choose|i: int|
            0 <= i < journal.len() && (#[trigger] journal[i]).intent == intent && journal[i].step == step
                && journal[i].state == MutationState::Completed && journal[i].detail == Some(detail);
        assert(journal.contains(journal[i]));
    }
}

// ---------------------------------------------------------------------------
// Creating
// ---------------------------------------------------------------------------

/// What is known of an environment before a creation.
pub type Known = creation::Facts<Text, Seq<JournalEntry<Text>>>;

/// A creation is asked for by the host of its origin, and both answers have to be
/// readable, the hostname first.
pub proof fn a_request_is_for_its_own_host(host: Text, name: Text, message: Text, refusal: Refused)
    ensures
        ({
            let asked = creation::requested(Ok("https://"@ + host), Ok(name));
            asked matches Ok(request) && request.https_origin == "https://"@ + host && request.dns_name == host
                && request.name == name
        }),
        creation::requested(Ok("https://"@ + host), Err(refusal)) == Err::<creation::Request<Text>, Refused>(refusal),
        creation::requested(Err(message), Ok(name)) matches Err(refused) && refused.kind == RefusalKind::Rejected
            && refused.reason == RefusalReason::HostnameInvalid && refused.message == message,
        creation::requested(Err(message), Err(refusal)) == creation::requested(Err(message), Ok(name)),
{
    let origin = "https://"@ + host;
    assert("https://"@ =~= origin.subrange(0, "https://"@.len() as int));
    assert(origin.skip("https://"@.len() as int) =~= host);
}

/// What a creation registers is recorded under the origin and the name that were
/// asked for, as a tunnel that laplus created.
pub proof fn a_creation_registers_what_was_asked_for(m: creation::Model, event: creation::Event<Text, Refused>)
    requires
        m.expects(event),
    ensures
        m.step(event).2 matches creation::Action::Register { endpoint, credential_path, configuration_path } ==> {
            &&& endpoint.https_origin == m.request.https_origin
            &&& endpoint.dns_record_name == Some(m.request.dns_name)
            &&& endpoint.ownership == TunnelOwnership::LaplusCreated
            &&& endpoint.tunnel_id is Some
            &&& credential_path == m.credential_path
            &&& configuration_path == m.configuration_path
        },
        m.step(event).0.request == m.request,
        m.step(event).0.credential_path == m.credential_path,
        m.step(event).0.configuration_path == m.configuration_path,
        m.step(event).0.routed == m.routed,
        m.step(event).0.serving == m.serving,
{
}

/// So does a creation that finds everything there when it begins.
pub proof fn a_creation_begins_with_what_was_asked_for(facts: Known, request: creation::Request<Text>)
    ensures
        creation::Model::begin(facts, request).0.request == request,
        creation::Model::begin(facts, request).0.credential_path == facts.credential_path,
        creation::Model::begin(facts, request).0.configuration_path == facts.configuration_path,
        creation::Model::begin(facts, request).1 is None,
        creation::Model::begin(facts, request).2 matches creation::Action::Register {
            endpoint,
            credential_path,
            configuration_path,
        } ==> {
            &&& endpoint.https_origin == request.https_origin
            &&& endpoint.dns_record_name == Some(request.dns_name)
            &&& endpoint.ownership == TunnelOwnership::LaplusCreated
            &&& endpoint.tunnel_id is Some && endpoint.tunnel_id == facts.held
            &&& credential_path == facts.credential_path
            &&& configuration_path == facts.configuration_path
        },
{
}

/// What was registered is what the same request goes on with: it is no conflict,
/// and nothing is allocated or routed again.
pub proof fn a_registered_creation_is_resumed(
    m: creation::Model,
    event: creation::Event<Text, Refused>,
    facts: Known,
)
    requires
        m.expects(event),
        m.step(event).2 is Register,
        facts.recorded == Some(m.step(event).2->endpoint),
        facts.held == m.step(event).2->endpoint.tunnel_id,
    ensures
        creation::resuming(facts, m.request),
        !facts.configured || (facts.serves && facts.dedicated_tunnel_id is Some) ==> creation::obstacle(facts, m.request) is None,
        !(creation::Model::begin(facts, m.request).2 is Create),
        !(creation::Model::begin(facts, m.request).2 is Route),
{
}

/// A creation goes its whole way for what was asked: it allocates under the name,
/// routes the host, writes the configuration for the origin, records it, and
/// confirms all three to the account.
pub proof fn a_fresh_creation_goes_its_way(facts: Known, request: creation::Request<Text>, tunnel_id: Text)
    requires
        facts.recorded is None,
        facts.journal.len() == 0,
        facts.held is None,
        !facts.configured,
        !facts.serves,
    ensures
        creation::obstacle(facts, request) is None,
        ({
            let begun = creation::Model::begin(facts, request);
            let created = begun.0.step(creation::Event::Created(Ok(tunnel_id)));
            let routed = created.0.step(creation::Event::Tried(Ok(())));
            let configured = routed.0.step(creation::Event::Tried(Ok(())));
            let recorded = configured.0.step(creation::Event::Wrote(true));
            let confirmed = recorded.0.step(creation::Event::Tried(Ok(())));
            &&& begun.2 == (creation::Action::<Text, Refused>::Create { name: request.name })
            &&& created.1 == Some(Settlement { state: MutationState::Completed, detail: Some(tunnel_id) })
            &&& created.2 == (creation::Action::<Text, Refused>::Route { tunnel_id, dns_name: request.dns_name })
            &&& routed.1 == Some(Settlement::<Text> { state: MutationState::Completed, detail: None })
            &&& routed.2 == (creation::Action::<Text, Refused>::Configure {
                tunnel_id,
                https_origin: request.https_origin,
                detail: facts.configuration_path,
            })
            &&& configured.1 == Some(Settlement::<Text> { state: MutationState::Completed, detail: None })
            &&& configured.2 matches creation::Action::Register { endpoint, .. } && endpoint == (Endpoint {
                https_origin: request.https_origin,
                ownership: TunnelOwnership::LaplusCreated,
                tunnel_id: Some(tunnel_id),
                dns_record_name: Some(request.dns_name),
            })
            &&& recorded.1 is None
            &&& recorded.2 == (creation::Action::<Text, Refused>::Confirm {
                tunnel_id,
                name: request.name,
                https_origin: request.https_origin,
            })
            &&& confirmed.2 == creation::Action::<Text, Refused>::Answer(Answer::Done)
        }),
{
    assert(!tunnels::began(facts.journal, MutationIntent::Create, MutationStep::TunnelCreate));
    assert(!tunnels::completed_targeting(
        facts.journal,
        MutationIntent::Create,
        MutationStep::DnsRoute,
        request.dns_name,
    ));
}

/// Every action of a creation is about what was asked for, and about the tunnel it
/// has.
pub proof fn a_creation_acts_on_what_was_asked_for(m: creation::Model, event: creation::Event<Text, Refused>)
    requires
        m.expects(event),
    ensures
        match m.step(event).2 {
            creation::Action::Create { .. } => false,
            creation::Action::Route { tunnel_id, dns_name } => dns_name == m.request.dns_name && !m.routed && event
                == creation::Event::<Text, Refused>::Created(Ok(tunnel_id)),
            creation::Action::Configure { tunnel_id, https_origin, detail } => {
                &&& https_origin == m.request.https_origin
                &&& detail == m.configuration_path
                &&& m.serving != Some(tunnel_id)
                &&& m.stage is Routing ==> m.stage->Routing_tunnel_id == tunnel_id
                &&& m.stage is Creating ==> m.routed && event == creation::Event::<Text, Refused>::Created(Ok(tunnel_id))
            },
            creation::Action::Register { .. } => m.stage is Configuring || m.serving is Some,
            creation::Action::Confirm { tunnel_id, name, https_origin } => m.stage == (creation::Stage::Registering {
                tunnel_id,
            }) && event == creation::Event::<Text, Refused>::Wrote(true) && name == m.request.name && https_origin
                == m.request.https_origin,
            creation::Action::Answer(_) => true,
        },
{
}

/// A creation is done only once its account confirmed it. What a step refused is
/// answered in that step's own words, with what was done before it and what is
/// left; the step is settled as failed, with the tunnel that was allocated all the
/// same.
pub proof fn a_creation_answers_as_it_went(m: creation::Model, event: creation::Event<Text, Refused>)
    requires
        m.expects(event),
    ensures
        m.step(event).2 matches creation::Action::Answer(answer) ==> match answer {
            Answer::Done => m.stage is Confirming && event matches creation::Event::Tried(Ok(_)),
            Answer::Failed => m.stage is Registering && event == creation::Event::<Text, Refused>::Wrote(false),
            Answer::Unconfirmed => false,
            Answer::Refused(told) => match event {
                creation::Event::Created(Err((given, tunnel_id))) => {
                    &&& tells(told, given, m.completed)
                    &&& leaves(told.remaining, MutationIntent::Create, m.completed)
                    &&& m.step(event).1 == Some(Settlement { state: MutationState::Failed, detail: tunnel_id })
                },
                creation::Event::Tried(Err(given)) => if m.stage is Confirming {
                    told == given && m.step(event).1 is None
                } else {
                    &&& tells(told, given, m.completed)
                    &&& leaves(told.remaining, MutationIntent::Create, m.completed)
                    &&& m.step(event).1 == Some(Settlement::<Text> { state: MutationState::Failed, detail: None })
                },
                _ => false,
            },
        },
        event == creation::Event::<Text, Refused>::Wrote(false) ==> m.step(event).2 == creation::Action::<Text, Refused>::Answer(
            Answer::Failed,
        ),
        (event matches creation::Event::Created(Err(_)) || event matches creation::Event::Tried(Err(_))) ==> (m.step(
            event,
        ).2 matches creation::Action::Answer(answer) && answer is Refused),
{
    what_a_command_leaves(MutationIntent::Create, m.completed);
}

/// What keeps a creation from beginning: the credential of a tunnel it did not
/// allocate, a record of another tunnel, or a connector that serves something else.
pub proof fn a_creation_begins_only_where_it_may(facts: Known, request: creation::Request<Text>)
    ensures
        ({
            let owner = facts.recorded matches Some(endpoint) && endpoint.ownership == TunnelOwnership::LaplusCreated
                && endpoint.tunnel_id is Some && endpoint.tunnel_id == facts.held;
            let began = exists|entry: JournalEntry<Text>|
                #![trigger facts.journal.contains(entry)]
                facts.journal.contains(entry) && entry.intent == MutationIntent::Create && entry.step
                    == MutationStep::TunnelCreate;
            let stranger = facts.held is Some && !owner && !began;
            let taken = facts.recorded matches Some(endpoint) && endpoint.ownership != TunnelOwnership::External && !(
            endpoint.ownership == TunnelOwnership::LaplusCreated && endpoint.https_origin == request.https_origin
                && endpoint.tunnel_id is Some && endpoint.tunnel_id == facts.held);
            let busy = facts.configured && !(facts.serves && facts.dedicated_tunnel_id is Some);
            &&& creation::obstacle(facts, request) is Some <==> stranger || taken || busy
            &&& creation::obstacle(facts, request) matches Some(refused) ==> refused.kind == RefusalKind::Precondition
                && refused.reason == RefusalReason::OwnershipConflict
            &&& !stranger && taken ==> creation::obstacle(facts, request)->0.message == "This environment already has a "@
                + facts.recorded->0.ownership.word() + " Cloudflare tunnel at "@ + facts.recorded->0.https_origin
                + ". Forget it before creating another."@
            &&& (owner || began) && facts.held is Some ==> creation::allocated(facts) == facts.held
            &&& !(owner || began) ==> creation::allocated(facts) is None
        }),
{
    the_journal_is_read_entry_by_entry(
        facts.journal,
        MutationIntent::Create,
        MutationStep::TunnelCreate,
        request.dns_name,
    );
}

/// A creation begins with the first thing that is missing: the tunnel, the route,
/// or the configuration.
pub proof fn a_creation_begins_with_what_is_missing(facts: Known, request: creation::Request<Text>)
    ensures
        ({
            let begun = creation::Model::begin(facts, request);
            let routed = (facts.recorded matches Some(endpoint) && endpoint.ownership == TunnelOwnership::LaplusCreated
                && endpoint.dns_record_name == Some(request.dns_name)) || exists|entry: JournalEntry<Text>|
                #![trigger facts.journal.contains(entry)]
                facts.journal.contains(entry) && entry.intent == MutationIntent::Create && entry.step
                    == MutationStep::DnsRoute && entry.state == MutationState::Completed && entry.detail == Some(
                    request.dns_name,
                );
            let serving = facts.serves && facts.dedicated_tunnel_id is Some && facts.dedicated_tunnel_id == facts.held;
            match creation::allocated(facts) {
                None => begun.2 == (creation::Action::<Text, Refused>::Create { name: request.name }),
                Some(tunnel_id) => {
                    &&& !routed ==> begun.2 == (creation::Action::<Text, Refused>::Route {
                        tunnel_id,
                        dns_name: request.dns_name,
                    })
                    &&& routed && !serving ==> begun.2 == (creation::Action::<Text, Refused>::Configure {
                        tunnel_id,
                        https_origin: request.https_origin,
                        detail: facts.configuration_path,
                    })
                    &&& routed && serving ==> begun.2 is Register
                },
            }
        }),
{
    the_journal_is_read_entry_by_entry(
        facts.journal,
        MutationIntent::Create,
        MutationStep::DnsRoute,
        request.dns_name,
    );
}

// ---------------------------------------------------------------------------
// Adopting
// ---------------------------------------------------------------------------

/// What an adoption registers is the tunnel and the origin that were selected, as
/// an adopted one; every action is about that selection.
pub proof fn an_adoption_acts_on_its_selection(m: adoption::Model, event: adoption::Event<Refused>)
    requires
        m.expects(event),
    ensures
        m.step(event).0.selection == m.selection,
        m.step(event).0.credential_path == m.credential_path,
        m.step(event).0.configuration_path == m.configuration_path,
        match m.step(event).2 {
            adoption::Action::Recheck { .. } => false,
            adoption::Action::Reclassify => m.stage is Rechecking && event == adoption::Event::<Refused>::Rechecked(Ok(true)),
            adoption::Action::RecordExternal { https_origin } => m.stage is Reclassifying && https_origin
                == m.selection.https_origin,
            adoption::Action::Retrieve { tunnel_id, detail } => tunnel_id == m.selection.tunnel_id && detail
                == m.credential_path && event == adoption::Event::<Refused>::Rechecked(Ok(false)),
            adoption::Action::Configure { tunnel_id, https_origin, detail } => tunnel_id == m.selection.tunnel_id
                && https_origin == m.selection.https_origin && detail == m.configuration_path,
            adoption::Action::Register { endpoint, credential_path, configuration_path } => {
                &&& endpoint.https_origin == m.selection.https_origin
                &&& endpoint.tunnel_id == Some(m.selection.tunnel_id)
                &&& endpoint.ownership == TunnelOwnership::Adopted
                &&& endpoint.dns_record_name is None
                &&& credential_path == m.credential_path
                &&& configuration_path == m.configuration_path
                &&& m.stage is Configuring
            },
            adoption::Action::Confirm => m.stage is Registering && event == adoption::Event::<Refused>::Wrote(true),
            adoption::Action::Answer(_) => true,
        },
{
    assert(m.completed.push(MutationStep::Credential).last() == MutationStep::Credential);
}

/// An adoption is done only once its account confirmed it; a step that failed is
/// told in its own words with what was done and what is left.
pub proof fn an_adoption_answers_as_it_went(m: adoption::Model, event: adoption::Event<Refused>)
    requires
        m.expects(event),
    ensures
        m.step(event).2 matches adoption::Action::Answer(answer) ==> match answer {
            Answer::Done => m.stage is Confirming && event matches adoption::Event::Tried(Ok(_)),
            Answer::Failed => event == adoption::Event::<Refused>::Wrote(false),
            Answer::Unconfirmed => false,
            Answer::Refused(told) => match event {
                adoption::Event::Rechecked(Err(given)) => told == given,
                adoption::Event::Tried(Err(given)) => if m.stage is Retrieving || m.stage is Configuring {
                    &&& tells(told, given, m.completed)
                    &&& leaves(told.remaining, MutationIntent::Adopt, m.completed)
                } else {
                    told == given
                },
                adoption::Event::Wrote(written) => {
                    &&& written && m.stage is RecordingExternal
                    &&& told.kind == RefusalKind::Precondition
                    &&& told.reason == RefusalReason::TunnelBecameActive
                    &&& told.completed == m.completed
                    &&& leaves(told.remaining, MutationIntent::Adopt, m.completed)
                },
                _ => false,
            },
        },
        event == adoption::Event::<Refused>::Wrote(false) ==> m.step(event).2 == adoption::Action::<Text, Refused>::Answer(
            Answer::Failed,
        ),
        (event matches adoption::Event::Rechecked(Err(_)) || event matches adoption::Event::Tried(Err(_))) ==> (m.step(
            event,
        ).2 matches adoption::Action::Answer(answer) && answer is Refused),
        m.step(event).1 == if m.stage is Retrieving || m.stage is Configuring {
            Some(
                if event matches adoption::Event::Tried(Ok(_)) {
                    MutationState::Completed
                } else {
                    MutationState::Failed
                },
            )
        } else {
            None
        },
{
    what_a_command_leaves(MutationIntent::Adopt, m.completed);
}

/// What keeps an adoption from beginning: nothing selected, a tunnel that somebody
/// runs, or a record of another tunnel. One that this server runs already is not
/// looked at again, and a credential that is held is not fetched again.
pub proof fn an_adoption_begins_only_where_it_may(facts: adoption::Facts<Text>)
    ensures
        adoption::obstacle(facts) is None <==> {
            &&& facts.selection is Some
            &&& facts.selection->0.adoptable
            &&& facts.recorded matches Some(endpoint) ==> endpoint.ownership == TunnelOwnership::External
                || endpoint.tunnel_id == Some(facts.selection->0.tunnel_id)
        },
        adoption::obstacle(facts) matches Some(refused) ==> {
            &&& refused.kind == RefusalKind::Precondition
            &&& facts.selection is None ==> refused.reason == RefusalReason::SelectionStale
            &&& facts.selection is Some ==> refused.reason == RefusalReason::OwnershipConflict
        },
        facts.selection matches Some(selection) ==> {
            let begun = adoption::Model::begin(facts);
            let run = facts.dedicated_tunnel_id == Some(selection.tunnel_id) || (facts.recorded matches Some(endpoint)
                && endpoint.ownership == TunnelOwnership::Adopted && endpoint.tunnel_id == Some(selection.tunnel_id));
            &&& begun.0.selection == selection
            &&& begun.0.credential_path == facts.credential_path
            &&& begun.0.configuration_path == facts.configuration_path
            &&& begun.1 is None
            &&& begun.0.completed == (if facts.credential_held {
                seq![MutationStep::Credential]
            } else {
                Seq::<MutationStep>::empty()
            })
            &&& !run ==> begun.2 == (adoption::Action::<Text, Refused>::Recheck { tunnel_id: selection.tunnel_id })
            &&& run && !facts.credential_held ==> begun.2 == (adoption::Action::<Text, Refused>::Retrieve {
                tunnel_id: selection.tunnel_id,
                detail: facts.credential_path,
            })
            &&& run && facts.credential_held ==> begun.2 == (adoption::Action::<Text, Refused>::Configure {
                tunnel_id: selection.tunnel_id,
                https_origin: selection.https_origin,
                detail: facts.configuration_path,
            })
        },
{
    assert(seq![MutationStep::Credential][0] == MutationStep::Credential);
}

/// An adoption goes its whole way: an idle tunnel is looked at, its credential is
/// fetched, its configuration written, and both are recorded and confirmed.
pub proof fn a_fresh_adoption_goes_its_way(facts: adoption::Facts<Text>)
    requires
        facts.selection is Some,
        facts.recorded is None,
        facts.dedicated_tunnel_id is None,
        !facts.credential_held,
    ensures
        ({
            let selection = facts.selection->0;
            let begun = adoption::Model::begin(facts);
            let idle = begun.0.step(adoption::Event::Rechecked(Ok(false)));
            let fetched = idle.0.step(adoption::Event::Tried(Ok(())));
            let written = fetched.0.step(adoption::Event::Tried(Ok(())));
            let recorded = written.0.step(adoption::Event::Wrote(true));
            let confirmed = recorded.0.step(adoption::Event::Tried(Ok(())));
            &&& begun.2 == (adoption::Action::<Text, Refused>::Recheck { tunnel_id: selection.tunnel_id })
            &&& idle.2 == (adoption::Action::<Text, Refused>::Retrieve {
                tunnel_id: selection.tunnel_id,
                detail: facts.credential_path,
            })
            &&& fetched.2 == (adoption::Action::<Text, Refused>::Configure {
                tunnel_id: selection.tunnel_id,
                https_origin: selection.https_origin,
                detail: facts.configuration_path,
            })
            &&& written.2 is Register
            &&& written.0.completed == seq![MutationStep::Credential, MutationStep::Configuration]
            &&& recorded.2 is Confirm
            &&& confirmed.2 == adoption::Action::<Text, Refused>::Answer(Answer::Done)
        }),
{
    let begun = adoption::Model::begin(facts);
    let idle = begun.0.step(adoption::Event::Rechecked(Ok(false)));
    assert(idle.0.completed.push(MutationStep::Credential)[0] == MutationStep::Credential);
    let fetched = idle.0.step(adoption::Event::Tried(Ok(())));
    let written = fetched.0.step(adoption::Event::Tried(Ok(())));
    assert(written.0.completed =~= seq![MutationStep::Credential, MutationStep::Configuration]);
}

// ---------------------------------------------------------------------------
// Forgetting and deleting
// ---------------------------------------------------------------------------

/// What a deletion deletes, remembers and looks up is the record it was begun for,
/// and what it removes here are its own two files.
pub proof fn a_removal_acts_on_what_it_was_begun_for(m: removal::Model, event: removal::Event<Refused>)
    requires
        m.expects(event),
    ensures
        ({
            let (n, settled, action) = m.step(event);
            &&& n.intent == m.intent
            &&& n.tunnel_id == m.tunnel_id
            &&& n.record == m.record
            &&& n.secret == m.secret
            &&& n.configuration_path == m.configuration_path
            &&& n.credential_path == m.credential_path
            &&& n.located == (m.located || event == removal::Event::<Refused>::Located(Ok(true)))
            &&& match action {
                removal::Action::Authorize => false,
                removal::Action::Lookup { record } => Some(record) == m.record && !m.located,
                removal::Action::Remember { record } => Some(record) == m.record && event == removal::Event::<
                    Refused,
                >::Located(Ok(true)),
                removal::Action::Spend { tunnel_id } => tunnel_id == m.tunnel_id,
                removal::Action::StopConnector => true,
                removal::Action::DeleteRecord { detail, located } => detail == m.record && located == m.located,
                removal::Action::DeleteTunnel { tunnel_id } => tunnel_id == m.tunnel_id,
                removal::Action::RemoveConfiguration { detail } => detail == m.configuration_path,
                removal::Action::RemoveCredential { detail } => detail == m.credential_path,
                removal::Action::ForgetEndpoint => true,
                removal::Action::ForgetSelection => m.stage is ForgettingEndpoint && event == removal::Event::<
                    Refused,
                >::Wrote(true),
                removal::Action::Answer(_) => true,
            }
        }),
{
}

/// A removal goes in its order: confirmation, connector, record, tunnel, connector,
/// configuration, credential, what is recorded, what is selected. Each step that is
/// done is left out, and what was just done counts as done.
pub proof fn a_removal_goes_in_its_order(m: removal::Model)
    ensures
        ({
            let next = m.step(removal::Event::Spent(true));
            m.stage is Confirming ==> next.2 is StopConnector && next.0.stage is Stopping
        }),
        m.stage is Stopping ==> {
            let next = m.step(removal::Event::Wrote(true));
            &&& next.1 is None
            &&& next.0.completed == m.completed
            &&& !m.completed.contains(MutationStep::DnsRecordDelete) ==> next.2 is DeleteRecord
            &&& m.completed.contains(MutationStep::DnsRecordDelete) && !m.completed.contains(MutationStep::TunnelDelete)
                ==> next.2 is DeleteTunnel
            &&& m.completed.contains(MutationStep::DnsRecordDelete) && m.completed.contains(MutationStep::TunnelDelete)
                ==> next.2 is StopConnector && next.0.stage is StoppingLocally
        },
        m.stage is DeletingRecord ==> {
            let next = m.step(removal::Event::Tried(Ok(())));
            &&& next.1 == Some(MutationState::Completed)
            &&& next.0.completed == m.completed.push(MutationStep::DnsRecordDelete)
            &&& !m.completed.contains(MutationStep::TunnelDelete) ==> next.2 is DeleteTunnel
            &&& m.completed.contains(MutationStep::TunnelDelete) ==> next.2 is StopConnector
        },
        m.stage is DeletingTunnel ==> {
            let next = m.step(removal::Event::Tried(Ok(())));
            &&& next.1 == Some(MutationState::Completed)
            &&& next.0.completed == m.completed.push(MutationStep::TunnelDelete)
            &&& next.2 is StopConnector && next.0.stage is StoppingLocally
        },
        m.stage is StoppingLocally ==> {
            let next = m.step(removal::Event::Wrote(true));
            &&& next.1 is None
            &&& next.0.completed == m.completed
            &&& !m.completed.contains(MutationStep::ConfigurationRemove) ==> next.2 is RemoveConfiguration
            &&& m.completed.contains(MutationStep::ConfigurationRemove) && !m.completed.contains(
                MutationStep::CredentialRemove,
            ) ==> next.2 is RemoveCredential
            &&& m.completed.contains(MutationStep::ConfigurationRemove) && m.completed.contains(
                MutationStep::CredentialRemove,
            ) ==> next.2 is ForgetEndpoint
        },
        m.stage is RemovingConfiguration ==> {
            let next = m.step(removal::Event::Tried(Ok(())));
            &&& next.1 == Some(MutationState::Completed)
            &&& next.0.completed == m.completed.push(MutationStep::ConfigurationRemove)
            &&& !m.completed.contains(MutationStep::CredentialRemove) ==> next.2 is RemoveCredential
            &&& m.completed.contains(MutationStep::CredentialRemove) ==> next.2 is ForgetEndpoint
        },
        m.stage is RemovingCredential ==> {
            let next = m.step(removal::Event::Tried(Ok(())));
            &&& next.1 == Some(MutationState::Completed)
            &&& next.0.completed == m.completed.push(MutationStep::CredentialRemove)
            &&& next.2 is ForgetEndpoint
        },
        m.stage is ForgettingEndpoint ==> m.step(removal::Event::Wrote(true)).2 is ForgetSelection,
        m.stage is ForgettingSelection ==> m.step(removal::Event::Tried(Ok(()))).2 == removal::Action::<
            Text,
            Refused,
        >::Answer(Answer::Done),
{
    assert forall|step: MutationStep, other: MutationStep|
        #[trigger] m.completed.push(step).contains(other) == (other == step || m.completed.contains(other)) by {
        if other == step {
            assert(m.completed.push(step).last() == other);
        }
        if m.completed.contains(other) {
            let i = choose|i: int| 0 <= i < m.completed.len() && m.completed[i] == other;
            assert(m.completed.push(step)[i] == other);
        }
    }
}

/// A removal is done only at its end. What is refused on the way is answered in its
/// own words, but for the secret it was asked with, together with what was done and
/// what is left; a connector that does not stop keeps everything in place.
pub proof fn a_removal_answers_as_it_went(m: removal::Model, event: removal::Event<Refused>)
    requires
        m.expects(event),
    ensures
        m.step(event).2 matches removal::Action::Answer(answer) ==> match answer {
            Answer::Done => m.stage is ForgettingSelection && event matches removal::Event::Tried(Ok(_)),
            Answer::Failed => m.stage is ForgettingEndpoint && event == removal::Event::<Refused>::Wrote(false),
            Answer::Unconfirmed => m.stage is Confirming && event == removal::Event::<Refused>::Spent(false),
            Answer::Refused(told) => match event {
                removal::Event::Located(Err(given)) => {
                    &&& tells(told, Refused { message: public_exposure::redacted(given.message, m.secret), ..given }, m.completed)
                    &&& leaves(told.remaining, m.intent, m.completed)
                },
                removal::Event::Tried(Err(given)) => {
                    &&& told.kind == given.kind
                    &&& told.reason == given.reason
                    &&& told.message == public_exposure::redacted(given.message, m.secret)
                    &&& m.stage is ForgettingSelection ==> told.completed == given.completed && told.remaining
                        == given.remaining
                    &&& !(m.stage is ForgettingSelection) ==> told.completed == m.completed && leaves(
                        told.remaining,
                        m.intent,
                        m.completed,
                    )
                },
                removal::Event::Wrote(stopped) => {
                    &&& !stopped && (m.stage is Stopping || m.stage is StoppingLocally)
                    &&& told.kind == RefusalKind::Rejected
                    &&& told.reason == RefusalReason::LocalSetupFailed
                    &&& m.stage is Stopping ==> told.completed == m.completed && leaves(
                        told.remaining,
                        m.intent,
                        m.completed,
                    )
                },
                _ => false,
            },
        },
        (event matches removal::Event::Located(Err(_)) || event matches removal::Event::Tried(Err(_)) || (event
            == removal::Event::<Refused>::Wrote(false) && !(m.stage is Remembering))) ==> m.step(event).2 is Answer,
        event matches removal::Event::Tried(Err(_)) ==> m.step(event).1 == if m.stage is DeletingRecord
            || m.stage is DeletingTunnel || m.stage is RemovingConfiguration || m.stage is RemovingCredential {
            Some(MutationState::Failed)
        } else {
            None
        },
{
    what_a_command_leaves(m.intent, m.completed);
}

/// A deletion that has a record to delete asks for authority first and for its
/// place next, unless that is known; one that has none goes to its confirmation. A
/// forget goes to the connector at once.
pub proof fn a_removal_begins_as_asked(
    tunnel_id: Text,
    dns_record_name: Option<Text>,
    addressed: bool,
    secret: Text,
    completed: Seq<MutationStep>,
    configuration_path: Text,
    credential_path: Text,
)
    ensures
        ({
            let begun = removal::Model::begin_deletion(
                tunnel_id,
                dns_record_name,
                addressed,
                secret,
                completed,
                configuration_path,
                credential_path,
            );
            let owed = dns_record_name is Some && !completed.contains(MutationStep::DnsRecordDelete);
            let authorized = begun.0.step(removal::Event::Tried(Ok(())));
            let missing = authorized.0.step(removal::Event::Located(Ok(false)));
            let found = authorized.0.step(removal::Event::Located(Ok(true)));
            let remembered = found.0.step(removal::Event::Wrote(true));
            &&& begun.0.intent == MutationIntent::DeleteEverywhere
            &&& begun.0.tunnel_id == tunnel_id
            &&& begun.0.secret == secret
            &&& begun.0.completed == completed
            &&& begun.0.configuration_path == configuration_path
            &&& begun.0.credential_path == credential_path
            &&& begun.1 is None
            &&& owed ==> begun.2 is Authorize && begun.0.record == dns_record_name && begun.0.located == addressed
            &&& owed && addressed ==> authorized.2 == (removal::Action::<Text, Refused>::Spend { tunnel_id })
            &&& owed && !addressed ==> {
                &&& authorized.2 == (removal::Action::<Text, Refused>::Lookup { record: dns_record_name->0 })
                &&& missing.2 == (removal::Action::<Text, Refused>::Spend { tunnel_id })
                &&& !missing.0.located
                &&& found.2 == (removal::Action::<Text, Refused>::Remember { record: dns_record_name->0 })
                &&& found.0.located
                &&& remembered.2 == (removal::Action::<Text, Refused>::Spend { tunnel_id })
            }
            &&& !owed ==> begun.2 == (removal::Action::<Text, Refused>::Spend { tunnel_id }) && begun.0.record is None
                && !begun.0.located
        }),
        ({
            let begun = removal::Model::begin_forget(completed, configuration_path, credential_path);
            &&& begun.0.intent == MutationIntent::Forget
            &&& begun.0.completed == completed
            &&& begun.0.configuration_path == configuration_path
            &&& begun.0.credential_path == credential_path
            &&& begun.0.stage is StoppingLocally
            &&& begun.0.secret.len() == 0
            &&& begun.1 is None
            &&& begun.2 is StopConnector
        }),
{
}

/// What a cleanup finds done: here, what is not held any more; at Cloudflare, what
/// its own journal completed.
pub proof fn a_cleanup_finds_done_what_is_done(
    journal: Seq<JournalEntry<Text>>,
    intent: MutationIntent,
    holds_configuration: bool,
    holds_credentials: bool,
    step: MutationStep,
)
    ensures
        removal::done_steps(journal, intent, holds_configuration, holds_credentials).contains(step) <==> {
            &&& consists_of(intent, step)
            &&& step is ConfigurationRemove ==> !holds_configuration
            &&& step is CredentialRemove ==> !holds_credentials
            &&& !(step is ConfigurationRemove) && !(step is CredentialRemove) ==> exists|entry: JournalEntry<Text>|
                #![trigger journal.contains(entry)]
                journal.contains(entry) && entry.intent == intent && entry.step == step && entry.state
                    == MutationState::Completed
        },
{
    removal::done_steps_are_of_the_cleanup(journal, intent, holds_configuration, holds_credentials);
    a_command_is_its_own_steps(intent, step);
    the_journal_is_read_entry_by_entry(journal, intent, step, Seq::empty());
}

// ---------------------------------------------------------------------------
// Confirming
// ---------------------------------------------------------------------------

/// A confirmation authorizes exactly what it was minted for, and for five minutes.
pub proof fn a_confirmation_is_for_what_it_names(
    held: DeletionConfirmation<Text>,
    endpoint: Endpoint<Text>,
    tunnel_id: Text,
    now: u64,
)
    ensures
        tunnels::names_recorded(held, endpoint, tunnel_id) <==> held.tunnel_id == tunnel_id && held.https_origin
            == endpoint.https_origin && held.dns_record_name == endpoint.dns_record_name,
        held.is_spendable(now) <==> now < held.minted_at + 300_000_000_000,
{
}

/// What a deletion is refused with names what is missing for one.
pub proof fn a_deletion_is_refused_for_what_is_missing(recorded: Option<Endpoint<Text>>)
    ensures
        tunnels::deletion_offer(recorded) matches Err(refused) ==> {
            &&& refused.kind == RefusalKind::Precondition
            &&& refused.reason == RefusalReason::NotLaplusCreated
            &&& refused.message
                == "laplus may delete a Cloudflare tunnel only when it created that tunnel and its DNS record. "@ + (
            match recorded {
                None => "This environment has no Cloudflare endpoint recorded."@,
                Some(endpoint) => if endpoint.ownership == TunnelOwnership::LaplusCreated {
                    "The recorded tunnel has no identifier, so there is nothing a deletion could target."@
                } else {
                    "This one is "@ + endpoint.ownership.word()
                        + ", so its Cloudflare resources belong to somebody else."@
                },
            })
        },
{
}

/// What follows from a command that is over: a setup that is done leaves no journal
/// of its own and is verified, a cleanup that is done leaves no journal of a setup,
/// and anything else leaves everything.
pub proof fn what_is_over_clears_its_own_journal(
    journal: Seq<JournalEntry<Text>>,
    intent: MutationIntent,
    answer: Answer<Refused>,
    entry: JournalEntry<Text>,
)
    ensures
        ({
            let finish = tunnels::finish_of(intent, answer);
            let kept = tunnels::left_of(journal, finish.cleared).contains(entry);
            &&& finish.verifies <==> answer is Done && (intent is Adopt || intent is Create)
            &&& !(answer is Done) ==> (kept <==> journal.contains(entry))
            &&& answer is Done && intent is Adopt ==> (kept <==> journal.contains(entry) && !(entry.intent is Adopt))
            &&& answer is Done && intent is Create ==> (kept <==> journal.contains(entry) && !(entry.intent is Create))
            &&& answer is Done && (intent is Forget || intent is DeleteEverywhere) ==> (kept <==> journal.contains(entry)
                && !(entry.intent is Adopt) && !(entry.intent is Create))
        }),
{
    tunnels::clearing_takes_what_it_names(journal, tunnels::finish_of(intent, answer).cleared, entry);
    assert(seq![MutationIntent::Adopt][0] == MutationIntent::Adopt);
    assert(seq![MutationIntent::Create][0] == MutationIntent::Create);
    let both = seq![MutationIntent::Adopt, MutationIntent::Create];
    assert(both[0] == MutationIntent::Adopt && both[1] == MutationIntent::Create);
}

// ---------------------------------------------------------------------------
// Reporting
// ---------------------------------------------------------------------------

/// What is reported of a cleanup: the later of the two that were begun, whether it
/// is through, and what it was about.
pub proof fn a_report_tells_the_latest_cleanup(
    journal: Seq<JournalEntry<Text>>,
    recorded: Option<Endpoint<Text>>,
    stopped: bool,
    holds_configuration: bool,
    holds_credentials: bool,
)
    ensures
        ({
            let told = report::report(Some(journal), recorded, stopped, holds_configuration, holds_credentials);
            let deletion = report::latest(journal, MutationIntent::DeleteEverywhere);
            let forget = report::latest(journal, MutationIntent::Forget);
            let idle = deletion is None && forget is None;
            let forgets = forget is Some && (deletion is None || forget->0 > deletion->0);
            &&& idle ==> told.state == (if stopped { CleanupState::Stopped } else { CleanupState::Intact })
                && told.tunnel_id is None && told.dns_record_name is None && told.completed.len() == 0
                && told.remaining.len() == 0
            &&& !idle && forgets ==> told.state == (if told.remaining.len() == 0 {
                CleanupState::Forgotten
            } else {
                CleanupState::CleanupRequired
            })
            &&& !idle && !forgets ==> told.state == (if told.remaining.len() == 0 {
                CleanupState::FullyRemoved
            } else {
                CleanupState::PartiallyDeleted
            })
            &&& !idle ==> leaves(
                told.remaining,
                if forgets { MutationIntent::Forget } else { MutationIntent::DeleteEverywhere },
                told.completed,
            )
        }),
        report::report(None, recorded, stopped, holds_configuration, holds_credentials) == report::report(
            Some(Seq::empty()),
            recorded,
            stopped,
            holds_configuration,
            holds_credentials,
        ),
{
    if report::reported_intent(journal) is Some {
        let intent = report::reported_intent(journal)->0;
        what_a_command_leaves(
            intent,
            removal::done_steps(journal, intent, holds_configuration, holds_credentials),
        );
    }
    assert(report::latest(Seq::<JournalEntry<Text>>::empty(), MutationIntent::DeleteEverywhere) is None);
    assert(report::latest(Seq::<JournalEntry<Text>>::empty(), MutationIntent::Forget) is None);
}

/// The detail that is told of a step is one that the journal gives for it, and the
/// first.
pub proof fn a_detail_is_the_first_of_its_step(
    journal: Seq<JournalEntry<Text>>,
    intent: MutationIntent,
    step: MutationStep,
)
    ensures
        match report::first_detail(journal, intent, step) {
            Some(detail) => exists|i: int|
                0 <= i < journal.len() && (#[trigger] journal[i]).intent == intent && journal[i].step == step
                    && journal[i].detail == Some(detail) && forall|j: int|
                    0 <= j < i && (#[trigger] journal[j]).intent == intent && journal[j].step == step
                        ==> journal[j].detail is None,
            None => forall|i: int|
                0 <= i < journal.len() && (#[trigger] journal[i]).intent == intent && journal[i].step == step
                    ==> journal[i].detail is None,
        },
    decreases journal.len(),
{
    if journal.len() > 0 {
        let first = journal[0];
        let rest = journal.drop_first();
        if first.intent == intent && first.step == step && first.detail is Some {
            assert(journal[0].intent == intent);
        } else {
            a_detail_is_the_first_of_its_step(rest, intent, step);
            match report::first_detail(rest, intent, step) {
                Some(detail) => {
                    let i = choose|i: int|
                        0 <= i < rest.len() && (#[trigger] rest[i]).intent == intent && rest[i].step == step
                            && rest[i].detail == Some(detail) && forall|j: int|
                            0 <= j < i && (#[trigger] rest[j]).intent == intent && rest[j].step == step
                                ==> rest[j].detail is None;
                    assert(journal[i + 1] == rest[i]);
                    assert forall|j: int|
                        0 <= j < i + 1 && (#[trigger] journal[j]).intent == intent && journal[j].step
                            == step implies journal[j].detail is None by {
                        if j > 0 {
                            assert(rest[j - 1] == journal[j]);
                        }
                    }
                },
                None => {
                    assert forall|i: int|
                        0 <= i < journal.len() && (#[trigger] journal[i]).intent == intent && journal[i].step
                            == step implies journal[i].detail is None by {
                        if i > 0 {
                            assert(rest[i - 1] == journal[i]);
                        }
                    }
                },
            }
        }
    }
}

/// A cleanup names what its own journal says it is about, and otherwise what is
/// recorded.
pub proof fn a_report_names_what_it_is_about(
    journal: Seq<JournalEntry<Text>>,
    recorded: Option<Endpoint<Text>>,
    stopped: bool,
    holds_configuration: bool,
    holds_credentials: bool,
)
    requires
        report::reported_intent(journal) is Some,
    ensures
        ({
            let told = report::report(Some(journal), recorded, stopped, holds_configuration, holds_credentials);
            let intent = report::reported_intent(journal)->0;
            let tunnel = report::first_detail(journal, intent, MutationStep::TunnelDelete);
            let record = report::first_detail(journal, intent, MutationStep::DnsRecordDelete);
            &&& tunnel is Some ==> told.tunnel_id == tunnel
            &&& tunnel is None && recorded is Some ==> told.tunnel_id == recorded->0.tunnel_id
            &&& tunnel is None && recorded is None ==> told.tunnel_id is None
            &&& record is Some ==> told.dns_record_name == record
            &&& record is None && recorded is Some ==> told.dns_record_name == recorded->0.dns_record_name
            &&& record is None && recorded is None ==> told.dns_record_name is None
        }),
{
}

/// A creation that is not through tells what it has and what it lacks: the tunnel
/// whose credential is held, the host that is recorded or else routed, and the
/// configuration.
pub proof fn an_unfinished_creation_tells_what_it_has(
    journal: Seq<JournalEntry<Text>>,
    recorded: Option<Endpoint<Text>>,
    tunnel_id: Option<Text>,
    configured: bool,
)
    ensures
        report::unfinished(None, recorded, tunnel_id, configured) is None,
        report::unfinished(Some(journal), recorded, tunnel_id, configured) is Some <==> exists|i: int|
            0 <= i < journal.len() && (#[trigger] journal[i]).intent == MutationIntent::Create,
        report::unfinished(Some(journal), recorded, tunnel_id, configured) matches Some(told) ==> {
            &&& told.tunnel_id == tunnel_id
            &&& recorded is Some && recorded->0.dns_record_name is Some ==> told.hostname == recorded->0.dns_record_name
            &&& recorded is None || recorded->0.dns_record_name is None ==> told.hostname == report::routed_name(journal)
            &&& told.completed.contains(MutationStep::TunnelCreate) <==> tunnel_id is Some
            &&& told.completed.contains(MutationStep::DnsRoute) <==> told.hostname is Some
            &&& told.completed.contains(MutationStep::Configuration) <==> configured
            &&& leaves(told.remaining, MutationIntent::Create, told.completed)
            &&& told.name == report::asked_name(journal, tunnel_id)
        },
{
    if let Some(told) = report::unfinished(Some(journal), recorded, tunnel_id, configured) {
        what_a_command_leaves(MutationIntent::Create, told.completed);
        let made: Seq<MutationStep> = if tunnel_id is Some { seq![MutationStep::TunnelCreate] } else { Seq::empty() };
        let routed = if told.hostname is Some { made.push(MutationStep::DnsRoute) } else { made };
        let all = if configured { routed.push(MutationStep::Configuration) } else { routed };
        if tunnel_id is Some {
            assert(all[0] == MutationStep::TunnelCreate);
        }
        if told.hostname is Some {
            assert(all[made.len() as int] == MutationStep::DnsRoute);
        }
        if configured {
            assert(all.last() == MutationStep::Configuration);
        }
    }
}

/// The name and the host that are told of a creation are its own journal's: what
/// an allocation was asked for, and what a completed route was for.
pub proof fn an_unfinished_creation_is_told_from_its_journal(journal: Seq<JournalEntry<Text>>, tunnel_id: Option<Text>)
    ensures
        report::asked_name(journal, tunnel_id) matches Some(name) ==> Some(name) != tunnel_id && exists|i: int|
            0 <= i < journal.len() && (#[trigger] journal[i]).intent == MutationIntent::Create && journal[i].step
                == MutationStep::TunnelCreate && journal[i].detail == Some(name),
        report::routed_name(journal) matches Some(host) ==> exists|i: int|
            0 <= i < journal.len() && (#[trigger] journal[i]).intent == MutationIntent::Create && journal[i].step
                == MutationStep::DnsRoute && journal[i].state == MutationState::Completed && journal[i].detail == Some(
                host,
            ),
        report::asked_name(journal, tunnel_id) is None ==> forall|i: int|
            0 <= i < journal.len() && (#[trigger] journal[i]).intent == MutationIntent::Create && journal[i].step
                == MutationStep::TunnelCreate ==> journal[i].detail is None || journal[i].detail == tunnel_id,
    decreases journal.len(),
{
    if journal.len() > 0 {
        let rest = journal.drop_first();
        an_unfinished_creation_is_told_from_its_journal(rest, tunnel_id);
        assert forall|i: int| 0 <= i < rest.len() implies #[trigger] rest[i] == journal[i + 1] by {}
        assert(journal[0] == journal[0]);
        if report::asked_name(rest, tunnel_id) is Some {
            let name = report::asked_name(rest, tunnel_id)->0;
            let i = choose|i: int|
                0 <= i < rest.len() && (#[trigger] rest[i]).intent == MutationIntent::Create && rest[i].step
                    == MutationStep::TunnelCreate && rest[i].detail == Some(name);
            assert(journal[i + 1] == rest[i]);
        } else {
            assert forall|i: int|
                0 <= i < journal.len() && (#[trigger] journal[i]).intent == MutationIntent::Create && journal[i].step
                    == MutationStep::TunnelCreate && report::asked_name(
                    journal,
                    tunnel_id,
                ) is None implies journal[i].detail is None || journal[i].detail == tunnel_id by {
                if i > 0 {
                    assert(rest[i - 1] == journal[i]);
                }
            }
        }
        if report::routed_name(rest) is Some {
            let host = report::routed_name(rest)->0;
            let i = choose|i: int|
                0 <= i < rest.len() && (#[trigger] rest[i]).intent == MutationIntent::Create && rest[i].step
                    == MutationStep::DnsRoute && rest[i].state == MutationState::Completed && rest[i].detail == Some(
                    host,
                );
            assert(journal[i + 1] == rest[i]);
        }
    }
}

/// What is shown of an endpoint is what is recorded and what was found: its origin
/// for pages and for sockets, whose it is, and how each layer fared. A failure of
/// the socket alone leaves the pages healthy.
pub proof fn an_endpoint_is_shown_as_it_is(
    origin: Text,
    endpoint: Endpoint<Text>,
    verified: report::Verified<Text>,
    managed: bool,
    advertisable: bool,
)
    ensures
        ({
            let shown = report::exposed(endpoint, verified, managed, advertisable);
            let passed = verified.state == "verified"@;
            let socket = verified.failure_kind == Some("websocket"@) || verified.failure_kind == Some(
                "cloudflare-access-websocket"@,
            );
            &&& shown.configured
            &&& shown.https_origin == Some(endpoint.https_origin)
            &&& shown.ownership == endpoint.ownership
            &&& shown.deletable_at_cloudflare <==> endpoint.ownership == TunnelOwnership::LaplusCreated
            &&& shown.verification_state == verified.state
            &&& shown.failure_kind == verified.failure_kind
            &&& shown.failure_message == verified.failure_message
            &&& shown.last_attempt_at == verified.last_attempt_at
            &&& shown.last_verified_at == verified.last_verified_at
            &&& shown.health.connector == (if managed { "laplus"@ } else { "external"@ })
            &&& passed ==> shown.health.https == "healthy"@ && shown.health.web_socket == "healthy"@
            &&& !passed && socket ==> shown.health.https == "healthy"@ && shown.health.web_socket == "failed"@
            &&& !passed && !socket ==> shown.health.web_socket == "unknown"@ && shown.health.https == (
            if verified.state == "failed"@ { "failed"@ } else { "unknown"@ })
            &&& shown.advertised_endpoint matches Some(advertised) ==> {
                &&& passed && advertisable
                &&& advertised.http_base_url == endpoint.https_origin
                &&& Some(advertised.ws_base_url) == shown.wss_origin
                &&& advertised.source == (if managed { "server"@ } else { "user"@ })
                &&& advertised.description == (if managed {
                    "Connector supervised by laplus"@
                } else {
                    "Externally managed by your operator"@
                })
                &&& advertised.id == "cloudflare-"@ + (if managed { "managed"@ } else { "external"@ }) + ":"@
                    + endpoint.https_origin
            }
            &&& passed && advertisable ==> shown.advertised_endpoint is Some
        }),
        report::is_managed(Some(origin), endpoint.https_origin) <==> origin == endpoint.https_origin,
        !report::is_managed(None, endpoint.https_origin),
        ({
            let shown = report::unexposed();
            &&& !shown.configured
            &&& shown.https_origin is None && shown.wss_origin is None && shown.advertised_endpoint is None
            &&& shown.ownership == TunnelOwnership::External && !shown.deletable_at_cloudflare
            &&& shown.verification_state == "unconfigured"@
            &&& shown.health.https == "unknown"@ && shown.health.web_socket == "unknown"@
            &&& shown.health.connector == "external"@
            &&& shown.failure_kind is None && shown.failure_message is None
            &&& shown.last_attempt_at is None && shown.last_verified_at is None
        }),
{
}

} // verus!
