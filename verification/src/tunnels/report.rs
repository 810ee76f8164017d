//! What a client is told of the exposure: how far a cleanup or a creation has got,
//! and what is advertised.

use crate::public_exposure::{MutationIntent, MutationState, MutationStep, TunnelOwnership};
use crate::text;
use crate::tunnels;
use crate::tunnels::removal;
use crate::tunnels::removal::Cleanup;
use crate::tunnels::{Endpoint, JournalEntry, Text};
use vstd::prelude::*;

verus! {

// ---------------------------------------------------------------------------
// Cleanup
// ---------------------------------------------------------------------------

/// How far a stop, forget or delete has got.
#[derive(Debug, Clone, Copy, PartialEq, Eq, Structural)]
pub enum CleanupState {
    /// Nothing was removed.
    Intact,
    /// Nothing was removed, and the connector is off because it was asked to be.
    Stopped,
    /// laplus's own setup is gone.
    Forgotten,
    /// Some of laplus's own setup is still there.
    CleanupRequired,
    /// Some of what a deletion removes is still there.
    PartiallyDeleted,
    /// Everything a deletion removes is gone.
    FullyRemoved,
}

/// What a cleanup has done and has left to do, and what it targets.
#[derive(Debug, PartialEq, Eq)]
pub struct CleanupReport<S, L> {
    pub state: CleanupState,
    pub tunnel_id: Option<S>,
    pub dns_record_name: Option<S>,
    pub completed: L,
    pub remaining: L,
}

impl View for CleanupReport<String, Vec<MutationStep>> {
    type V = CleanupReport<Text, Seq<MutationStep>>;

    open spec fn view(&self) -> CleanupReport<Text, Seq<MutationStep>> {
        CleanupReport {
            state: self.state,
            tunnel_id: text::maybe(self.tunnel_id),
            dns_record_name: text::maybe(self.dns_record_name),
            completed: self.completed@,
            remaining: self.remaining@,
        }
    }
}

/// The greatest sequence number of an intent.
pub open spec fn latest(journal: Seq<JournalEntry<Text>>, intent: MutationIntent) -> Option<i64>
    decreases journal.len(),
{
    if journal.len() == 0 {
        None
    } else {
        let earlier = latest(journal.drop_last(), intent);
        let entry = journal.last();
        if entry.intent != intent {
            earlier
        } else {
            match earlier {
                Some(sequence) => if sequence > entry.sequence { earlier } else { Some(entry.sequence) },
                None => Some(entry.sequence),
            }
        }
    }
}

/// [`latest`] is the sequence number of an entry of that intent, and none is
/// greater.
pub proof fn latest_is_greatest(journal: Seq<JournalEntry<Text>>, intent: MutationIntent)
    ensures
        match latest(journal, intent) {
            Some(sequence) => {
                &&& exists|i: int|
                    0 <= i < journal.len() && (#[trigger] journal[i]).intent == intent && journal[i].sequence
                        == sequence
                &&& forall|i: int|
                    0 <= i < journal.len() && (#[trigger] journal[i]).intent == intent ==> journal[i].sequence
                        <= sequence
            },
            None => forall|i: int| 0 <= i < journal.len() ==> (#[trigger] journal[i]).intent != intent,
        },
    decreases journal.len(),
{
    if journal.len() > 0 {
        let front = journal.drop_last();
        latest_is_greatest(front, intent);
        assert forall|i: int| 0 <= i < front.len() implies front[i] == #[trigger] journal[i] by {}
        if let Some(sequence) = latest(front, intent) {
            let i = choose|i: int|
                0 <= i < front.len() && (#[trigger] front[i]).intent == intent && front[i].sequence == sequence;
            assert(journal[i].intent == intent);
        }
        assert(journal[journal.len() - 1] == journal.last());
    }
}

fn latest_of(journal: &Vec<JournalEntry<String>>, intent: MutationIntent) -> (out: Option<i64>)
    ensures
        out == latest(tunnels::journal_view(journal@), intent),
{
    let ghost seen = tunnels::journal_view(journal@);
    let mut out: Option<i64> = None;
    let mut i: usize = 0;
    while i < journal.len()
        invariant
            i <= journal@.len(),
            seen == tunnels::journal_view(journal@),
            out == latest(seen.take(i as int), intent),
        decreases journal@.len() - i,
    {
        let entry = &journal[i];
        proof {
            assert(seen.take(i + 1).drop_last() =~= seen.take(i as int));
            assert(seen.take(i + 1).last() == entry@);
        }
        if entry.intent == intent {
            out = match out {
                Some(sequence) => if sequence > entry.sequence { Some(sequence) } else { Some(entry.sequence) },
                None => Some(entry.sequence),
            };
        }
        i += 1;
    }
    proof {
        assert(seen.take(i as int) =~= seen);
    }
    out
}

/// Which cleanup is being reported: whichever was started most recently.
pub open spec fn reported_intent(journal: Seq<JournalEntry<Text>>) -> Option<MutationIntent> {
    match (latest(journal, MutationIntent::DeleteEverywhere), latest(journal, MutationIntent::Forget)) {
        (None, None) => None,
        (Some(deletion), Some(forget)) => if forget > deletion {
            Some(MutationIntent::Forget)
        } else {
            Some(MutationIntent::DeleteEverywhere)
        },
        (Some(_), None) => Some(MutationIntent::DeleteEverywhere),
        (None, Some(_)) => Some(MutationIntent::Forget),
    }
}

/// The first detail journaled for a step of an intent.
pub open spec fn first_detail(
    journal: Seq<JournalEntry<Text>>,
    intent: MutationIntent,
    step: MutationStep,
) -> Option<Text>
    decreases journal.len(),
{
    if journal.len() == 0 {
        None
    } else if journal[0].intent == intent && journal[0].step == step && journal[0].detail is Some {
        journal[0].detail
    } else {
        first_detail(journal.drop_first(), intent, step)
    }
}

fn first_detail_of(journal: &Vec<JournalEntry<String>>, intent: MutationIntent, step: MutationStep) -> (out: Option<
    String,
>)
    ensures
        text::maybe(out) == first_detail(tunnels::journal_view(journal@), intent, step),
{
    let ghost seen = tunnels::journal_view(journal@);
    let mut i: usize = 0;
    proof {
        assert(seen.skip(0) =~= seen);
    }
    while i < journal.len()
        invariant
            i <= journal@.len(),
            seen == tunnels::journal_view(journal@),
            first_detail(seen, intent, step) == first_detail(seen.skip(i as int), intent, step),
        decreases journal@.len() - i,
    {
        let entry = &journal[i];
        proof {
            assert(seen.skip(i as int)[0] == entry@);
            assert(seen.skip(i as int).drop_first() =~= seen.skip(i + 1));
        }
        if entry.intent == intent && entry.step == step {
            if let Some(detail) = &entry.detail {
                return Some(detail.clone());
            }
        }
        i += 1;
    }
    None
}

/// The first of two that is there.
pub open spec fn or(first: Option<Text>, second: Option<Text>) -> Option<Text> {
    if first is Some {
        first
    } else {
        second
    }
}

/// What a cleanup has done and has left to do.
pub open spec fn report(
    journal: Option<Seq<JournalEntry<Text>>>,
    recorded: Option<Endpoint<Text>>,
    stopped: bool,
    holds_configuration: bool,
    holds_credentials: bool,
) -> CleanupReport<Text, Seq<MutationStep>> {
    let nothing_removed = CleanupReport {
        state: if stopped { CleanupState::Stopped } else { CleanupState::Intact },
        tunnel_id: None,
        dns_record_name: None,
        completed: Seq::empty(),
        remaining: Seq::empty(),
    };
    match journal {
        None => nothing_removed,
        Some(journal) => match reported_intent(journal) {
            None => nothing_removed,
            Some(intent) => {
                let completed = removal::done_steps(journal, intent, holds_configuration, holds_credentials);
                let left = tunnels::remaining(tunnels::steps_of(intent), completed);
                CleanupReport {
                    state: match (intent, left.len() == 0) {
                        (MutationIntent::DeleteEverywhere, true) => CleanupState::FullyRemoved,
                        (MutationIntent::DeleteEverywhere, false) => CleanupState::PartiallyDeleted,
                        (_, true) => CleanupState::Forgotten,
                        (_, false) => CleanupState::CleanupRequired,
                    },
                    tunnel_id: or(
                        first_detail(journal, intent, MutationStep::TunnelDelete),
                        match recorded {
                            Some(endpoint) => endpoint.tunnel_id,
                            None => None,
                        },
                    ),
                    dns_record_name: or(
                        first_detail(journal, intent, MutationStep::DnsRecordDelete),
                        match recorded {
                            Some(endpoint) => endpoint.dns_record_name,
                            None => None,
                        },
                    ),
                    completed,
                    remaining: left,
                }
            },
        },
    }
}

/// What a stop, forget or delete has done and has left to do. `journal` is missing
/// where it cannot be read.
pub fn cleanup_report(
    journal: &Option<Vec<JournalEntry<String>>>,
    recorded: &Option<Endpoint<String>>,
    stopped: bool,
    holds_configuration: bool,
    holds_credentials: bool,
) -> (out: CleanupReport<String, Vec<MutationStep>>)
    ensures
        out@ == report(
            match *journal {
                Some(journal) => Some(tunnels::journal_view(journal@)),
                None => None,
            },
            tunnels::endpoint_view(*recorded),
            stopped,
            holds_configuration,
            holds_credentials,
        ),
{
    let state = if stopped { CleanupState::Stopped } else { CleanupState::Intact };
    let nothing_removed = CleanupReport {
        state,
        tunnel_id: None,
        dns_record_name: None,
        completed: Vec::new(),
        remaining: Vec::new(),
    };
    let journal = match journal {
        Some(journal) => journal,
        None => {
            return nothing_removed;
        },
    };
    let intent = match (
        latest_of(journal, MutationIntent::DeleteEverywhere),
        latest_of(journal, MutationIntent::Forget),
    ) {
        (None, None) => {
            return nothing_removed;
        },
        (Some(deletion), Some(forget)) => if forget > deletion {
            MutationIntent::Forget
        } else {
            MutationIntent::DeleteEverywhere
        },
        (Some(_), None) => MutationIntent::DeleteEverywhere,
        (None, Some(_)) => MutationIntent::Forget,
    };
    let cleanup = Cleanup::resumed(journal, intent, holds_configuration, holds_credentials);
    let left = cleanup.remaining();
    let state = if intent == MutationIntent::DeleteEverywhere {
        if left.len() == 0 { CleanupState::FullyRemoved } else { CleanupState::PartiallyDeleted }
    } else if left.len() == 0 {
        CleanupState::Forgotten
    } else {
        CleanupState::CleanupRequired
    };
    let tunnel_id = match first_detail_of(journal, intent, MutationStep::TunnelDelete) {
        Some(detail) => Some(detail),
        None => match recorded {
            Some(endpoint) => text::copy_maybe(&endpoint.tunnel_id),
            None => None,
        },
    };
    let dns_record_name = match first_detail_of(journal, intent, MutationStep::DnsRecordDelete) {
        Some(detail) => Some(detail),
        None => match recorded {
            Some(endpoint) => text::copy_maybe(&endpoint.dns_record_name),
            None => None,
        },
    };
    CleanupReport { state, tunnel_id, dns_record_name, completed: cleanup.completed, remaining: left }
}

/// A report says that nothing is left exactly when every step is done, and what it
/// reports as done and as left is what a retry would skip and do.
pub proof fn a_report_agrees_with_a_retry(
    journal: Seq<JournalEntry<Text>>,
    recorded: Option<Endpoint<Text>>,
    stopped: bool,
    holds_configuration: bool,
    holds_credentials: bool,
)
    requires
        reported_intent(journal) is Some,
    ensures
        ({
            let intent = reported_intent(journal)->0;
            let told = report(Some(journal), recorded, stopped, holds_configuration, holds_credentials);
            &&& told.completed == removal::done_steps(journal, intent, holds_configuration, holds_credentials)
            &&& told.remaining == tunnels::remaining(tunnels::steps_of(intent), told.completed)
            &&& (told.state == CleanupState::FullyRemoved || told.state == CleanupState::Forgotten) == (
            told.remaining.len() == 0)
            &&& holds_configuration ==> told.state != CleanupState::FullyRemoved && told.state
                != CleanupState::Forgotten
        }),
{
    let intent = reported_intent(journal)->0;
    let completed = removal::done_steps(journal, intent, holds_configuration, holds_credentials);
    crate::tunnels::removal::done_steps_are_of_the_cleanup(journal, intent, holds_configuration, holds_credentials);
    tunnels::done_and_left_are_all_of_it(tunnels::steps_of(intent), completed);
    if holds_configuration {
        assert(tunnels::steps_of(intent).contains(MutationStep::ConfigurationRemove)) by {
            assert(crate::tunnels::forget_steps()[0] == MutationStep::ConfigurationRemove);
            assert(crate::tunnels::deletion_steps()[2] == MutationStep::ConfigurationRemove);
        }
        assert(!completed.contains(MutationStep::ConfigurationRemove));
        assert(tunnels::remaining(tunnels::steps_of(intent), completed).contains(MutationStep::ConfigurationRemove));
    }
}

// ---------------------------------------------------------------------------
// An unfinished creation
// ---------------------------------------------------------------------------

/// What a creation that never finished got done, and what it has left.
#[derive(Debug, PartialEq, Eq)]
pub struct UnfinishedCreation<S, L> {
    pub name: Option<S>,
    pub tunnel_id: Option<S>,
    pub hostname: Option<S>,
    pub completed: L,
    pub remaining: L,
}

impl View for UnfinishedCreation<String, Vec<MutationStep>> {
    type V = UnfinishedCreation<Text, Seq<MutationStep>>;

    open spec fn view(&self) -> UnfinishedCreation<Text, Seq<MutationStep>> {
        UnfinishedCreation {
            name: text::maybe(self.name),
            tunnel_id: text::maybe(self.tunnel_id),
            hostname: text::maybe(self.hostname),
            completed: self.completed@,
            remaining: self.remaining@,
        }
    }
}

/// Whether the journal holds any entry of this intent.
pub open spec fn any_of(journal: Seq<JournalEntry<Text>>, intent: MutationIntent) -> bool {
    exists|i: int| 0 <= i < journal.len() && (#[trigger] journal[i]).intent == intent
}

/// The name an allocation was asked for: a step begins with the name and settles
/// with the tunnel's id, so a detail that is not the id is a name.
pub open spec fn asked_name(journal: Seq<JournalEntry<Text>>, tunnel_id: Option<Text>) -> Option<Text>
    decreases journal.len(),
{
    if journal.len() == 0 {
        None
    } else if journal[0].intent == MutationIntent::Create && journal[0].step == MutationStep::TunnelCreate
        && journal[0].detail is Some && journal[0].detail != tunnel_id {
        journal[0].detail
    } else {
        asked_name(journal.drop_first(), tunnel_id)
    }
}

/// What the first completed route of a creation was for.
pub open spec fn routed_name(journal: Seq<JournalEntry<Text>>) -> Option<Text>
    decreases journal.len(),
{
    if journal.len() == 0 {
        None
    } else if journal[0].intent == MutationIntent::Create && journal[0].step == MutationStep::DnsRoute
        && journal[0].state == MutationState::Completed {
        journal[0].detail
    } else {
        routed_name(journal.drop_first())
    }
}

/// What of a creation is observably there.
pub open spec fn observed_steps(tunnel_id: Option<Text>, hostname: Option<Text>, configured: bool) -> Seq<MutationStep> {
    let made: Seq<MutationStep> = if tunnel_id is Some { seq![MutationStep::TunnelCreate] } else { Seq::empty() };
    let routed = if hostname is Some { made.push(MutationStep::DnsRoute) } else { made };
    if configured {
        routed.push(MutationStep::Configuration)
    } else {
        routed
    }
}

/// What a creation that never finished got done. A finished one has no journal, by
/// [`nothing_finished_is_unfinished`], so that the journal being there is the
/// unfinished state.
pub open spec fn unfinished(
    journal: Option<Seq<JournalEntry<Text>>>,
    recorded: Option<Endpoint<Text>>,
    tunnel_id: Option<Text>,
    configured: bool,
) -> Option<UnfinishedCreation<Text, Seq<MutationStep>>> {
    match journal {
        None => None,
        Some(journal) => if !any_of(journal, MutationIntent::Create) {
            None
        } else {
            let hostname = or(
                match recorded {
                    Some(endpoint) => endpoint.dns_record_name,
                    None => None,
                },
                routed_name(journal),
            );
            let completed = observed_steps(tunnel_id, hostname, configured);
            Some(
                UnfinishedCreation {
                    name: asked_name(journal, tunnel_id),
                    tunnel_id,
                    hostname,
                    completed,
                    remaining: tunnels::remaining(crate::tunnels::creation_steps(), completed),
                },
            )
        },
    }
}

fn asked_name_of(journal: &Vec<JournalEntry<String>>, tunnel_id: &Option<String>) -> (out: Option<String>)
    ensures
        text::maybe(out) == asked_name(tunnels::journal_view(journal@), text::maybe(*tunnel_id)),
{
    let ghost seen = tunnels::journal_view(journal@);
    let mut i: usize = 0;
    proof {
        assert(seen.skip(0) =~= seen);
    }
    while i < journal.len()
        invariant
            i <= journal@.len(),
            seen == tunnels::journal_view(journal@),
            asked_name(seen, text::maybe(*tunnel_id)) == asked_name(seen.skip(i as int), text::maybe(*tunnel_id)),
        decreases journal@.len() - i,
    {
        let entry = &journal[i];
        proof {
            assert(seen.skip(i as int)[0] == entry@);
            assert(seen.skip(i as int).drop_first() =~= seen.skip(i + 1));
        }
        if entry.intent == MutationIntent::Create && entry.step == MutationStep::TunnelCreate && entry.detail.is_some()
            && !text::same_maybe(&entry.detail, tunnel_id) {
            return text::copy_maybe(&entry.detail);
        }
        i += 1;
    }
    None
}

fn routed_name_of(journal: &Vec<JournalEntry<String>>) -> (out: Option<String>)
    ensures
        text::maybe(out) == routed_name(tunnels::journal_view(journal@)),
{
    let ghost seen = tunnels::journal_view(journal@);
    let mut i: usize = 0;
    proof {
        assert(seen.skip(0) =~= seen);
    }
    while i < journal.len()
        invariant
            i <= journal@.len(),
            seen == tunnels::journal_view(journal@),
            routed_name(seen) == routed_name(seen.skip(i as int)),
        decreases journal@.len() - i,
    {
        let entry = &journal[i];
        proof {
            assert(seen.skip(i as int)[0] == entry@);
            assert(seen.skip(i as int).drop_first() =~= seen.skip(i + 1));
        }
        if entry.intent == MutationIntent::Create && entry.step == MutationStep::DnsRoute && entry.state
            == MutationState::Completed {
            return text::copy_maybe(&entry.detail);
        }
        i += 1;
    }
    None
}

fn has_any_of(journal: &Vec<JournalEntry<String>>, intent: MutationIntent) -> (out: bool)
    ensures
        out == any_of(tunnels::journal_view(journal@), intent),
{
    let ghost seen = tunnels::journal_view(journal@);
    let mut i: usize = 0;
    while i < journal.len()
        invariant
            i <= journal@.len(),
            seen == tunnels::journal_view(journal@),
            forall|j: int| 0 <= j < i ==> (#[trigger] seen[j]).intent != intent,
        decreases journal@.len() - i,
    {
        proof {
            assert(seen[i as int] == journal@[i as int]@);
        }
        if journal[i].intent == intent {
            return true;
        }
        i += 1;
    }
    false
}

/// What a creation that never finished got done, and what it has left. `tunnel_id`
/// is the tunnel whose credential is on disk, and `configured` whether the
/// connector is configured for a tunnel.
pub fn unfinished_creation(
    journal: &Option<Vec<JournalEntry<String>>>,
    recorded: &Option<Endpoint<String>>,
    tunnel_id: Option<String>,
    configured: bool,
) -> (out: Option<UnfinishedCreation<String, Vec<MutationStep>>>)
    ensures
        match out {
            Some(out) => Some(out@),
            None => None,
        } == unfinished(
            match *journal {
                Some(journal) => Some(tunnels::journal_view(journal@)),
                None => None,
            },
            tunnels::endpoint_view(*recorded),
            text::maybe(tunnel_id),
            configured,
        ),
{
    let journal = match journal {
        Some(journal) => journal,
        None => {
            return None;
        },
    };
    if !has_any_of(journal, MutationIntent::Create) {
        return None;
    }
    let recorded_name = match recorded {
        Some(endpoint) => text::copy_maybe(&endpoint.dns_record_name),
        None => None,
    };
    let hostname = if recorded_name.is_some() { recorded_name } else { routed_name_of(journal) };
    let name = asked_name_of(journal, &tunnel_id);
    let mut completed: Vec<MutationStep> = Vec::new();
    if tunnel_id.is_some() {
        completed.push(MutationStep::TunnelCreate);
    }
    if hostname.is_some() {
        completed.push(MutationStep::DnsRoute);
    }
    if configured {
        completed.push(MutationStep::Configuration);
    }
    let steps = tunnels::mutation_steps(MutationIntent::Create);
    let left = tunnels::remaining_steps(&steps, &completed);
    proof {
        assert(completed@ =~= observed_steps(text::maybe(tunnel_id), text::maybe(hostname), configured));
    }
    Some(UnfinishedCreation { name, tunnel_id, hostname, completed, remaining: left })
}

// ---------------------------------------------------------------------------
// What is advertised
// ---------------------------------------------------------------------------

/// What the last verification of the endpoint left.
#[derive(Debug, PartialEq, Eq)]
pub struct Verified<S> {
    pub state: S,
    pub failure_kind: Option<S>,
    pub failure_message: Option<S>,
    pub last_attempt_at: Option<S>,
    pub last_verified_at: Option<S>,
}

impl View for Verified<String> {
    type V = Verified<Text>;

    open spec fn view(&self) -> Verified<Text> {
        Verified {
            state: self.state@,
            failure_kind: text::maybe(self.failure_kind),
            failure_message: text::maybe(self.failure_message),
            last_attempt_at: text::maybe(self.last_attempt_at),
            last_verified_at: text::maybe(self.last_verified_at),
        }
    }
}

/// Who runs the connector, and what is known of the two protocols.
#[derive(Debug, PartialEq, Eq)]
pub struct Health<S> {
    pub connector: S,
    pub https: S,
    pub web_socket: S,
}

/// An endpoint as it is offered to clients.
#[derive(Debug, PartialEq, Eq)]
pub struct AdvertisedEndpoint<S> {
    pub id: S,
    pub http_base_url: S,
    pub ws_base_url: S,
    pub source: S,
    pub description: S,
}

/// The state of the public exposure.
#[derive(Debug, PartialEq, Eq)]
pub struct Snapshot<S> {
    pub configured: bool,
    pub https_origin: Option<S>,
    pub wss_origin: Option<S>,
    pub ownership: TunnelOwnership,
    pub deletable_at_cloudflare: bool,
    pub health: Health<S>,
    pub verification_state: S,
    pub failure_kind: Option<S>,
    pub failure_message: Option<S>,
    pub last_attempt_at: Option<S>,
    pub last_verified_at: Option<S>,
    pub advertised_endpoint: Option<AdvertisedEndpoint<S>>,
}

impl View for Snapshot<String> {
    type V = Snapshot<Text>;

    open spec fn view(&self) -> Snapshot<Text> {
        Snapshot {
            configured: self.configured,
            https_origin: text::maybe(self.https_origin),
            wss_origin: text::maybe(self.wss_origin),
            ownership: self.ownership,
            deletable_at_cloudflare: self.deletable_at_cloudflare,
            health: Health {
                connector: self.health.connector@,
                https: self.health.https@,
                web_socket: self.health.web_socket@,
            },
            verification_state: self.verification_state@,
            failure_kind: text::maybe(self.failure_kind),
            failure_message: text::maybe(self.failure_message),
            last_attempt_at: text::maybe(self.last_attempt_at),
            last_verified_at: text::maybe(self.last_verified_at),
            advertised_endpoint: match self.advertised_endpoint {
                Some(endpoint) => Some(
                    AdvertisedEndpoint {
                        id: endpoint.id@,
                        http_base_url: endpoint.http_base_url@,
                        ws_base_url: endpoint.ws_base_url@,
                        source: endpoint.source@,
                        description: endpoint.description@,
                    },
                ),
                None => None,
            },
        }
    }
}

/// The socket origin of an `https` origin.
pub open spec fn wss_of(https_origin: Text) -> Text {
    text::replaced_first(https_origin, "https://"@, "wss://"@)
}

/// Whether the last failure was of the socket alone, so that `https` works.
pub open spec fn socket_failed(failure_kind: Option<Text>) -> bool {
    failure_kind == Some("websocket"@) || failure_kind == Some("cloudflare-access-websocket"@)
}

/// What is known of `https`.
pub open spec fn https_health(state: Text, failure_kind: Option<Text>) -> Text {
    if state == "verified"@ || socket_failed(failure_kind) {
        "healthy"@
    } else if state == "failed"@ {
        "failed"@
    } else {
        "unknown"@
    }
}

/// What is known of the socket.
pub open spec fn socket_health(state: Text, failure_kind: Option<Text>) -> Text {
    if state == "verified"@ {
        "healthy"@
    } else if socket_failed(failure_kind) {
        "failed"@
    } else {
        "unknown"@
    }
}

/// The state of the exposure of a recorded endpoint. It is advertised only while
/// it is verified and nothing has taken its setup apart since.
pub open spec fn exposed(
    endpoint: Endpoint<Text>,
    verified: Verified<Text>,
    managed: bool,
    advertisable: bool,
) -> Snapshot<Text> {
    let wss = wss_of(endpoint.https_origin);
    Snapshot {
        configured: true,
        https_origin: Some(endpoint.https_origin),
        wss_origin: Some(wss),
        ownership: endpoint.ownership,
        deletable_at_cloudflare: endpoint.ownership == TunnelOwnership::LaplusCreated,
        health: Health {
            connector: if managed { "laplus"@ } else { "external"@ },
            https: https_health(verified.state, verified.failure_kind),
            web_socket: socket_health(verified.state, verified.failure_kind),
        },
        verification_state: verified.state,
        failure_kind: verified.failure_kind,
        failure_message: verified.failure_message,
        last_attempt_at: verified.last_attempt_at,
        last_verified_at: verified.last_verified_at,
        advertised_endpoint: if verified.state == "verified"@ && advertisable {
            Some(
                AdvertisedEndpoint {
                    id: "cloudflare-"@ + (if managed { "managed"@ } else { "external"@ }) + ":"@
                        + endpoint.https_origin,
                    http_base_url: endpoint.https_origin,
                    ws_base_url: wss,
                    source: if managed { "server"@ } else { "user"@ },
                    description: if managed {
                        "Connector supervised by laplus"@
                    } else {
                        "Externally managed by your operator"@
                    },
                },
            )
        } else {
            None
        },
    }
}

/// The state of an exposure that is not configured.
pub open spec fn unexposed() -> Snapshot<Text> {
    Snapshot {
        configured: false,
        https_origin: None,
        wss_origin: None,
        ownership: TunnelOwnership::External,
        deletable_at_cloudflare: false,
        health: Health { connector: "external"@, https: "unknown"@, web_socket: "unknown"@ },
        verification_state: "unconfigured"@,
        failure_kind: None,
        failure_message: None,
        last_attempt_at: None,
        last_verified_at: None,
        advertised_endpoint: None,
    }
}

/// Whether the connector that is configured serves this endpoint.
pub open spec fn is_managed(connector_origin: Option<Text>, https_origin: Text) -> bool {
    connector_origin == Some(https_origin)
}

/// The state of the public exposure. `connector_origin` is the origin the
/// connector is configured for, and `advertisable` whether no cleanup has taken
/// the setup apart.
pub fn external_tunnel_snapshot(
    endpoint: Option<(Endpoint<String>, Verified<String>)>,
    connector_origin: &Option<String>,
    advertisable: bool,
) -> (out: Snapshot<String>)
    ensures
        out@ == match endpoint {
            None => unexposed(),
            Some((endpoint, verified)) => exposed(
                endpoint@,
                verified@,
                is_managed(text::maybe(*connector_origin), endpoint.https_origin@),
                advertisable,
            ),
        },
{
    match endpoint {
        None => Snapshot {
            configured: false,
            https_origin: None,
            wss_origin: None,
            ownership: TunnelOwnership::External,
            deletable_at_cloudflare: false,
            health: Health {
                connector: "external".to_owned(),
                https: "unknown".to_owned(),
                web_socket: "unknown".to_owned(),
            },
            verification_state: "unconfigured".to_owned(),
            failure_kind: None,
            failure_message: None,
            last_attempt_at: None,
            last_verified_at: None,
            advertised_endpoint: None,
        },
        Some((endpoint, verified)) => {
            let wss = text::replace_first(&endpoint.https_origin, "https://", "wss://");
            let managed: bool = match connector_origin {
                Some(origin) => text::same(origin, &endpoint.https_origin),
                None => false,
            };
            let is_verified: bool = text::same(&verified.state, "verified");
            let is_failed: bool = text::same(&verified.state, "failed");
            let only_socket: bool = match &verified.failure_kind {
                Some(kind) => text::same(kind, "websocket") || text::same(kind, "cloudflare-access-websocket"),
                None => false,
            };
            let https = if is_verified || only_socket {
                "healthy"
            } else if is_failed {
                "failed"
            } else {
                "unknown"
            };
            let web_socket = if is_verified {
                "healthy"
            } else if only_socket {
                "failed"
            } else {
                "unknown"
            };
            let advertised_endpoint = if is_verified && advertisable {
                Some(
                    AdvertisedEndpoint {
                        id: text::glue4(
                            "cloudflare-",
                            if managed { "managed" } else { "external" },
                            ":",
                            &endpoint.https_origin,
                        ),
                        http_base_url: endpoint.https_origin.clone(),
                        ws_base_url: wss.clone(),
                        source: (if managed { "server" } else { "user" }).to_owned(),
                        description: (if managed {
                            "Connector supervised by laplus"
                        } else {
                            "Externally managed by your operator"
                        }).to_owned(),
                    },
                )
            } else {
                None
            };
            Snapshot {
                configured: true,
                https_origin: Some(endpoint.https_origin),
                wss_origin: Some(wss),
                ownership: endpoint.ownership,
                deletable_at_cloudflare: endpoint.ownership.deletable_at_cloudflare(),
                health: Health {
                    connector: (if managed { "laplus" } else { "external" }).to_owned(),
                    https: https.to_owned(),
                    web_socket: web_socket.to_owned(),
                },
                verification_state: verified.state,
                failure_kind: verified.failure_kind,
                failure_message: verified.failure_message,
                last_attempt_at: verified.last_attempt_at,
                last_verified_at: verified.last_verified_at,
                advertised_endpoint,
            }
        },
    }
}

/// An endpoint is never advertised unless it is verified and its setup is there,
/// and a deletion is offered exactly where it is authorized.
pub proof fn only_a_verified_endpoint_is_advertised(
    endpoint: Endpoint<Text>,
    verified: Verified<Text>,
    managed: bool,
    advertisable: bool,
)
    ensures
        exposed(endpoint, verified, managed, advertisable).advertised_endpoint is Some <==> verified.state
            == "verified"@ && advertisable,
        tunnels::deletion_offer(Some(endpoint)) is Ok ==> exposed(
            endpoint,
            verified,
            managed,
            advertisable,
        ).deletable_at_cloudflare,
        unexposed().advertised_endpoint is None && !unexposed().deletable_at_cloudflare,
{
}

/// A creation that is done, and one whose setup was forgotten or deleted, is not
/// reported as unfinished: what [`tunnels::finish`] clears is what it would be
/// reported from. A creation that is not done is reported as before.
pub proof fn nothing_finished_is_unfinished(
    journal: Seq<JournalEntry<Text>>,
    intent: MutationIntent,
    answer: tunnels::Answer<tunnels::Refused>,
    recorded: Option<Endpoint<Text>>,
    tunnel_id: Option<Text>,
    configured: bool,
)
    ensures
        ({
            let left = tunnels::left_of(journal, tunnels::finish_of(intent, answer).cleared);
            &&& answer is Done && intent != MutationIntent::Adopt ==> unfinished(
                Some(left),
                recorded,
                tunnel_id,
                configured,
            ) is None
            &&& answer !is Done ==> left == journal
        }),
{
    let cleared = tunnels::finish_of(intent, answer).cleared;
    let left = tunnels::left_of(journal, cleared);
    if answer is Done && intent != MutationIntent::Adopt {
        if any_of(left, MutationIntent::Create) {
            let i = choose|i: int| 0 <= i < left.len() && (#[trigger] left[i]).intent == MutationIntent::Create;
            tunnels::clearing_takes_what_it_names(journal, cleared, left[i]);
            assert(left.contains(left[i]));
            if intent == MutationIntent::Create {
                assert(cleared[0] == MutationIntent::Create);
            } else {
                assert(cleared[1] == MutationIntent::Create);
            }
        }
    }
    if answer !is Done {
        nothing_cleared_is_all_left(journal);
    }
}

proof fn nothing_cleared_is_all_left(journal: Seq<JournalEntry<Text>>)
    ensures
        tunnels::left_of(journal, Seq::empty()) == journal,
    decreases journal.len(),
{
    reveal(Seq::filter);
    if journal.len() > 0 {
        nothing_cleared_is_all_left(journal.drop_last());
        assert(journal =~= journal.drop_last().push(journal.last()));
    }
}

} // verus!
