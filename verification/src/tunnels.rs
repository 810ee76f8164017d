//! The Cloudflare tunnel behind a public endpoint: who owns it, what may be done
//! to it, and how a mutation that was interrupted goes on.
//!
//! Three rules run through all of it. Ownership is read from what is recorded and
//! never from a request. A step that has happened is not repeated. And nothing is
//! rolled back: a mutation that stopped half way says what is done and what is
//! left.

pub mod adoption;
pub mod conduct;
pub mod creation;
pub mod removal;
pub mod report;

use crate::keyed;
use crate::keyed::Keyed;
use crate::public_exposure::{
    MutationIntent, MutationState, MutationStep, Refusal, RefusalKind, RefusalReason, TunnelOwnership,
};
use crate::text;
use vstd::prelude::*;

verus! {

/// Text as the contracts see it.
pub type Text = Seq<char>;

// ---------------------------------------------------------------------------
// What is recorded
// ---------------------------------------------------------------------------

/// What is recorded of the public endpoint. `S` is `String` at run time and
/// `Seq<char>` in the contracts.
#[derive(Debug, PartialEq, Eq)]
pub struct Endpoint<S> {
    pub https_origin: S,
    pub ownership: TunnelOwnership,
    pub tunnel_id: Option<S>,
    /// The name of the DNS record laplus made.
    pub dns_record_name: Option<S>,
}

impl View for Endpoint<String> {
    type V = Endpoint<Text>;

    open spec fn view(&self) -> Endpoint<Text> {
        Endpoint {
            https_origin: self.https_origin@,
            ownership: self.ownership,
            tunnel_id: text::maybe(self.tunnel_id),
            dns_record_name: text::maybe(self.dns_record_name),
        }
    }
}

/// The view of an endpoint that may not be recorded.
pub open spec fn endpoint_view(endpoint: Option<Endpoint<String>>) -> Option<Endpoint<Text>> {
    match endpoint {
        Some(endpoint) => Some(endpoint@),
        None => None,
    }
}

/// One entry of the journal of mutations.
#[derive(Debug, PartialEq, Eq)]
pub struct JournalEntry<S> {
    pub sequence: i64,
    pub intent: MutationIntent,
    pub step: MutationStep,
    pub state: MutationState,
    pub detail: Option<S>,
}

impl View for JournalEntry<String> {
    type V = JournalEntry<Text>;

    open spec fn view(&self) -> JournalEntry<Text> {
        JournalEntry {
            sequence: self.sequence,
            intent: self.intent,
            step: self.step,
            state: self.state,
            detail: text::maybe(self.detail),
        }
    }
}

/// The view of a journal.
pub open spec fn journal_view(journal: Seq<JournalEntry<String>>) -> Seq<JournalEntry<Text>> {
    Seq::new(journal.len(), |i: int| journal[i]@)
}

/// A refusal as the contracts see it.
#[verifier::ext_equal]
pub struct Refused {
    pub kind: RefusalKind,
    pub reason: RefusalReason,
    pub message: Text,
    pub completed: Seq<MutationStep>,
    pub remaining: Seq<MutationStep>,
}

impl View for Refusal {
    type V = Refused;

    open spec fn view(&self) -> Refused {
        Refused {
            kind: self.kind,
            reason: self.reason,
            message: self.message@,
            completed: self.completed@,
            remaining: self.remaining@,
        }
    }
}

impl Refused {
    /// A refusal that asks for something to be done first.
    pub open spec fn precondition(reason: RefusalReason, message: Text) -> Refused {
        Refused {
            kind: RefusalKind::Precondition,
            reason,
            message,
            completed: Seq::empty(),
            remaining: Seq::empty(),
        }
    }

    /// A refusal that says no.
    pub open spec fn rejected(reason: RefusalReason, message: Text) -> Refused {
        Refused {
            kind: RefusalKind::Rejected,
            reason,
            message,
            completed: Seq::empty(),
            remaining: Seq::empty(),
        }
    }

    /// The same refusal, naming what of `steps` is done and what is left.
    pub open spec fn after(self, steps: Seq<MutationStep>, completed: Seq<MutationStep>) -> Refused {
        Refused { completed, remaining: remaining(steps, completed), ..self }
    }

    /// The same refusal without a secret.
    pub open spec fn redacting(self, secret: Text) -> Refused {
        Refused { message: crate::public_exposure::redacted(self.message, secret), ..self }
    }
}

/// The view of what came of something that can be refused.
pub open spec fn tried(outcome: Result<(), Refusal>) -> Result<(), Refused> {
    match outcome {
        Ok(_) => Ok(()),
        Err(refusal) => Err(refusal@),
    }
}

/// What the world is answered when a command is over.
#[derive(Debug, PartialEq, Eq)]
pub enum Answer<R> {
    Refused(R),
    /// The deletion was not confirmed, or is not confirmed any more.
    Unconfirmed,
    /// Something of this server's own could not be written.
    Failed,
    /// It is done, and the state is what is answered.
    Done,
}

impl View for Answer<Refusal> {
    type V = Answer<Refused>;

    open spec fn view(&self) -> Answer<Refused> {
        match *self {
            Answer::Refused(refusal) => Answer::Refused(refusal@),
            Answer::Unconfirmed => Answer::Unconfirmed,
            Answer::Failed => Answer::Failed,
            Answer::Done => Answer::Done,
        }
    }
}

/// How a journaled step is settled, and what it turned out to target.
#[derive(Debug, PartialEq, Eq)]
pub struct Settlement<S> {
    pub state: MutationState,
    pub detail: Option<S>,
}

/// How a step is settled.
pub open spec fn settled(succeeded: bool) -> MutationState {
    if succeeded {
        MutationState::Completed
    } else {
        MutationState::Failed
    }
}

/// How a step is settled.
pub fn settle_journaled_step(succeeded: bool) -> (out: MutationState)
    ensures
        out == settled(succeeded),
{
    if succeeded {
        MutationState::Completed
    } else {
        MutationState::Failed
    }
}

// ---------------------------------------------------------------------------
// Steps
// ---------------------------------------------------------------------------

/// The two mutations dedicating an inactive tunnel performs, in order.
pub open spec fn adoption_steps() -> Seq<MutationStep> {
    seq![MutationStep::Credential, MutationStep::Configuration]
}

/// The three mutations creating a stable tunnel performs, in order. There is no
/// credential among them: the command that allocates the tunnel writes it.
pub open spec fn creation_steps() -> Seq<MutationStep> {
    seq![MutationStep::TunnelCreate, MutationStep::DnsRoute, MutationStep::Configuration]
}

/// The two removals a forget performs, in order, neither of them at Cloudflare.
/// The configuration goes first: it is what makes a connector start, and must not
/// be left pointing at a credential that is about to go.
pub open spec fn forget_steps() -> Seq<MutationStep> {
    seq![MutationStep::ConfigurationRemove, MutationStep::CredentialRemove]
}

/// The four removals a delete-everywhere performs, in order. The DNS record goes
/// before the tunnel it points at, and what is local goes last, because a retry
/// needs it to reach Cloudflare again.
pub open spec fn deletion_steps() -> Seq<MutationStep> {
    seq![
        MutationStep::DnsRecordDelete,
        MutationStep::TunnelDelete,
        MutationStep::ConfigurationRemove,
        MutationStep::CredentialRemove,
    ]
}

/// The steps of a mutation, by what it is for.
pub open spec fn steps_of(intent: MutationIntent) -> Seq<MutationStep> {
    match intent {
        MutationIntent::Adopt => adoption_steps(),
        MutationIntent::Create => creation_steps(),
        MutationIntent::DeleteEverywhere => deletion_steps(),
        MutationIntent::Forget => forget_steps(),
    }
}

/// The steps of a mutation, by what it is for.
pub fn mutation_steps(intent: MutationIntent) -> (out: Vec<MutationStep>)
    ensures
        out@ == steps_of(intent),
{
    let mut out: Vec<MutationStep> = Vec::new();
    match intent {
        MutationIntent::Adopt => {
            out.push(MutationStep::Credential);
            out.push(MutationStep::Configuration);
        },
        MutationIntent::Create => {
            out.push(MutationStep::TunnelCreate);
            out.push(MutationStep::DnsRoute);
            out.push(MutationStep::Configuration);
        },
        MutationIntent::DeleteEverywhere => {
            out.push(MutationStep::DnsRecordDelete);
            out.push(MutationStep::TunnelDelete);
            out.push(MutationStep::ConfigurationRemove);
            out.push(MutationStep::CredentialRemove);
        },
        MutationIntent::Forget => {
            out.push(MutationStep::ConfigurationRemove);
            out.push(MutationStep::CredentialRemove);
        },
    }
    proof {
        assert(out@ =~= steps_of(intent));
    }
    out
}

/// What a mutation has left to do, given what is done.
pub open spec fn remaining(steps: Seq<MutationStep>, completed: Seq<MutationStep>) -> Seq<MutationStep> {
    steps.filter(|step: MutationStep| !completed.contains(step))
}

/// Whether a step is among those that are done.
pub fn holds(completed: &Vec<MutationStep>, step: MutationStep) -> (out: bool)
    ensures
        out == completed@.contains(step),
{
    let mut i: usize = 0;
    while i < completed.len()
        invariant
            i <= completed@.len(),
            forall|j: int| 0 <= j < i ==> completed@[j] != step,
        decreases completed@.len() - i,
    {
        if completed[i] == step {
            proof {
                assert(completed@[i as int] == step);
            }
            return true;
        }
        i += 1;
    }
    false
}

/// What a mutation has left to do, given what is done.
pub fn remaining_steps(steps: &Vec<MutationStep>, completed: &Vec<MutationStep>) -> (out: Vec<MutationStep>)
    ensures
        out@ == remaining(steps@, completed@),
{
    let ghost undone = |step: MutationStep| !completed@.contains(step);
    let mut out: Vec<MutationStep> = Vec::new();
    let mut i: usize = 0;
    proof {
        assert(steps@.take(0).filter(undone) =~= Seq::<MutationStep>::empty()) by {
            reveal(Seq::filter);
        }
    }
    while i < steps.len()
        invariant
            i <= steps@.len(),
            undone == (|step: MutationStep| !completed@.contains(step)),
            out@ == steps@.take(i as int).filter(undone),
        decreases steps@.len() - i,
    {
        let step = steps[i];
        proof {
            assert(steps@.take(i + 1) =~= steps@.take(i as int).push(step));
            steps@.take(i as int).lemma_filter_push(step, undone);
        }
        if !holds(completed, step) {
            out.push(step);
        }
        i += 1;
    }
    proof {
        assert(steps@.take(i as int) =~= steps@);
    }
    out
}

/// What is done of a mutation and what is left are all of it and share nothing,
/// and what is left keeps its order.
pub proof fn done_and_left_are_all_of_it(steps: Seq<MutationStep>, completed: Seq<MutationStep>)
    ensures
        forall|step: MutationStep|
            steps.contains(step) ==> (completed.contains(step) != #[trigger] remaining(steps, completed).contains(
                step,
            )),
        forall|step: MutationStep|
            #[trigger] remaining(steps, completed).contains(step) ==> steps.contains(step) && !completed.contains(step),
{
    let undone = |step: MutationStep| !completed.contains(step);
    steps.filter_lemma(undone);
    let left = remaining(steps, completed);
    assert forall|step: MutationStep| steps.contains(step) implies (completed.contains(step) != #[trigger] left.contains(
        step,
    )) by {
        let i = choose|i: int| 0 <= i < steps.len() && steps[i] == step;
        if !completed.contains(step) {
            assert(undone(steps[i]));
            assert(left.contains(steps[i]));
        } else if left.contains(step) {
            let k = choose|k: int| 0 <= k < left.len() && left[k] == step;
            assert(undone(left[k]));
        }
    }
    assert forall|step: MutationStep| #[trigger] left.contains(step) implies steps.contains(step)
        && !completed.contains(step) by {
        let k = choose|k: int| 0 <= k < left.len() && left[k] == step;
        assert(undone(left[k]));
        assert(steps.contains(left[k])) by {
            steps.lemma_filter_contains_rev(undone, step);
        }
    }
}

// ---------------------------------------------------------------------------
// The journal
// ---------------------------------------------------------------------------

/// Whether any step of this intent settled as completed, whatever it targeted.
pub open spec fn any_completed(
    journal: Seq<JournalEntry<Text>>,
    intent: MutationIntent,
    step: MutationStep,
) -> bool {
    exists|i: int|
        0 <= i < journal.len() && (#[trigger] journal[i]).intent == intent && journal[i].step == step
            && journal[i].state == MutationState::Completed
}

/// Whether any step of this intent settled as completed, whatever it targeted.
///
/// Looser than [`completed_step_targeting`] on purpose: a deletion has been
/// confirmed against the exact resources that are recorded, so an entry can only
/// be about them.
pub fn any_completed_step(journal: &Vec<JournalEntry<String>>, intent: MutationIntent, step: MutationStep) -> (out: bool)
    ensures
        out == any_completed(journal_view(journal@), intent, step),
{
    let ghost seen = journal_view(journal@);
    let mut i: usize = 0;
    while i < journal.len()
        invariant
            i <= journal@.len(),
            seen == journal_view(journal@),
            forall|j: int|
                0 <= j < i ==> !((#[trigger] seen[j]).intent == intent && seen[j].step == step && seen[j].state
                    == MutationState::Completed),
        decreases journal@.len() - i,
    {
        let entry = &journal[i];
        proof {
            assert(seen[i as int] == journal@[i as int]@);
        }
        if entry.intent == intent && entry.step == step && entry.state == MutationState::Completed {
            return true;
        }
        i += 1;
    }
    false
}

/// Whether a step of this intent settled as completed against exactly `detail`.
pub open spec fn completed_targeting(
    journal: Seq<JournalEntry<Text>>,
    intent: MutationIntent,
    step: MutationStep,
    detail: Text,
) -> bool {
    exists|i: int|
        0 <= i < journal.len() && (#[trigger] journal[i]).intent == intent && journal[i].step == step
            && journal[i].state == MutationState::Completed && journal[i].detail == Some(detail)
}

/// Whether a step of this intent settled as completed against exactly `detail`.
///
/// The journal is observed state too: a DNS route leaves nothing on this machine,
/// so for that step the journal is the observation.
pub fn completed_step_targeting(
    journal: &Vec<JournalEntry<String>>,
    intent: MutationIntent,
    step: MutationStep,
    detail: &str,
) -> (out: bool)
    ensures
        out == completed_targeting(journal_view(journal@), intent, step, detail@),
{
    let ghost seen = journal_view(journal@);
    let mut i: usize = 0;
    while i < journal.len()
        invariant
            i <= journal@.len(),
            seen == journal_view(journal@),
            forall|j: int|
                0 <= j < i ==> !((#[trigger] seen[j]).intent == intent && seen[j].step == step && seen[j].state
                    == MutationState::Completed && seen[j].detail == Some(detail@)),
        decreases journal@.len() - i,
    {
        let entry = &journal[i];
        proof {
            assert(seen[i as int] == journal@[i as int]@);
        }
        if entry.intent == intent && entry.step == step && entry.state == MutationState::Completed {
            if let Some(found) = &entry.detail {
                if text::same(found, detail) {
                    return true;
                }
            }
        }
        i += 1;
    }
    false
}

/// A completed step that targeted something exactly is a completed step.
pub proof fn an_exact_completion_is_a_completion(
    journal: Seq<JournalEntry<Text>>,
    intent: MutationIntent,
    step: MutationStep,
    detail: Text,
)
    requires
        completed_targeting(journal, intent, step, detail),
    ensures
        any_completed(journal, intent, step),
{
    let i = choose|i: int|
        0 <= i < journal.len() && (#[trigger] journal[i]).intent == intent && journal[i].step == step
            && journal[i].state == MutationState::Completed && journal[i].detail == Some(detail);
    assert(journal[i].intent == intent);
}

/// Whether the journal holds any entry of this intent and step.
pub open spec fn began(journal: Seq<JournalEntry<Text>>, intent: MutationIntent, step: MutationStep) -> bool {
    exists|i: int| 0 <= i < journal.len() && (#[trigger] journal[i]).intent == intent && journal[i].step == step
}

/// Whether the journal holds any entry of this intent and step.
pub fn has_begun(journal: &Vec<JournalEntry<String>>, intent: MutationIntent, step: MutationStep) -> (out: bool)
    ensures
        out == began(journal_view(journal@), intent, step),
{
    let ghost seen = journal_view(journal@);
    let mut i: usize = 0;
    while i < journal.len()
        invariant
            i <= journal@.len(),
            seen == journal_view(journal@),
            forall|j: int| 0 <= j < i ==> !((#[trigger] seen[j]).intent == intent && seen[j].step == step),
        decreases journal@.len() - i,
    {
        let entry = &journal[i];
        proof {
            assert(seen[i as int] == journal@[i as int]@);
        }
        if entry.intent == intent && entry.step == step {
            return true;
        }
        i += 1;
    }
    false
}

// ---------------------------------------------------------------------------
// Whose exposure it is
// ---------------------------------------------------------------------------

/// What is said to a request that would claim as external an exposure laplus
/// already runs.
pub open spec fn already_run() -> Refused {
    Refused::precondition(
        RefusalReason::OwnershipConflict,
        "laplus already runs a connector for this environment. Stop and forget it before registering a hostname somebody else operates."@,
    )
}

/// Refuses to claim as external an exposure laplus is already running.
pub fn managed_connector_already_owns_exposure(configured: bool) -> (out: Option<Refusal>)
    ensures
        match out {
            Some(refusal) => configured && refusal@ == already_run(),
            None => !configured,
        },
{
    if !configured {
        return None;
    }
    let refusal = Refusal::precondition(
        RefusalReason::OwnershipConflict,
        "laplus already runs a connector for this environment. Stop and forget it before registering a hostname somebody else operates.",
    );
    proof {
        assert(refusal@ =~= already_run());
    }
    Some(refusal)
}

/// What is said to a request that would describe a tunnel laplus owns as
/// somebody else's.
pub open spec fn already_owned(ownership: TunnelOwnership) -> Refused {
    Refused::precondition(
        RefusalReason::OwnershipConflict,
        "This environment already has a "@ + ownership.word()
            + " Cloudflare tunnel. Forget it before registering a hostname somebody else operates."@,
    )
}

/// Refuses to describe a tunnel laplus owns as somebody else's. Ownership is not
/// a field a client may set.
pub fn ownership_is_not_the_clients_to_change(recorded: Option<TunnelOwnership>) -> (out: Option<Refusal>)
    ensures
        match out {
            Some(refusal) => recorded is Some && recorded->0 != TunnelOwnership::External && refusal@ == already_owned(
                recorded->0,
            ),
            None => recorded is None || recorded->0 == TunnelOwnership::External,
        },
{
    match recorded {
        None => None,
        Some(ownership) => {
            if ownership == TunnelOwnership::External {
                return None;
            }
            let message = text::glue3(
                "This environment already has a ",
                ownership.as_str(),
                " Cloudflare tunnel. Forget it before registering a hostname somebody else operates.",
            );
            let refusal = Refusal::precondition(RefusalReason::OwnershipConflict, &message);
            proof {
                assert(refusal@ =~= already_owned(ownership));
            }
            Some(refusal)
        },
    }
}

/// Why a deletion is not offered.
pub open spec fn not_ours(what: Text) -> Refused {
    Refused::precondition(
        RefusalReason::NotLaplusCreated,
        "laplus may delete a Cloudflare tunnel only when it created that tunnel and its DNS record. "@ + what,
    )
}

/// What a deletion would remove, or why it may not.
pub open spec fn deletion_offer(recorded: Option<Endpoint<Text>>) -> Result<Text, Refused> {
    match recorded {
        None => Err(not_ours("This environment has no Cloudflare endpoint recorded."@)),
        Some(endpoint) => if endpoint.ownership != TunnelOwnership::LaplusCreated {
            Err(
                not_ours(
                    "This one is "@ + endpoint.ownership.word()
                        + ", so its Cloudflare resources belong to somebody else."@,
                ),
            )
        } else {
            match endpoint.tunnel_id {
                Some(tunnel_id) => Ok(tunnel_id),
                None => Err(
                    not_ours(
                        "The recorded tunnel has no identifier, so there is nothing a deletion could target."@,
                    ),
                ),
            }
        },
    }
}

fn refuse_deletion(what: &str) -> (out: Refusal)
    ensures
        out@ == not_ours(what@),
{
    let message = text::glue(
        "laplus may delete a Cloudflare tunnel only when it created that tunnel and its DNS record. ",
        what,
    );
    let refusal = Refusal::precondition(RefusalReason::NotLaplusCreated, &message);
    proof {
        assert(refusal@ =~= not_ours(what@));
    }
    refusal
}

/// The tunnel a deletion would remove, or why it may not. What authorizes a
/// deletion is the ownership that is recorded and nothing else.
pub fn offered_deletion(recorded: &Option<Endpoint<String>>) -> (out: Result<String, Refusal>)
    ensures
        match out {
            Ok(tunnel_id) => deletion_offer(endpoint_view(*recorded)) == Ok::<Text, Refused>(tunnel_id@),
            Err(refusal) => deletion_offer(endpoint_view(*recorded)) == Err::<Text, Refused>(refusal@),
        },
{
    match recorded {
        None => Err(refuse_deletion("This environment has no Cloudflare endpoint recorded.")),
        Some(endpoint) => {
            if !endpoint.ownership.deletable_at_cloudflare() {
                let what = text::glue3(
                    "This one is ",
                    endpoint.ownership.as_str(),
                    ", so its Cloudflare resources belong to somebody else.",
                );
                return Err(refuse_deletion(&what));
            }
            match &endpoint.tunnel_id {
                Some(tunnel_id) => Ok(tunnel_id.clone()),
                None => Err(
                    refuse_deletion(
                        "The recorded tunnel has no identifier, so there is nothing a deletion could target.",
                    ),
                ),
            }
        },
    }
}

/// A deletion is offered exactly for a laplus-created tunnel that has an
/// identifier: never for an adopted one, never for an external one.
pub proof fn only_a_created_tunnel_is_offered(recorded: Option<Endpoint<Text>>)
    ensures
        deletion_offer(recorded) is Ok <==> recorded is Some && recorded->0.ownership == TunnelOwnership::LaplusCreated
            && recorded->0.tunnel_id is Some,
        deletion_offer(recorded) matches Ok(tunnel_id) ==> recorded->0.tunnel_id == Some(tunnel_id),
{
}

// ---------------------------------------------------------------------------
// Confirmations
// ---------------------------------------------------------------------------

/// How long, in nanoseconds, a destructive confirmation stays spendable: long
/// enough to read what it names, short enough that a tab left open is no standing
/// authority.
pub const DELETION_CONFIRMATION_TTL: u64 = 300_000_000_000;

/// What one offered deletion was an offer to delete, and when it was made, in
/// nanoseconds of a clock that never goes back.
#[derive(Debug, PartialEq, Eq)]
pub struct DeletionConfirmation<S> {
    pub tunnel_id: S,
    pub dns_record_name: Option<S>,
    pub https_origin: S,
    pub minted_at: u64,
}

impl View for DeletionConfirmation<String> {
    type V = DeletionConfirmation<Text>;

    open spec fn view(&self) -> DeletionConfirmation<Text> {
        DeletionConfirmation {
            tunnel_id: self.tunnel_id@,
            dns_record_name: text::maybe(self.dns_record_name),
            https_origin: self.https_origin@,
            minted_at: self.minted_at,
        }
    }
}

impl<S> DeletionConfirmation<S> {
    /// Whether this offer may still be spent at an instant. An instant before it
    /// was minted counts as the minting itself.
    pub open spec fn is_spendable(self, now: u64) -> bool {
        now - self.minted_at < DELETION_CONFIRMATION_TTL
    }

    /// Whether this offer may still be spent at an instant.
    pub fn spendable_at(&self, now: u64) -> (out: bool)
        ensures
            out == self.is_spendable(now),
    {
        now < self.minted_at || now - self.minted_at < DELETION_CONFIRMATION_TTL
    }
}

/// Whether a confirmation names exactly what is recorded.
pub open spec fn names_recorded(
    held: DeletionConfirmation<Text>,
    endpoint: Endpoint<Text>,
    tunnel_id: Text,
) -> bool {
    &&& held.tunnel_id == tunnel_id
    &&& held.https_origin == endpoint.https_origin
    &&& held.dns_record_name == endpoint.dns_record_name
}

/// The confirmations that were minted and not spent.
#[derive(Debug)]
pub struct Confirmations {
    pub held: Keyed<DeletionConfirmation<String>>,
}

impl Confirmations {
    /// None at all, which is also what a restart leaves.
    pub fn new() -> (out: Self)
        ensures
            out.held.wf(),
            out.held@.len() == 0,
    {
        Confirmations { held: Keyed::new() }
    }

    /// Mints an offer, and drops those nobody took in time.
    pub fn offer(&mut self, confirmation: String, offered: DeletionConfirmation<String>, now: u64)
        requires
            old(self).held.wf(),
        ensures
            final(self).held.wf(),
            keyed::find(final(self).held@, confirmation@) == Some(offered),
            forall|other: Text|
                other != confirmation@ ==> #[trigger] keyed::find(final(self).held@, other) == match keyed::find(
                    old(self).held@,
                    other,
                ) {
                    Some(held) => if held.is_spendable(now) { Some(held) } else { None },
                    None => None,
                },
    {
        let ghost before = self.held@;
        let mut all = self.held.take();
        let ghost listed = all@;
        let mut kept: Keyed<DeletionConfirmation<String>> = Keyed::new();
        proof {
            assert forall|name: Text| keyed::find(kept@, name) is None by {
                assert(!keyed::has(kept@, name));
            }
            assert(listed.skip(0) =~= listed);
        }
        let ghost mut done: int = 0;
        while all.len() > 0
            invariant
                kept.wf(),
                keyed::ascending(before),
                listed.len() == before.len(),
                forall|i: int|
                    0 <= i < listed.len() ==> (#[trigger] listed[i]).0@ == before[i].0 && listed[i].1 == before[i].1,
                0 <= done <= listed.len(),
                all@ == listed.skip(done),
                forall|name: Text|
                    #[trigger] keyed::find(kept@, name) == (if keyed::has(before, name) && keyed::place(before, name)
                        < done && (keyed::find(before, name)->0).is_spendable(now) {
                        keyed::find(before, name)
                    } else {
                        None
                    }),
            decreases all@.len(),
        {
            let (name, held) = all.remove(0);
            let ghost earlier = kept@;
            proof {
                assert(name@ == before[done].0 && held == before[done].1);
                keyed::found(before, done);
                assert(all@ =~= listed.skip(done + 1));
            }
            let ghost key = name@;
            let keep: bool = held.spendable_at(now);
            if keep {
                kept.insert(name, held);
            }
            proof {
                assert forall|other: Text|
                    #[trigger] keyed::find(kept@, other) == (if keyed::has(before, other) && keyed::place(before, other)
                        < done + 1 && (keyed::find(before, other)->0).is_spendable(now) {
                        keyed::find(before, other)
                    } else {
                        None
                    }) by {
                    if other == key {
                        assert(keyed::place(before, other) == done);
                        if !keep {
                            assert(keyed::find(kept@, other) == keyed::find(earlier, other));
                        }
                    } else {
                        assert(keyed::find(kept@, other) == keyed::find(earlier, other));
                        if keyed::has(before, other) && keyed::place(before, other) == done {
                            assert(before[done].0 == other);
                        }
                    }
                }
                done = done + 1;
            }
        }
        proof {
            assert forall|name: Text| keyed::has(before, name) implies keyed::place(before, name) < done by {
                let i = keyed::place(before, name);
                assert(before[i].0 == name);
            }
        }
        let ghost swept = kept@;
        kept.insert(confirmation, offered);
        self.held = kept;
        proof {
            assert forall|other: Text| other != confirmation@ implies #[trigger] keyed::find(self.held@, other)
                == match keyed::find(before, other) {
                Some(held) => if held.is_spendable(now) { Some(held) } else { None },
                None => None,
            } by {
                assert(keyed::find(self.held@, other) == keyed::find(swept, other));
            }
        }
    }

    /// Spends a confirmation against what is recorded now. It is gone either way,
    /// so that a repeat fails; its age is checked, so that a stale one fails; and
    /// it has to name what is recorded, so that one minted when the record said
    /// something else fails.
    pub fn spend(&mut self, supplied: &str, endpoint: &Endpoint<String>, tunnel_id: &str, now: u64) -> (out: bool)
        requires
            old(self).held.wf(),
        ensures
            final(self).held.wf(),
            final(self).held@ == keyed::without(old(self).held@, supplied@),
            out == match keyed::find(old(self).held@, supplied@) {
                Some(held) => held.is_spendable(now) && names_recorded(held@, endpoint@, tunnel_id@),
                None => false,
            },
    {
        match self.held.remove(supplied) {
            Some(held) => {
                held.spendable_at(now) && text::same(&held.tunnel_id, tunnel_id) && text::same(
                    &held.https_origin,
                    &endpoint.https_origin,
                ) && text::same_maybe(&held.dns_record_name, &endpoint.dns_record_name)
            },
            None => false,
        }
    }
}

// ---------------------------------------------------------------------------
// What a command that is over leaves
// ---------------------------------------------------------------------------

/// What follows from a command that is over, before it is answered.
#[derive(Debug, PartialEq, Eq)]
pub struct Finish<L> {
    /// The intents whose journals are cleared.
    pub cleared: L,
    /// Whether a verification of the endpoint begins.
    pub verifies: bool,
}

/// The intents whose journals a finished command clears. A finished setup leaves
/// nothing of itself outstanding; a cleanup removed the setup that the other two
/// describe, and its own entries stay, since its report is read from them.
pub open spec fn cleared_by(intent: MutationIntent) -> Seq<MutationIntent> {
    match intent {
        MutationIntent::Adopt => seq![MutationIntent::Adopt],
        MutationIntent::Create => seq![MutationIntent::Create],
        MutationIntent::DeleteEverywhere | MutationIntent::Forget => seq![
            MutationIntent::Adopt,
            MutationIntent::Create,
        ],
    }
}

/// Whether a finished command leaves an endpoint to be verified.
pub open spec fn sets_up(intent: MutationIntent) -> bool {
    intent == MutationIntent::Adopt || intent == MutationIntent::Create
}

/// What follows from a command that is over: one that is not done leaves every
/// journal as it is, for that is its unfinished work, and nothing to verify.
pub open spec fn finish_of(intent: MutationIntent, answer: Answer<Refused>) -> Finish<Seq<MutationIntent>> {
    if answer is Done {
        Finish { cleared: cleared_by(intent), verifies: sets_up(intent) }
    } else {
        Finish { cleared: Seq::empty(), verifies: false }
    }
}

/// What follows from a command that is over.
pub fn finish(intent: MutationIntent, answer: &Answer<Refusal>) -> (out: Finish<Vec<MutationIntent>>)
    ensures
        out.cleared@ == finish_of(intent, answer@).cleared,
        out.verifies == finish_of(intent, answer@).verifies,
{
    let mut cleared: Vec<MutationIntent> = Vec::new();
    match answer {
        Answer::Done => match intent {
            MutationIntent::Adopt => {
                cleared.push(MutationIntent::Adopt);
                Finish { cleared, verifies: true }
            },
            MutationIntent::Create => {
                cleared.push(MutationIntent::Create);
                Finish { cleared, verifies: true }
            },
            MutationIntent::DeleteEverywhere | MutationIntent::Forget => {
                cleared.push(MutationIntent::Adopt);
                cleared.push(MutationIntent::Create);
                Finish { cleared, verifies: false }
            },
        },
        _ => Finish { cleared, verifies: false },
    }
}

/// The entries that clearing the journals of some intents leaves.
pub open spec fn left_of(journal: Seq<JournalEntry<Text>>, cleared: Seq<MutationIntent>) -> Seq<JournalEntry<Text>> {
    journal.filter(|entry: JournalEntry<Text>| !cleared.contains(entry.intent))
}

/// Clearing leaves no entry of a cleared intent, and every entry of any other.
pub proof fn clearing_takes_what_it_names(
    journal: Seq<JournalEntry<Text>>,
    cleared: Seq<MutationIntent>,
    entry: JournalEntry<Text>,
)
    ensures
        left_of(journal, cleared).contains(entry) <==> journal.contains(entry) && !cleared.contains(entry.intent),
    decreases journal.len(),
{
    reveal(Seq::filter);
    if journal.len() > 0 {
        let earlier = journal.drop_last();
        let kept = left_of(earlier, cleared);
        clearing_takes_what_it_names(earlier, cleared, entry);
        assert(journal =~= earlier.push(journal.last()));
        pushing_adds_one(earlier, journal.last(), entry);
        pushing_adds_one(kept, journal.last(), entry);
    }
}

proof fn pushing_adds_one<T>(s: Seq<T>, last: T, x: T)
    ensures
        s.push(last).contains(x) == (s.contains(x) || x == last),
{
    let pushed = s.push(last);
    if s.contains(x) {
        let k = choose|k: int| 0 <= k < s.len() && s[k] == x;
        assert(pushed[k] == x);
    }
    if x == last {
        assert(pushed[s.len() as int] == x);
    }
}

/// The word a deletion that was not confirmed is refused with.
pub fn unconfirmed_reason() -> (out: &'static str)
    ensures
        out@ == "confirmation-required"@,
{
    "confirmation-required"
}

/// What a deletion that was not confirmed is told.
pub fn unconfirmed_message() -> (out: &'static str)
    ensures
        out@ == "Confirm the deletion again. A deletion is authorized by a confirmation laplus minted for the exact tunnel and DNS record it will remove, which is used once and expires shortly."@,
{
    "Confirm the deletion again. A deletion is authorized by a confirmation laplus minted for the exact tunnel and DNS record it will remove, which is used once and expires shortly."
}

/// A confirmation that has been presented is not there any more, whatever came of
/// it: no second request can spend it.
pub proof fn a_confirmation_is_spent_once(held: Seq<(Text, DeletionConfirmation<String>)>, supplied: Text)
    requires
        keyed::ascending(held),
    ensures
        keyed::find(keyed::without(held, supplied), supplied) is None,
{
    if keyed::has(held, supplied) {
        let at = keyed::place(held, supplied);
        let after = keyed::without(held, supplied);
        if keyed::has(after, supplied) {
            let k = keyed::place(after, supplied);
            let i: int = if k < at { k } else { k + 1 };
            assert(after[k] == held[i]);
            keyed::found(held, i);
            keyed::found(held, at);
        }
    }
}

/// A confirmation is spendable until its deadline and never from it on.
pub proof fn a_confirmation_expires(held: DeletionConfirmation<Text>, now: u64, later: u64)
    requires
        now <= later,
        later - held.minted_at >= DELETION_CONFIRMATION_TTL,
    ensures
        !held.is_spendable(later),
        held.is_spendable(now) ==> now - held.minted_at < DELETION_CONFIRMATION_TTL,
{
}

} // verus!
