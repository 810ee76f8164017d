//! The closed vocabularies of public exposure.
//!
//! Every word that crosses a module boundary, a database column or the wire is a
//! variant here, so that adding one has to be answered for wherever it is read.

use crate::text;
use vstd::prelude::*;

verus! {

/// A string that arrived where one of a closed set of words was expected.
///
/// Returned rather than defaulted, because these vocabularies decide what laplus
/// is allowed to delete.
#[derive(Debug, Clone, PartialEq, Eq)]
pub struct UnknownWord {
    pub vocabulary: &'static str,
    pub found: String,
}

impl UnknownWord {
    /// What was found, and what it is not.
    pub fn sentence(&self) -> (out: String)
        ensures
            out@ == self.found@ + " is not a "@ + self.vocabulary@,
    {
        text::glue3(&self.found, " is not a ", self.vocabulary)
    }
}

/// Who owns the Cloudflare tunnel behind an endpoint.
///
/// Not the same question as who runs the connector. Only a laplus-created tunnel
/// is laplus's to delete.
#[derive(Debug, Clone, Copy, PartialEq, Eq, Hash, Structural)]
pub enum TunnelOwnership {
    /// Somebody else's tunnel. laplus verifies and advertises a hostname and
    /// touches nothing, also where it runs the connector from a token.
    External,
    /// An inactive existing tunnel dedicated to this environment. laplus may
    /// configure and supervise it; the allocation and the DNS route remain
    /// someone else's.
    Adopted,
    /// laplus created the allocation and the DNS route, and is the only owner
    /// that may delete either.
    LaplusCreated,
}

impl TunnelOwnership {
    /// The word that is pinned for this variant.
    pub open spec fn word(self) -> Seq<char> {
        match self {
            TunnelOwnership::External => "external"@,
            TunnelOwnership::Adopted => "adopted"@,
            TunnelOwnership::LaplusCreated => "laplus-created"@,
        }
    }

    /// What a word means.
    pub open spec fn reading(word: Seq<char>) -> Option<Self> {
        if word == "external"@ {
            Some(TunnelOwnership::External)
        } else if word == "adopted"@ {
            Some(TunnelOwnership::Adopted)
        } else if word == "laplus-created"@ {
            Some(TunnelOwnership::LaplusCreated)
        } else {
            None
        }
    }

    /// Every variant, in order.
    pub open spec fn every() -> Seq<Self> {
        seq![
            TunnelOwnership::External,
            TunnelOwnership::Adopted,
            TunnelOwnership::LaplusCreated,
        ]
    }

    /// The word that is pinned for this variant.
    pub fn as_str(self) -> (out: &'static str)
        ensures
            out@ == self.word(),
    {
        match self {
            TunnelOwnership::External => "external",
            TunnelOwnership::Adopted => "adopted",
            TunnelOwnership::LaplusCreated => "laplus-created",
        }
    }

    /// Every variant, so that a caller that must cover the vocabulary can walk
    /// it instead of repeating it.
    pub fn all() -> (out: Vec<Self>)
        ensures
            out@ == Self::every(),
    {
        let mut out: Vec<Self> = Vec::new();
        out.push(TunnelOwnership::External);
        out.push(TunnelOwnership::Adopted);
        out.push(TunnelOwnership::LaplusCreated);
        out
    }

    /// What a word means, or that it is none of these.
    pub fn read(word: &str) -> (out: Result<Self, UnknownWord>)
        ensures
            match out {
                Ok(found) => Self::reading(word@) == Some(found),
                Err(unknown) => Self::reading(word@) is None && unknown.vocabulary@ == "tunnel ownership"@ && unknown.found@
                    == word@,
            },
    {
        if text::same(word, "external") {
            Ok(TunnelOwnership::External)
        } else if text::same(word, "adopted") {
            Ok(TunnelOwnership::Adopted)
        } else if text::same(word, "laplus-created") {
            Ok(TunnelOwnership::LaplusCreated)
        } else {
            Err(UnknownWord { vocabulary: "tunnel ownership", found: word.to_owned() })
        }
    }
}

impl std::str::FromStr for TunnelOwnership {
    type Err = UnknownWord;

    fn from_str(word: &str) -> Result<Self, UnknownWord> {
        TunnelOwnership::read(word)
    }
}

/// Every tunnel ownership is read back from its word, and is listed exactly once.
pub proof fn every_tunnel_ownership_reads_back(x: TunnelOwnership)
    ensures
        TunnelOwnership::reading(x.word()) == Some(x),
        TunnelOwnership::every().contains(x),
        TunnelOwnership::every().no_duplicates(),
{
    reveal_strlit("external");
    reveal_strlit("adopted");
    reveal_strlit("laplus-created");
    assert("external"@.len() == 8);
    assert("adopted"@.len() == 7);
    assert("laplus-created"@.len() == 14);
    assert(TunnelOwnership::every()[0] == TunnelOwnership::External);
    assert(TunnelOwnership::every()[1] == TunnelOwnership::Adopted);
    assert(TunnelOwnership::every()[2] == TunnelOwnership::LaplusCreated);
}

impl TunnelOwnership {
    /// Whether laplus may delete this tunnel's Cloudflare resources.
    ///
    /// One method rather than a comparison at each call site, so that no route
    /// can forget to make the check.
    pub fn deletable_at_cloudflare(self) -> (out: bool)
        ensures
            out == (self == TunnelOwnership::LaplusCreated),
    {
        matches!(self, TunnelOwnership::LaplusCreated)
    }
}

/// Which multi-step Cloudflare mutation a journal entry belongs to.
#[derive(Debug, Clone, Copy, PartialEq, Eq, Hash, Structural)]
pub enum MutationIntent {
    /// Dedicate an inactive existing tunnel to this environment.
    Adopt,
    /// Create a stable tunnel and its DNS route.
    Create,
    /// Delete the exact Cloudflare resources laplus created.
    DeleteEverywhere,
    /// Remove laplus-owned local configuration and secrets.
    Forget,
}

impl MutationIntent {
    /// The word that is pinned for this variant.
    pub open spec fn word(self) -> Seq<char> {
        match self {
            MutationIntent::Adopt => "adopt"@,
            MutationIntent::Create => "create"@,
            MutationIntent::DeleteEverywhere => "delete-everywhere"@,
            MutationIntent::Forget => "forget"@,
        }
    }

    /// What a word means.
    pub open spec fn reading(word: Seq<char>) -> Option<Self> {
        if word == "adopt"@ {
            Some(MutationIntent::Adopt)
        } else if word == "create"@ {
            Some(MutationIntent::Create)
        } else if word == "delete-everywhere"@ {
            Some(MutationIntent::DeleteEverywhere)
        } else if word == "forget"@ {
            Some(MutationIntent::Forget)
        } else {
            None
        }
    }

    /// Every variant, in order.
    pub open spec fn every() -> Seq<Self> {
        seq![
            MutationIntent::Adopt,
            MutationIntent::Create,
            MutationIntent::DeleteEverywhere,
            MutationIntent::Forget,
        ]
    }

    /// The word that is pinned for this variant.
    pub fn as_str(self) -> (out: &'static str)
        ensures
            out@ == self.word(),
    {
        match self {
            MutationIntent::Adopt => "adopt",
            MutationIntent::Create => "create",
            MutationIntent::DeleteEverywhere => "delete-everywhere",
            MutationIntent::Forget => "forget",
        }
    }

    /// Every variant, so that a caller that must cover the vocabulary can walk
    /// it instead of repeating it.
    pub fn all() -> (out: Vec<Self>)
        ensures
            out@ == Self::every(),
    {
        let mut out: Vec<Self> = Vec::new();
        out.push(MutationIntent::Adopt);
        out.push(MutationIntent::Create);
        out.push(MutationIntent::DeleteEverywhere);
        out.push(MutationIntent::Forget);
        out
    }

    /// What a word means, or that it is none of these.
    pub fn read(word: &str) -> (out: Result<Self, UnknownWord>)
        ensures
            match out {
                Ok(found) => Self::reading(word@) == Some(found),
                Err(unknown) => Self::reading(word@) is None && unknown.vocabulary@ == "mutation intent"@ && unknown.found@
                    == word@,
            },
    {
        if text::same(word, "adopt") {
            Ok(MutationIntent::Adopt)
        } else if text::same(word, "create") {
            Ok(MutationIntent::Create)
        } else if text::same(word, "delete-everywhere") {
            Ok(MutationIntent::DeleteEverywhere)
        } else if text::same(word, "forget") {
            Ok(MutationIntent::Forget)
        } else {
            Err(UnknownWord { vocabulary: "mutation intent", found: word.to_owned() })
        }
    }
}

impl std::str::FromStr for MutationIntent {
    type Err = UnknownWord;

    fn from_str(word: &str) -> Result<Self, UnknownWord> {
        MutationIntent::read(word)
    }
}

/// Every mutation intent is read back from its word, and is listed exactly once.
pub proof fn every_mutation_intent_reads_back(x: MutationIntent)
    ensures
        MutationIntent::reading(x.word()) == Some(x),
        MutationIntent::every().contains(x),
        MutationIntent::every().no_duplicates(),
{
    reveal_strlit("adopt");
    reveal_strlit("create");
    reveal_strlit("delete-everywhere");
    reveal_strlit("forget");
    assert("create"@[0] != "forget"@[0]);
    assert("adopt"@.len() == 5);
    assert("create"@.len() == 6);
    assert("delete-everywhere"@.len() == 17);
    assert("forget"@.len() == 6);
    assert(MutationIntent::every()[0] == MutationIntent::Adopt);
    assert(MutationIntent::every()[1] == MutationIntent::Create);
    assert(MutationIntent::every()[2] == MutationIntent::DeleteEverywhere);
    assert(MutationIntent::every()[3] == MutationIntent::Forget);
}

/// One journaled step of a Cloudflare mutation.
///
/// Journaled before and after, which is what makes a step resumable: one recorded
/// as pending and never settled is the remaining work, and one recorded as
/// completed is the mutation a retry must not repeat.
#[derive(Debug, Clone, Copy, PartialEq, Eq, Hash, Structural)]
pub enum MutationStep {
    /// Retrieve or create the narrow run credential for the tunnel.
    Credential,
    /// `cloudflared tunnel create`.
    TunnelCreate,
    /// `cloudflared tunnel route dns`.
    DnsRoute,
    /// Write laplus's own isolated ingress configuration.
    Configuration,
    /// Delete the exact recorded DNS record. Not a cloudflared command: it is a
    /// Cloudflare DNS API call and needs DNS authority of its own.
    DnsRecordDelete,
    /// `cloudflared tunnel delete`.
    TunnelDelete,
    /// Remove laplus's own ingress configuration.
    ConfigurationRemove,
    /// Remove the narrow run credential laplus stored.
    CredentialRemove,
}

impl MutationStep {
    /// The word that is pinned for this variant.
    pub open spec fn word(self) -> Seq<char> {
        match self {
            MutationStep::Credential => "credential"@,
            MutationStep::TunnelCreate => "tunnel-create"@,
            MutationStep::DnsRoute => "dns-route"@,
            MutationStep::Configuration => "configuration"@,
            MutationStep::DnsRecordDelete => "dns-record-delete"@,
            MutationStep::TunnelDelete => "tunnel-delete"@,
            MutationStep::ConfigurationRemove => "configuration-remove"@,
            MutationStep::CredentialRemove => "credential-remove"@,
        }
    }

    /// What a word means.
    pub open spec fn reading(word: Seq<char>) -> Option<Self> {
        if word == "credential"@ {
            Some(MutationStep::Credential)
        } else if word == "tunnel-create"@ {
            Some(MutationStep::TunnelCreate)
        } else if word == "dns-route"@ {
            Some(MutationStep::DnsRoute)
        } else if word == "configuration"@ {
            Some(MutationStep::Configuration)
        } else if word == "dns-record-delete"@ {
            Some(MutationStep::DnsRecordDelete)
        } else if word == "tunnel-delete"@ {
            Some(MutationStep::TunnelDelete)
        } else if word == "configuration-remove"@ {
            Some(MutationStep::ConfigurationRemove)
        } else if word == "credential-remove"@ {
            Some(MutationStep::CredentialRemove)
        } else {
            None
        }
    }

    /// Every variant, in order.
    pub open spec fn every() -> Seq<Self> {
        seq![
            MutationStep::Credential,
            MutationStep::TunnelCreate,
            MutationStep::DnsRoute,
            MutationStep::Configuration,
            MutationStep::DnsRecordDelete,
            MutationStep::TunnelDelete,
            MutationStep::ConfigurationRemove,
            MutationStep::CredentialRemove,
        ]
    }

    /// The word that is pinned for this variant.
    pub fn as_str(self) -> (out: &'static str)
        ensures
            out@ == self.word(),
    {
        match self {
            MutationStep::Credential => "credential",
            MutationStep::TunnelCreate => "tunnel-create",
            MutationStep::DnsRoute => "dns-route",
            MutationStep::Configuration => "configuration",
            MutationStep::DnsRecordDelete => "dns-record-delete",
            MutationStep::TunnelDelete => "tunnel-delete",
            MutationStep::ConfigurationRemove => "configuration-remove",
            MutationStep::CredentialRemove => "credential-remove",
        }
    }

    /// Every variant, so that a caller that must cover the vocabulary can walk
    /// it instead of repeating it.
    pub fn all() -> (out: Vec<Self>)
        ensures
            out@ == Self::every(),
    {
        let mut out: Vec<Self> = Vec::new();
        out.push(MutationStep::Credential);
        out.push(MutationStep::TunnelCreate);
        out.push(MutationStep::DnsRoute);
        out.push(MutationStep::Configuration);
        out.push(MutationStep::DnsRecordDelete);
        out.push(MutationStep::TunnelDelete);
        out.push(MutationStep::ConfigurationRemove);
        out.push(MutationStep::CredentialRemove);
        out
    }

    /// What a word means, or that it is none of these.
    pub fn read(word: &str) -> (out: Result<Self, UnknownWord>)
        ensures
            match out {
                Ok(found) => Self::reading(word@) == Some(found),
                Err(unknown) => Self::reading(word@) is None && unknown.vocabulary@ == "mutation step"@ && unknown.found@
                    == word@,
            },
    {
        if text::same(word, "credential") {
            Ok(MutationStep::Credential)
        } else if text::same(word, "tunnel-create") {
            Ok(MutationStep::TunnelCreate)
        } else if text::same(word, "dns-route") {
            Ok(MutationStep::DnsRoute)
        } else if text::same(word, "configuration") {
            Ok(MutationStep::Configuration)
        } else if text::same(word, "dns-record-delete") {
            Ok(MutationStep::DnsRecordDelete)
        } else if text::same(word, "tunnel-delete") {
            Ok(MutationStep::TunnelDelete)
        } else if text::same(word, "configuration-remove") {
            Ok(MutationStep::ConfigurationRemove)
        } else if text::same(word, "credential-remove") {
            Ok(MutationStep::CredentialRemove)
        } else {
            Err(UnknownWord { vocabulary: "mutation step", found: word.to_owned() })
        }
    }
}

impl std::str::FromStr for MutationStep {
    type Err = UnknownWord;

    fn from_str(word: &str) -> Result<Self, UnknownWord> {
        MutationStep::read(word)
    }
}

/// Every mutation step is read back from its word, and is listed exactly once.
pub proof fn every_mutation_step_reads_back(x: MutationStep)
    ensures
        MutationStep::reading(x.word()) == Some(x),
        MutationStep::every().contains(x),
        MutationStep::every().no_duplicates(),
{
    reveal_strlit("credential");
    reveal_strlit("tunnel-create");
    reveal_strlit("dns-route");
    reveal_strlit("configuration");
    reveal_strlit("dns-record-delete");
    reveal_strlit("tunnel-delete");
    reveal_strlit("configuration-remove");
    reveal_strlit("credential-remove");
    assert("tunnel-create"@[0] != "configuration"@[0]);
    assert("tunnel-create"@[7] != "tunnel-delete"@[7]);
    assert("configuration"@[0] != "tunnel-delete"@[0]);
    assert("dns-record-delete"@[0] != "credential-remove"@[0]);
    assert("credential"@.len() == 10);
    assert("tunnel-create"@.len() == 13);
    assert("dns-route"@.len() == 9);
    assert("configuration"@.len() == 13);
    assert("dns-record-delete"@.len() == 17);
    assert("tunnel-delete"@.len() == 13);
    assert("configuration-remove"@.len() == 20);
    assert("credential-remove"@.len() == 17);
    assert(MutationStep::every()[0] == MutationStep::Credential);
    assert(MutationStep::every()[1] == MutationStep::TunnelCreate);
    assert(MutationStep::every()[2] == MutationStep::DnsRoute);
    assert(MutationStep::every()[3] == MutationStep::Configuration);
    assert(MutationStep::every()[4] == MutationStep::DnsRecordDelete);
    assert(MutationStep::every()[5] == MutationStep::TunnelDelete);
    assert(MutationStep::every()[6] == MutationStep::ConfigurationRemove);
    assert(MutationStep::every()[7] == MutationStep::CredentialRemove);
}

/// How far a journaled step got.
#[derive(Debug, Clone, Copy, PartialEq, Eq, Hash, Structural)]
pub enum MutationState {
    /// Started and not settled. After a restart this is the remaining work.
    Pending,
    /// Done at Cloudflare or on disk. A retry must not repeat it.
    Completed,
    /// Attempted and refused, so a retry may safely start it again.
    Failed,
}

impl MutationState {
    /// The word that is pinned for this variant.
    pub open spec fn word(self) -> Seq<char> {
        match self {
            MutationState::Pending => "pending"@,
            MutationState::Completed => "completed"@,
            MutationState::Failed => "failed"@,
        }
    }

    /// What a word means.
    pub open spec fn reading(word: Seq<char>) -> Option<Self> {
        if word == "pending"@ {
            Some(MutationState::Pending)
        } else if word == "completed"@ {
            Some(MutationState::Completed)
        } else if word == "failed"@ {
            Some(MutationState::Failed)
        } else {
            None
        }
    }

    /// Every variant, in order.
    pub open spec fn every() -> Seq<Self> {
        seq![
            MutationState::Pending,
            MutationState::Completed,
            MutationState::Failed,
        ]
    }

    /// The word that is pinned for this variant.
    pub fn as_str(self) -> (out: &'static str)
        ensures
            out@ == self.word(),
    {
        match self {
            MutationState::Pending => "pending",
            MutationState::Completed => "completed",
            MutationState::Failed => "failed",
        }
    }

    /// Every variant, so that a caller that must cover the vocabulary can walk
    /// it instead of repeating it.
    pub fn all() -> (out: Vec<Self>)
        ensures
            out@ == Self::every(),
    {
        let mut out: Vec<Self> = Vec::new();
        out.push(MutationState::Pending);
        out.push(MutationState::Completed);
        out.push(MutationState::Failed);
        out
    }

    /// What a word means, or that it is none of these.
    pub fn read(word: &str) -> (out: Result<Self, UnknownWord>)
        ensures
            match out {
                Ok(found) => Self::reading(word@) == Some(found),
                Err(unknown) => Self::reading(word@) is None && unknown.vocabulary@ == "mutation state"@ && unknown.found@
                    == word@,
            },
    {
        if text::same(word, "pending") {
            Ok(MutationState::Pending)
        } else if text::same(word, "completed") {
            Ok(MutationState::Completed)
        } else if text::same(word, "failed") {
            Ok(MutationState::Failed)
        } else {
            Err(UnknownWord { vocabulary: "mutation state", found: word.to_owned() })
        }
    }
}

impl std::str::FromStr for MutationState {
    type Err = UnknownWord;

    fn from_str(word: &str) -> Result<Self, UnknownWord> {
        MutationState::read(word)
    }
}

/// Every mutation state is read back from its word, and is listed exactly once.
pub proof fn every_mutation_state_reads_back(x: MutationState)
    ensures
        MutationState::reading(x.word()) == Some(x),
        MutationState::every().contains(x),
        MutationState::every().no_duplicates(),
{
    reveal_strlit("pending");
    reveal_strlit("completed");
    reveal_strlit("failed");
    assert("pending"@.len() == 7);
    assert("completed"@.len() == 9);
    assert("failed"@.len() == 6);
    assert(MutationState::every()[0] == MutationState::Pending);
    assert(MutationState::every()[1] == MutationState::Completed);
    assert(MutationState::every()[2] == MutationState::Failed);
}

/// Why a public-exposure command was refused. Named where the refusal is raised,
/// never recovered from its prose.
#[derive(Debug, Clone, Copy, PartialEq, Eq, Hash, Structural)]
pub enum RefusalReason {
    /// Sign in to Cloudflare first.
    SignInRequired,
    /// The account certificate may not be used until its authority is accepted.
    ConsentRequired,
    /// The chosen tunnel is no longer in the listing.
    SelectionStale,
    /// There is no connector to act on yet, or not enough to make one.
    ConnectorRequired,
    /// Nothing is running that could be cancelled.
    NothingRunning,
    /// laplus already owns this exposure, or another owner already does.
    OwnershipConflict,
    /// Automatic restarts are spent; an explicit retry is required.
    RestartsExhausted,
    /// The named cloudflared cannot be started, or is too old.
    ExecutableUnusable,
    /// The hostname is not a bare public HTTPS host.
    HostnameInvalid,
    /// The approved release is no longer the one the feed offers.
    ReleaseMoved,
    /// cloudflared ran and said no.
    CommandFailed,
    /// laplus could not write its own private configuration or credential, so
    /// nothing at Cloudflare went wrong and a retry is local.
    LocalSetupFailed,
    /// The tunnel became active between listing and mutation.
    TunnelBecameActive,
    /// Only a laplus-created tunnel may be deleted at Cloudflare.
    NotLaplusCreated,
    /// A previous mutation left state half-changed.
    CleanupRequired,
}

impl RefusalReason {
    /// The word that is pinned for this variant.
    pub open spec fn word(self) -> Seq<char> {
        match self {
            RefusalReason::SignInRequired => "sign-in-required"@,
            RefusalReason::ConsentRequired => "consent-required"@,
            RefusalReason::SelectionStale => "selection-stale"@,
            RefusalReason::ConnectorRequired => "connector-required"@,
            RefusalReason::NothingRunning => "nothing-running"@,
            RefusalReason::OwnershipConflict => "ownership-conflict"@,
            RefusalReason::RestartsExhausted => "restarts-exhausted"@,
            RefusalReason::ExecutableUnusable => "executable-unusable"@,
            RefusalReason::HostnameInvalid => "hostname-invalid"@,
            RefusalReason::ReleaseMoved => "release-moved"@,
            RefusalReason::CommandFailed => "command-failed"@,
            RefusalReason::LocalSetupFailed => "local-setup-failed"@,
            RefusalReason::TunnelBecameActive => "tunnel-became-active"@,
            RefusalReason::NotLaplusCreated => "not-laplus-created"@,
            RefusalReason::CleanupRequired => "cleanup-required"@,
        }
    }

    /// What a word means.
    pub open spec fn reading(word: Seq<char>) -> Option<Self> {
        if word == "sign-in-required"@ {
            Some(RefusalReason::SignInRequired)
        } else if word == "consent-required"@ {
            Some(RefusalReason::ConsentRequired)
        } else if word == "selection-stale"@ {
            Some(RefusalReason::SelectionStale)
        } else if word == "connector-required"@ {
            Some(RefusalReason::ConnectorRequired)
        } else if word == "nothing-running"@ {
            Some(RefusalReason::NothingRunning)
        } else if word == "ownership-conflict"@ {
            Some(RefusalReason::OwnershipConflict)
        } else if word == "restarts-exhausted"@ {
            Some(RefusalReason::RestartsExhausted)
        } else if word == "executable-unusable"@ {
            Some(RefusalReason::ExecutableUnusable)
        } else if word == "hostname-invalid"@ {
            Some(RefusalReason::HostnameInvalid)
        } else if word == "release-moved"@ {
            Some(RefusalReason::ReleaseMoved)
        } else if word == "command-failed"@ {
            Some(RefusalReason::CommandFailed)
        } else if word == "local-setup-failed"@ {
            Some(RefusalReason::LocalSetupFailed)
        } else if word == "tunnel-became-active"@ {
            Some(RefusalReason::TunnelBecameActive)
        } else if word == "not-laplus-created"@ {
            Some(RefusalReason::NotLaplusCreated)
        } else if word == "cleanup-required"@ {
            Some(RefusalReason::CleanupRequired)
        } else {
            None
        }
    }

    /// Every variant, in order.
    pub open spec fn every() -> Seq<Self> {
        seq![
            RefusalReason::SignInRequired,
            RefusalReason::ConsentRequired,
            RefusalReason::SelectionStale,
            RefusalReason::ConnectorRequired,
            RefusalReason::NothingRunning,
            RefusalReason::OwnershipConflict,
            RefusalReason::RestartsExhausted,
            RefusalReason::ExecutableUnusable,
            RefusalReason::HostnameInvalid,
            RefusalReason::ReleaseMoved,
            RefusalReason::CommandFailed,
            RefusalReason::LocalSetupFailed,
            RefusalReason::TunnelBecameActive,
            RefusalReason::NotLaplusCreated,
            RefusalReason::CleanupRequired,
        ]
    }

    /// The word that is pinned for this variant.
    pub fn as_str(self) -> (out: &'static str)
        ensures
            out@ == self.word(),
    {
        match self {
            RefusalReason::SignInRequired => "sign-in-required",
            RefusalReason::ConsentRequired => "consent-required",
            RefusalReason::SelectionStale => "selection-stale",
            RefusalReason::ConnectorRequired => "connector-required",
            RefusalReason::NothingRunning => "nothing-running",
            RefusalReason::OwnershipConflict => "ownership-conflict",
            RefusalReason::RestartsExhausted => "restarts-exhausted",
            RefusalReason::ExecutableUnusable => "executable-unusable",
            RefusalReason::HostnameInvalid => "hostname-invalid",
            RefusalReason::ReleaseMoved => "release-moved",
            RefusalReason::CommandFailed => "command-failed",
            RefusalReason::LocalSetupFailed => "local-setup-failed",
            RefusalReason::TunnelBecameActive => "tunnel-became-active",
            RefusalReason::NotLaplusCreated => "not-laplus-created",
            RefusalReason::CleanupRequired => "cleanup-required",
        }
    }

    /// Every variant, so that a caller that must cover the vocabulary can walk
    /// it instead of repeating it.
    pub fn all() -> (out: Vec<Self>)
        ensures
            out@ == Self::every(),
    {
        let mut out: Vec<Self> = Vec::new();
        out.push(RefusalReason::SignInRequired);
        out.push(RefusalReason::ConsentRequired);
        out.push(RefusalReason::SelectionStale);
        out.push(RefusalReason::ConnectorRequired);
        out.push(RefusalReason::NothingRunning);
        out.push(RefusalReason::OwnershipConflict);
        out.push(RefusalReason::RestartsExhausted);
        out.push(RefusalReason::ExecutableUnusable);
        out.push(RefusalReason::HostnameInvalid);
        out.push(RefusalReason::ReleaseMoved);
        out.push(RefusalReason::CommandFailed);
        out.push(RefusalReason::LocalSetupFailed);
        out.push(RefusalReason::TunnelBecameActive);
        out.push(RefusalReason::NotLaplusCreated);
        out.push(RefusalReason::CleanupRequired);
        out
    }

    /// What a word means, or that it is none of these.
    pub fn read(word: &str) -> (out: Result<Self, UnknownWord>)
        ensures
            match out {
                Ok(found) => Self::reading(word@) == Some(found),
                Err(unknown) => Self::reading(word@) is None && unknown.vocabulary@ == "refusal reason"@ && unknown.found@
                    == word@,
            },
    {
        if text::same(word, "sign-in-required") {
            Ok(RefusalReason::SignInRequired)
        } else if text::same(word, "consent-required") {
            Ok(RefusalReason::ConsentRequired)
        } else if text::same(word, "selection-stale") {
            Ok(RefusalReason::SelectionStale)
        } else if text::same(word, "connector-required") {
            Ok(RefusalReason::ConnectorRequired)
        } else if text::same(word, "nothing-running") {
            Ok(RefusalReason::NothingRunning)
        } else if text::same(word, "ownership-conflict") {
            Ok(RefusalReason::OwnershipConflict)
        } else if text::same(word, "restarts-exhausted") {
            Ok(RefusalReason::RestartsExhausted)
        } else if text::same(word, "executable-unusable") {
            Ok(RefusalReason::ExecutableUnusable)
        } else if text::same(word, "hostname-invalid") {
            Ok(RefusalReason::HostnameInvalid)
        } else if text::same(word, "release-moved") {
            Ok(RefusalReason::ReleaseMoved)
        } else if text::same(word, "command-failed") {
            Ok(RefusalReason::CommandFailed)
        } else if text::same(word, "local-setup-failed") {
            Ok(RefusalReason::LocalSetupFailed)
        } else if text::same(word, "tunnel-became-active") {
            Ok(RefusalReason::TunnelBecameActive)
        } else if text::same(word, "not-laplus-created") {
            Ok(RefusalReason::NotLaplusCreated)
        } else if text::same(word, "cleanup-required") {
            Ok(RefusalReason::CleanupRequired)
        } else {
            Err(UnknownWord { vocabulary: "refusal reason", found: word.to_owned() })
        }
    }
}

impl std::str::FromStr for RefusalReason {
    type Err = UnknownWord;

    fn from_str(word: &str) -> Result<Self, UnknownWord> {
        RefusalReason::read(word)
    }
}

/// Every refusal reason is read back from its word, and is listed exactly once.
pub proof fn every_refusal_reason_reads_back(x: RefusalReason)
    ensures
        RefusalReason::reading(x.word()) == Some(x),
        RefusalReason::every().contains(x),
        RefusalReason::every().no_duplicates(),
{
    reveal_strlit("sign-in-required");
    reveal_strlit("consent-required");
    reveal_strlit("selection-stale");
    reveal_strlit("connector-required");
    reveal_strlit("nothing-running");
    reveal_strlit("ownership-conflict");
    reveal_strlit("restarts-exhausted");
    reveal_strlit("executable-unusable");
    reveal_strlit("hostname-invalid");
    reveal_strlit("release-moved");
    reveal_strlit("command-failed");
    reveal_strlit("local-setup-failed");
    reveal_strlit("tunnel-became-active");
    reveal_strlit("not-laplus-created");
    reveal_strlit("cleanup-required");
    assert("sign-in-required"@[0] != "consent-required"@[0]);
    assert("sign-in-required"@[0] != "hostname-invalid"@[0]);
    assert("sign-in-required"@[0] != "cleanup-required"@[0]);
    assert("consent-required"@[0] != "hostname-invalid"@[0]);
    assert("consent-required"@[1] != "cleanup-required"@[1]);
    assert("selection-stale"@[0] != "nothing-running"@[0]);
    assert("connector-required"@[0] != "ownership-conflict"@[0]);
    assert("connector-required"@[0] != "restarts-exhausted"@[0]);
    assert("connector-required"@[0] != "local-setup-failed"@[0]);
    assert("connector-required"@[0] != "not-laplus-created"@[0]);
    assert("ownership-conflict"@[0] != "restarts-exhausted"@[0]);
    assert("ownership-conflict"@[0] != "local-setup-failed"@[0]);
    assert("ownership-conflict"@[0] != "not-laplus-created"@[0]);
    assert("restarts-exhausted"@[0] != "local-setup-failed"@[0]);
    assert("restarts-exhausted"@[0] != "not-laplus-created"@[0]);
    assert("hostname-invalid"@[0] != "cleanup-required"@[0]);
    assert("local-setup-failed"@[0] != "not-laplus-created"@[0]);
    assert("sign-in-required"@.len() == 16);
    assert("consent-required"@.len() == 16);
    assert("selection-stale"@.len() == 15);
    assert("connector-required"@.len() == 18);
    assert("nothing-running"@.len() == 15);
    assert("ownership-conflict"@.len() == 18);
    assert("restarts-exhausted"@.len() == 18);
    assert("executable-unusable"@.len() == 19);
    assert("hostname-invalid"@.len() == 16);
    assert("release-moved"@.len() == 13);
    assert("command-failed"@.len() == 14);
    assert("local-setup-failed"@.len() == 18);
    assert("tunnel-became-active"@.len() == 20);
    assert("not-laplus-created"@.len() == 18);
    assert("cleanup-required"@.len() == 16);
    assert(RefusalReason::every()[0] == RefusalReason::SignInRequired);
    assert(RefusalReason::every()[1] == RefusalReason::ConsentRequired);
    assert(RefusalReason::every()[2] == RefusalReason::SelectionStale);
    assert(RefusalReason::every()[3] == RefusalReason::ConnectorRequired);
    assert(RefusalReason::every()[4] == RefusalReason::NothingRunning);
    assert(RefusalReason::every()[5] == RefusalReason::OwnershipConflict);
    assert(RefusalReason::every()[6] == RefusalReason::RestartsExhausted);
    assert(RefusalReason::every()[7] == RefusalReason::ExecutableUnusable);
    assert(RefusalReason::every()[8] == RefusalReason::HostnameInvalid);
    assert(RefusalReason::every()[9] == RefusalReason::ReleaseMoved);
    assert(RefusalReason::every()[10] == RefusalReason::CommandFailed);
    assert(RefusalReason::every()[11] == RefusalReason::LocalSetupFailed);
    assert(RefusalReason::every()[12] == RefusalReason::TunnelBecameActive);
    assert(RefusalReason::every()[13] == RefusalReason::NotLaplusCreated);
    assert(RefusalReason::every()[14] == RefusalReason::CleanupRequired);
}

/// A tunnel's ownership goes by its own word, and no other word is read as one.
pub proof fn an_ownership_goes_by_its_word(x: TunnelOwnership, word: Seq<char>, read: &str, out: Result<TunnelOwnership, UnknownWord>)
    requires
        call_ensures(TunnelOwnership::read, (read,), out),
    ensures
        x.word() == match x {
            TunnelOwnership::External => "external"@,
            TunnelOwnership::Adopted => "adopted"@,
            TunnelOwnership::LaplusCreated => "laplus-created"@,
        },
        TunnelOwnership::reading(word) matches Some(found) ==> found.word() == word,
        TunnelOwnership::reading(word) is None ==> word != x.word(),
        out matches Ok(found) ==> found.word() == read@,
        out matches Err(unknown) ==> unknown.vocabulary@ == "tunnel ownership"@ && unknown.found@ == read@,
{
    every_tunnel_ownership_reads_back(x);
}

/// What a change is for goes by its own word, and no other word is read as one.
pub proof fn an_intent_goes_by_its_word(x: MutationIntent, word: Seq<char>, read: &str, out: Result<MutationIntent, UnknownWord>)
    requires
        call_ensures(MutationIntent::read, (read,), out),
    ensures
        x.word() == match x {
            MutationIntent::Adopt => "adopt"@,
            MutationIntent::Create => "create"@,
            MutationIntent::DeleteEverywhere => "delete-everywhere"@,
            MutationIntent::Forget => "forget"@,
        },
        MutationIntent::reading(word) matches Some(found) ==> found.word() == word,
        MutationIntent::reading(word) is None ==> word != x.word(),
        out matches Ok(found) ==> found.word() == read@,
        out matches Err(unknown) ==> unknown.vocabulary@ == "mutation intent"@ && unknown.found@ == read@,
{
    every_mutation_intent_reads_back(x);
}

/// A step goes by its own word, and no other word is read as one.
pub proof fn a_step_goes_by_its_word(x: MutationStep, word: Seq<char>, read: &str, out: Result<MutationStep, UnknownWord>)
    requires
        call_ensures(MutationStep::read, (read,), out),
    ensures
        x.word() == match x {
            MutationStep::Credential => "credential"@,
            MutationStep::TunnelCreate => "tunnel-create"@,
            MutationStep::DnsRoute => "dns-route"@,
            MutationStep::Configuration => "configuration"@,
            MutationStep::DnsRecordDelete => "dns-record-delete"@,
            MutationStep::TunnelDelete => "tunnel-delete"@,
            MutationStep::ConfigurationRemove => "configuration-remove"@,
            MutationStep::CredentialRemove => "credential-remove"@,
        },
        MutationStep::reading(word) matches Some(found) ==> found.word() == word,
        MutationStep::reading(word) is None ==> word != x.word(),
        out matches Ok(found) ==> found.word() == read@,
        out matches Err(unknown) ==> unknown.vocabulary@ == "mutation step"@ && unknown.found@ == read@,
{
    every_mutation_step_reads_back(x);
}

/// How far a step has come goes by its own word, and no other word is read as one.
pub proof fn a_state_goes_by_its_word(x: MutationState, word: Seq<char>, read: &str, out: Result<MutationState, UnknownWord>)
    requires
        call_ensures(MutationState::read, (read,), out),
    ensures
        x.word() == match x {
            MutationState::Pending => "pending"@,
            MutationState::Completed => "completed"@,
            MutationState::Failed => "failed"@,
        },
        MutationState::reading(word) matches Some(found) ==> found.word() == word,
        MutationState::reading(word) is None ==> word != x.word(),
        out matches Ok(found) ==> found.word() == read@,
        out matches Err(unknown) ==> unknown.vocabulary@ == "mutation state"@ && unknown.found@ == read@,
{
    every_mutation_state_reads_back(x);
}

/// The reason of a refusal goes by its own word, and no other word is read as one.
pub proof fn a_reason_goes_by_its_word(x: RefusalReason, word: Seq<char>, read: &str, out: Result<RefusalReason, UnknownWord>)
    requires
        call_ensures(RefusalReason::read, (read,), out),
    ensures
        x.word() == match x {
            RefusalReason::SignInRequired => "sign-in-required"@,
            RefusalReason::ConsentRequired => "consent-required"@,
            RefusalReason::SelectionStale => "selection-stale"@,
            RefusalReason::ConnectorRequired => "connector-required"@,
            RefusalReason::NothingRunning => "nothing-running"@,
            RefusalReason::OwnershipConflict => "ownership-conflict"@,
            RefusalReason::RestartsExhausted => "restarts-exhausted"@,
            RefusalReason::ExecutableUnusable => "executable-unusable"@,
            RefusalReason::HostnameInvalid => "hostname-invalid"@,
            RefusalReason::ReleaseMoved => "release-moved"@,
            RefusalReason::CommandFailed => "command-failed"@,
            RefusalReason::LocalSetupFailed => "local-setup-failed"@,
            RefusalReason::TunnelBecameActive => "tunnel-became-active"@,
            RefusalReason::NotLaplusCreated => "not-laplus-created"@,
            RefusalReason::CleanupRequired => "cleanup-required"@,
        },
        RefusalReason::reading(word) matches Some(found) ==> found.word() == word,
        RefusalReason::reading(word) is None ==> word != x.word(),
        out matches Ok(found) ==> found.word() == read@,
        out matches Err(unknown) ==> unknown.vocabulary@ == "refusal reason"@ && unknown.found@ == read@,
{
    every_refusal_reason_reads_back(x);
}

/// A tunnel is deleted at its provider only where this server created it, and a word
/// that is unknown is told with the list that it is not in.
pub proof fn only_what_was_created_is_deleted(
    ownership: TunnelOwnership,
    out: bool,
    unknown: UnknownWord,
    sentence: String,
)
    requires
        call_ensures(TunnelOwnership::deletable_at_cloudflare, (ownership,), out),
        call_ensures(UnknownWord::sentence, (&unknown,), sentence),
    ensures
        out <==> ownership is LaplusCreated,
        sentence@ == unknown.found@ + " is not a "@ + unknown.vocabulary@,
{
}

} // verus!
