//! Who may ask: credentials, and the exchanges that issue them.
//!
//! What a credential is and how one is stored belongs elsewhere. What is here is
//! the order in which a request is looked at and which refusal each failure wears.

use crate::keyed;
use crate::keyed::Keyed;
use crate::text;
use vstd::prelude::*;

verus! {

/// Text as the contracts see it.
pub type Text = Seq<char>;

/// What kind of credential a request presented.
#[derive(Debug, Clone, Copy, PartialEq, Eq, Structural)]
pub enum Credential {
    Absent,
    /// Rides in a query string and is good for one upgrade.
    WebSocketTicket,
    BearerToken,
    SessionCookie,
    /// Proof of possession, which this server does not implement.
    DpopToken,
}

/// What a credential is entitled to.
#[derive(Debug, PartialEq, Eq)]
pub struct Grant<S, L> {
    pub subject: S,
    pub scopes: L,
    pub label: Option<S>,
}

impl View for Grant<String, Vec<String>> {
    type V = Grant<Text, Seq<Text>>;

    open spec fn view(&self) -> Grant<Text, Seq<Text>> {
        Grant { subject: self.subject@, scopes: text::views(self.scopes@), label: text::maybe(self.label) }
    }
}

/// What a request that is refused is answered with, by the name of the refusal.
#[derive(Debug, Clone, Copy, PartialEq, Eq, Structural)]
pub enum HttpRefusal {
    UnsupportedRequest,
    InvalidScope,
    ScopeNotGranted,
    AccessTokenUnavailable,
    BrowserSessionUnavailable,
    WebsocketTicketUnavailable,
    PairingCredentialUnavailable,
    PairingLinkRevokeFailed,
    CredentialVerificationFailed,
}

/// Why a request may not proceed.
#[derive(Debug, PartialEq, Eq)]
pub enum Denial<S> {
    /// It presented no credential. The detail is for the log.
    MissingCredential { detail: S },
    /// What it presented is no credential. The detail is for the log.
    InvalidCredential { detail: S },
    Refused(HttpRefusal),
}

impl View for Denial<String> {
    type V = Denial<Text>;

    open spec fn view(&self) -> Denial<Text> {
        match *self {
            Denial::MissingCredential { detail } => Denial::MissingCredential { detail: detail@ },
            Denial::InvalidCredential { detail } => Denial::InvalidCredential { detail: detail@ },
            Denial::Refused(refusal) => Denial::Refused(refusal),
        }
    }
}

// ---------------------------------------------------------------------------
// Scopes
// ---------------------------------------------------------------------------

/// Whether a list holds a word.
pub fn has_word(list: &Vec<String>, word: &str) -> (out: bool)
    ensures
        out == text::views(list@).contains(word@),
{
    let ghost seen = text::views(list@);
    let mut i: usize = 0;
    while i < list.len()
        invariant
            i <= list@.len(),
            seen == text::views(list@),
            forall|j: int| 0 <= j < i ==> seen[j] != word@,
        decreases list@.len() - i,
    {
        proof {
            assert(seen[i as int] == list@[i as int]@);
        }
        if text::same(&list[i], word) {
            return true;
        }
        i += 1;
    }
    false
}

/// Whether every scope that is asked for is granted.
pub open spec fn covered(granted: Seq<Text>, asked: Seq<Text>) -> bool {
    forall|i: int| 0 <= i < asked.len() ==> granted.contains(#[trigger] asked[i])
}

/// Whether every scope that is asked for is granted.
pub fn covers(granted: &Vec<String>, asked: &Vec<String>) -> (out: bool)
    ensures
        out == covered(text::views(granted@), text::views(asked@)),
{
    let ghost seen = text::views(asked@);
    let mut i: usize = 0;
    while i < asked.len()
        invariant
            i <= asked@.len(),
            seen == text::views(asked@),
            forall|j: int| 0 <= j < i ==> text::views(granted@).contains(#[trigger] seen[j]),
        decreases asked@.len() - i,
    {
        proof {
            assert(seen[i as int] == asked@[i as int]@);
        }
        if !has_word(granted, &asked[i]) {
            return false;
        }
        i += 1;
    }
    true
}

/// The one thing a request without the scope it needs is told: which scope that
/// is.
#[derive(Debug, PartialEq, Eq)]
pub struct ScopeRequired {
    pub required_scope: String,
}

/// Whether a grant has a scope, or which one it lacks.
pub fn require_scope(scopes: &Vec<String>, scope: &str) -> (out: Result<(), ScopeRequired>)
    ensures
        match out {
            Ok(_) => text::views(scopes@).contains(scope@),
            Err(required) => !text::views(scopes@).contains(scope@) && required.required_scope@ == scope@,
        },
{
    if has_word(scopes, scope) {
        Ok(())
    } else {
        Err(ScopeRequired { required_scope: scope.to_owned() })
    }
}

// ---------------------------------------------------------------------------
// May this request proceed?
// ---------------------------------------------------------------------------

/// How a credential is checked.
#[derive(Debug, Clone, Copy, PartialEq, Eq, Structural)]
pub enum Check {
    /// Checking it spends it: it is good for one upgrade.
    ConsumeTicket,
    /// Checking it only reads it: a session is presented over and over.
    VerifySession,
}

/// How a credential is checked, or why it need not be.
pub open spec fn check_of(shape: Credential) -> Result<Check, Denial<Text>> {
    match shape {
        Credential::Absent => Err(
            Denial::MissingCredential { detail: "refusing a request that presented no credential"@ },
        ),
        Credential::WebSocketTicket => Ok(Check::ConsumeTicket),
        Credential::BearerToken => Ok(Check::VerifySession),
        Credential::SessionCookie => Ok(Check::VerifySession),
        Credential::DpopToken => Err(
            Denial::InvalidCredential {
                detail: "refusing a DPoP credential: this server implements no proof-of-possession"@,
            },
        ),
    }
}

/// How a credential is checked, or why it need not be.
pub fn check(shape: Credential) -> (out: Result<Check, Denial<String>>)
    ensures
        match out {
            Ok(check) => check_of(shape) == Ok::<Check, Denial<Text>>(check),
            Err(denial) => check_of(shape) == Err::<Check, Denial<Text>>(denial@),
        },
{
    match shape {
        Credential::Absent => Err(
            Denial::MissingCredential { detail: "refusing a request that presented no credential".to_owned() },
        ),
        Credential::WebSocketTicket => Ok(Check::ConsumeTicket),
        Credential::BearerToken | Credential::SessionCookie => Ok(Check::VerifySession),
        Credential::DpopToken => Err(
            Denial::InvalidCredential {
                detail: "refusing a DPoP credential: this server implements no proof-of-possession".to_owned(),
            },
        ),
    }
}

impl Credential {
    /// What a log calls it.
    pub open spec fn name(self) -> Text {
        match self {
            Credential::Absent => "Absent"@,
            Credential::WebSocketTicket => "WebSocketTicket"@,
            Credential::BearerToken => "BearerToken"@,
            Credential::SessionCookie => "SessionCookie"@,
            Credential::DpopToken => "DpopToken"@,
        }
    }

    fn log_name(self) -> (out: &'static str)
        ensures
            out@ == self.name(),
    {
        match self {
            Credential::Absent => "Absent",
            Credential::WebSocketTicket => "WebSocketTicket",
            Credential::BearerToken => "BearerToken",
            Credential::SessionCookie => "SessionCookie",
            Credential::DpopToken => "DpopToken",
        }
    }
}

/// What came of a lookup that can fail on its own account.
#[derive(Debug, PartialEq, Eq)]
pub enum Lookup<T> {
    Found(T),
    Nothing,
    /// The store would not answer, which is no fault of the request.
    Unavailable,
}

/// What a checked credential means.
pub open spec fn admission<G>(shape: Credential, verified: Lookup<G>) -> Result<G, Denial<Text>> {
    match verified {
        Lookup::Found(grant) => Ok(grant),
        Lookup::Nothing => Err(
            Denial::InvalidCredential {
                detail: "refusing a "@ + shape.name() + " that names no live session"@,
            },
        ),
        Lookup::Unavailable => Err(Denial::Refused(HttpRefusal::CredentialVerificationFailed)),
    }
}

/// Whether a request may proceed, once its credential has been checked.
pub fn authorized<G>(shape: Credential, verified: Lookup<G>) -> (out: Result<G, Denial<String>>)
    ensures
        match out {
            Ok(grant) => admission(shape, verified) == Ok::<G, Denial<Text>>(grant),
            Err(denial) => admission(shape, verified) == Err::<G, Denial<Text>>(denial@),
        },
{
    match verified {
        Lookup::Found(grant) => Ok(grant),
        Lookup::Nothing => Err(
            Denial::InvalidCredential {
                detail: text::glue3("refusing a ", shape.log_name(), " that names no live session"),
            },
        ),
        Lookup::Unavailable => Err(Denial::Refused(HttpRefusal::CredentialVerificationFailed)),
    }
}

/// How a session was opened.
#[derive(Debug, Clone, Copy, PartialEq, Eq, Structural)]
pub enum SessionMethod {
    Bearer,
    Browser,
}

/// Which session method a verified credential was, where it is one: a ticket opens
/// a socket rather than holding a session.
pub fn session_method(shape: Credential) -> (out: Option<SessionMethod>)
    ensures
        out == match shape {
            Credential::BearerToken => Some(SessionMethod::Bearer),
            Credential::SessionCookie => Some(SessionMethod::Browser),
            _ => None,
        },
{
    match shape {
        Credential::BearerToken => Some(SessionMethod::Bearer),
        Credential::SessionCookie => Some(SessionMethod::Browser),
        _ => None,
    }
}

/// A request proceeds only with a credential that was looked up and found: never
/// without one, and never with one whose proof this server cannot check.
pub proof fn nothing_proceeds_without_a_live_credential<G>(shape: Credential, verified: Lookup<G>)
    ensures
        check_of(shape) is Err <==> shape == Credential::Absent || shape == Credential::DpopToken,
        admission(shape, verified) is Ok <==> verified is Found,
        check_of(shape) == Ok::<Check, Denial<Text>>(Check::ConsumeTicket) <==> shape == Credential::WebSocketTicket,
{
}

// ---------------------------------------------------------------------------
// Exchanging a pairing code
// ---------------------------------------------------------------------------

/// The words of the one grant this server implements.
#[derive(Debug, PartialEq, Eq)]
pub struct ExchangeTerms<S> {
    pub grant_type: S,
    pub subject_token_type: S,
    pub requested_token_type: S,
}

/// The fields of a token exchange, as far as they were sent.
#[derive(Debug, PartialEq, Eq)]
pub struct ExchangeFields<S> {
    pub grant_type: Option<S>,
    pub subject_token_type: Option<S>,
    pub requested_token_type: Option<S>,
    pub subject_token: Option<S>,
}

impl View for ExchangeTerms<String> {
    type V = ExchangeTerms<Text>;

    open spec fn view(&self) -> ExchangeTerms<Text> {
        ExchangeTerms {
            grant_type: self.grant_type@,
            subject_token_type: self.subject_token_type@,
            requested_token_type: self.requested_token_type@,
        }
    }
}

impl View for ExchangeFields<String> {
    type V = ExchangeFields<Text>;

    open spec fn view(&self) -> ExchangeFields<Text> {
        ExchangeFields {
            grant_type: text::maybe(self.grant_type),
            subject_token_type: text::maybe(self.subject_token_type),
            requested_token_type: text::maybe(self.requested_token_type),
            subject_token: text::maybe(self.subject_token),
        }
    }
}

/// What scopes an exchange asks for.
#[derive(Debug, PartialEq, Eq)]
pub enum ScopeRequest<L> {
    /// Nothing, which asks for everything the code granted.
    Unasked,
    Unreadable,
    Asked(L),
}

/// The view of a request for scopes.
pub open spec fn scope_view(scope: ScopeRequest<Vec<String>>) -> ScopeRequest<Seq<Text>> {
    match scope {
        ScopeRequest::Unasked => ScopeRequest::Unasked,
        ScopeRequest::Unreadable => ScopeRequest::Unreadable,
        ScopeRequest::Asked(scopes) => ScopeRequest::Asked(text::views(scopes@)),
    }
}

/// What to do next in an exchange.
#[derive(Debug, PartialEq, Eq)]
pub enum ExchangeAction<S, L> {
    /// Spend the pairing code: [`Exchange::spent`].
    Spend { credential: S },
    /// Mint an id and a token: [`Exchange::minted`].
    Mint,
    /// Open the session: [`Exchange::issued`].
    Issue { subject: S, scopes: L, label: Option<S>, method: SessionMethod },
    /// The session is open, and is what is answered.
    Done,
    Deny(Denial<S>),
}

impl View for ExchangeAction<String, Vec<String>> {
    type V = ExchangeAction<Text, Seq<Text>>;

    open spec fn view(&self) -> ExchangeAction<Text, Seq<Text>> {
        match *self {
            ExchangeAction::Spend { credential } => ExchangeAction::Spend { credential: credential@ },
            ExchangeAction::Mint => ExchangeAction::Mint,
            ExchangeAction::Issue { subject, scopes, label, method } => ExchangeAction::Issue {
                subject: subject@,
                scopes: text::views(scopes@),
                label: text::maybe(label),
                method,
            },
            ExchangeAction::Done => ExchangeAction::Done,
            ExchangeAction::Deny(denial) => ExchangeAction::Deny(denial@),
        }
    }
}

/// What came of spending a pairing code.
#[derive(Debug, PartialEq, Eq)]
pub enum Spending<S, L> {
    Granted(Grant<S, L>),
    /// The code is wrong, spent or expired; the detail says which.
    Rejected { detail: S },
    Unavailable,
}

/// The view of what came of spending a pairing code.
pub open spec fn spending_view(spending: Spending<String, Vec<String>>) -> Spending<Text, Seq<Text>> {
    match spending {
        Spending::Granted(grant) => Spending::Granted(grant@),
        Spending::Rejected { detail } => Spending::Rejected { detail: detail@ },
        Spending::Unavailable => Spending::Unavailable,
    }
}

/// Which of the two exchanges it is, and what it says when it cannot go on.
pub open spec fn unavailable(method: SessionMethod) -> HttpRefusal {
    match method {
        SessionMethod::Bearer => HttpRefusal::AccessTokenUnavailable,
        SessionMethod::Browser => HttpRefusal::BrowserSessionUnavailable,
    }
}

/// What the log says when a pairing code is rejected.
pub open spec fn rejection(method: SessionMethod, detail: Text) -> Text {
    match method {
        SessionMethod::Bearer => "refusing a token exchange: "@ + detail,
        SessionMethod::Browser => "refusing to open a browser session: "@ + detail,
    }
}

/// Where a token exchange begins. The scopes are read before the code is spent, so
/// that a client that asked for what this server does not know keeps its one
/// attempt.
pub open spec fn begin_exchange(
    terms: ExchangeTerms<Text>,
    fields: ExchangeFields<Text>,
    scope: ScopeRequest<Seq<Text>>,
) -> ExchangeAction<Text, Seq<Text>> {
    let credential = match fields.subject_token {
        Some(token) => text::trimmed(token),
        None => Seq::empty(),
    };
    if fields.grant_type != Some(terms.grant_type) || fields.subject_token_type != Some(terms.subject_token_type)
        || fields.requested_token_type != Some(terms.requested_token_type) {
        ExchangeAction::Deny(Denial::Refused(HttpRefusal::UnsupportedRequest))
    } else if credential.len() == 0 {
        ExchangeAction::Deny(
            Denial::MissingCredential { detail: "refusing a token exchange carrying no pairing code"@ },
        )
    } else if scope is Unreadable {
        ExchangeAction::Deny(Denial::Refused(HttpRefusal::InvalidScope))
    } else {
        ExchangeAction::Spend { credential }
    }
}

/// Where a browser session begins: with the credential its body carries, where
/// that can be read.
pub open spec fn begin_browser_session(credential: Option<Text>) -> ExchangeAction<Text, Seq<Text>> {
    match credential {
        Some(credential) => ExchangeAction::Spend { credential },
        None => ExchangeAction::Deny(Denial::Refused(HttpRefusal::UnsupportedRequest)),
    }
}

/// The scopes a session is opened with.
pub open spec fn session_scopes(scope: ScopeRequest<Seq<Text>>, granted: Seq<Text>) -> Seq<Text> {
    match scope {
        ScopeRequest::Asked(scopes) => scopes,
        _ => granted,
    }
}

/// The code was spent, or was not.
pub open spec fn after_spending(
    method: SessionMethod,
    scope: ScopeRequest<Seq<Text>>,
    spending: Spending<Text, Seq<Text>>,
) -> ExchangeAction<Text, Seq<Text>> {
    match spending {
        Spending::Rejected { detail } => ExchangeAction::Deny(
            Denial::InvalidCredential { detail: rejection(method, detail) },
        ),
        Spending::Unavailable => ExchangeAction::Deny(Denial::Refused(unavailable(method))),
        Spending::Granted(grant) => if covered(grant.scopes, session_scopes(scope, grant.scopes)) {
            ExchangeAction::Mint
        } else {
            ExchangeAction::Deny(Denial::Refused(HttpRefusal::ScopeNotGranted))
        },
    }
}

/// An exchange of a pairing code for a session.
#[derive(Debug)]
pub struct Exchange {
    pub method: SessionMethod,
    pub scope: ScopeRequest<Vec<String>>,
    /// What the code granted, once it has been spent.
    pub grant: Option<Grant<String, Vec<String>>>,
}

impl Exchange {
    /// What is opened, where the code has been spent.
    pub open spec fn session(&self) -> Option<Grant<Text, Seq<Text>>> {
        match self.grant {
            Some(grant) => Some(
                Grant { scopes: session_scopes(scope_view(self.scope), grant@.scopes), ..grant@ },
            ),
            None => None,
        }
    }

    /// Begins a token exchange.
    pub fn token_exchange(
        terms: &ExchangeTerms<String>,
        fields: &ExchangeFields<String>,
        scope: ScopeRequest<Vec<String>>,
    ) -> (out: (Exchange, ExchangeAction<String, Vec<String>>))
        ensures
            out.0.method == SessionMethod::Bearer,
            out.0.scope == scope,
            out.0.grant is None,
            out.1@ == begin_exchange(terms@, fields@, scope_view(scope)),
    {
        let recognised: bool = Self::is_word(&fields.grant_type, &terms.grant_type) && Self::is_word(
            &fields.subject_token_type,
            &terms.subject_token_type,
        ) && Self::is_word(&fields.requested_token_type, &terms.requested_token_type);
        let credential = match &fields.subject_token {
            Some(token) => text::trim(token),
            None => String::new(),
        };
        let unreadable: bool = matches!(scope, ScopeRequest::Unreadable);
        let exchange = Exchange { method: SessionMethod::Bearer, scope, grant: None };
        let action = if !recognised {
            ExchangeAction::Deny(Denial::Refused(HttpRefusal::UnsupportedRequest))
        } else if credential.as_str().is_empty() {
            ExchangeAction::Deny(
                Denial::MissingCredential { detail: "refusing a token exchange carrying no pairing code".to_owned() },
            )
        } else if unreadable {
            ExchangeAction::Deny(Denial::Refused(HttpRefusal::InvalidScope))
        } else {
            ExchangeAction::Spend { credential }
        };
        (exchange, action)
    }

    fn is_word(field: &Option<String>, word: &str) -> (out: bool)
        ensures
            out == (text::maybe(*field) == Some(word@)),
    {
        match field {
            Some(field) => text::same(field, word),
            None => false,
        }
    }

    /// Begins a browser session, with the credential its body carries.
    pub fn browser_session(credential: Option<String>) -> (out: (Exchange, ExchangeAction<String, Vec<String>>))
        ensures
            out.0.method == SessionMethod::Browser,
            out.0.scope == ScopeRequest::<Vec<String>>::Unasked,
            out.0.grant is None,
            out.1@ == begin_browser_session(text::maybe(credential)),
    {
        let exchange = Exchange { method: SessionMethod::Browser, scope: ScopeRequest::Unasked, grant: None };
        let action = match credential {
            Some(credential) => ExchangeAction::Spend { credential },
            None => ExchangeAction::Deny(Denial::Refused(HttpRefusal::UnsupportedRequest)),
        };
        (exchange, action)
    }

    fn refusal(&self) -> (out: HttpRefusal)
        ensures
            out == unavailable(self.method),
    {
        match self.method {
            SessionMethod::Bearer => HttpRefusal::AccessTokenUnavailable,
            SessionMethod::Browser => HttpRefusal::BrowserSessionUnavailable,
        }
    }

    /// The code was spent, or was not.
    pub fn spent(&mut self, spending: Spending<String, Vec<String>>) -> (out: ExchangeAction<String, Vec<String>>)
        ensures
            final(self).method == old(self).method,
            final(self).scope == old(self).scope,
            out@ == after_spending(old(self).method, scope_view(old(self).scope), spending_view(spending)),
            out@ is Mint ==> (spending matches Spending::Granted(grant) && final(self).grant == Some(grant)),
            out@ !is Mint ==> final(self).grant == old(self).grant,
    {
        match spending {
            Spending::Rejected { detail } => {
                let detail = match self.method {
                    SessionMethod::Bearer => text::glue("refusing a token exchange: ", &detail),
                    SessionMethod::Browser => text::glue("refusing to open a browser session: ", &detail),
                };
                ExchangeAction::Deny(Denial::InvalidCredential { detail })
            },
            Spending::Unavailable => ExchangeAction::Deny(Denial::Refused(self.refusal())),
            Spending::Granted(grant) => {
                let granted: bool = match &self.scope {
                    ScopeRequest::Asked(scopes) => covers(&grant.scopes, scopes),
                    _ => true,
                };
                proof {
                    let all = text::views(grant.scopes@);
                    assert(covered(all, all)) by {
                        assert forall|i: int| 0 <= i < all.len() implies all.contains(#[trigger] all[i]) by {}
                    }
                }
                if !granted {
                    return ExchangeAction::Deny(Denial::Refused(HttpRefusal::ScopeNotGranted));
                }
                self.grant = Some(grant);
                ExchangeAction::Mint
            },
        }
    }

    /// An id and a token were minted, or could not be.
    pub fn minted(self, minted: bool) -> (out: (SessionMethod, ExchangeAction<String, Vec<String>>))
        requires
            self.grant is Some,
        ensures
            out.0 == self.method,
            out.1@ == if minted {
                ExchangeAction::Issue {
                    subject: self.session()->0.subject,
                    scopes: self.session()->0.scopes,
                    label: self.session()->0.label,
                    method: self.method,
                }
            } else {
                ExchangeAction::Deny(Denial::Refused(unavailable(self.method)))
            },
    {
        let method = self.method;
        if !minted {
            return (method, ExchangeAction::Deny(Denial::Refused(self.refusal())));
        }
        match self.grant {
            Some(grant) => {
                let scopes = match self.scope {
                    ScopeRequest::Asked(scopes) => scopes,
                    _ => grant.scopes,
                };
                (method, ExchangeAction::Issue { subject: grant.subject, scopes, label: grant.label, method })
            },
            None => (method, ExchangeAction::Done),
        }
    }

    /// The session was opened, or could not be.
    pub fn issued(method: SessionMethod, opened: bool) -> (out: ExchangeAction<String, Vec<String>>)
        ensures
            out@ == if opened {
                ExchangeAction::<Text, Seq<Text>>::Done
            } else {
                ExchangeAction::Deny(Denial::Refused(unavailable(method)))
            },
    {
        if opened {
            ExchangeAction::Done
        } else {
            match method {
                SessionMethod::Bearer => ExchangeAction::Deny(Denial::Refused(HttpRefusal::AccessTokenUnavailable)),
                SessionMethod::Browser => ExchangeAction::Deny(
                    Denial::Refused(HttpRefusal::BrowserSessionUnavailable),
                ),
            }
        }
    }
}

/// A session is never opened with a scope its pairing code did not grant, and one
/// that asked for nothing has everything the code granted.
pub proof fn a_session_has_only_granted_scopes(
    method: SessionMethod,
    scope: ScopeRequest<Seq<Text>>,
    grant: Grant<Text, Seq<Text>>,
)
    requires
        after_spending(method, scope, Spending::Granted(grant)) is Mint,
    ensures
        covered(grant.scopes, session_scopes(scope, grant.scopes)),
        scope is Unasked ==> session_scopes(scope, grant.scopes) == grant.scopes,
{
}

/// A pairing code is spent only by a request that names the grant this server
/// implements, carries a code and asks for scopes that can be read.
pub proof fn a_code_is_not_wasted(
    terms: ExchangeTerms<Text>,
    fields: ExchangeFields<Text>,
    scope: ScopeRequest<Seq<Text>>,
)
    ensures
        begin_exchange(terms, fields, scope) is Spend <==> {
            &&& fields.grant_type == Some(terms.grant_type)
            &&& fields.subject_token_type == Some(terms.subject_token_type)
            &&& fields.requested_token_type == Some(terms.requested_token_type)
            &&& fields.subject_token is Some
            &&& text::trimmed(fields.subject_token->0).len() > 0
            &&& !(scope is Unreadable)
        },
{
}

// ---------------------------------------------------------------------------
// Tickets and pairing links
// ---------------------------------------------------------------------------

/// What a request for a socket ticket is answered with, once one has been asked
/// for: that it is issued, or why not.
pub fn websocket_ticket(minted: bool, issued: Lookup<()>) -> (out: Result<(), Denial<String>>)
    ensures
        match out {
            Ok(_) => minted && issued is Found,
            Err(denial) => denial@ == if minted && issued is Nothing {
                Denial::InvalidCredential {
                    detail: "refusing to mint a socket ticket for a bearer that names no live session"@,
                }
            } else {
                Denial::Refused(HttpRefusal::WebsocketTicketUnavailable)
            } && !(minted && issued is Found),
        },
{
    if !minted {
        return Err(Denial::Refused(HttpRefusal::WebsocketTicketUnavailable));
    }
    match issued {
        Lookup::Found(_) => Ok(()),
        Lookup::Nothing => Err(
            Denial::InvalidCredential {
                detail: "refusing to mint a socket ticket for a bearer that names no live session".to_owned(),
            },
        ),
        Lookup::Unavailable => Err(Denial::Refused(HttpRefusal::WebsocketTicketUnavailable)),
    }
}

/// Whether a payload could be read.
#[derive(Debug, Clone, Copy, PartialEq, Eq, Structural)]
pub enum Payload {
    Readable,
    InvalidScope,
    Malformed,
}

/// Whether a pairing code may be minted: the payload was read, the code was minted
/// and it was written down.
pub fn pairing_credential(payload: Payload, minted: bool, written: bool) -> (out: Result<(), HttpRefusal>)
    ensures
        out == match payload {
            Payload::InvalidScope => Err(HttpRefusal::InvalidScope),
            Payload::Malformed => Err(HttpRefusal::UnsupportedRequest),
            Payload::Readable => if minted && written {
                Ok(())
            } else {
                Err(HttpRefusal::PairingCredentialUnavailable)
            },
        },
{
    match payload {
        Payload::InvalidScope => Err(HttpRefusal::InvalidScope),
        Payload::Malformed => Err(HttpRefusal::UnsupportedRequest),
        Payload::Readable => {
            if minted && written {
                Ok(())
            } else {
                Err(HttpRefusal::PairingCredentialUnavailable)
            }
        },
    }
}

/// What a request to take a code back is answered with: whether something was
/// taken back, which is also whether it is announced; or that it failed, also
/// where its body could not be read.
pub fn revoke_pairing_link(readable: bool, revoked: Lookup<()>) -> (out: Result<bool, HttpRefusal>)
    ensures
        out == if !readable || revoked is Unavailable {
            Err(HttpRefusal::PairingLinkRevokeFailed)
        } else {
            Ok(revoked is Found)
        },
{
    if !readable {
        return Err(HttpRefusal::PairingLinkRevokeFailed);
    }
    match revoked {
        Lookup::Found(_) => Ok(true),
        Lookup::Nothing => Ok(false),
        Lookup::Unavailable => Err(HttpRefusal::PairingLinkRevokeFailed),
    }
}

// ---------------------------------------------------------------------------
// Diagnostic challenges
// ---------------------------------------------------------------------------

/// Over which protocol a challenge is to be answered.
#[derive(Debug, Clone, Copy, PartialEq, Eq, Structural)]
pub enum DiagnosticChallenge {
    Http,
    WebSocket,
}

/// The challenges a verification is waiting for.
#[derive(Debug)]
pub struct Challenges {
    pub open: Keyed<DiagnosticChallenge>,
}

impl Challenges {
    /// None.
    pub fn new() -> (out: Self)
        ensures
            out.open.wf(),
            out.open@.len() == 0,
    {
        Challenges { open: Keyed::new() }
    }

    /// Poses a challenge.
    pub fn pose(&mut self, token: String, challenge: DiagnosticChallenge)
        requires
            old(self).open.wf(),
        ensures
            final(self).open.wf(),
            forall|other: Text|
                #[trigger] keyed::find(final(self).open@, other) == if other == token@ {
                    Some(challenge)
                } else {
                    keyed::find(old(self).open@, other)
                },
    {
        self.open.insert(token, challenge);
    }

    /// Withdraws a challenge, answered or not.
    pub fn withdraw(&mut self, token: &str)
        requires
            old(self).open.wf(),
        ensures
            final(self).open.wf(),
            forall|other: Text|
                #[trigger] keyed::find(final(self).open@, other) == if other == token@ {
                    None
                } else {
                    keyed::find(old(self).open@, other)
                },
    {
        let ghost before = self.open@;
        let _ = self.open.remove(token);
        proof {
            assert forall|other: Text| #[trigger] keyed::find(self.open@, other) == if other == token@ {
                None
            } else {
                keyed::find(before, other)
            } by {
                keyed::taken_out(before, token@, other);
            }
        }
    }

    /// Answers a challenge, which is possible once, and over its own protocol.
    pub fn consume(&mut self, token: &str, expected: DiagnosticChallenge) -> (out: bool)
        requires
            old(self).open.wf(),
        ensures
            final(self).open.wf(),
            out == (keyed::find(old(self).open@, token@) == Some(expected)),
            out ==> final(self).open@ == keyed::without(old(self).open@, token@),
            forall|other: Text|
                !(out && other == token@) ==> #[trigger] keyed::find(final(self).open@, other) == keyed::find(
                    old(self).open@,
                    other,
                ),
    {
        let ghost before = self.open@;
        match self.open.remove(token) {
            Some(found) => {
                proof {
                    assert forall|other: Text| #[trigger] keyed::find(self.open@, other) == if other == token@ {
                        None
                    } else {
                        keyed::find(before, other)
                    } by {
                        keyed::taken_out(before, token@, other);
                    }
                }
                if found == expected {
                    true
                } else {
                    self.open.insert(token.to_owned(), found);
                    false
                }
            },
            None => false,
        }
    }
}

// ---------------------------------------------------------------------------
// What each credential gives
// ---------------------------------------------------------------------------

/// A ticket is spent, a token and a cookie are looked up, and whatever else was sent
/// is turned away as what it is: nothing as missing, and what this server cannot
/// judge as invalid.
pub proof fn a_credential_is_judged_by_its_shape(shape: Credential)
    ensures
        check_of(shape) == Ok::<Check, Denial<Text>>(Check::ConsumeTicket) <==> shape is WebSocketTicket,
        check_of(shape) == Ok::<Check, Denial<Text>>(Check::VerifySession) <==> shape is BearerToken || shape
            is SessionCookie,
        (check_of(shape) matches Err(Denial::MissingCredential { .. })) <==> shape is Absent,
        (check_of(shape) matches Err(Denial::InvalidCredential { .. })) <==> shape is DpopToken,
        check_of(Credential::Absent)->Err_0->MissingCredential_detail
            == "refusing a request that presented no credential"@,
        check_of(Credential::DpopToken)->Err_0->InvalidCredential_detail
            == "refusing a DPoP credential: this server implements no proof-of-possession"@,
{
}

/// Whoever is found is admitted as who they are; a credential that names nobody is
/// invalid, in the words of its own shape, and one that could not be looked up is
/// the server's failure.
pub proof fn whoever_is_found_is_admitted<G>(shape: Credential, grant: G)
    ensures
        admission(shape, Lookup::Found(grant)) == Ok::<G, Denial<Text>>(grant),
        admission(shape, Lookup::<G>::Nothing) == Err::<G, Denial<Text>>(
            Denial::InvalidCredential {
                detail: "refusing a "@ + match shape {
                    Credential::Absent => "Absent"@,
                    Credential::WebSocketTicket => "WebSocketTicket"@,
                    Credential::BearerToken => "BearerToken"@,
                    Credential::SessionCookie => "SessionCookie"@,
                    Credential::DpopToken => "DpopToken"@,
                } + " that names no live session"@,
            },
        ),
        admission(shape, Lookup::<G>::Unavailable) == Err::<G, Denial<Text>>(
            Denial::Refused(HttpRefusal::CredentialVerificationFailed),
        ),
{
}

/// A session that a token opened is a bearer's and one that a cookie opened is a
/// browser's; nothing else opened one.
pub proof fn a_session_is_told_by_its_credential(shape: Credential, method: Option<SessionMethod>)
    requires
        call_ensures(session_method, (shape,), method),
    ensures
        method == Some(SessionMethod::Bearer) <==> shape is BearerToken,
        method == Some(SessionMethod::Browser) <==> shape is SessionCookie,
{
}

/// An exchange on other terms than this server's is unsupported before anything else
/// is looked at, one without a code is told so before its scopes are read, and
/// otherwise it is the code that was sent which is spent.
pub proof fn an_exchange_spends_the_code_that_was_sent(
    terms: ExchangeTerms<Text>,
    fields: ExchangeFields<Text>,
    scope: ScopeRequest<Seq<Text>>,
    token: Text,
)
    requires
        fields.subject_token == Some(token),
    ensures
        ({
            let ours = fields.grant_type == Some(terms.grant_type) && fields.subject_token_type == Some(
                terms.subject_token_type,
            ) && fields.requested_token_type == Some(terms.requested_token_type);
            let begun = begin_exchange(terms, fields, scope);
            &&& !ours ==> begun == ExchangeAction::<Text, Seq<Text>>::Deny(
                Denial::Refused(HttpRefusal::UnsupportedRequest),
            )
            &&& ours && text::trimmed(token).len() == 0 ==> begun == ExchangeAction::<Text, Seq<Text>>::Deny(
                Denial::MissingCredential { detail: "refusing a token exchange carrying no pairing code"@ },
            )
            &&& ours && text::trimmed(token).len() > 0 && scope is Unreadable ==> begun == ExchangeAction::<
                Text,
                Seq<Text>,
            >::Deny(Denial::Refused(HttpRefusal::InvalidScope))
            &&& ours && text::trimmed(token).len() > 0 && !(scope is Unreadable) ==> begun == (ExchangeAction::<
                Text,
                Seq<Text>,
            >::Spend { credential: text::trimmed(token) })
        }),
        begin_browser_session(Some(token)) == (ExchangeAction::<Text, Seq<Text>>::Spend { credential: token }),
        begin_browser_session(None) == ExchangeAction::<Text, Seq<Text>>::Deny(
            Denial::Refused(HttpRefusal::UnsupportedRequest),
        ),
{
}

/// A code that was rejected is told with the reason, in the words of the session it
/// was to open; one that could not be looked up is that session's own failure; and a
/// session that asks for a scope that the code does not grant is not opened.
pub proof fn a_spent_code_opens_what_it_grants(
    scope: ScopeRequest<Seq<Text>>,
    detail: Text,
    grant: Grant<Text, Seq<Text>>,
    method: SessionMethod,
    asked: Seq<Text>,
    i: int,
)
    ensures
        after_spending(SessionMethod::Bearer, scope, Spending::Rejected { detail }) == ExchangeAction::<
            Text,
            Seq<Text>,
        >::Deny(Denial::InvalidCredential { detail: "refusing a token exchange: "@ + detail }),
        after_spending(SessionMethod::Browser, scope, Spending::Rejected { detail }) == ExchangeAction::<
            Text,
            Seq<Text>,
        >::Deny(Denial::InvalidCredential { detail: "refusing to open a browser session: "@ + detail }),
        after_spending(SessionMethod::Bearer, scope, Spending::Unavailable) == ExchangeAction::<Text, Seq<Text>>::Deny(
            Denial::Refused(HttpRefusal::AccessTokenUnavailable),
        ),
        after_spending(SessionMethod::Browser, scope, Spending::Unavailable) == ExchangeAction::<Text, Seq<Text>>::Deny(
            Denial::Refused(HttpRefusal::BrowserSessionUnavailable),
        ),
        scope == ScopeRequest::Asked(asked) && 0 <= i < asked.len() && !grant.scopes.contains(asked[i]) ==> after_spending(
            method,
            scope,
            Spending::Granted(grant),
        ) == ExchangeAction::<Text, Seq<Text>>::Deny(Denial::Refused(HttpRefusal::ScopeNotGranted)),
        !(scope is Asked) ==> after_spending(method, scope, Spending::Granted(grant)) is Mint,
        scope == ScopeRequest::Asked(asked) && (forall|j: int| 0 <= j < asked.len() ==> grant.scopes.contains(#[trigger] asked[j]))
            ==> after_spending(method, scope, Spending::Granted(grant)) is Mint,
{
    assert forall|j: int| 0 <= j < grant.scopes.len() implies grant.scopes.contains(#[trigger] grant.scopes[j]) by {}
}

/// A session is the grant's own: its subject and its label, with the scopes that were
/// asked for, or all of the grant's where none were.
pub proof fn a_session_is_its_grants(exchange: Exchange, grant: Grant<String, Vec<String>>)
    requires
        exchange.grant == Some(grant),
    ensures
        exchange.session() matches Some(session) && {
            &&& session.subject == grant.subject@
            &&& session.label == text::maybe(grant.label)
            &&& exchange.scope matches ScopeRequest::Asked(asked) ==> session.scopes == text::views(asked@)
            &&& !(exchange.scope is Asked) ==> session.scopes == text::views(grant.scopes@)
        },
{
}

/// A session is issued by the way it was asked for, to the subject and with the scopes
/// that it has; what could not be minted or opened is that way's own failure.
pub proof fn a_session_is_issued_as_it_was_asked_for(
    exchange: Exchange,
    minted: bool,
    opened: bool,
    out: (SessionMethod, ExchangeAction<String, Vec<String>>),
    done: ExchangeAction<String, Vec<String>>,
)
    requires
        exchange.grant is Some,
        call_ensures(Exchange::minted, (exchange, minted), out),
        call_ensures(Exchange::issued, (exchange.method, opened), done),
    ensures
        out.0 == exchange.method,
        minted ==> (out.1@ matches ExchangeAction::Issue { subject, scopes, label, method } && {
            &&& subject == exchange.session()->0.subject
            &&& scopes == exchange.session()->0.scopes
            &&& label == exchange.session()->0.label
            &&& method == exchange.method
        }),
        !minted && exchange.method is Bearer ==> out.1@ == ExchangeAction::<Text, Seq<Text>>::Deny(
            Denial::Refused(HttpRefusal::AccessTokenUnavailable),
        ),
        !minted && exchange.method is Browser ==> out.1@ == ExchangeAction::<Text, Seq<Text>>::Deny(
            Denial::Refused(HttpRefusal::BrowserSessionUnavailable),
        ),
        opened <==> done@ is Done,
        !opened && exchange.method is Bearer ==> done@ == ExchangeAction::<Text, Seq<Text>>::Deny(
            Denial::Refused(HttpRefusal::AccessTokenUnavailable),
        ),
        !opened && exchange.method is Browser ==> done@ == ExchangeAction::<Text, Seq<Text>>::Deny(
            Denial::Refused(HttpRefusal::BrowserSessionUnavailable),
        ),
{
}

/// A pairing code is made where its payload reads and both its secret and its row
/// could be had; a ticket where its secret and its session could; and a link is
/// revoked where it was there.
pub proof fn what_is_handed_out_was_made(
    payload: Payload,
    minted: bool,
    written: bool,
    issued: Lookup<()>,
    readable: bool,
    pairing: Result<(), HttpRefusal>,
    ticket: Result<(), Denial<String>>,
    revoked: Result<bool, HttpRefusal>,
)
    requires
        call_ensures(pairing_credential, (payload, minted, written), pairing),
        call_ensures(websocket_ticket, (minted, issued), ticket),
        call_ensures(revoke_pairing_link, (readable, issued), revoked),
    ensures
        pairing is Ok <==> payload is Readable && minted && written,
        (pairing matches Err(HttpRefusal::InvalidScope)) <==> payload is InvalidScope,
        (pairing matches Err(HttpRefusal::UnsupportedRequest)) <==> payload is Malformed,
        (pairing matches Err(HttpRefusal::PairingCredentialUnavailable)) <==> payload is Readable && !(minted && written),
        ticket is Ok <==> minted && issued is Found,
        ticket matches Err(denial) ==> ((denial@ is InvalidCredential) <==> minted && issued is Nothing),
        ticket matches Err(denial) ==> ((denial@ matches Denial::Refused(HttpRefusal::WebsocketTicketUnavailable)) <==> !minted
            || issued is Unavailable),
        revoked == Ok::<bool, HttpRefusal>(true) <==> readable && issued is Found,
        revoked == Ok::<bool, HttpRefusal>(false) <==> readable && issued is Nothing,
        (revoked matches Err(HttpRefusal::PairingLinkRevokeFailed)) <==> !readable || issued is Unavailable,
{
}

/// A scope that is held is enough, and one that is not is named.
pub proof fn a_required_scope_is_held_or_named(scopes: Vec<String>, scope: &str, out: Result<(), ScopeRequired>)
    requires
        call_ensures(require_scope, (&scopes, scope), out),
    ensures
        out is Ok <==> text::views(scopes@).contains(scope@),
        out matches Err(required) ==> required.required_scope@ == scope@,
{
}

} // verus!
