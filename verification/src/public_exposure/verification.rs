//! Layered verification of a public endpoint.
//!
//! [`Verification`] decides, and nothing here touches a network: a step takes
//! what the network answered and names the one thing to ask of it next. The order
//! is the policy. The name is resolved once and every later connection goes to
//! the address that passed; no credential leaves before the endpoint has shown
//! that it is this environment.
//!
//! The data of a step is generic: `String` and `Vec` at run time, `Seq` in the
//! contracts.

use crate::public_exposure;
use crate::text;
use crate::web;
use crate::web::{Destination, UrlParts};
use vstd::prelude::*;

verus! {

/// Text as the contracts see it.
pub type Text = Seq<char>;

/// The most bytes a descriptor may have.
pub const DESCRIPTOR_BODY_LIMIT: usize = 65_536;

/// Why an endpoint could not be verified.
#[derive(Debug, PartialEq, Eq)]
pub struct VerificationFailure {
    pub kind: &'static str,
    pub message: &'static str,
}

/// A failure as the contracts see it.
pub struct Failure {
    pub kind: Text,
    pub message: Text,
}

impl View for VerificationFailure {
    type V = Failure;

    open spec fn view(&self) -> Failure {
        Failure { kind: self.kind@, message: self.message@ }
    }
}

/// The view of a verdict.
pub open spec fn verdict_view(verdict: Result<(), VerificationFailure>) -> Result<(), Failure> {
    match verdict {
        Ok(_) => Ok(()),
        Err(failure) => Err(failure@),
    }
}

// ---------------------------------------------------------------------------
// What the network is asked, and what it answers
// ---------------------------------------------------------------------------

/// What to ask of the network next.
#[derive(Debug, PartialEq, Eq)]
pub enum Action<S, V> {
    /// Resolve a name: [`Event::Resolved`].
    Resolve { host: S, port: u16 },
    /// Prepare clients that are pinned to one destination: [`Event::Prepared`].
    Prepare { host: S, destination: Destination },
    /// Ask for the descriptor: [`Event::Fetched`].
    FetchDescriptor { url: S },
    /// Read the next piece of the descriptor: [`Event::Read`].
    ReadChunk,
    /// Answer the challenge: [`Event::Challenged`].
    FetchChallenge { url: S, token: S },
    /// Prepare the socket's request and connect to the pinned destination:
    /// [`Event::Dialed`].
    Dial { url: S, authorization: S, destination: Destination },
    /// Upgrade the connection: [`Event::Upgraded`].
    Upgrade,
    /// Wait for the socket's answer: [`Event::Heard`].
    Listen,
    /// The verdict.
    Done(V),
}

/// What came of resolving a name.
#[derive(Debug, PartialEq, Eq)]
pub enum Resolution<A> {
    TimedOut,
    Failed,
    Addresses(A),
}

/// What came of preparing the clients.
#[derive(Debug, Clone, Copy, PartialEq, Eq, Structural)]
pub enum Preparation {
    RootUnreadable,
    ClientFailed,
    Ready,
}

/// What came of asking for the descriptor. A content type that is missing or is
/// no text is the empty one.
#[derive(Debug, PartialEq, Eq)]
pub enum Fetch<S> {
    Unreachable,
    Failed,
    Answered { status: u16, content_type: S },
}

/// What came of reading a piece of the descriptor.
#[derive(Debug, PartialEq, Eq)]
pub enum Chunk<B> {
    Failed,
    Bytes(B),
    End,
}

/// What came of answering the challenge.
#[derive(Debug, PartialEq, Eq)]
pub enum Challenge<S> {
    Failed,
    Answered { status: u16, content_type: Option<S> },
}

/// What came of preparing and connecting the socket.
#[derive(Debug, Clone, Copy, PartialEq, Eq, Structural)]
pub enum Dial {
    Unpreparable,
    TimedOut,
    Failed,
    Connected,
}

/// What came of upgrading the connection.
#[derive(Debug, PartialEq, Eq)]
pub enum Upgrade<S> {
    TimedOut,
    /// The endpoint answered with a page instead.
    Answered { status: u16, content_type: Option<S> },
    Failed,
    Open,
}

/// What came of waiting for the socket's answer.
#[derive(Debug, PartialEq, Eq)]
pub enum Hearing<S> {
    TimedOut,
    Closed,
    Failed,
    /// What was said, where it was text.
    Said(Option<S>),
}

/// What the network answered.
#[derive(Debug, PartialEq, Eq)]
pub enum Event<S, B, A> {
    Resolved(Resolution<A>),
    Prepared(Preparation),
    Fetched(Fetch<S>),
    Read(Chunk<B>),
    Challenged(Challenge<S>),
    Dialed(Dial),
    Upgraded(Upgrade<S>),
    Heard(Hearing<S>),
}

impl View for Action<String, Result<(), VerificationFailure>> {
    type V = Action<Text, Result<(), Failure>>;

    open spec fn view(&self) -> Action<Text, Result<(), Failure>> {
        match *self {
            Action::Resolve { host, port } => Action::Resolve { host: host@, port },
            Action::Prepare { host, destination } => Action::Prepare { host: host@, destination },
            Action::FetchDescriptor { url } => Action::FetchDescriptor { url: url@ },
            Action::ReadChunk => Action::ReadChunk,
            Action::FetchChallenge { url, token } => Action::FetchChallenge { url: url@, token: token@ },
            Action::Dial { url, authorization, destination } => Action::Dial {
                url: url@,
                authorization: authorization@,
                destination,
            },
            Action::Upgrade => Action::Upgrade,
            Action::Listen => Action::Listen,
            Action::Done(verdict) => Action::Done(verdict_view(verdict)),
        }
    }
}

impl View for Event<String, Vec<u8>, Vec<Destination>> {
    type V = Event<Text, Seq<u8>, Seq<Destination>>;

    open spec fn view(&self) -> Event<Text, Seq<u8>, Seq<Destination>> {
        match *self {
            Event::Resolved(Resolution::TimedOut) => Event::Resolved(Resolution::TimedOut),
            Event::Resolved(Resolution::Failed) => Event::Resolved(Resolution::Failed),
            Event::Resolved(Resolution::Addresses(addresses)) => Event::Resolved(
                Resolution::Addresses(addresses@),
            ),
            Event::Prepared(preparation) => Event::Prepared(preparation),
            Event::Fetched(Fetch::Unreachable) => Event::Fetched(Fetch::Unreachable),
            Event::Fetched(Fetch::Failed) => Event::Fetched(Fetch::Failed),
            Event::Fetched(Fetch::Answered { status, content_type }) => Event::Fetched(
                Fetch::Answered { status, content_type: content_type@ },
            ),
            Event::Read(Chunk::Failed) => Event::Read(Chunk::Failed),
            Event::Read(Chunk::Bytes(bytes)) => Event::Read(Chunk::Bytes(bytes@)),
            Event::Read(Chunk::End) => Event::Read(Chunk::End),
            Event::Challenged(Challenge::Failed) => Event::Challenged(Challenge::Failed),
            Event::Challenged(Challenge::Answered { status, content_type }) => Event::Challenged(
                Challenge::Answered { status, content_type: text::maybe(content_type) },
            ),
            Event::Dialed(dial) => Event::Dialed(dial),
            Event::Upgraded(Upgrade::TimedOut) => Event::Upgraded(Upgrade::TimedOut),
            Event::Upgraded(Upgrade::Answered { status, content_type }) => Event::Upgraded(
                Upgrade::Answered { status, content_type: text::maybe(content_type) },
            ),
            Event::Upgraded(Upgrade::Failed) => Event::Upgraded(Upgrade::Failed),
            Event::Upgraded(Upgrade::Open) => Event::Upgraded(Upgrade::Open),
            Event::Heard(Hearing::TimedOut) => Event::Heard(Hearing::TimedOut),
            Event::Heard(Hearing::Closed) => Event::Heard(Hearing::Closed),
            Event::Heard(Hearing::Failed) => Event::Heard(Hearing::Failed),
            Event::Heard(Hearing::Said(said)) => Event::Heard(Hearing::Said(text::maybe(said))),
        }
    }
}

// ---------------------------------------------------------------------------
// The descriptor
// ---------------------------------------------------------------------------

/// Whether a status sends the client elsewhere.
pub open spec fn is_redirection(status: u16) -> bool {
    300 <= status < 400
}

/// Whether a status is a success.
pub open spec fn is_success(status: u16) -> bool {
    200 <= status < 300
}

/// Whether a page stands where an answer was expected.
pub open spec fn intercepted(status: u16, content_type: Option<Text>) -> bool {
    is_redirection(status) || (content_type is Some && text::occurs(content_type->0, "text/html"@))
}

/// What a descriptor proves of an endpoint. `environment` is what the body holds
/// as its environment id: nothing where the body is no document.
pub open spec fn descriptor_verdict(
    status: u16,
    content_type: Text,
    environment: Option<Option<Text>>,
    environment_id: Text,
) -> Result<(), Failure> {
    if intercepted(status, Some(content_type)) {
        Err(
            Failure {
                kind: "cloudflare-access"@,
                message: "Cloudflare Access intercepted the environment descriptor."@,
            },
        )
    } else if environment is None {
        Err(
            Failure {
                kind: "identity"@,
                message: "The endpoint did not return a laplus environment descriptor."@,
            },
        )
    } else if environment->0 != Some(environment_id) {
        Err(
            Failure {
                kind: "wrong-environment"@,
                message: "The hostname reaches a different laplus environment."@,
            },
        )
    } else {
        Ok(())
    }
}

fn is_intercepted(status: u16, content_type: &Option<String>) -> (out: bool)
    ensures
        out == intercepted(status, text::maybe(*content_type)),
{
    if 300 <= status && status < 400 {
        return true;
    }
    match content_type {
        Some(content_type) => text::contains(content_type, "text/html"),
        None => false,
    }
}

/// Whether the descriptor an endpoint returned is this environment's.
pub fn verify_descriptor(status: u16, content_type: &str, body: &[u8], environment_id: &str) -> (out: Result<
    (),
    VerificationFailure,
>)
    ensures
        verdict_view(out) == descriptor_verdict(
            status,
            content_type@,
            web::document_field(body@, "environmentId"@),
            environment_id@,
        ),
{
    let environment = web::string_field(body, "environmentId");
    judge_descriptor(status, content_type, environment, environment_id)
}

/// Whether a descriptor whose body has been read is this environment's.
pub fn judge_descriptor(
    status: u16,
    content_type: &str,
    environment: Option<Option<String>>,
    environment_id: &str,
) -> (out: Result<(), VerificationFailure>)
    ensures
        verdict_view(out) == descriptor_verdict(
            status,
            content_type@,
            match environment {
                Some(found) => Some(text::maybe(found)),
                None => None,
            },
            environment_id@,
        ),
{
    if is_intercepted(status, &Some(content_type.to_owned())) {
        return Err(
            VerificationFailure {
                kind: "cloudflare-access",
                message: "Cloudflare Access intercepted the environment descriptor.",
            },
        );
    }
    match environment {
        None => Err(
            VerificationFailure {
                kind: "identity",
                message: "The endpoint did not return a laplus environment descriptor.",
            },
        ),
        Some(Some(found)) => if text::same(&found, environment_id) {
            Ok(())
        } else {
            Err(
                VerificationFailure {
                    kind: "wrong-environment",
                    message: "The hostname reaches a different laplus environment.",
                },
            )
        },
        Some(None) => Err(
            VerificationFailure {
                kind: "wrong-environment",
                message: "The hostname reaches a different laplus environment.",
            },
        ),
    }
}

/// Takes one more piece of a descriptor, unless it would be too large.
pub fn read_descriptor_chunk(body: &mut Vec<u8>, chunk: &Vec<u8>) -> (out: Result<(), VerificationFailure>)
    requires
        old(body)@.len() <= DESCRIPTOR_BODY_LIMIT,
    ensures
        old(body)@.len() + chunk@.len() <= DESCRIPTOR_BODY_LIMIT ==> out is Ok && final(body)@ == old(body)@ + chunk@,
        old(body)@.len() + chunk@.len() > DESCRIPTOR_BODY_LIMIT ==> final(body)@ == old(body)@ && verdict_view(out)
            == Err::<(), Failure>(oversized()),
{
    if chunk.len() > DESCRIPTOR_BODY_LIMIT - body.len() {
        return Err(VerificationFailure { kind: "identity", message: "The endpoint descriptor was too large." });
    }
    let mut i: usize = 0;
    let ghost before = body@;
    proof {
        assert(before + chunk@.take(0) =~= before);
    }
    while i < chunk.len()
        invariant
            i <= chunk@.len(),
            body@ == before + chunk@.take(i as int),
        decreases chunk@.len() - i,
    {
        proof {
            assert((before + chunk@.take(i as int)).push(chunk@[i as int]) =~= before + chunk@.take(i + 1));
        }
        body.push(chunk[i]);
        i += 1;
    }
    proof {
        assert(chunk@.take(i as int) =~= chunk@);
    }
    Ok(())
}

/// The failure of a descriptor that is too large.
pub open spec fn oversized() -> Failure {
    Failure { kind: "identity"@, message: "The endpoint descriptor was too large."@ }
}

// ---------------------------------------------------------------------------
// The state
// ---------------------------------------------------------------------------

/// What the verification waits for.
#[derive(Debug, PartialEq, Eq)]
pub enum Stage<S, B> {
    Resolving { host: S },
    Preparing { destination: Destination },
    Fetching { destination: Destination },
    Reading { destination: Destination, status: u16, content_type: S, body: B },
    Challenging { destination: Destination },
    Dialing,
    Upgrading,
    Listening,
    Over,
}

impl View for Stage<String, Vec<u8>> {
    type V = Stage<Text, Seq<u8>>;

    open spec fn view(&self) -> Stage<Text, Seq<u8>> {
        match *self {
            Stage::Resolving { host } => Stage::Resolving { host: host@ },
            Stage::Preparing { destination } => Stage::Preparing { destination },
            Stage::Fetching { destination } => Stage::Fetching { destination },
            Stage::Reading { destination, status, content_type, body } => Stage::Reading {
                destination,
                status,
                content_type: content_type@,
                body: body@,
            },
            Stage::Challenging { destination } => Stage::Challenging { destination },
            Stage::Dialing => Stage::Dialing,
            Stage::Upgrading => Stage::Upgrading,
            Stage::Listening => Stage::Listening,
            Stage::Over => Stage::Over,
        }
    }
}

/// What is being verified, as the contracts see it.
pub struct Subject {
    pub origin: Text,
    pub environment_id: Text,
    pub http_token: Text,
    pub ws_token: Text,
    /// Whether addresses that are not public are accepted, which only a test's own
    /// network asks for.
    pub permits_any_address: bool,
}

/// What a step means: the next stage and what to ask.
pub type Outcome = (Stage<Text, Seq<u8>>, Action<Text, Result<(), Failure>>);

/// A verification that ends with a failure.
pub open spec fn fails(kind: Text, message: Text) -> Outcome {
    (Stage::Over, Action::Done(Err(Failure { kind, message })))
}

impl Subject {
    /// Where a verification begins. `url` is what the origin was taken apart
    /// into.
    pub open spec fn begin(self, url: Option<UrlParts<Text>>) -> Outcome {
        match url {
            None => fails("dns"@, "The configured hostname is invalid."@),
            Some(url) => match url.host {
                None => fails("dns"@, "The configured hostname has no DNS name."@),
                Some(host) => (
                    Stage::Resolving { host },
                    Action::Resolve {
                        host,
                        port: match url.known_port {
                            Some(port) => port,
                            None => 443,
                        },
                    },
                ),
            },
        }
    }

    /// The name was resolved, or was not.
    pub open spec fn resolved(self, host: Text, resolution: Resolution<Seq<Destination>>) -> Outcome {
        match resolution {
            Resolution::TimedOut => fails("dns"@, "DNS lookup timed out."@),
            Resolution::Failed => fails("dns"@, "DNS lookup failed."@),
            Resolution::Addresses(addresses) => if self.accepts(addresses) {
                (
                    Stage::Preparing { destination: addresses[0] },
                    Action::Prepare { host, destination: addresses[0] },
                )
            } else {
                fails("destination"@, "The hostname resolves to a disallowed address."@)
            },
        }
    }

    /// Whether a name may resolve to these addresses: there is one, and each is
    /// public.
    pub open spec fn accepts(self, addresses: Seq<Destination>) -> bool {
        addresses.len() > 0 && (self.permits_any_address || forall|i: int|
            0 <= i < addresses.len() ==> public_exposure::is_public((#[trigger] addresses[i]).address))
    }

    /// The clients were prepared, or were not.
    pub open spec fn prepared(self, destination: Destination, preparation: Preparation) -> Outcome {
        match preparation {
            Preparation::RootUnreadable => fails("tls"@, "Could not read the trusted verification root."@),
            Preparation::ClientFailed => fails("tls"@, "Could not prepare HTTPS verification."@),
            Preparation::Ready => (
                Stage::Fetching { destination },
                Action::FetchDescriptor { url: self.origin + "/.well-known/t3/environment"@ },
            ),
        }
    }

    /// The descriptor's answer began, or did not.
    pub open spec fn fetched(self, destination: Destination, fetch: Fetch<Text>) -> Outcome {
        match fetch {
            Fetch::Unreachable => fails("tls"@, "The public HTTPS endpoint could not be reached."@),
            Fetch::Failed => fails("http"@, "The public HTTPS endpoint could not be reached."@),
            Fetch::Answered { status, content_type } => (
                Stage::Reading { destination, status, content_type, body: Seq::empty() },
                Action::ReadChunk,
            ),
        }
    }

    /// A piece of the descriptor was read, or the end of it. `environment` is what
    /// the body holds as its environment id.
    pub open spec fn read(
        self,
        destination: Destination,
        status: u16,
        content_type: Text,
        body: Seq<u8>,
        chunk: Chunk<Seq<u8>>,
        environment: Option<Option<Text>>,
    ) -> Outcome {
        match chunk {
            Chunk::Failed => fails("identity"@, "The endpoint descriptor could not be read."@),
            Chunk::Bytes(bytes) => if body.len() + bytes.len() > DESCRIPTOR_BODY_LIMIT {
                fails(oversized().kind, oversized().message)
            } else {
                (Stage::Reading { destination, status, content_type, body: body + bytes }, Action::ReadChunk)
            },
            Chunk::End => match descriptor_verdict(status, content_type, environment, self.environment_id) {
                Err(failure) => fails(failure.kind, failure.message),
                Ok(_) => (
                    Stage::Challenging { destination },
                    Action::FetchChallenge {
                        url: self.origin + "/api/access/cloudflare/challenge"@,
                        token: self.http_token,
                    },
                ),
            },
        }
    }

    /// The challenge was answered, or was not. `socket` is where the socket's own
    /// challenge is, where the origin can be one.
    pub open spec fn challenged(
        self,
        destination: Destination,
        challenge: Challenge<Text>,
        socket: Option<Text>,
    ) -> Outcome {
        match challenge {
            Challenge::Failed => fails("authentication"@, "The authenticated HTTP challenge failed."@),
            Challenge::Answered { status, content_type } => if intercepted(status, content_type) {
                fails("cloudflare-access"@, "An access page intercepted the authenticated HTTP challenge."@)
            } else if !is_success(status) {
                fails("authentication"@, "The authenticated HTTP challenge was refused."@)
            } else {
                match socket {
                    None => fails("websocket"@, "The WebSocket challenge could not be prepared."@),
                    Some(url) => (
                        Stage::Dialing,
                        Action::Dial { url, authorization: "Bearer "@ + self.ws_token, destination },
                    ),
                }
            },
        }
    }

    /// The socket was connected, or was not.
    pub open spec fn dialed(self, dial: Dial) -> Outcome {
        match dial {
            Dial::Unpreparable => fails("websocket"@, "The WebSocket challenge could not be prepared."@),
            Dial::TimedOut => fails("websocket"@, "The authenticated WebSocket upgrade timed out."@),
            Dial::Failed => fails("websocket"@, "The authenticated WebSocket connection failed."@),
            Dial::Connected => (Stage::Upgrading, Action::Upgrade),
        }
    }

    /// The connection was upgraded, or was not.
    pub open spec fn upgraded(self, upgrade: Upgrade<Text>) -> Outcome {
        match upgrade {
            Upgrade::TimedOut => fails("websocket"@, "The authenticated WebSocket upgrade timed out."@),
            Upgrade::Answered { status, content_type } => if intercepted(status, content_type) {
                fails("cloudflare-access-websocket"@, "An access page intercepted the WebSocket upgrade."@)
            } else {
                fails("websocket"@, "The authenticated WebSocket upgrade failed."@)
            },
            Upgrade::Failed => fails("websocket"@, "The authenticated WebSocket upgrade failed."@),
            Upgrade::Open => (Stage::Listening, Action::Listen),
        }
    }

    /// The socket answered, or did not.
    pub open spec fn heard(self, hearing: Hearing<Text>) -> Outcome {
        match hearing {
            Hearing::TimedOut => fails("websocket"@, "The authenticated WebSocket challenge timed out."@),
            Hearing::Closed => fails("websocket"@, "The authenticated WebSocket closed before answering."@),
            Hearing::Failed => fails("websocket"@, "The authenticated WebSocket challenge failed."@),
            Hearing::Said(said) => if said == Some("ok"@) {
                (Stage::Over, Action::Done(Ok(())))
            } else {
                fails("websocket"@, "The authenticated WebSocket challenge returned an unexpected answer."@)
            },
        }
    }

    /// Whether this answers what the stage waits for.
    pub open spec fn expects(self, stage: Stage<Text, Seq<u8>>, event: Event<Text, Seq<u8>, Seq<Destination>>) -> bool {
        match stage {
            Stage::Resolving { .. } => event is Resolved,
            Stage::Preparing { .. } => event is Prepared,
            Stage::Fetching { .. } => event is Fetched,
            Stage::Reading { .. } => event is Read,
            Stage::Challenging { .. } => event is Challenged,
            Stage::Dialing => event is Dialed,
            Stage::Upgrading => event is Upgraded,
            Stage::Listening => event is Heard,
            Stage::Over => false,
        }
    }

    /// What an answer means at a stage. `environment` gives what a body holds as
    /// its environment id, and `socket` where the socket's challenge is.
    pub open spec fn step(
        self,
        stage: Stage<Text, Seq<u8>>,
        event: Event<Text, Seq<u8>, Seq<Destination>>,
        environment: Option<Option<Text>>,
        socket: Option<Text>,
    ) -> Outcome {
        match (stage, event) {
            (Stage::Resolving { host }, Event::Resolved(resolution)) => self.resolved(host, resolution),
            (Stage::Preparing { destination }, Event::Prepared(preparation)) => self.prepared(
                destination,
                preparation,
            ),
            (Stage::Fetching { destination }, Event::Fetched(fetch)) => self.fetched(destination, fetch),
            (Stage::Reading { destination, status, content_type, body }, Event::Read(chunk)) => self.read(
                destination,
                status,
                content_type,
                body,
                chunk,
                environment,
            ),
            (Stage::Challenging { destination }, Event::Challenged(challenge)) => self.challenged(
                destination,
                challenge,
                socket,
            ),
            (Stage::Dialing, Event::Dialed(dial)) => self.dialed(dial),
            (Stage::Upgrading, Event::Upgraded(upgrade)) => self.upgraded(upgrade),
            (Stage::Listening, Event::Heard(hearing)) => self.heard(hearing),
            (_, _) => fails("http"@, "The verification was answered out of turn."@),
        }
    }
}

/// What the body read so far holds as its environment id.
pub open spec fn environment_read(stage: Stage<Text, Seq<u8>>) -> Option<Option<Text>> {
    web::document_field(stage->body, "environmentId"@)
}

/// Where the socket's own challenge is.
pub open spec fn socket_challenge(origin: Text) -> Option<Text> {
    web::redirected_url(origin, "wss"@, "/api/access/cloudflare/challenge/ws"@)
}

/// The verification of one endpoint.
#[derive(Debug)]
pub struct Verification {
    pub origin: String,
    pub environment_id: String,
    pub http_token: String,
    pub ws_token: String,
    pub permits_any_address: bool,
    pub stage: Stage<String, Vec<u8>>,
}

impl Verification {
    /// What is being verified.
    pub open spec fn subject(&self) -> Subject {
        Subject {
            origin: self.origin@,
            environment_id: self.environment_id@,
            http_token: self.http_token@,
            ws_token: self.ws_token@,
            permits_any_address: self.permits_any_address,
        }
    }

    /// The origin can be taken apart again, and what has been read is within the
    /// limit.
    pub open spec fn wf(&self) -> bool {
        &&& self.origin@.len() <= web::LONGEST_URL
        &&& self.stage@ matches Stage::Reading { body, .. } ==> body.len() <= DESCRIPTOR_BODY_LIMIT
    }

    /// Begins the verification of an origin.
    pub fn begin(
        origin: String,
        environment_id: String,
        http_token: String,
        ws_token: String,
        permits_any_address: bool,
    ) -> (out: (Verification, Action<String, Result<(), VerificationFailure>>))
        requires
            origin@.len() <= web::LONGEST_URL,
        ensures
            out.0.wf(),
            out.0.subject() == (Subject {
                origin: origin@,
                environment_id: environment_id@,
                http_token: http_token@,
                ws_token: ws_token@,
                permits_any_address,
            }),
            (out.0.stage@, out.1@) == out.0.subject().begin(web::parsed_url(origin@)),
    {
        let url = web::parse_url(&origin);
        Self::begin_at(origin, environment_id, http_token, ws_token, permits_any_address, url)
    }

    /// Begins the verification of an origin that has been taken apart.
    pub fn begin_at(
        origin: String,
        environment_id: String,
        http_token: String,
        ws_token: String,
        permits_any_address: bool,
        url: Option<UrlParts<String>>,
    ) -> (out: (Verification, Action<String, Result<(), VerificationFailure>>))
        requires
            origin@.len() <= web::LONGEST_URL,
        ensures
            out.0.wf(),
            out.0.subject() == (Subject {
                origin: origin@,
                environment_id: environment_id@,
                http_token: http_token@,
                ws_token: ws_token@,
                permits_any_address,
            }),
            (out.0.stage@, out.1@) == out.0.subject().begin(web::parts_view(url)),
    {
        let (stage, action) = match url {
            None => Self::failing("dns", "The configured hostname is invalid."),
            Some(url) => match url.host {
                None => Self::failing("dns", "The configured hostname has no DNS name."),
                Some(host) => {
                    let port: u16 = match url.known_port {
                        Some(port) => port,
                        None => 443,
                    };
                    (Stage::Resolving { host: host.clone() }, Action::Resolve { host, port })
                },
            },
        };
        (Verification { origin, environment_id, http_token, ws_token, permits_any_address, stage }, action)
    }

    fn failing(kind: &'static str, message: &'static str) -> (out: (
        Stage<String, Vec<u8>>,
        Action<String, Result<(), VerificationFailure>>,
    ))
        ensures
            (out.0@, out.1@) == fails(kind@, message@),
    {
        (Stage::Over, Action::Done(Err(VerificationFailure { kind, message })))
    }

    /// Whether a name may resolve to these addresses.
    fn accepts(&self, addresses: &Vec<Destination>) -> (out: bool)
        ensures
            out == self.subject().accepts(addresses@),
    {
        if addresses.len() == 0 {
            return false;
        }
        if self.permits_any_address {
            return true;
        }
        let mut i: usize = 0;
        while i < addresses.len()
            invariant
                i <= addresses@.len(),
                addresses@.len() > 0,
                !self.permits_any_address,
                forall|j: int| 0 <= j < i ==> public_exposure::is_public((#[trigger] addresses@[j]).address),
            decreases addresses@.len() - i,
        {
            if !public_exposure::public_address(addresses[i].address) {
                proof {
                    assert(!public_exposure::is_public(addresses@[i as int].address));
                }
                return false;
            }
            i += 1;
        }
        true
    }

    fn resolved(&self, host: String, resolution: Resolution<Vec<Destination>>) -> (out: (
        Stage<String, Vec<u8>>,
        Action<String, Result<(), VerificationFailure>>,
    ))
        ensures
            (out.0@, out.1@) == self.subject().resolved(
                host@,
                match resolution {
                    Resolution::TimedOut => Resolution::TimedOut,
                    Resolution::Failed => Resolution::Failed,
                    Resolution::Addresses(addresses) => Resolution::Addresses(addresses@),
                },
            ),
    {
        match resolution {
            Resolution::TimedOut => Self::failing("dns", "DNS lookup timed out."),
            Resolution::Failed => Self::failing("dns", "DNS lookup failed."),
            Resolution::Addresses(addresses) => {
                if self.accepts(&addresses) {
                    let destination = addresses[0];
                    (Stage::Preparing { destination }, Action::Prepare { host, destination })
                } else {
                    Self::failing("destination", "The hostname resolves to a disallowed address.")
                }
            },
        }
    }

    fn read(
        &self,
        destination: Destination,
        status: u16,
        content_type: String,
        body: Vec<u8>,
        chunk: Chunk<Vec<u8>>,
    ) -> (out: (
        Stage<String, Vec<u8>>,
        Action<String, Result<(), VerificationFailure>>,
    ))
        requires
            body@.len() <= DESCRIPTOR_BODY_LIMIT,
        ensures
            (out.0@, out.1@) == self.subject().read(
                destination,
                status,
                content_type@,
                body@,
                match chunk {
                    Chunk::Failed => Chunk::Failed,
                    Chunk::Bytes(bytes) => Chunk::Bytes(bytes@),
                    Chunk::End => Chunk::End,
                },
                web::document_field(body@, "environmentId"@),
            ),
            out.0@ matches Stage::Reading { body, .. } ==> body.len() <= DESCRIPTOR_BODY_LIMIT,
    {
        let mut body = body;
        match chunk {
            Chunk::Failed => Self::failing("identity", "The endpoint descriptor could not be read."),
            Chunk::Bytes(bytes) => {
                match read_descriptor_chunk(&mut body, &bytes) {
                    Ok(_) => (Stage::Reading { destination, status, content_type, body }, Action::ReadChunk),
                    Err(failure) => Self::failing(failure.kind, failure.message),
                }
            },
            Chunk::End => {
                match verify_descriptor(status, &content_type, body.as_slice(), &self.environment_id) {
                    Err(failure) => Self::failing(failure.kind, failure.message),
                    Ok(_) => (
                        Stage::Challenging { destination },
                        Action::FetchChallenge {
                            url: text::glue(&self.origin, "/api/access/cloudflare/challenge"),
                            token: self.http_token.clone(),
                        },
                    ),
                }
            },
        }
    }

    /// The challenge was answered, or was not; `socket` is where the socket's own
    /// challenge is.
    pub fn challenged(
        &self,
        destination: Destination,
        challenge: Challenge<String>,
        socket: Option<String>,
    ) -> (out: (
        Stage<String, Vec<u8>>,
        Action<String, Result<(), VerificationFailure>>,
    ))
        ensures
            (out.0@, out.1@) == self.subject().challenged(
                destination,
                match challenge {
                    Challenge::Failed => Challenge::Failed,
                    Challenge::Answered { status, content_type } => Challenge::Answered {
                        status,
                        content_type: text::maybe(content_type),
                    },
                },
                text::maybe(socket),
            ),
    {
        match challenge {
            Challenge::Failed => Self::failing("authentication", "The authenticated HTTP challenge failed."),
            Challenge::Answered { status, content_type } => {
                if is_intercepted(status, &content_type) {
                    Self::failing(
                        "cloudflare-access",
                        "An access page intercepted the authenticated HTTP challenge.",
                    )
                } else if !(200 <= status && status < 300) {
                    Self::failing("authentication", "The authenticated HTTP challenge was refused.")
                } else {
                    match socket {
                        None => Self::failing("websocket", "The WebSocket challenge could not be prepared."),
                        Some(url) => (
                            Stage::Dialing,
                            Action::Dial { url, authorization: text::glue("Bearer ", &self.ws_token), destination },
                        ),
                    }
                }
            },
        }
    }

    fn upgraded(&self, upgrade: Upgrade<String>) -> (out: (
        Stage<String, Vec<u8>>,
        Action<String, Result<(), VerificationFailure>>,
    ))
        ensures
            (out.0@, out.1@) == self.subject().upgraded(
                match upgrade {
                    Upgrade::TimedOut => Upgrade::TimedOut,
                    Upgrade::Answered { status, content_type } => Upgrade::Answered {
                        status,
                        content_type: text::maybe(content_type),
                    },
                    Upgrade::Failed => Upgrade::Failed,
                    Upgrade::Open => Upgrade::Open,
                },
            ),
    {
        match upgrade {
            Upgrade::TimedOut => Self::failing("websocket", "The authenticated WebSocket upgrade timed out."),
            Upgrade::Answered { status, content_type } => {
                if is_intercepted(status, &content_type) {
                    Self::failing(
                        "cloudflare-access-websocket",
                        "An access page intercepted the WebSocket upgrade.",
                    )
                } else {
                    Self::failing("websocket", "The authenticated WebSocket upgrade failed.")
                }
            },
            Upgrade::Failed => Self::failing("websocket", "The authenticated WebSocket upgrade failed."),
            Upgrade::Open => (Stage::Listening, Action::Listen),
        }
    }

    fn heard(&self, hearing: Hearing<String>) -> (out: (
        Stage<String, Vec<u8>>,
        Action<String, Result<(), VerificationFailure>>,
    ))
        ensures
            (out.0@, out.1@) == self.subject().heard(
                match hearing {
                    Hearing::TimedOut => Hearing::TimedOut,
                    Hearing::Closed => Hearing::Closed,
                    Hearing::Failed => Hearing::Failed,
                    Hearing::Said(said) => Hearing::Said(text::maybe(said)),
                },
            ),
    {
        match hearing {
            Hearing::TimedOut => Self::failing("websocket", "The authenticated WebSocket challenge timed out."),
            Hearing::Closed => Self::failing("websocket", "The authenticated WebSocket closed before answering."),
            Hearing::Failed => Self::failing("websocket", "The authenticated WebSocket challenge failed."),
            Hearing::Said(said) => {
                let agreed: bool = match &said {
                    Some(said) => text::same(said, "ok"),
                    None => false,
                };
                if agreed {
                    (Stage::Over, Action::Done(Ok(())))
                } else {
                    Self::failing(
                        "websocket",
                        "The authenticated WebSocket challenge returned an unexpected answer.",
                    )
                }
            },
        }
    }

    /// Takes what the network answered, and says what to ask of it next.
    pub fn step(&mut self, event: Event<String, Vec<u8>, Vec<Destination>>) -> (out: Action<
        String,
        Result<(), VerificationFailure>,
    >)
        requires
            old(self).wf(),
            old(self).subject().expects(old(self).stage@, event@),
        ensures
            final(self).wf(),
            final(self).subject() == old(self).subject(),
            (final(self).stage@, out@) == old(self).subject().step(
                old(self).stage@,
                event@,
                environment_read(old(self).stage@),
                socket_challenge(old(self).origin@),
            ),
    {
        let mut stage = Stage::Over;
        std::mem::swap(&mut stage, &mut self.stage);
        let (next, action) = match (stage, event) {
            (Stage::Resolving { host }, Event::Resolved(resolution)) => self.resolved(host, resolution),
            (Stage::Preparing { destination }, Event::Prepared(preparation)) => match preparation {
                Preparation::RootUnreadable => Self::failing("tls", "Could not read the trusted verification root."),
                Preparation::ClientFailed => Self::failing("tls", "Could not prepare HTTPS verification."),
                Preparation::Ready => (
                    Stage::Fetching { destination },
                    Action::FetchDescriptor { url: text::glue(&self.origin, "/.well-known/t3/environment") },
                ),
            },
            (Stage::Fetching { destination }, Event::Fetched(fetch)) => match fetch {
                Fetch::Unreachable => Self::failing("tls", "The public HTTPS endpoint could not be reached."),
                Fetch::Failed => Self::failing("http", "The public HTTPS endpoint could not be reached."),
                Fetch::Answered { status, content_type } => (
                    Stage::Reading { destination, status, content_type, body: Vec::new() },
                    Action::ReadChunk,
                ),
            },
            (Stage::Reading { destination, status, content_type, body }, Event::Read(chunk)) => self.read(
                destination,
                status,
                content_type,
                body,
                chunk,
            ),
            (Stage::Challenging { destination }, Event::Challenged(challenge)) => {
                proof {
                    reveal_strlit("wss");
                    reveal_strlit("/api/access/cloudflare/challenge/ws");
                }
                let socket = web::redirect_url(&self.origin, "wss", "/api/access/cloudflare/challenge/ws");
                self.challenged(destination, challenge, socket)
            },
            (Stage::Dialing, Event::Dialed(dial)) => match dial {
                Dial::Unpreparable => Self::failing("websocket", "The WebSocket challenge could not be prepared."),
                Dial::TimedOut => Self::failing("websocket", "The authenticated WebSocket upgrade timed out."),
                Dial::Failed => Self::failing("websocket", "The authenticated WebSocket connection failed."),
                Dial::Connected => (Stage::Upgrading, Action::Upgrade),
            },
            (Stage::Upgrading, Event::Upgraded(upgrade)) => self.upgraded(upgrade),
            (Stage::Listening, Event::Heard(hearing)) => self.heard(hearing),
            (_, _) => Self::failing("http", "The verification was answered out of turn."),
        };
        self.stage = next;
        action
    }
}

// ---------------------------------------------------------------------------
// What a verification promises
// ---------------------------------------------------------------------------

/// How far a stage is from the verdict.
pub open spec fn rank(stage: Stage<Text, Seq<u8>>) -> int {
    match stage {
        Stage::Resolving { .. } => 8,
        Stage::Preparing { .. } => 7,
        Stage::Fetching { .. } => 6,
        Stage::Reading { .. } => 5,
        Stage::Challenging { .. } => 4,
        Stage::Dialing => 3,
        Stage::Upgrading => 2,
        Stage::Listening => 1,
        Stage::Over => 0,
    }
}

/// Every step goes on to the next layer or ends; only the reading of a descriptor
/// goes round, and then the body stays within its limit.
pub proof fn no_layer_is_skipped(
    subject: Subject,
    stage: Stage<Text, Seq<u8>>,
    event: Event<Text, Seq<u8>, Seq<Destination>>,
    environment: Option<Option<Text>>,
    socket: Option<Text>,
)
    requires
        subject.expects(stage, event),
    ensures
        ({
            let next = subject.step(stage, event, environment, socket).0;
            ||| next is Over
            ||| rank(next) == rank(stage) - 1
            ||| stage is Reading && next is Reading && next->body.len() <= DESCRIPTOR_BODY_LIMIT
        }),
{
}

/// The verdict is success only when the last layer answered `ok`, and by
/// [`no_layer_is_skipped`] only after every layer before it passed.
pub proof fn success_is_the_last_layers(
    subject: Subject,
    stage: Stage<Text, Seq<u8>>,
    event: Event<Text, Seq<u8>, Seq<Destination>>,
    environment: Option<Option<Text>>,
    socket: Option<Text>,
)
    requires
        subject.expects(stage, event),
        subject.step(stage, event, environment, socket).1 == Action::<Text, Result<(), Failure>>::Done(Ok(())),
    ensures
        stage is Listening,
        event == Event::<Text, Seq<u8>, Seq<Destination>>::Heard(Hearing::Said(Some("ok"@))),
{
}

/// A connection is prepared only to an address the name resolved to, and only
/// where every address it resolved to is public.
pub proof fn only_public_addresses_are_contacted(subject: Subject, host: Text, resolution: Resolution<Seq<Destination>>)
    requires
        !subject.permits_any_address,
        subject.resolved(host, resolution).1 is Prepare,
    ensures
        resolution matches Resolution::Addresses(addresses) && addresses.len() > 0 && (forall|i: int|
            0 <= i < addresses.len() ==> public_exposure::is_public((#[trigger] addresses[i]).address)) && subject.resolved(host, resolution).1 == (
        Action::<Text, Result<(), Failure>>::Prepare { host, destination: addresses[0] }),
{
}

/// The destination that a stage is pinned to.
pub open spec fn pinned(stage: Stage<Text, Seq<u8>>) -> Option<Destination> {
    match stage {
        Stage::Preparing { destination } => Some(destination),
        Stage::Fetching { destination } => Some(destination),
        Stage::Reading { destination, .. } => Some(destination),
        Stage::Challenging { destination } => Some(destination),
        _ => None,
    }
}

/// The destination that the clients are prepared for is pinned, stays pinned, and
/// is the one that the socket is connected to: the name is not resolved again.
pub proof fn every_connection_goes_to_the_pinned_destination(
    subject: Subject,
    stage: Stage<Text, Seq<u8>>,
    event: Event<Text, Seq<u8>, Seq<Destination>>,
    environment: Option<Option<Text>>,
    socket: Option<Text>,
)
    requires
        subject.expects(stage, event),
    ensures
        ({
            let (next, action) = subject.step(stage, event, environment, socket);
            &&& action !is Resolve
            &&& action matches Action::Prepare { destination, .. } ==> pinned(next) == Some(destination)
            &&& pinned(stage) is Some && pinned(next) is Some ==> pinned(next) == pinned(stage)
            &&& action matches Action::Dial { destination, .. } ==> pinned(stage) == Some(destination)
        }),
{
}

/// No credential is sent to an endpoint that has not shown, in a descriptor that
/// was not intercepted, that it is this environment.
pub proof fn no_token_leaves_before_the_environment_is_known(
    subject: Subject,
    stage: Stage<Text, Seq<u8>>,
    event: Event<Text, Seq<u8>, Seq<Destination>>,
    environment: Option<Option<Text>>,
    socket: Option<Text>,
)
    requires
        subject.expects(stage, event),
        subject.step(stage, event, environment, socket).1 is FetchChallenge,
    ensures
        stage matches Stage::Reading { status, content_type, .. } && !intercepted(status, Some(content_type))
            && environment == Some(Some(subject.environment_id)),
        event == Event::<Text, Seq<u8>, Seq<Destination>>::Read(Chunk::End),
{
}

/// The socket's credential is sent only after the endpoint accepted the other
/// one.
pub proof fn the_socket_is_dialed_only_after_the_challenge(
    subject: Subject,
    stage: Stage<Text, Seq<u8>>,
    event: Event<Text, Seq<u8>, Seq<Destination>>,
    environment: Option<Option<Text>>,
    socket: Option<Text>,
)
    requires
        subject.expects(stage, event),
        subject.step(stage, event, environment, socket).1 is Dial,
    ensures
        stage is Challenging,
        event matches Event::Challenged(Challenge::Answered { status, content_type }) && is_success(status)
            && !intercepted(status, content_type),
{
}

// ---------------------------------------------------------------------------
// What each layer says
// ---------------------------------------------------------------------------

/// Whether a verification is over, failed as this kind and in these words.
pub open spec fn ends_as(outcome: Outcome, kind: Text, message: Text) -> bool {
    &&& outcome.0 is Over
    &&& outcome.1 matches Action::Done(Err(failure)) && failure.kind == kind && failure.message == message
}

/// A verification begins with the name of its host, at the port that its URL has or is
/// known by, and a name that does not resolve, or not to where it may, is a failure of
/// its own kind.
pub proof fn a_name_is_resolved_first(
    subject: Subject,
    url: UrlParts<Text>,
    host: Text,
    addresses: Seq<Destination>,
    environment: Option<Option<Text>>,
    socket: Option<Text>,
    i: int,
)
    ensures
        ends_as(subject.begin(None), "dns"@, "The configured hostname is invalid."@),
        url.host is None ==> ends_as(subject.begin(Some(url)), "dns"@, "The configured hostname has no DNS name."@),
        url.host matches Some(named) ==> (subject.begin(Some(url)).1 matches Action::Resolve { host: asked, port } && asked
            == named && (url.known_port matches Some(known) ==> port == known) && (url.known_port is None ==> port == 443)),
        url.host matches Some(named) ==> (subject.begin(Some(url)).0 matches Stage::Resolving { host: asked } && asked == named),
        ends_as(
            subject.step(Stage::Resolving { host }, Event::Resolved(Resolution::TimedOut), environment, socket),
            "dns"@,
            "DNS lookup timed out."@,
        ),
        ends_as(
            subject.step(Stage::Resolving { host }, Event::Resolved(Resolution::Failed), environment, socket),
            "dns"@,
            "DNS lookup failed."@,
        ),
        ({
            let next = subject.step(
                Stage::Resolving { host },
                Event::Resolved(Resolution::Addresses(addresses)),
                environment,
                socket,
            );
            &&& addresses.len() == 0 ==> ends_as(
                next,
                "destination"@,
                "The hostname resolves to a disallowed address."@,
            )
            &&& !subject.permits_any_address && 0 <= i < addresses.len() && !public_exposure::is_public(addresses[i].address)
                ==> ends_as(next, "destination"@, "The hostname resolves to a disallowed address."@)
            &&& addresses.len() > 0 && subject.permits_any_address ==> next.1 == (Action::<Text, Result<(), Failure>>::Prepare {
                host,
                destination: addresses[0],
            })
            &&& addresses.len() > 0 && (forall|k: int|
                0 <= k < addresses.len() ==> public_exposure::is_public((#[trigger] addresses[k]).address)) ==> next.1
                == (Action::<Text, Result<(), Failure>>::Prepare { host, destination: addresses[0] })
        }),
{
}

/// The descriptor is fetched from the origin, read whole up to its bound, and judged by
/// the environment that it names.
pub proof fn the_descriptor_is_fetched_and_judged(
    subject: Subject,
    destination: Destination,
    status: u16,
    content_type: Text,
    body: Seq<u8>,
    bytes: Seq<u8>,
    environment: Option<Option<Text>>,
    socket: Option<Text>,
)
    ensures
        ends_as(
            subject.step(
                Stage::Preparing { destination },
                Event::Prepared(Preparation::RootUnreadable),
                environment,
                socket,
            ),
            "tls"@,
            "Could not read the trusted verification root."@,
        ),
        ends_as(
            subject.step(Stage::Preparing { destination }, Event::Prepared(Preparation::ClientFailed), environment, socket),
            "tls"@,
            "Could not prepare HTTPS verification."@,
        ),
        subject.step(Stage::Preparing { destination }, Event::Prepared(Preparation::Ready), environment, socket).1 == (
        Action::<Text, Result<(), Failure>>::FetchDescriptor { url: subject.origin + "/.well-known/t3/environment"@ }),
        ends_as(
            subject.step(Stage::Fetching { destination }, Event::Fetched(Fetch::Unreachable), environment, socket),
            "tls"@,
            "The public HTTPS endpoint could not be reached."@,
        ),
        ends_as(
            subject.step(Stage::Fetching { destination }, Event::Fetched(Fetch::Failed), environment, socket),
            "http"@,
            "The public HTTPS endpoint could not be reached."@,
        ),
        subject.step(
            Stage::Fetching { destination },
            Event::Fetched(Fetch::Answered { status, content_type }),
            environment,
            socket,
        ).0 == (Stage::<Text, Seq<u8>>::Reading { destination, status, content_type, body: Seq::empty() }),
        ({
            let reading = Stage::Reading { destination, status, content_type, body };
            let more = subject.step(reading, Event::Read(Chunk::Bytes(bytes)), environment, socket);
            &&& ends_as(
                subject.step(reading, Event::Read(Chunk::Failed), environment, socket),
                "identity"@,
                "The endpoint descriptor could not be read."@,
            )
            &&& body.len() + bytes.len() > 65_536 ==> ends_as(
                more,
                "identity"@,
                "The endpoint descriptor was too large."@,
            )
            &&& body.len() + bytes.len() <= 65_536 ==> more.1 is ReadChunk && more.0 == (Stage::Reading {
                destination,
                status,
                content_type,
                body: body + bytes,
            })
        }),
{
}

/// A descriptor that is a redirection or a page is an access page's, one that is no
/// document is no environment's, one that names another environment is of that one,
/// and the rest is this one's.
pub proof fn a_descriptor_is_this_environments(
    subject: Subject,
    destination: Destination,
    status: u16,
    content_type: Text,
    body: Seq<u8>,
    environment: Option<Option<Text>>,
    socket: Option<Text>,
)
    ensures
        ({
            let page = 300 <= status < 400 || text::occurs(content_type, "text/html"@);
            let end = subject.step(
                Stage::Reading { destination, status, content_type, body },
                Event::Read(Chunk::End),
                environment,
                socket,
            );
            &&& page ==> ends_as(end, "cloudflare-access"@, "Cloudflare Access intercepted the environment descriptor."@)
            &&& !page && environment is None ==> ends_as(
                end,
                "identity"@,
                "The endpoint did not return a laplus environment descriptor."@,
            )
            &&& !page && environment is Some && environment != Some(Some(subject.environment_id)) ==> ends_as(
                end,
                "wrong-environment"@,
                "The hostname reaches a different laplus environment."@,
            )
            &&& !page && environment == Some(Some(subject.environment_id)) ==> end.0 == (Stage::<Text, Seq<u8>>::Challenging {
                destination,
            }) && end.1 == (Action::<Text, Result<(), Failure>>::FetchChallenge {
                url: subject.origin + "/api/access/cloudflare/challenge"@,
                token: subject.http_token,
            })
        }),
{
}

/// The challenge is passed by a success that is no page, and then the socket is dialed
/// with its own token.
pub proof fn a_challenge_is_passed_by_a_success(
    subject: Subject,
    destination: Destination,
    status: u16,
    content_type: Option<Text>,
    environment: Option<Option<Text>>,
    socket: Option<Text>,
)
    ensures
        ends_as(
            subject.step(Stage::Challenging { destination }, Event::Challenged(Challenge::Failed), environment, socket),
            "authentication"@,
            "The authenticated HTTP challenge failed."@,
        ),
        ({
            let page = 300 <= status < 400 || (content_type is Some && text::occurs(content_type->0, "text/html"@));
            let good = 200 <= status < 300;
            let next = subject.step(
                Stage::Challenging { destination },
                Event::Challenged(Challenge::Answered { status, content_type }),
                environment,
                socket,
            );
            &&& page ==> ends_as(
                next,
                "cloudflare-access"@,
                "An access page intercepted the authenticated HTTP challenge."@,
            )
            &&& !page && !good ==> ends_as(
                next,
                "authentication"@,
                "The authenticated HTTP challenge was refused."@,
            )
            &&& !page && good && socket is None ==> ends_as(
                next,
                "websocket"@,
                "The WebSocket challenge could not be prepared."@,
            )
            &&& !page && good && socket is Some ==> next.0 is Dialing && next.1 == (Action::<Text, Result<(), Failure>>::Dial {
                url: socket->0,
                authorization: "Bearer "@ + subject.ws_token,
                destination,
            })
        }),
{
}

/// A socket has to open and to answer, and an access page in its way is told apart.
pub proof fn a_socket_has_to_answer(
    subject: Subject,
    status: u16,
    content_type: Option<Text>,
    said: Option<Text>,
    environment: Option<Option<Text>>,
    socket: Option<Text>,
)
    ensures
        ends_as(
            subject.step(Stage::Dialing, Event::Dialed(Dial::Unpreparable), environment, socket),
            "websocket"@,
            "The WebSocket challenge could not be prepared."@,
        ),
        ends_as(
            subject.step(Stage::Dialing, Event::Dialed(Dial::TimedOut), environment, socket),
            "websocket"@,
            "The authenticated WebSocket upgrade timed out."@,
        ),
        ends_as(
            subject.step(Stage::Dialing, Event::Dialed(Dial::Failed), environment, socket),
            "websocket"@,
            "The authenticated WebSocket connection failed."@,
        ),
        subject.step(Stage::Dialing, Event::Dialed(Dial::Connected), environment, socket).1 is Upgrade,
        ends_as(
            subject.step(Stage::Upgrading, Event::Upgraded(Upgrade::TimedOut), environment, socket),
            "websocket"@,
            "The authenticated WebSocket upgrade timed out."@,
        ),
        ends_as(
            subject.step(Stage::Upgrading, Event::Upgraded(Upgrade::Failed), environment, socket),
            "websocket"@,
            "The authenticated WebSocket upgrade failed."@,
        ),
        subject.step(Stage::Upgrading, Event::Upgraded(Upgrade::Open), environment, socket).1 is Listen,
        ({
            let page = 300 <= status < 400 || (content_type is Some && text::occurs(content_type->0, "text/html"@));
            let next = subject.step(
                Stage::Upgrading,
                Event::Upgraded(Upgrade::Answered { status, content_type }),
                environment,
                socket,
            );
            &&& page ==> ends_as(
                next,
                "cloudflare-access-websocket"@,
                "An access page intercepted the WebSocket upgrade."@,
            )
            &&& !page ==> ends_as(next, "websocket"@, "The authenticated WebSocket upgrade failed."@)
        }),
        ends_as(
            subject.step(Stage::Listening, Event::Heard(Hearing::TimedOut), environment, socket),
            "websocket"@,
            "The authenticated WebSocket challenge timed out."@,
        ),
        ends_as(
            subject.step(Stage::Listening, Event::Heard(Hearing::Closed), environment, socket),
            "websocket"@,
            "The authenticated WebSocket closed before answering."@,
        ),
        ends_as(
            subject.step(Stage::Listening, Event::Heard(Hearing::Failed), environment, socket),
            "websocket"@,
            "The authenticated WebSocket challenge failed."@,
        ),
        subject.step(Stage::Listening, Event::Heard(Hearing::Said(Some("ok"@))), environment, socket).1 == Action::<
            Text,
            Result<(), Failure>,
        >::Done(Ok(())),
        said != Some("ok"@) ==> ends_as(
            subject.step(Stage::Listening, Event::Heard(Hearing::Said(said)), environment, socket),
            "websocket"@,
            "The authenticated WebSocket challenge returned an unexpected answer."@,
        ),
{
}

/// The environment is read under its own name, and the socket is at its own path of
/// the origin.
pub proof fn what_is_read_and_dialed_is_named(stage: Stage<Text, Seq<u8>>, origin: Text)
    ensures
        environment_read(stage) == web::document_field(stage->body, "environmentId"@),
        socket_challenge(origin) == web::redirected_url(origin, "wss"@, "/api/access/cloudflare/challenge/ws"@),
{
}

} // verus!
