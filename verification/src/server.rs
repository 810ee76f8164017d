//! The server itself: where it is reached, how it starts and in which order it
//! stops.

pub mod checking;
pub mod conduct;
pub mod connection;
pub mod exposure;
pub mod requests;
pub mod routes;

use crate::remote_access;
use crate::remote_access::RemoteAccess;
use crate::public_exposure;
use crate::text;
use vstd::prelude::*;

verus! {

/// Text as the contracts see it.
pub type Text = Seq<char>;

// ---------------------------------------------------------------------------
// Addresses
// ---------------------------------------------------------------------------

/// An IPv4 address and a port.
#[derive(Debug, Clone, Copy, PartialEq, Eq)]
pub struct SocketAddr {
    pub ip: [u8; 4],
    pub port: u16,
}

impl SocketAddr {
    /// Whether it is the wildcard: one to bind, and none to connect to.
    pub open spec fn is_unspecified(self) -> bool {
        self.ip@ =~= seq![0u8, 0, 0, 0]
    }

    /// How it is written.
    pub open spec fn shown(self) -> Text {
        text::dotted(self.ip@[0], self.ip@[1], self.ip@[2], self.ip@[3]) + ":"@ + text::decimal(self.port as nat)
    }

    /// How it is written.
    pub fn to_text(&self) -> (out: String)
        ensures
            out@ == self.shown(),
    {
        let parts: Vec<String> = vec![
            text::decimal_text(self.ip[0] as u64),
            text::decimal_text(self.ip[1] as u64),
            text::decimal_text(self.ip[2] as u64),
            text::decimal_text(self.ip[3] as u64),
        ];
        proof {
            reveal_strlit(".");
            assert("."@ =~= seq!['.']);
            assert(text::views(parts@) =~= seq![
                text::decimal(self.ip@[0] as nat),
                text::decimal(self.ip@[1] as nat),
                text::decimal(self.ip@[2] as nat),
                text::decimal(self.ip@[3] as nat),
            ]);
        }
        let host = text::join_with(&parts, ".");
        text::glue3(&host, ":", &text::decimal_text(self.port as u64))
    }
}

/// Where a client on this machine reaches a server that is bound to an address.
pub open spec fn reachable(bound: SocketAddr) -> SocketAddr {
    if bound.is_unspecified() {
        SocketAddr { ip: [127, 0, 0, 1], port: bound.port }
    } else {
        bound
    }
}

/// Why the server did not start.
#[derive(Debug, PartialEq, Eq)]
pub enum StartupFailure<S> {
    /// The database is unusable.
    Database(S),
    /// The address that was asked for cannot be listened on.
    Listen { address: SocketAddr, error: S },
}

impl StartupFailure<Text> {
    /// The sentence.
    pub open spec fn said(self) -> Text {
        match self {
            StartupFailure::Database(error) => error,
            StartupFailure::Listen { address, error } => "cannot listen on "@ + address.shown() + ": "@ + error,
        }
    }
}

impl View for StartupFailure<String> {
    type V = StartupFailure<Text>;

    open spec fn view(&self) -> StartupFailure<Text> {
        match self {
            StartupFailure::Database(error) => StartupFailure::Database(error@),
            StartupFailure::Listen { address, error } => StartupFailure::Listen { address: *address, error: error@ },
        }
    }
}

impl StartupFailure<String> {
    /// The sentence.
    pub fn sentence(&self) -> (out: String)
        ensures
            out@ == self@.said(),
    {
        match self {
            StartupFailure::Database(error) => error.clone(),
            StartupFailure::Listen { address, error } => text::glue4(
                "cannot listen on ",
                &address.to_text(),
                ": ",
                error,
            ),
        }
    }
}

/// A server that runs.
#[derive(Debug, PartialEq, Eq)]
pub struct Server {
    pub local_addr: SocketAddr,
    /// The credential that the server admits its own window with, where one could
    /// be made.
    pub boot_credential: Option<String>,
    pub remote_access: RemoteAccess,
}

/// A URL with a credential in its fragment, which no browser sends to a server.
pub open spec fn with_token(url: Text, credential: Option<Text>) -> Option<Text> {
    match credential {
        Some(credential) => Some(url + "#token="@ + credential),
        None => None,
    }
}

impl Server {
    /// The address that the server is bound to.
    pub fn local_addr(&self) -> (out: SocketAddr)
        ensures
            out == self.local_addr,
    {
        self.local_addr
    }

    /// Where a client on this machine reaches a server that is bound to an address:
    /// a wildcard is a thing to bind and not a thing to connect to.
    pub fn reachable_from(bound: SocketAddr) -> (out: SocketAddr)
        ensures
            out.ip@ == reachable(bound).ip@,
            out.port == bound.port,
    {
        if bound.ip[0] == 0 && bound.ip[1] == 0 && bound.ip[2] == 0 && bound.ip[3] == 0 {
            return SocketAddr { ip: [127, 0, 0, 1], port: bound.port };
        }
        bound
    }

    /// The URL of the page.
    pub open spec fn page(&self) -> Text {
        "http://"@ + reachable(self.local_addr).shown() + "/"@
    }

    /// The URL of the page on another host.
    pub open spec fn page_on(&self, host: Text) -> Text {
        "http://"@ + host + ":"@ + text::decimal(self.local_addr.port as nat) + "/"@
    }

    /// The URL that the page connects to.
    pub fn ws_url(&self) -> (out: String)
        ensures
            out@ == "ws://"@ + reachable(self.local_addr).shown() + "/ws"@,
    {
        let at = Server::reachable_from(self.local_addr);
        text::glue3("ws://", &at.to_text(), "/ws")
    }

    /// The URL of the page, for a client on this machine.
    pub fn http_url(&self) -> (out: String)
        ensures
            out@ == self.page(),
    {
        let at = Server::reachable_from(self.local_addr);
        text::glue3("http://", &at.to_text(), "/")
    }

    /// The URL of the page with a credential already in hand, where there is one.
    pub fn window_url(&self) -> (out: Option<String>)
        ensures
            text::maybe(out) == with_token(self.page(), text::maybe(self.boot_credential)),
    {
        match &self.boot_credential {
            Some(credential) => Some(text::glue3(&self.http_url(), "#token=", credential)),
            None => None,
        }
    }

    /// The URL of the page, for a client on another machine that reaches this one
    /// as `host`.
    pub fn url_for(&self, host: &str) -> (out: String)
        ensures
            out@ == self.page_on(host@),
    {
        text::glue5("http://", host, ":", &text::decimal_text(self.local_addr.port as u64), "/")
    }

    /// The same with the credential in hand, where there is one.
    pub fn pairing_url_for(&self, host: &str) -> (out: Option<String>)
        ensures
            text::maybe(out) == with_token(self.page_on(host@), text::maybe(self.boot_credential)),
    {
        match &self.boot_credential {
            Some(credential) => Some(text::glue3(&self.url_for(host), "#token=", credential)),
            None => None,
        }
    }

    /// The credential itself, to be typed.
    pub fn boot_credential(&self) -> (out: Option<&str>)
        ensures
            match out {
                Some(credential) => text::maybe(self.boot_credential) == Some(credential@),
                None => self.boot_credential is None,
            },
    {
        match &self.boot_credential {
            Some(credential) => Some(credential.as_str()),
            None => None,
        }
    }

    /// Where the server was told to listen.
    pub fn remote_access(&self) -> (out: RemoteAccess)
        ensures
            out == self.remote_access,
    {
        self.remote_access
    }
}

/// No URL for this machine names the wildcard, and the port is the listener's.
pub proof fn a_local_url_names_an_address(bound: SocketAddr)
    ensures
        !reachable(bound).is_unspecified(),
        reachable(bound).port == bound.port,
        !bound.is_unspecified() ==> reachable(bound) == bound,
{
    if bound.is_unspecified() {
        assert(reachable(bound).ip@[0] == 127);
    }
}

// ---------------------------------------------------------------------------
// Starting
// ---------------------------------------------------------------------------

/// What to do next.
#[derive(Debug, PartialEq, Eq)]
pub enum Action<S, V> {
    /// The durable name of the environment: [`Event::Name`].
    AskName,
    /// The origin that the connector's own file names: [`Event::Connector`].
    ReadConnector,
    /// Record that origin unless one is recorded: [`Event::Restored`].
    RestoreEndpoint(S),
    /// Make the credential for the server's own window: [`Event::Minted`].
    MintGrant,
    /// Listen on this address: [`Event::Listening`].
    Listen(SocketAddr),
    /// Hand this origin to whatever calls the server from this machine, let the
    /// connector begin and serve: [`Event::Serving`].
    Serve(S),
    /// The server runs. `verify` is whether its public endpoint is to be verified
    /// at once.
    Running { server: V, verify: bool },
    Failed(StartupFailure<S>),
}

/// What came of it.
#[derive(Debug, PartialEq, Eq)]
pub enum Event<S> {
    Name(Result<S, S>),
    Connector(Option<S>),
    Restored(Result<(), S>),
    Minted(Result<S, S>),
    Listening(Result<SocketAddr, S>),
    /// What the connector is wanted to do.
    Serving { desired: Option<S> },
}

/// Where a start is.
#[derive(Debug, Clone, Copy, PartialEq, Eq, Structural)]
pub enum Stage {
    Name,
    Connector,
    Endpoint,
    Grant,
    Listening,
    Serving,
    Over,
}

/// A start on its way.
#[derive(Debug, PartialEq, Eq)]
pub struct Starting<S> {
    pub port: u16,
    pub access: RemoteAccess,
    pub stage: Stage,
    /// The durable name of the environment, or none: the temporary one is kept.
    pub name: Option<S>,
    pub credential: Option<S>,
    pub bound: SocketAddr,
}

/// The model of a server that runs.
#[verifier::ext_equal]
pub struct ServerModel {
    pub local_addr: SocketAddr,
    pub boot_credential: Option<Text>,
    pub remote_access: RemoteAccess,
}

impl View for Server {
    type V = ServerModel;

    open spec fn view(&self) -> ServerModel {
        ServerModel {
            local_addr: self.local_addr,
            boot_credential: text::maybe(self.boot_credential),
            remote_access: self.remote_access,
        }
    }
}

impl View for Starting<String> {
    type V = Starting<Text>;

    open spec fn view(&self) -> Starting<Text> {
        Starting {
            port: self.port,
            access: self.access,
            stage: self.stage,
            name: text::maybe(self.name),
            credential: text::maybe(self.credential),
            bound: self.bound,
        }
    }
}

impl View for Event<String> {
    type V = Event<Text>;

    open spec fn view(&self) -> Event<Text> {
        match self {
            Event::Name(Ok(name)) => Event::Name(Ok(name@)),
            Event::Name(Err(error)) => Event::Name(Err(error@)),
            Event::Connector(origin) => Event::Connector(text::maybe(*origin)),
            Event::Restored(Ok(_)) => Event::Restored(Ok(())),
            Event::Restored(Err(error)) => Event::Restored(Err(error@)),
            Event::Minted(Ok(credential)) => Event::Minted(Ok(credential@)),
            Event::Minted(Err(error)) => Event::Minted(Err(error@)),
            Event::Listening(Ok(bound)) => Event::Listening(Ok(*bound)),
            Event::Listening(Err(error)) => Event::Listening(Err(error@)),
            Event::Serving { desired } => Event::Serving { desired: text::maybe(*desired) },
        }
    }
}

/// The model of an action.
pub open spec fn action_view(action: Action<String, Server>) -> Action<Text, ServerModel> {
    match action {
        Action::AskName => Action::AskName,
        Action::ReadConnector => Action::ReadConnector,
        Action::RestoreEndpoint(origin) => Action::RestoreEndpoint(origin@),
        Action::MintGrant => Action::MintGrant,
        Action::Listen(address) => Action::Listen(address),
        Action::Serve(origin) => Action::Serve(origin@),
        Action::Running { server, verify } => Action::Running { server: server@, verify },
        Action::Failed(failure) => Action::Failed(failure@),
    }
}

/// What comes next, and what is said in the log.
#[derive(Debug, PartialEq, Eq)]
pub struct Turn<S, V> {
    pub complaint: Option<S>,
    pub action: Action<S, V>,
}

/// The model of what comes next.
pub open spec fn turn_view(turn: Turn<String, Server>) -> Turn<Text, ServerModel> {
    Turn { complaint: text::maybe(turn.complaint), action: action_view(turn.action) }
}

/// The address to listen on: as exposed as the server is, on this port.
pub open spec fn listens_on(access: RemoteAccess, port: u16) -> SocketAddr {
    match access.exposure {
        remote_access::Exposure::LocalOnly => SocketAddr { ip: [127, 0, 0, 1], port },
        remote_access::Exposure::NetworkAccessible => SocketAddr { ip: [0, 0, 0, 0], port },
    }
}

impl Starting<Text> {
    /// Whether this is what was asked for.
    pub open spec fn expects(self, event: Event<Text>) -> bool {
        match self.stage {
            Stage::Name => event is Name,
            Stage::Connector => event is Connector,
            Stage::Endpoint => event is Restored,
            Stage::Grant => event is Minted,
            Stage::Listening => event is Listening,
            Stage::Serving => event is Serving,
            Stage::Over => false,
        }
    }

    /// What comes next. Only an address that cannot be listened on stops a start.
    pub open spec fn step(self, event: Event<Text>) -> (Self, Turn<Text, ServerModel>) {
        match event {
            Event::Name(Ok(name)) => (
                Starting { stage: Stage::Connector, name: Some(name), ..self },
                Turn { complaint: None, action: Action::ReadConnector },
            ),
            Event::Name(Err(error)) => (
                Starting { stage: Stage::Connector, name: None, ..self },
                Turn {
                    complaint: Some(
                        "cannot read this environment's durable name, using a temporary one for this run: "@ + error,
                    ),
                    action: Action::ReadConnector,
                },
            ),
            Event::Connector(Some(origin)) => (
                Starting { stage: Stage::Endpoint, ..self },
                Turn { complaint: None, action: Action::RestoreEndpoint(origin) },
            ),
            Event::Connector(None) => (
                Starting { stage: Stage::Grant, ..self },
                Turn { complaint: None, action: Action::MintGrant },
            ),
            Event::Restored(restored) => (
                Starting { stage: Stage::Grant, ..self },
                Turn {
                    complaint: match restored {
                        Ok(_) => None,
                        Err(error) => Some("cannot restore managed public endpoint: "@ + error),
                    },
                    action: Action::MintGrant,
                },
            ),
            Event::Minted(minted) => (
                Starting {
                    stage: Stage::Listening,
                    credential: match minted {
                        Ok(credential) => Some(credential),
                        Err(_) => None,
                    },
                    ..self
                },
                Turn {
                    complaint: match minted {
                        Ok(_) => None,
                        Err(error) => Some("cannot mint the credential this window boots with: "@ + error),
                    },
                    action: Action::Listen(listens_on(self.access, self.port)),
                },
            ),
            Event::Listening(Ok(bound)) => (
                Starting { stage: Stage::Serving, bound, ..self },
                Turn {
                    complaint: None,
                    action: Action::Serve("http://127.0.0.1:"@ + text::decimal(bound.port as nat)),
                },
            ),
            Event::Listening(Err(error)) => (
                Starting { stage: Stage::Over, ..self },
                Turn {
                    complaint: None,
                    action: Action::Failed(
                        StartupFailure::Listen { address: listens_on(self.access, self.port), error },
                    ),
                },
            ),
            Event::Serving { desired } => (
                Starting { stage: Stage::Over, ..self },
                Turn {
                    complaint: None,
                    action: Action::Running {
                        server: ServerModel {
                            local_addr: self.bound,
                            boot_credential: self.credential,
                            remote_access: self.access,
                        },
                        verify: desired == Some("running"@),
                    },
                },
            ),
        }
    }
}

impl Starting<String> {
    /// Begins a start: the first thing asked is [`Action::AskName`].
    pub fn begin(port: u16, access: RemoteAccess) -> (out: (Starting<String>, Action<String, Server>))
        ensures
            out.0@.stage == Stage::Name,
            out.0@.port == port,
            out.0@.access == access,
            out.0@.credential is None,
            out.1 == Action::<String, Server>::AskName,
    {
        let starting = Starting {
            port,
            access,
            stage: Stage::Name,
            name: None,
            credential: None,
            bound: SocketAddr { ip: [127, 0, 0, 1], port },
        };
        (starting, Action::AskName)
    }

    /// The address to listen on.
    fn listen_on(&self) -> (out: SocketAddr)
        ensures
            out == listens_on(self.access, self.port),
    {
        match self.access.exposure {
            remote_access::Exposure::LocalOnly => SocketAddr { ip: [127, 0, 0, 1], port: self.port },
            remote_access::Exposure::NetworkAccessible => SocketAddr { ip: [0, 0, 0, 0], port: self.port },
        }
    }

    /// What comes next.
    pub fn step(&mut self, event: &Event<String>) -> (out: Turn<String, Server>)
        requires
            old(self)@.expects(event@),
        ensures
            (final(self)@, turn_view(out)) == old(self)@.step(event@),
    {
        match event {
            Event::Name(Ok(name)) => {
                self.stage = Stage::Connector;
                self.name = Some(name.clone());
                Turn { complaint: None, action: Action::ReadConnector }
            },
            Event::Name(Err(error)) => {
                self.stage = Stage::Connector;
                self.name = None;
                let complaint = text::glue(
                    "cannot read this environment's durable name, using a temporary one for this run: ",
                    error,
                );
                Turn { complaint: Some(complaint), action: Action::ReadConnector }
            },
            Event::Connector(Some(origin)) => {
                self.stage = Stage::Endpoint;
                Turn { complaint: None, action: Action::RestoreEndpoint(origin.clone()) }
            },
            Event::Connector(None) => {
                self.stage = Stage::Grant;
                Turn { complaint: None, action: Action::MintGrant }
            },
            Event::Restored(restored) => {
                self.stage = Stage::Grant;
                let complaint: Option<String> = match restored {
                    Ok(_) => None,
                    Err(error) => Some(text::glue("cannot restore managed public endpoint: ", error)),
                };
                Turn { complaint, action: Action::MintGrant }
            },
            Event::Minted(minted) => {
                self.stage = Stage::Listening;
                let complaint: Option<String> = match minted {
                    Ok(credential) => {
                        self.credential = Some(credential.clone());
                        None
                    },
                    Err(error) => {
                        self.credential = None;
                        Some(text::glue("cannot mint the credential this window boots with: ", error))
                    },
                };
                Turn { complaint, action: Action::Listen(self.listen_on()) }
            },
            Event::Listening(Ok(bound)) => {
                self.stage = Stage::Serving;
                self.bound = *bound;
                let origin = text::glue("http://127.0.0.1:", &text::decimal_text(bound.port as u64));
                Turn { complaint: None, action: Action::Serve(origin) }
            },
            Event::Listening(Err(error)) => {
                self.stage = Stage::Over;
                let failure = StartupFailure::Listen { address: self.listen_on(), error: error.clone() };
                Turn { complaint: None, action: Action::Failed(failure) }
            },
            Event::Serving { desired } => {
                self.stage = Stage::Over;
                let verify: bool = match desired {
                    Some(desired) => text::same(desired, "running"),
                    None => false,
                };
                let server = Server {
                    local_addr: self.bound,
                    boot_credential: text::copy_maybe(&self.credential),
                    remote_access: self.access,
                };
                Turn { complaint: None, action: Action::Running { server, verify } }
            },
        }
    }
}

/// Nothing listens before the credential for the server's own window is made or
/// has failed to be, and the address listened on is as exposed as the switch says.
pub proof fn nothing_listens_before_the_grant(starting: Starting<Text>, event: Event<Text>)
    requires
        starting.expects(event),
    ensures
        starting.step(event).1.action matches Action::Listen(address) ==> starting.stage == Stage::Grant && (
        remote_access::remotely_reachable(address.ip) <==> starting.access.exposure
            == remote_access::Exposure::NetworkAccessible),
{
}

/// Only an address that cannot be listened on stops a start: every other failure
/// is said in the log and survived.
pub proof fn only_listening_stops_a_start(starting: Starting<Text>, event: Event<Text>)
    requires
        starting.expects(event),
    ensures
        starting.step(event).1.action is Failed <==> (event matches Event::Listening(Err(_))),
{
}

// ---------------------------------------------------------------------------
// The background
// ---------------------------------------------------------------------------

/// How long, in nanoseconds, the first check of the public endpoint waits, and a
/// check for which there is no endpoint.
pub const FIRST_DELAY: u128 = 30_000_000_000;

/// How long the next background check waits, in nanoseconds: `checked` is what came
/// of the last one, or nothing where there is no endpoint to check.
pub fn background_delay(delay: u128, checked: Option<bool>) -> (out: u128)
    ensures
        out as int == match checked {
            None => FIRST_DELAY as int,
            Some(true) => public_exposure::VERIFIED_DELAY as int,
            Some(false) => if 2 * delay <= public_exposure::LONGEST_DELAY {
                2 * delay
            } else {
                public_exposure::LONGEST_DELAY as int
            },
        },
{
    match checked {
        None => FIRST_DELAY,
        Some(succeeded) => public_exposure::next_background_delay(delay, succeeded),
    }
}

// ---------------------------------------------------------------------------
// Stopping
// ---------------------------------------------------------------------------

/// What is stopped, and waited for.
#[derive(Debug, Clone, Copy, PartialEq, Eq, Structural)]
pub enum Stopping {
    /// Accepting, and every open socket.
    Sockets,
    Connector,
    ProviderProcesses,
    /// The listener's own task.
    Listener,
    /// Every agent session.
    Agents,
    Terminals,
    /// What the agents said is written down.
    Transcripts,
}

/// The order in which the server stops.
pub open spec fn stopping_order() -> Seq<Stopping> {
    seq![
        Stopping::Sockets,
        Stopping::Connector,
        Stopping::ProviderProcesses,
        Stopping::Listener,
        Stopping::Agents,
        Stopping::Terminals,
        Stopping::Transcripts,
    ]
}

/// The order in which the server stops.
pub fn shutdown_order() -> (out: Vec<Stopping>)
    ensures
        out@ == stopping_order(),
{
    vec![
        Stopping::Sockets,
        Stopping::Connector,
        Stopping::ProviderProcesses,
        Stopping::Listener,
        Stopping::Agents,
        Stopping::Terminals,
        Stopping::Transcripts,
    ]
}

/// The agents and the terminals are gone before the transcripts are written, so
/// that the last thing an agent said is in them; and everything is stopped once.
pub proof fn transcripts_are_written_last()
    ensures
        stopping_order().last() == Stopping::Transcripts,
        stopping_order().no_duplicates(),
        forall|what: Stopping| #[trigger] stopping_order().contains(what),
{
    let order = stopping_order();
    assert forall|what: Stopping| #[trigger] order.contains(what) by {
        match what {
            Stopping::Sockets => assert(order[0] == what),
            Stopping::Connector => assert(order[1] == what),
            Stopping::ProviderProcesses => assert(order[2] == what),
            Stopping::Listener => assert(order[3] == what),
            Stopping::Agents => assert(order[4] == what),
            Stopping::Terminals => assert(order[5] == what),
            Stopping::Transcripts => assert(order[6] == what),
        }
    }
}

} // verus!
