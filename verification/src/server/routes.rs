//! Which requests there are, what each one has to bring, and which of them a page
//! of another origin may read.

use crate::access::Denial;
use crate::access::Grant;
use crate::access::require_scope;
use crate::access::ScopeRequired;
use vstd::prelude::*;

verus! {

/// Text as the contracts see it.
pub type Text = Seq<char>;

/// A path that the server answers.
#[derive(Debug, Clone, Copy, PartialEq, Eq, Structural)]
pub enum Route {
    Socket,
    Environment,
    Session,
    Shell,
    Thread,
    BrowserSession,
    Token,
    Ticket,
    PairingToken,
    PairingLinks,
    RevokePairingLink,
    Cloudflare,
    CloudflareTest,
    CloudflareForget,
    Challenge,
    SocketChallenge,
    Executables,
    Install,
    Account,
    Login,
    CancelLogin,
    Consent,
    Tunnels,
    Select,
    Adopt,
    Create,
    Deletion,
    Delete,
    Connector,
    Configure,
    Start,
    Stop,
    Retry,
    Asset,
    Mcp,
}

/// What answers a request.
#[derive(Debug, Clone, Copy, PartialEq, Eq, Structural)]
pub enum Handler {
    Upgrade,
    EnvironmentDescriptor,
    AuthSession,
    ShellSnapshot,
    ThreadSnapshot,
    BrowserSession,
    TokenExchange,
    WebsocketTicket,
    PairingCredential,
    PairingLinks,
    RevokePairingLink,
    ExternalTunnelStatus,
    RegisterExternalTunnel,
    TestExternalTunnel,
    ForgetExternalTunnel,
    DiagnosticHttpChallenge,
    DiagnosticWsChallenge,
    CloudflareExecutables,
    CloudflareInstallState,
    InstallCloudflared,
    CloudflareAccountState,
    BeginCloudflareLogin,
    CancelCloudflareLogin,
    ConsentToCloudflareCertificate,
    ListCloudflareTunnels,
    SelectCloudflareTunnel,
    AdoptCloudflareTunnel,
    CreateCloudflareTunnel,
    OfferCloudflareDeletion,
    DeleteCloudflareTunnel,
    CloudflareConnectorStatus,
    ConfigureCloudflareConnector,
    StartCloudflareConnector,
    StopCloudflareConnector,
    RetryCloudflareConnector,
    ProjectAsset,
    McpGet,
    McpPost,
}

/// The method of a request.
#[derive(Debug, Clone, Copy, PartialEq, Eq, Structural)]
pub enum Verb {
    Get,
    Head,
    Post,
    Options,
    Other,
}

/// How a request is answered.
#[derive(Debug, Clone, Copy, PartialEq, Eq, Structural)]
pub enum Answer {
    By(Handler),
    /// The question a browser asks before the request that a page made: 204.
    Preflight,
    /// 405.
    MethodNotAllowed,
    /// A file of the interface, where there is one at the path.
    Asset,
    /// 404.
    NotFound,
}

/// What a request has to bring.
#[derive(Debug, Clone, Copy, PartialEq, Eq, Structural)]
pub enum Gate {
    /// Nothing, or something that is checked where it is answered.
    Open,
    /// A credential that verifies.
    Credential,
    /// The same, with the scope `access:read`.
    Read,
    /// The same, with the scope `access:write`.
    Write,
}

impl Route {
    /// Every path, in the order in which they are declared.
    pub open spec fn every() -> Seq<Route> {
        seq![
            Route::Socket,
            Route::Environment,
            Route::Session,
            Route::Shell,
            Route::Thread,
            Route::BrowserSession,
            Route::Token,
            Route::Ticket,
            Route::PairingToken,
            Route::PairingLinks,
            Route::RevokePairingLink,
            Route::Cloudflare,
            Route::CloudflareTest,
            Route::CloudflareForget,
            Route::Challenge,
            Route::SocketChallenge,
            Route::Executables,
            Route::Install,
            Route::Account,
            Route::Login,
            Route::CancelLogin,
            Route::Consent,
            Route::Tunnels,
            Route::Select,
            Route::Adopt,
            Route::Create,
            Route::Deletion,
            Route::Delete,
            Route::Connector,
            Route::Configure,
            Route::Start,
            Route::Stop,
            Route::Retry,
            Route::Asset,
            Route::Mcp,
        ]
    }

    /// Every path, in the order in which they are declared.
    pub fn all() -> (out: Vec<Route>)
        ensures
            out@ == Route::every(),
    {
        vec![
            Route::Socket,
            Route::Environment,
            Route::Session,
            Route::Shell,
            Route::Thread,
            Route::BrowserSession,
            Route::Token,
            Route::Ticket,
            Route::PairingToken,
            Route::PairingLinks,
            Route::RevokePairingLink,
            Route::Cloudflare,
            Route::CloudflareTest,
            Route::CloudflareForget,
            Route::Challenge,
            Route::SocketChallenge,
            Route::Executables,
            Route::Install,
            Route::Account,
            Route::Login,
            Route::CancelLogin,
            Route::Consent,
            Route::Tunnels,
            Route::Select,
            Route::Adopt,
            Route::Create,
            Route::Deletion,
            Route::Delete,
            Route::Connector,
            Route::Configure,
            Route::Start,
            Route::Stop,
            Route::Retry,
            Route::Asset,
            Route::Mcp,
        ]
    }

    /// The pattern of its path.
    pub open spec fn pattern(self) -> Text {
        match self {
            Route::Socket => "/ws"@,
            Route::Environment => "/.well-known/t3/environment"@,
            Route::Session => "/api/auth/session"@,
            Route::Shell => "/api/orchestration/shell"@,
            Route::Thread => "/api/orchestration/threads/{threadId}"@,
            Route::BrowserSession => "/api/auth/browser-session"@,
            Route::Token => "/oauth/token"@,
            Route::Ticket => "/api/auth/websocket-ticket"@,
            Route::PairingToken => "/api/auth/pairing-token"@,
            Route::PairingLinks => "/api/auth/pairing-links"@,
            Route::RevokePairingLink => "/api/auth/pairing-links/revoke"@,
            Route::Cloudflare => "/api/access/cloudflare"@,
            Route::CloudflareTest => "/api/access/cloudflare/test"@,
            Route::CloudflareForget => "/api/access/cloudflare/forget"@,
            Route::Challenge => "/api/access/cloudflare/challenge"@,
            Route::SocketChallenge => "/api/access/cloudflare/challenge/ws"@,
            Route::Executables => "/api/access/cloudflare/executables"@,
            Route::Install => "/api/access/cloudflare/install"@,
            Route::Account => "/api/access/cloudflare/account"@,
            Route::Login => "/api/access/cloudflare/account/login"@,
            Route::CancelLogin => "/api/access/cloudflare/account/login/cancel"@,
            Route::Consent => "/api/access/cloudflare/account/consent"@,
            Route::Tunnels => "/api/access/cloudflare/account/tunnels"@,
            Route::Select => "/api/access/cloudflare/account/select"@,
            Route::Adopt => "/api/access/cloudflare/account/adopt"@,
            Route::Create => "/api/access/cloudflare/account/create"@,
            Route::Deletion => "/api/access/cloudflare/account/deletion"@,
            Route::Delete => "/api/access/cloudflare/account/delete"@,
            Route::Connector => "/api/access/cloudflare/connector"@,
            Route::Configure => "/api/access/cloudflare/connector/configure"@,
            Route::Start => "/api/access/cloudflare/connector/start"@,
            Route::Stop => "/api/access/cloudflare/connector/stop"@,
            Route::Retry => "/api/access/cloudflare/connector/retry"@,
            Route::Asset => "/api/assets/{token}/{name}"@,
            Route::Mcp => "/mcp/{sessionId}"@,
        }
    }

    /// The pattern of its path.
    pub fn path(self) -> (out: &'static str)
        ensures
            out@ == self.pattern(),
    {
        match self {
            Route::Socket => "/ws",
            Route::Environment => "/.well-known/t3/environment",
            Route::Session => "/api/auth/session",
            Route::Shell => "/api/orchestration/shell",
            Route::Thread => "/api/orchestration/threads/{threadId}",
            Route::BrowserSession => "/api/auth/browser-session",
            Route::Token => "/oauth/token",
            Route::Ticket => "/api/auth/websocket-ticket",
            Route::PairingToken => "/api/auth/pairing-token",
            Route::PairingLinks => "/api/auth/pairing-links",
            Route::RevokePairingLink => "/api/auth/pairing-links/revoke",
            Route::Cloudflare => "/api/access/cloudflare",
            Route::CloudflareTest => "/api/access/cloudflare/test",
            Route::CloudflareForget => "/api/access/cloudflare/forget",
            Route::Challenge => "/api/access/cloudflare/challenge",
            Route::SocketChallenge => "/api/access/cloudflare/challenge/ws",
            Route::Executables => "/api/access/cloudflare/executables",
            Route::Install => "/api/access/cloudflare/install",
            Route::Account => "/api/access/cloudflare/account",
            Route::Login => "/api/access/cloudflare/account/login",
            Route::CancelLogin => "/api/access/cloudflare/account/login/cancel",
            Route::Consent => "/api/access/cloudflare/account/consent",
            Route::Tunnels => "/api/access/cloudflare/account/tunnels",
            Route::Select => "/api/access/cloudflare/account/select",
            Route::Adopt => "/api/access/cloudflare/account/adopt",
            Route::Create => "/api/access/cloudflare/account/create",
            Route::Deletion => "/api/access/cloudflare/account/deletion",
            Route::Delete => "/api/access/cloudflare/account/delete",
            Route::Connector => "/api/access/cloudflare/connector",
            Route::Configure => "/api/access/cloudflare/connector/configure",
            Route::Start => "/api/access/cloudflare/connector/start",
            Route::Stop => "/api/access/cloudflare/connector/stop",
            Route::Retry => "/api/access/cloudflare/connector/retry",
            Route::Asset => "/api/assets/{token}/{name}",
            Route::Mcp => "/mcp/{sessionId}",
        }
    }

    /// What answers a read.
    pub open spec fn reads(self) -> Option<Handler> {
        match self {
            Route::Socket => Some(Handler::Upgrade),
            Route::Environment => Some(Handler::EnvironmentDescriptor),
            Route::Session => Some(Handler::AuthSession),
            Route::Shell => Some(Handler::ShellSnapshot),
            Route::Thread => Some(Handler::ThreadSnapshot),
            Route::PairingLinks => Some(Handler::PairingLinks),
            Route::Cloudflare => Some(Handler::ExternalTunnelStatus),
            Route::Challenge => Some(Handler::DiagnosticHttpChallenge),
            Route::SocketChallenge => Some(Handler::DiagnosticWsChallenge),
            Route::Executables => Some(Handler::CloudflareExecutables),
            Route::Install => Some(Handler::CloudflareInstallState),
            Route::Account => Some(Handler::CloudflareAccountState),
            Route::Connector => Some(Handler::CloudflareConnectorStatus),
            Route::Asset => Some(Handler::ProjectAsset),
            Route::Mcp => Some(Handler::McpGet),
            _ => None,
        }
    }

    /// What answers a post.
    pub open spec fn posts(self) -> Option<Handler> {
        match self {
            Route::BrowserSession => Some(Handler::BrowserSession),
            Route::Token => Some(Handler::TokenExchange),
            Route::Ticket => Some(Handler::WebsocketTicket),
            Route::PairingToken => Some(Handler::PairingCredential),
            Route::RevokePairingLink => Some(Handler::RevokePairingLink),
            Route::Cloudflare => Some(Handler::RegisterExternalTunnel),
            Route::CloudflareTest => Some(Handler::TestExternalTunnel),
            Route::CloudflareForget => Some(Handler::ForgetExternalTunnel),
            Route::Install => Some(Handler::InstallCloudflared),
            Route::Login => Some(Handler::BeginCloudflareLogin),
            Route::CancelLogin => Some(Handler::CancelCloudflareLogin),
            Route::Consent => Some(Handler::ConsentToCloudflareCertificate),
            Route::Tunnels => Some(Handler::ListCloudflareTunnels),
            Route::Select => Some(Handler::SelectCloudflareTunnel),
            Route::Adopt => Some(Handler::AdoptCloudflareTunnel),
            Route::Create => Some(Handler::CreateCloudflareTunnel),
            Route::Deletion => Some(Handler::OfferCloudflareDeletion),
            Route::Delete => Some(Handler::DeleteCloudflareTunnel),
            Route::Configure => Some(Handler::ConfigureCloudflareConnector),
            Route::Start => Some(Handler::StartCloudflareConnector),
            Route::Stop => Some(Handler::StopCloudflareConnector),
            Route::Retry => Some(Handler::RetryCloudflareConnector),
            Route::Mcp => Some(Handler::McpPost),
            _ => None,
        }
    }

    /// Whether a page of another origin may read the answer: the seven requests
    /// that a client makes of a server it did not load its page from.
    pub open spec fn readable_across_origins(self) -> bool {
        match self {
            Route::Environment
            | Route::Session
            | Route::Shell
            | Route::Thread
            | Route::BrowserSession
            | Route::Token
            | Route::Ticket => true,
            _ => false,
        }
    }

    /// Whether a page of another origin may read the answer.
    pub fn cross_origin(self) -> (out: bool)
        ensures
            out == self.readable_across_origins(),
    {
        match self {
            Route::Environment
            | Route::Session
            | Route::Shell
            | Route::Thread
            | Route::BrowserSession
            | Route::Token
            | Route::Ticket => true,
            _ => false,
        }
    }

    /// What answers a read.
    fn get(self) -> (out: Option<Handler>)
        ensures
            out == self.reads(),
    {
        match self {
            Route::Socket => Some(Handler::Upgrade),
            Route::Environment => Some(Handler::EnvironmentDescriptor),
            Route::Session => Some(Handler::AuthSession),
            Route::Shell => Some(Handler::ShellSnapshot),
            Route::Thread => Some(Handler::ThreadSnapshot),
            Route::PairingLinks => Some(Handler::PairingLinks),
            Route::Cloudflare => Some(Handler::ExternalTunnelStatus),
            Route::Challenge => Some(Handler::DiagnosticHttpChallenge),
            Route::SocketChallenge => Some(Handler::DiagnosticWsChallenge),
            Route::Executables => Some(Handler::CloudflareExecutables),
            Route::Install => Some(Handler::CloudflareInstallState),
            Route::Account => Some(Handler::CloudflareAccountState),
            Route::Connector => Some(Handler::CloudflareConnectorStatus),
            Route::Asset => Some(Handler::ProjectAsset),
            Route::Mcp => Some(Handler::McpGet),
            _ => None,
        }
    }

    /// What answers a post.
    fn post(self) -> (out: Option<Handler>)
        ensures
            out == self.posts(),
    {
        match self {
            Route::BrowserSession => Some(Handler::BrowserSession),
            Route::Token => Some(Handler::TokenExchange),
            Route::Ticket => Some(Handler::WebsocketTicket),
            Route::PairingToken => Some(Handler::PairingCredential),
            Route::RevokePairingLink => Some(Handler::RevokePairingLink),
            Route::Cloudflare => Some(Handler::RegisterExternalTunnel),
            Route::CloudflareTest => Some(Handler::TestExternalTunnel),
            Route::CloudflareForget => Some(Handler::ForgetExternalTunnel),
            Route::Install => Some(Handler::InstallCloudflared),
            Route::Login => Some(Handler::BeginCloudflareLogin),
            Route::CancelLogin => Some(Handler::CancelCloudflareLogin),
            Route::Consent => Some(Handler::ConsentToCloudflareCertificate),
            Route::Tunnels => Some(Handler::ListCloudflareTunnels),
            Route::Select => Some(Handler::SelectCloudflareTunnel),
            Route::Adopt => Some(Handler::AdoptCloudflareTunnel),
            Route::Create => Some(Handler::CreateCloudflareTunnel),
            Route::Deletion => Some(Handler::OfferCloudflareDeletion),
            Route::Delete => Some(Handler::DeleteCloudflareTunnel),
            Route::Configure => Some(Handler::ConfigureCloudflareConnector),
            Route::Start => Some(Handler::StartCloudflareConnector),
            Route::Stop => Some(Handler::StopCloudflareConnector),
            Route::Retry => Some(Handler::RetryCloudflareConnector),
            Route::Mcp => Some(Handler::McpPost),
            _ => None,
        }
    }
}

/// How a request is answered. `None` is a path that is none of the server's own:
/// only a read of one can be answered with a file, and every other method is as
/// little there as a path that is not.
pub open spec fn answer_to(route: Option<Route>, verb: Verb) -> Answer {
    match route {
        None => match verb {
            Verb::Get | Verb::Head => Answer::Asset,
            _ => Answer::NotFound,
        },
        Some(route) => match verb {
            Verb::Get | Verb::Head => match route.reads() {
                Some(handler) => Answer::By(handler),
                None => Answer::MethodNotAllowed,
            },
            Verb::Post => match route.posts() {
                Some(handler) => Answer::By(handler),
                None => Answer::MethodNotAllowed,
            },
            Verb::Options => if route.readable_across_origins() {
                Answer::Preflight
            } else {
                Answer::MethodNotAllowed
            },
            Verb::Other => Answer::MethodNotAllowed,
        },
    }
}

/// How a request is answered.
pub fn answer(route: Option<Route>, verb: Verb) -> (out: Answer)
    ensures
        out == answer_to(route, verb),
{
    match route {
        None => match verb {
            Verb::Get | Verb::Head => Answer::Asset,
            _ => Answer::NotFound,
        },
        Some(route) => match verb {
            Verb::Get | Verb::Head => match route.get() {
                Some(handler) => Answer::By(handler),
                None => Answer::MethodNotAllowed,
            },
            Verb::Post => match route.post() {
                Some(handler) => Answer::By(handler),
                None => Answer::MethodNotAllowed,
            },
            Verb::Options => {
                if route.cross_origin() {
                    Answer::Preflight
                } else {
                    Answer::MethodNotAllowed
                }
            },
            Verb::Other => Answer::MethodNotAllowed,
        },
    }
}

impl Handler {
    /// What a request that it answers has to bring.
    pub open spec fn asks(self) -> Gate {
        match self {
            Handler::EnvironmentDescriptor
            | Handler::AuthSession
            | Handler::BrowserSession
            | Handler::TokenExchange
            | Handler::DiagnosticHttpChallenge
            | Handler::DiagnosticWsChallenge
            | Handler::ProjectAsset
            | Handler::McpGet
            | Handler::McpPost => Gate::Open,
            Handler::Upgrade
            | Handler::ShellSnapshot
            | Handler::ThreadSnapshot
            | Handler::WebsocketTicket
            | Handler::PairingCredential
            | Handler::PairingLinks
            | Handler::RevokePairingLink => Gate::Credential,
            Handler::ExternalTunnelStatus
            | Handler::CloudflareExecutables
            | Handler::CloudflareInstallState
            | Handler::CloudflareAccountState
            | Handler::CloudflareConnectorStatus => Gate::Read,
            _ => Gate::Write,
        }
    }

    /// What a request that it answers has to bring.
    pub fn gate(self) -> (out: Gate)
        ensures
            out == self.asks(),
    {
        match self {
            Handler::EnvironmentDescriptor
            | Handler::AuthSession
            | Handler::BrowserSession
            | Handler::TokenExchange
            | Handler::DiagnosticHttpChallenge
            | Handler::DiagnosticWsChallenge
            | Handler::ProjectAsset
            | Handler::McpGet
            | Handler::McpPost => Gate::Open,
            Handler::Upgrade
            | Handler::ShellSnapshot
            | Handler::ThreadSnapshot
            | Handler::WebsocketTicket
            | Handler::PairingCredential
            | Handler::PairingLinks
            | Handler::RevokePairingLink => Gate::Credential,
            Handler::ExternalTunnelStatus
            | Handler::CloudflareExecutables
            | Handler::CloudflareInstallState
            | Handler::CloudflareAccountState
            | Handler::CloudflareConnectorStatus => Gate::Read,
            _ => Gate::Write,
        }
    }
}

/// Why a request is turned away.
#[derive(Debug, PartialEq, Eq)]
pub enum Turned<D, R> {
    Denied(D),
    /// The credential lacks a scope, and this is all that the client learns.
    Scope(R),
}

/// The scope that a gate asks for, where it asks for one.
pub open spec fn scope_of(gate: Gate) -> Option<Text> {
    match gate {
        Gate::Open | Gate::Credential => None,
        Gate::Read => Some("access:read"@),
        Gate::Write => Some("access:write"@),
    }
}

/// Whether a request passes a gate, where `admitted` is the scopes that its
/// credential has or why it has none.
pub open spec fn passage(gate: Gate, admitted: Result<Seq<Text>, Denial<Text>>) -> Result<(), Turned<Denial<Text>, Text>> {
    if gate == Gate::Open {
        Ok(())
    } else {
        match admitted {
            Err(denial) => Err(Turned::Denied(denial)),
            Ok(scopes) => match scope_of(gate) {
                Some(scope) => if scopes.contains(scope) {
                    Ok(())
                } else {
                    Err(Turned::Scope(scope))
                },
                None => Ok(()),
            },
        }
    }
}

/// The view of an admission.
pub open spec fn admitted_view(admitted: Result<Grant<String, Vec<String>>, Denial<String>>) -> Result<
    Seq<Text>,
    Denial<Text>,
> {
    match admitted {
        Ok(grant) => Ok(grant@.scopes),
        Err(denial) => Err(denial@),
    }
}

/// The view of a passage.
pub open spec fn passage_view(passage: Result<(), Turned<Denial<String>, ScopeRequired>>) -> Result<
    (),
    Turned<Denial<Text>, Text>,
> {
    match passage {
        Ok(_) => Ok(()),
        Err(Turned::Denied(denial)) => Err(Turned::Denied(denial@)),
        Err(Turned::Scope(required)) => Err(Turned::Scope(required.required_scope@)),
    }
}

/// Whether a request passes a gate.
pub fn passes(gate: Gate, admitted: Result<Grant<String, Vec<String>>, Denial<String>>) -> (out: Result<
    (),
    Turned<Denial<String>, ScopeRequired>,
>)
    ensures
        passage_view(out) == passage(gate, admitted_view(admitted)),
{
    if let Gate::Open = gate {
        return Ok(());
    }
    let grant = match admitted {
        Ok(grant) => grant,
        Err(denial) => return Err(Turned::Denied(denial)),
    };
    let scope = match gate {
        Gate::Open | Gate::Credential => return Ok(()),
        Gate::Read => "access:read",
        Gate::Write => "access:write",
    };
    match require_scope(&grant.scopes, scope) {
        Ok(_) => Ok(()),
        Err(required) => Err(Turned::Scope(required)),
    }
}

// ---------------------------------------------------------------------------
// Laws
// ---------------------------------------------------------------------------

/// Every path is declared, and declared once.
pub proof fn every_route_is_declared_once(route: Route)
    ensures
        Route::every().contains(route),
        Route::every().no_duplicates(),
{
    let all = Route::every();
    let at: int = match route {
        Route::Socket => 0,
        Route::Environment => 1,
        Route::Session => 2,
        Route::Shell => 3,
        Route::Thread => 4,
        Route::BrowserSession => 5,
        Route::Token => 6,
        Route::Ticket => 7,
        Route::PairingToken => 8,
        Route::PairingLinks => 9,
        Route::RevokePairingLink => 10,
        Route::Cloudflare => 11,
        Route::CloudflareTest => 12,
        Route::CloudflareForget => 13,
        Route::Challenge => 14,
        Route::SocketChallenge => 15,
        Route::Executables => 16,
        Route::Install => 17,
        Route::Account => 18,
        Route::Login => 19,
        Route::CancelLogin => 20,
        Route::Consent => 21,
        Route::Tunnels => 22,
        Route::Select => 23,
        Route::Adopt => 24,
        Route::Create => 25,
        Route::Deletion => 26,
        Route::Delete => 27,
        Route::Connector => 28,
        Route::Configure => 29,
        Route::Start => 30,
        Route::Stop => 31,
        Route::Retry => 32,
        Route::Asset => 33,
        Route::Mcp => 34,
    };
    assert(all[at] == route);
}

/// A post to the tunnel's own paths changes something, and asks for the scope to
/// write; a read of them asks for the scope to read. The two challenges are
/// answered by whoever holds the challenge.
pub proof fn exposure_asks_for_its_scope(route: Route)
    requires
        is_exposure(route),
    ensures
        route.posts() matches Some(handler) ==> handler.asks() == Gate::Write,
        route.reads() matches Some(handler) ==> handler.asks() == if route == Route::Challenge
            || route == Route::SocketChallenge {
            Gate::Open
        } else {
            Gate::Read
        },
{
}

/// Whether a path is one of the tunnel's own.
pub open spec fn is_exposure(route: Route) -> bool {
    match route {
        Route::Cloudflare
        | Route::CloudflareTest
        | Route::CloudflareForget
        | Route::Challenge
        | Route::SocketChallenge
        | Route::Executables
        | Route::Install
        | Route::Account
        | Route::Login
        | Route::CancelLogin
        | Route::Consent
        | Route::Tunnels
        | Route::Select
        | Route::Adopt
        | Route::Create
        | Route::Deletion
        | Route::Delete
        | Route::Connector
        | Route::Configure
        | Route::Start
        | Route::Stop
        | Route::Retry => true,
        _ => false,
    }
}

/// The socket, the files and the tunnel's own paths are not for a page of another
/// origin, and a browser is told so before it asks.
pub proof fn the_socket_is_not_for_other_origins(route: Route)
    requires
        is_exposure(route) || route == Route::Socket || route == Route::Asset || route == Route::Mcp,
    ensures
        !route.readable_across_origins(),
        answer_to(Some(route), Verb::Options) == Answer::MethodNotAllowed,
{
}

/// Attaching files to the server moves no answer: a path that the server declares
/// is never answered with a file.
pub proof fn a_route_wins_over_a_file(route: Route, verb: Verb)
    ensures
        answer_to(Some(route), verb) !is Asset,
        answer_to(Some(route), verb) !is NotFound,
{
}

/// A scope that a credential lacks is the only thing its holder learns: nothing
/// passes that did not verify, and nothing passes without the scope.
pub proof fn nothing_passes_without_its_scope(gate: Gate, admitted: Result<Seq<Text>, Denial<Text>>)
    requires
        gate != Gate::Open,
    ensures
        passage(gate, admitted) is Ok <==> admitted is Ok && (scope_of(gate) matches Some(scope) ==> admitted->Ok_0.contains(
            scope,
        )),
{
}

/// Where each handler is at home: the path it is declared under, and the method
/// that reaches it.
pub open spec fn home(handler: Handler) -> (Text, Verb) {
    match handler {
        Handler::Upgrade => ("/ws"@, Verb::Get),
        Handler::EnvironmentDescriptor => ("/.well-known/t3/environment"@, Verb::Get),
        Handler::AuthSession => ("/api/auth/session"@, Verb::Get),
        Handler::ShellSnapshot => ("/api/orchestration/shell"@, Verb::Get),
        Handler::ThreadSnapshot => ("/api/orchestration/threads/{threadId}"@, Verb::Get),
        Handler::BrowserSession => ("/api/auth/browser-session"@, Verb::Post),
        Handler::TokenExchange => ("/oauth/token"@, Verb::Post),
        Handler::WebsocketTicket => ("/api/auth/websocket-ticket"@, Verb::Post),
        Handler::PairingCredential => ("/api/auth/pairing-token"@, Verb::Post),
        Handler::PairingLinks => ("/api/auth/pairing-links"@, Verb::Get),
        Handler::RevokePairingLink => ("/api/auth/pairing-links/revoke"@, Verb::Post),
        Handler::ExternalTunnelStatus => ("/api/access/cloudflare"@, Verb::Get),
        Handler::RegisterExternalTunnel => ("/api/access/cloudflare"@, Verb::Post),
        Handler::TestExternalTunnel => ("/api/access/cloudflare/test"@, Verb::Post),
        Handler::ForgetExternalTunnel => ("/api/access/cloudflare/forget"@, Verb::Post),
        Handler::DiagnosticHttpChallenge => ("/api/access/cloudflare/challenge"@, Verb::Get),
        Handler::DiagnosticWsChallenge => ("/api/access/cloudflare/challenge/ws"@, Verb::Get),
        Handler::CloudflareExecutables => ("/api/access/cloudflare/executables"@, Verb::Get),
        Handler::CloudflareInstallState => ("/api/access/cloudflare/install"@, Verb::Get),
        Handler::InstallCloudflared => ("/api/access/cloudflare/install"@, Verb::Post),
        Handler::CloudflareAccountState => ("/api/access/cloudflare/account"@, Verb::Get),
        Handler::BeginCloudflareLogin => ("/api/access/cloudflare/account/login"@, Verb::Post),
        Handler::CancelCloudflareLogin => ("/api/access/cloudflare/account/login/cancel"@, Verb::Post),
        Handler::ConsentToCloudflareCertificate => ("/api/access/cloudflare/account/consent"@, Verb::Post),
        Handler::ListCloudflareTunnels => ("/api/access/cloudflare/account/tunnels"@, Verb::Post),
        Handler::SelectCloudflareTunnel => ("/api/access/cloudflare/account/select"@, Verb::Post),
        Handler::AdoptCloudflareTunnel => ("/api/access/cloudflare/account/adopt"@, Verb::Post),
        Handler::CreateCloudflareTunnel => ("/api/access/cloudflare/account/create"@, Verb::Post),
        Handler::OfferCloudflareDeletion => ("/api/access/cloudflare/account/deletion"@, Verb::Post),
        Handler::DeleteCloudflareTunnel => ("/api/access/cloudflare/account/delete"@, Verb::Post),
        Handler::CloudflareConnectorStatus => ("/api/access/cloudflare/connector"@, Verb::Get),
        Handler::ConfigureCloudflareConnector => ("/api/access/cloudflare/connector/configure"@, Verb::Post),
        Handler::StartCloudflareConnector => ("/api/access/cloudflare/connector/start"@, Verb::Post),
        Handler::StopCloudflareConnector => ("/api/access/cloudflare/connector/stop"@, Verb::Post),
        Handler::RetryCloudflareConnector => ("/api/access/cloudflare/connector/retry"@, Verb::Post),
        Handler::ProjectAsset => ("/api/assets/{token}/{name}"@, Verb::Get),
        Handler::McpGet => ("/mcp/{sessionId}"@, Verb::Get),
        Handler::McpPost => ("/mcp/{sessionId}"@, Verb::Post),
    }
}

/// Each request is answered by the handler that is at home at its path and under
/// its method, and a request for the head alone by the one that reads.
pub proof fn a_request_is_answered_at_home(route: Route, verb: Verb)
    ensures
        answer_to(Some(route), verb) matches Answer::By(handler) ==> home(handler) == (
            route.pattern(),
            if verb is Head { Verb::Get } else { verb },
        ),
        answer_to(Some(route), Verb::Head) == answer_to(Some(route), Verb::Get),
        verb is Other ==> answer_to(Some(route), verb) is MethodNotAllowed,
        verb is Options ==> answer_to(Some(route), verb) is Preflight || answer_to(Some(route), verb) is MethodNotAllowed,
        answer_to(None, verb) is Asset <==> verb is Get || verb is Head,
        answer_to(None, verb) is NotFound <==> !(verb is Get) && !(verb is Head),
{
}

/// The route that a handler is declared for.
pub open spec fn route_home(handler: Handler) -> Route {
    match handler {
        Handler::Upgrade => Route::Socket,
        Handler::EnvironmentDescriptor => Route::Environment,
        Handler::AuthSession => Route::Session,
        Handler::ShellSnapshot => Route::Shell,
        Handler::ThreadSnapshot => Route::Thread,
        Handler::BrowserSession => Route::BrowserSession,
        Handler::TokenExchange => Route::Token,
        Handler::WebsocketTicket => Route::Ticket,
        Handler::PairingCredential => Route::PairingToken,
        Handler::PairingLinks => Route::PairingLinks,
        Handler::RevokePairingLink => Route::RevokePairingLink,
        Handler::ExternalTunnelStatus => Route::Cloudflare,
        Handler::RegisterExternalTunnel => Route::Cloudflare,
        Handler::TestExternalTunnel => Route::CloudflareTest,
        Handler::ForgetExternalTunnel => Route::CloudflareForget,
        Handler::DiagnosticHttpChallenge => Route::Challenge,
        Handler::DiagnosticWsChallenge => Route::SocketChallenge,
        Handler::CloudflareExecutables => Route::Executables,
        Handler::CloudflareInstallState => Route::Install,
        Handler::InstallCloudflared => Route::Install,
        Handler::CloudflareAccountState => Route::Account,
        Handler::BeginCloudflareLogin => Route::Login,
        Handler::CancelCloudflareLogin => Route::CancelLogin,
        Handler::ConsentToCloudflareCertificate => Route::Consent,
        Handler::ListCloudflareTunnels => Route::Tunnels,
        Handler::SelectCloudflareTunnel => Route::Select,
        Handler::AdoptCloudflareTunnel => Route::Adopt,
        Handler::CreateCloudflareTunnel => Route::Create,
        Handler::OfferCloudflareDeletion => Route::Deletion,
        Handler::DeleteCloudflareTunnel => Route::Delete,
        Handler::CloudflareConnectorStatus => Route::Connector,
        Handler::ConfigureCloudflareConnector => Route::Configure,
        Handler::StartCloudflareConnector => Route::Start,
        Handler::StopCloudflareConnector => Route::Stop,
        Handler::RetryCloudflareConnector => Route::Retry,
        Handler::ProjectAsset => Route::Asset,
        Handler::McpGet => Route::Mcp,
        Handler::McpPost => Route::Mcp,
    }
}

/// Every handler is reached: by a request for its path, under its method.
pub proof fn every_handler_is_reached(handler: Handler)
    ensures
        exists|route: Route| #[trigger]
            route.pattern() == home(handler).0 && answer_to(Some(route), home(handler).1) == Answer::By(handler),
{
    let route = route_home(handler);
    assert(route.pattern() == home(handler).0 && answer_to(Some(route), home(handler).1) == Answer::By(handler));
}

/// A page of another origin may ask for who this is, for a session and what it
/// opens, and for the two snapshots, and for nothing else.
pub proof fn other_origins_read_what_opens_a_session(handler: Handler)
    ensures
        answer_to(Some(route_home(handler)), Verb::Options) is Preflight <==> handler is EnvironmentDescriptor
            || handler is AuthSession || handler is ShellSnapshot || handler is ThreadSnapshot || handler is BrowserSession
            || handler is TokenExchange || handler is WebsocketTicket,
{
}

/// What a request has to bring. What opens a session, or carries a token of its own
/// in its path or its header, is open; the rest asks for a credential. Reading what
/// is exposed asks moreover for one scope, and changing it for another.
pub proof fn a_handler_asks_for_what_it_gives(handler: Handler)
    ensures
        handler.asks() is Open <==> handler is EnvironmentDescriptor || handler is AuthSession || handler is BrowserSession
            || handler is TokenExchange || handler is DiagnosticHttpChallenge || handler is DiagnosticWsChallenge
            || handler is ProjectAsset || handler is McpGet || handler is McpPost,
        handler.asks() is Credential <==> handler is Upgrade || handler is ShellSnapshot || handler is ThreadSnapshot
            || handler is WebsocketTicket || handler is PairingCredential || handler is PairingLinks
            || handler is RevokePairingLink,
        handler.asks() is Read ==> home(handler).1 is Get,
        handler.asks() is Write ==> home(handler).1 is Post,
        scope_of(Gate::Read) == Some("access:read"@),
        scope_of(Gate::Write) == Some("access:write"@),
        scope_of(Gate::Open) is None,
        scope_of(Gate::Credential) is None,
{
}

/// Whoever is turned away is told why: by the denial of their credential, or by the
/// scope that it lacks. An open door turns nobody away.
pub proof fn whoever_is_turned_away_is_told_why(gate: Gate, admitted: Result<Seq<Text>, Denial<Text>>)
    ensures
        gate is Open ==> passage(gate, admitted) is Ok,
        !(gate is Open) ==> (admitted matches Err(denial) ==> passage(gate, admitted) == Err::<
            (),
            Turned<Denial<Text>, Text>,
        >(Turned::Denied(denial))),
        admitted matches Ok(scopes) ==> {
            &&& gate is Credential ==> passage(gate, admitted) is Ok
            &&& gate is Read && !scopes.contains("access:read"@) ==> passage(gate, admitted) == Err::<
                (),
                Turned<Denial<Text>, Text>,
            >(Turned::Scope("access:read"@))
            &&& gate is Write && !scopes.contains("access:write"@) ==> passage(gate, admitted) == Err::<
                (),
                Turned<Denial<Text>, Text>,
            >(Turned::Scope("access:write"@))
        },
{
}

} // verus!
