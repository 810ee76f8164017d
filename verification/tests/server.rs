//! The server: where it is reached, how it starts, and what its requests and
//! frames are answered.

use laplus::access::Challenges;
use laplus::access::Credential;
use laplus::access::Denial;
use laplus::access::DiagnosticChallenge;
use laplus::access::Grant;
use laplus::access::SessionMethod;
use laplus::json::Json;
use laplus::public_exposure::verification::VerificationFailure;
use laplus::public_exposure::MutationStep;
use laplus::public_exposure::Refusal;
use laplus::public_exposure::RefusalReason;
use laplus::public_exposure::TunnelOwnership;
use laplus::remote_access::Exposure;
use laplus::remote_access::RemoteAccess;
use laplus::rpc::Additions;
use laplus::rpc::Answered;
use laplus::server::background_delay;
use laplus::server::checking;
use laplus::server::checking::Check;
use laplus::server::checking::Shared;
use laplus::server::checking::Tested;
use laplus::server::connection::after_send;
use laplus::server::connection::answered;
use laplus::server::connection::finished;
use laplus::server::connection::flow;
use laplus::server::connection::handle;
use laplus::server::connection::interrupted;
use laplus::server::connection::Answer;
use laplus::server::connection::ClientMessage;
use laplus::server::connection::Flow;
use laplus::server::connection::Incoming;
use laplus::server::connection::Reaction;
use laplus::server::connection::ServerMessage;
use laplus::server::connection::ServerState;
use laplus::server::exposure;
use laplus::server::exposure::Outcome;
use laplus::server::exposure::RegisterRequest;
use laplus::server::requests;
use laplus::server::requests::McpAnswer;
use laplus::server::routes;
use laplus::server::routes::Handler;
use laplus::server::routes::Route;
use laplus::server::routes::Verb;
use laplus::server::shutdown_order;
use laplus::server::Action;
use laplus::server::Event;
use laplus::server::Server;
use laplus::server::SocketAddr;
use laplus::server::Starting;
use laplus::server::StartupFailure;
use laplus::server::Stopping;
use laplus::tunnels::adoption::Selection;
use laplus::tunnels::report::external_tunnel_snapshot;
use laplus::tunnels::report::UnfinishedCreation;
use laplus::tunnels::report::Verified;
use laplus::tunnels::DeletionConfirmation;
use laplus::tunnels::Endpoint;
use laplus::tunnels::DELETION_CONFIRMATION_TTL;

/// A JSON document, as the library holds one.
fn json(document: &str) -> Json {
    read(&serde_json::from_str(document).expect("a document"))
}

fn read(value: &serde_json::Value) -> Json {
    match value {
        serde_json::Value::Null => Json::Null,
        serde_json::Value::Bool(b) => Json::Bool(*b),
        serde_json::Value::Number(n) => match n.as_u64() {
            Some(n) => Json::Whole(n),
            None => Json::Number(n.to_string()),
        },
        serde_json::Value::String(s) => Json::Text(s.clone()),
        serde_json::Value::Array(items) => Json::Array(items.iter().map(read).collect()),
        serde_json::Value::Object(fields) => {
            let mut fields: Vec<(String, Json)> =
                fields.iter().map(|(name, value)| (name.clone(), read(value))).collect();
            fields.sort_by(|a, b| a.0.cmp(&b.0));
            Json::Object(fields)
        }
    }
}

/// What a value has under a name.
fn at<'a>(value: &'a Json, name: &str) -> Option<&'a Json> {
    value.as_object().and_then(|fields| fields.iter().find(|field| field.0 == name)).map(|field| &field.1)
}

fn text_at<'a>(value: &'a Json, name: &str) -> &'a str {
    at(value, name).and_then(|value| value.as_text()).expect("a text")
}

#[test]
fn a_wildcard_bind_is_reported_to_this_machine_as_loopback() {
    let wildcard = SocketAddr { ip: [0, 0, 0, 0], port: 4773 };
    assert_eq!(Server::reachable_from(wildcard), SocketAddr { ip: [127, 0, 0, 1], port: 4773 });

    let overridden = SocketAddr { ip: [0, 0, 0, 0], port: 4774 };
    assert_eq!(Server::reachable_from(overridden).port, 4774);
}

#[test]
fn an_address_that_is_not_a_wildcard_is_reported_as_it_is() {
    for bound in [
        SocketAddr { ip: [127, 0, 0, 1], port: 4773 },
        SocketAddr { ip: [192, 168, 10, 45], port: 4773 },
    ] {
        assert_eq!(Server::reachable_from(bound), bound);
    }
}

#[test]
fn a_deletion_confirmation_stops_being_spendable_at_its_deadline() {
    let second: u64 = 1_000_000_000;
    let minted_at: u64 = 17 * second;
    let held = DeletionConfirmation {
        tunnel_id: "22222222-2222-2222-2222-222222222222".to_owned(),
        dns_record_name: Some("laplus.example.com".to_owned()),
        https_origin: "https://laplus.example.com".to_owned(),
        minted_at,
    };
    assert!(held.spendable_at(minted_at), "minted and already expired");
    assert!(
        held.spendable_at(minted_at + DELETION_CONFIRMATION_TTL - second),
        "a confirmation expired a second before its deadline"
    );
    assert!(!held.spendable_at(minted_at + DELETION_CONFIRMATION_TTL));
    assert!(!held.spendable_at(minted_at + DELETION_CONFIRMATION_TTL * 2));
}

#[test]
fn the_urls_name_an_address_that_can_be_reached() {
    let server = Server {
        local_addr: SocketAddr { ip: [0, 0, 0, 0], port: 4773 },
        boot_credential: Some("k7m2".to_owned()),
        remote_access: RemoteAccess::none(),
    };
    assert_eq!(server.local_addr().to_text(), "0.0.0.0:4773");
    assert_eq!(server.ws_url(), "ws://127.0.0.1:4773/ws");
    assert_eq!(server.http_url(), "http://127.0.0.1:4773/");
    assert_eq!(server.window_url().as_deref(), Some("http://127.0.0.1:4773/#token=k7m2"));
    assert_eq!(server.url_for("pc.local"), "http://pc.local:4773/");
    assert_eq!(server.pairing_url_for("pc.local").as_deref(), Some("http://pc.local:4773/#token=k7m2"));
    assert_eq!(server.boot_credential(), Some("k7m2"));
    assert_eq!(server.remote_access(), RemoteAccess::none());

    let unarmed = Server { boot_credential: None, ..server };
    assert_eq!(unarmed.window_url(), None);
    assert_eq!(unarmed.pairing_url_for("pc.local"), None);
}

#[test]
fn a_start_survives_everything_but_its_listener() {
    let access = RemoteAccess::none().with_exposure(Exposure::NetworkAccessible);
    let (mut starting, first) = Starting::begin(4773, access);
    assert_eq!(first, Action::AskName);
    let turn = starting.step(&Event::Name(Err("locked".to_owned())));
    assert_eq!(
        turn.complaint.as_deref(),
        Some("cannot read this environment's durable name, using a temporary one for this run: locked")
    );
    let turn = starting.step(&Event::Connector(Some("https://a.example.com".to_owned())));
    assert_eq!(turn.action, Action::RestoreEndpoint("https://a.example.com".to_owned()));
    let turn = starting.step(&Event::Restored(Err("locked".to_owned())));
    assert_eq!(turn.complaint.as_deref(), Some("cannot restore managed public endpoint: locked"));
    assert_eq!(turn.action, Action::MintGrant);
    let turn = starting.step(&Event::Minted(Err("locked".to_owned())));
    assert_eq!(turn.action, Action::Listen(SocketAddr { ip: [0, 0, 0, 0], port: 4773 }));
    let turn = starting.step(&Event::Listening(Ok(SocketAddr { ip: [0, 0, 0, 0], port: 4773 })));
    assert_eq!(turn.action, Action::Serve("http://127.0.0.1:4773".to_owned()));
    let turn = starting.step(&Event::Serving { desired: Some("running".to_owned()) });
    match turn.action {
        Action::Running { server, verify } => {
            assert!(verify);
            assert_eq!(server.window_url(), None);
        }
        other => panic!("{other:?}"),
    }

    let (mut starting, _) = Starting::begin(80, RemoteAccess::none());
    starting.step(&Event::Name(Ok("pc".to_owned())));
    starting.step(&Event::Connector(None));
    starting.step(&Event::Minted(Ok("k7m2".to_owned())));
    match starting.step(&Event::Listening(Err("permission denied".to_owned()))).action {
        Action::Failed(failure) => {
            assert_eq!(failure.sentence(), "cannot listen on 127.0.0.1:80: permission denied")
        }
        other => panic!("{other:?}"),
    }
    assert_eq!(StartupFailure::Database("locked".to_owned()).sentence(), "locked");
}

#[test]
fn the_transcripts_are_written_last() {
    let order = shutdown_order();
    assert_eq!(order.len(), 7);
    assert_eq!(order.last(), Some(&Stopping::Transcripts));
    assert_eq!(order[0], Stopping::Sockets);
    let second: u128 = 1_000_000_000;
    assert_eq!(background_delay(7, None), 30 * second);
    assert_eq!(background_delay(30 * second, Some(true)), 300 * second);
    assert_eq!(background_delay(30 * second, Some(false)), 60 * second);
}

// ---------------------------------------------------------------------------
// Frames
// ---------------------------------------------------------------------------

fn additions() -> Additions<String> {
    Additions { usage_summary: "usage.summary".to_owned(), subscribe_subagent: "subscribeSubagent".to_owned() }
}

fn grant(scopes: &[&str]) -> Grant<String, Vec<String>> {
    Grant {
        subject: "window".to_owned(),
        scopes: scopes.iter().map(|scope| scope.to_string()).collect(),
        label: None,
    }
}

/// A frame as the socket's own reader takes it apart.
fn frame(text: &str) -> Option<ClientMessage<String, Json>> {
    let message = read(&serde_json::from_str(text).ok()?);
    let named = |name: &str| at(&message, name).and_then(|value| value.as_text()).map(str::to_owned);
    Some(match named("_tag").as_deref() {
        Some("Request") => ClientMessage::Request {
            id: named("id")?,
            tag: named("tag")?,
            payload: at(&message, "payload")?.copy(),
        },
        Some("Ping") => ClientMessage::Ping,
        Some("Ack") => ClientMessage::Ack { request_id: named("requestId")? },
        Some("Interrupt") => ClientMessage::Interrupt { request_id: named("requestId")? },
        _ => ClientMessage::Unrecognized,
    })
}

fn feed(state: &mut ServerState, text: &str) -> Reaction<String, Json> {
    handle(state, &additions(), &grant(&[]), frame(text))
}

fn sent(reaction: Reaction<String, Json>) -> Json {
    match reaction {
        Reaction::Send(message) => message.to_value(),
        other => panic!("{other:?} sends nothing"),
    }
}

#[test]
fn a_request_for_an_implemented_method_is_answered_with_a_success_exit() {
    let mut state = ServerState::new();
    let reaction = feed(
        &mut state,
        r#"{"_tag":"Request","id":"7","tag":"server.getConfig","payload":{},"headers":[]}"#,
    );
    let id = match reaction {
        Reaction::Call { id, route, .. } => {
            assert_eq!(route.answered, Answered::Value);
            id
        }
        other => panic!("{other:?}"),
    };
    let value = json(r#"{"environment": "pc"}"#);
    assert_eq!(
        sent(answered(id, Ok(Answer::Value(value)))),
        json(r#"{"_tag": "Exit", "requestId": "7", "exit": {"_tag": "Success", "value": {"environment": "pc"}}}"#)
    );
}

#[test]
fn ping_is_answered_with_pong() {
    let mut state = ServerState::new();
    assert_eq!(sent(feed(&mut state, r#"{"_tag":"Ping"}"#)), json(r#"{"_tag": "Pong"}"#));
}

#[test]
fn ack_and_interrupt_for_nothing_are_accepted_silently() {
    let mut state = ServerState::new();
    assert_eq!(
        feed(&mut state, r#"{"_tag":"Ack","requestId":"1"}"#),
        Reaction::Acknowledge("1".to_owned())
    );
    assert_eq!(
        feed(&mut state, r#"{"_tag":"Interrupt","requestId":"1"}"#),
        Reaction::Interrupt("1".to_owned())
    );
    assert_eq!(interrupted(&mut state, "1".to_owned(), false), Reaction::Nothing);
    assert_eq!(state.unrecognized_messages(), 0);
    assert_eq!(state.unparseable_frames(), 0);
}

#[test]
fn a_subscription_request_is_registered_rather_than_answered() {
    let mut state = ServerState::new();
    let reaction = feed(
        &mut state,
        r#"{"_tag":"Request","id":"3","tag":"subscribeServerConfig","payload":{},"headers":[]}"#,
    );
    match reaction {
        Reaction::Call { id, route, .. } => {
            assert_eq!(route.answered, Answered::Stream);
            assert_eq!(answered(id, Ok(Answer::Stream)), Reaction::Stream("3".to_owned()));
        }
        other => panic!("{other:?}"),
    }

    assert_eq!(
        feed(&mut state, r#"{"_tag":"Interrupt","requestId":"3"}"#),
        Reaction::Interrupt("3".to_owned())
    );
    let exit = sent(interrupted(&mut state, "3".to_owned(), true));
    assert_eq!(text_at(&exit, "_tag"), "Exit");
    assert_eq!(text_at(&exit, "requestId"), "3");
    let ended = at(&exit, "exit").expect("an exit");
    assert_eq!(text_at(ended, "_tag"), "Failure");
    let cause = &at(ended, "cause").and_then(|cause| cause.as_array()).expect("causes")[0];
    assert_eq!(text_at(cause, "_tag"), "Interrupt");
    assert!(matches!(at(cause, "fiberId"), Some(Json::Whole(_))));

    assert_eq!(
        interrupted(&mut state, "3".to_owned(), false),
        Reaction::Nothing,
        "a second cancellation must not put a second exit on the same id"
    );
}

#[test]
fn a_deferred_request_is_answered_by_its_own_task_rather_than_inline() {
    let mut state = ServerState::new();
    let reaction = feed(
        &mut state,
        r#"{"_tag":"Request","id":"9","tag":"projects.listEntries","payload":{"cwd":"/tmp/x"},"headers":[]}"#,
    );
    match reaction {
        Reaction::Call { id, route, payload } => {
            assert_eq!(route.answered, Answered::Deferred);
            assert_eq!(payload, json(r#"{"cwd": "/tmp/x"}"#));
            assert_eq!(answered(id, Ok(Answer::Deferred)), Reaction::Defer("9".to_owned()));
        }
        other => panic!("{other:?}"),
    }

    let answer = finished("9".to_owned(), Ok(json(r#"{"entries": []}"#))).to_value();
    assert_eq!(text_at(&answer, "_tag"), "Exit");
    assert_eq!(text_at(&answer, "requestId"), "9");
    let ended = at(&answer, "exit").expect("an exit");
    assert_eq!(text_at(ended, "_tag"), "Success");
    assert_eq!(at(ended, "value"), Some(&json(r#"{"entries": []}"#)));

    let failed = finished("9".to_owned(), Err(json(r#"{"_tag": "X"}"#)));
    assert_eq!(failed, ServerMessage::failure("9".to_owned(), json(r#"{"_tag": "X"}"#)));
}

#[test]
fn an_unrecognised_frame_is_counted_rather_than_answered() {
    let mut state = ServerState::new();
    assert_eq!(feed(&mut state, r#"{"_tag":"Eof","requestId":"0"}"#), Reaction::Nothing);
    assert_eq!(state.unrecognized_messages(), 1);
    assert_eq!(state.unparseable_frames(), 0);
}

#[test]
fn a_malformed_frame_is_counted_rather_than_answered() {
    let mut state = ServerState::new();
    assert_eq!(feed(&mut state, "{not json"), Reaction::Nothing);
    assert_eq!(state.unparseable_frames(), 1);
    assert_eq!(state.unrecognized_messages(), 0);
}

#[test]
fn an_unimplemented_method_fails_only_its_own_request() {
    let mut state = ServerState::new();
    let reply = sent(feed(
        &mut state,
        r#"{"_tag":"Request","id":"1","tag":"no.such.method","payload":{},"headers":[]}"#,
    ));

    assert_eq!(
        reply,
        json(
            r#"{
                "_tag": "Exit",
                "requestId": "1",
                "exit": {
                    "_tag": "Failure",
                    "cause": [{
                        "_tag": "Fail",
                        "error": {
                            "_tag": "ServerMethodNotImplementedError",
                            "method": "no.such.method",
                            "message": "Method not implemented by this server: no.such.method"
                        }
                    }]
                }
            }"#
        )
    );
}

#[test]
fn each_cancellation_names_a_distinct_fiber() {
    let mut state = ServerState::new();
    let mut seen = Vec::new();
    for id in ["0", "1"] {
        let exit = sent(interrupted(&mut state, id.to_owned(), true));
        let ended = at(&exit, "exit").expect("an exit");
        let causes = at(ended, "cause").and_then(|cause| cause.as_array()).expect("causes");
        seen.push(at(&causes[0], "fiberId").expect("a fiber").copy());
    }
    assert_ne!(seen[0], seen[1]);
}

#[test]
fn a_connection_is_counted_while_it_is_open() {
    let mut state = ServerState::new();
    state.opened();
    state.opened();
    assert_eq!(state.live_connections(), 2);
    state.closed();
    assert_eq!(state.live_connections(), 1);
    assert_eq!(flow(Incoming::Text), Flow::Handle);
    assert_eq!(flow(Incoming::Binary), Flow::Continue);
    assert_eq!(flow(Incoming::Control), Flow::Continue);
    for end in [Incoming::Shutdown, Incoming::Close, Incoming::Gone] {
        assert_eq!(flow(end), Flow::Break);
    }
    assert_eq!(after_send(true), Flow::Continue);
    assert_eq!(after_send(false), Flow::Break);
}

// ---------------------------------------------------------------------------
// Requests
// ---------------------------------------------------------------------------

#[test]
fn every_path_is_answered_by_its_own_handler() {
    let all = Route::all();
    assert_eq!(all.len(), 35);
    let cross: Vec<&str> = all.iter().filter(|route| route.cross_origin()).map(|route| route.path()).collect();
    assert_eq!(
        cross,
        [
            "/.well-known/t3/environment",
            "/api/auth/session",
            "/api/orchestration/shell",
            "/api/orchestration/threads/{threadId}",
            "/api/auth/browser-session",
            "/oauth/token",
            "/api/auth/websocket-ticket",
        ]
    );
    assert_eq!(routes::answer(Some(Route::Socket), Verb::Get), routes::Answer::By(Handler::Upgrade));
    assert_eq!(routes::answer(Some(Route::Shell), Verb::Options), routes::Answer::Preflight);
    assert_eq!(routes::answer(Some(Route::Socket), Verb::Options), routes::Answer::MethodNotAllowed);
    assert_eq!(routes::answer(Some(Route::Token), Verb::Get), routes::Answer::MethodNotAllowed);
    assert_eq!(routes::answer(Some(Route::Install), Verb::Post), routes::Answer::By(Handler::InstallCloudflared));
    assert_eq!(routes::answer(None, Verb::Head), routes::Answer::Asset);
    assert_eq!(routes::answer(None, Verb::Post), routes::Answer::NotFound);
}

#[test]
fn a_gate_asks_for_its_scope() {
    let admitted = |scopes: &[&str]| Ok(grant(scopes));
    let gate = Handler::DeleteCloudflareTunnel.gate();
    assert_eq!(gate, routes::Gate::Write);
    assert_eq!(routes::passes(gate, admitted(&["access:write"])), Ok(()));
    match routes::passes(gate, admitted(&["access:read"])) {
        Err(routes::Turned::Scope(required)) => assert_eq!(
            required.to_value("trace-1"),
            json(
                r#"{
                    "_tag": "EnvironmentScopeRequiredError",
                    "code": "insufficient_scope",
                    "requiredScope": "access:write",
                    "traceId": "trace-1"
                }"#
            )
        ),
        other => panic!("{other:?}"),
    }
    let denied = || Err(Denial::MissingCredential { detail: "none".to_owned() });
    assert!(matches!(routes::passes(gate, denied()), Err(routes::Turned::Denied(_))));
    assert_eq!(routes::passes(Handler::AuthSession.gate(), denied()), Ok(()));
    assert_eq!(routes::passes(Handler::ShellSnapshot.gate(), admitted(&[])), Ok(()));
    assert_eq!(Handler::CloudflareExecutables.gate(), routes::Gate::Read);
}

#[test]
fn a_client_without_a_session_is_told_so() {
    assert_eq!(
        requests::auth_session(Ok((Credential::SessionCookie, grant(&["a"])))),
        requests::SessionState::Authenticated {
            scopes: vec!["a".to_owned()],
            method: Some(SessionMethod::Browser)
        }
    );
    assert_eq!(
        requests::auth_session(Err(Denial::MissingCredential { detail: "none".to_owned() })),
        requests::SessionState::Unauthenticated
    );
    assert_eq!(requests::thread_snapshot(true, Some(1)), requests::Shown::NotFound);
    assert_eq!(requests::thread_snapshot(false, Some(1)), requests::Shown::Snapshot(1));
    assert_eq!(requests::thread_snapshot::<u8>(false, None), requests::Shown::NotFound);
    assert_eq!(requests::project_asset(&Some(Some(1))), 200);
    assert_eq!(requests::project_asset::<u8>(&Some(None)), 404);
    assert_eq!(requests::project_asset::<u8>(&None), 500);
    assert_eq!(requests::PROJECT_ASSET_CACHING, "private, max-age=3600");
}

#[test]
fn a_challenge_is_answered_once() {
    let mut challenges = Challenges::new();
    challenges.pose("abc".to_owned(), DiagnosticChallenge::Http);
    let mut answers = |header: Option<&str>, expected| {
        requests::consume_diagnostic_challenge(&mut challenges, header, expected)
    };
    assert!(!answers(None, DiagnosticChallenge::Http));
    assert!(!answers(Some("abc"), DiagnosticChallenge::Http));
    assert!(!answers(Some("Bearer abc"), DiagnosticChallenge::WebSocket));
    assert!(answers(Some("Bearer abc"), DiagnosticChallenge::Http));
    assert!(!answers(Some("Bearer abc"), DiagnosticChallenge::Http));
    assert_eq!(requests::diagnostic_token(Some("Bearer x y")).as_deref(), Some("x y"));
}

#[test]
fn only_this_machine_calls_an_agents_tools() {
    let call = br#"{"method": "tools/list", "id": 1}"#;
    assert_eq!(requests::mcp_post(None, true, call), McpAnswer::Dispatch);
    for local in ["http://localhost:3000", "http://LocalHost", "http://127.0.0.1:8080", "https://127.9.9.9"] {
        assert_eq!(requests::mcp_post(Some(local), true, call), McpAnswer::Dispatch, "{local}");
    }
    for foreign in ["https://example.com", "null", "http://10.0.0.1", "http://[::1]", "http://127.0.0.1.example.com"] {
        assert_eq!(requests::mcp_post(Some(foreign), true, call), McpAnswer::Forbidden, "{foreign}");
    }
    assert_eq!(requests::mcp_post(None, false, call), McpAnswer::Unauthorized);
    assert_eq!(requests::mcp_post(None, true, b"{not json"), McpAnswer::BadRequest);
    assert_eq!(requests::mcp_post(None, true, br#"{"method": "x"}"#), McpAnswer::Accepted);
    assert_eq!(requests::mcp_post(None, true, br#"{"id": null}"#), McpAnswer::Accepted);
    assert_eq!(requests::mcp_decide(false, true, Some(true), Some(true)), McpAnswer::Dispatch);
}

// ---------------------------------------------------------------------------
// The public exposure
// ---------------------------------------------------------------------------

#[test]
fn a_refusal_is_answered_in_the_shape_a_client_decodes() {
    let refused = Refusal::rejected(RefusalReason::CleanupRequired, "The DNS record remains.")
        .after(&[MutationStep::TunnelDelete], &[MutationStep::DnsRecordDelete]);
    assert_eq!(refused.status(), 400);
    assert_eq!(
        refused.to_value("trace-1"),
        json(
            r#"{
                "_tag": "EnvironmentPublicExposureRejectedError",
                "code": "public_exposure_refused",
                "reason": "cleanup-required",
                "message": "The DNS record remains.",
                "completed": ["tunnel-delete"],
                "remaining": ["dns-record-delete"],
                "traceId": "trace-1"
            }"#
        )
    );
    let first = Refusal::precondition(RefusalReason::ConsentRequired, "Confirm first.");
    assert_eq!(first.status(), 409);
    assert_eq!(text_at(&first.to_value("t"), "_tag"), "EnvironmentPublicExposurePreconditionError");
}

#[test]
fn a_hostname_is_registered_only_where_nothing_is_owned() {
    let request = RegisterRequest { hostname: " Tunnel.Example.com ".to_owned() };
    assert_eq!(
        exposure::register_external_tunnel(false, Some(TunnelOwnership::External), &request),
        Ok("https://tunnel.example.com".to_owned())
    );
    let run = exposure::register_external_tunnel(true, None, &request).unwrap_err();
    assert_eq!(run.reason, RefusalReason::OwnershipConflict);
    let owned = exposure::register_external_tunnel(false, Some(TunnelOwnership::Adopted), &request).unwrap_err();
    assert!(owned.message.contains("adopted"));
    let local = RegisterRequest { hostname: "localhost".to_owned() };
    let invalid = exposure::register_external_tunnel(false, None, &local).unwrap_err();
    assert_eq!(invalid.reason, RefusalReason::HostnameInvalid);
    assert_eq!(invalid.status(), 400);
    assert!(exposure::register_url(false, None, None).is_err());
    assert!(exposure::claim(false, None).is_none());
}

#[test]
fn what_follows_a_command_is_decided_by_what_came_of_it() {
    let refusal = || Refusal::rejected(RefusalReason::CommandFailed, "token hush was refused");
    let origin = || "https://a.example.com".to_owned();
    assert_eq!(
        exposure::select_cloudflare_tunnel(Ok((exposure::Classification::External, origin()))),
        Outcome::Record(origin())
    );
    assert_eq!(
        exposure::select_cloudflare_tunnel(Ok((exposure::Classification::Adoptable, origin()))),
        Outcome::Report
    );
    assert_eq!(exposure::select_cloudflare_tunnel(Err(refusal())), Outcome::Refused(refusal()));
    match exposure::configure_cloudflare_connector(Err(refusal()), "hush") {
        Outcome::Refused(told) => assert_eq!(told.message, "token [REDACTED] was refused"),
        other => panic!("{other:?}"),
    }
    assert_eq!(exposure::configure_cloudflare_connector(Ok(Some(origin())), "hush"), Outcome::Record(origin()));
    assert_eq!(exposure::configure_cloudflare_connector(Ok(None), "hush"), Outcome::Verify);
    assert!(exposure::may_configure(Some(TunnelOwnership::LaplusCreated)).is_some());
    assert_eq!(exposure::mutate_cloudflare_connector(exposure::Wanted::Stop, Ok(())), Outcome::Report);
    assert_eq!(exposure::mutate_cloudflare_connector(exposure::Wanted::Retry, Ok(())), Outcome::Verify);
    assert_eq!(exposure::Wanted::Retry.desired(), (true, true));
    let moved = exposure::install_refused(&exposure::InstallRefusal::Conflict("2026.1 is gone".to_owned()));
    assert_eq!((moved.reason, moved.status()), (RefusalReason::ReleaseMoved, 409));
    let rejected = exposure::install_refused(&exposure::InstallRefusal::Rejected("no".to_owned()));
    assert_eq!((rejected.reason, rejected.status()), (RefusalReason::CommandFailed, 400));
}

fn verified(state: &str) -> Verified<String> {
    Verified {
        state: state.to_owned(),
        failure_kind: None,
        failure_message: None,
        last_attempt_at: None,
        last_verified_at: Some("2026-07-01T00:00:00Z".to_owned()),
    }
}

#[test]
fn the_connector_is_shown_with_what_is_recorded_of_it() {
    let shown = exposure::managed_connector_snapshot(
        json(r#"{"configured": true, "deletableAtCloudflare": true, "zone": 1}"#),
        &Some((TunnelOwnership::Adopted, verified("verified"))),
    );
    assert_eq!(
        shown,
        json(
            r#"{
                "configured": true,
                "deletableAtCloudflare": false,
                "failureKind": null,
                "lastVerifiedAt": "2026-07-01T00:00:00Z",
                "publicFailureMessage": null,
                "tunnelOwnership": "adopted",
                "verificationState": "verified",
                "zone": 1
            }"#
        )
    );
    let bare = exposure::managed_connector_snapshot(json("{}"), &None);
    assert_eq!(text_at(&bare, "tunnelOwnership"), "external");
    assert_eq!(text_at(&bare, "verificationState"), "unconfigured");
    assert_eq!(exposure::managed_connector_snapshot(Json::Null, &None), Json::Null);
}

#[test]
fn a_half_made_tunnel_is_shown_with_the_account() {
    let creation = UnfinishedCreation {
        name: Some("laplus".to_owned()),
        tunnel_id: None,
        hostname: None,
        completed: vec![],
        remaining: vec![MutationStep::TunnelCreate],
    };
    assert_eq!(
        exposure::cloudflare_account_snapshot(json(r#"{"signedIn": true}"#), &Some(creation)),
        json(
            r#"{
                "signedIn": true,
                "unfinishedCreation": {
                    "name": "laplus",
                    "tunnelId": null,
                    "hostname": null,
                    "completed": [],
                    "remaining": ["tunnel-create"]
                }
            }"#
        )
    );
    assert_eq!(
        exposure::cloudflare_account_snapshot(json("{}"), &None),
        json(r#"{"unfinishedCreation": null}"#)
    );
}

#[test]
fn only_a_verified_endpoint_is_advertised() {
    let endpoint = || Endpoint {
        https_origin: "https://a.example.com".to_owned(),
        ownership: TunnelOwnership::LaplusCreated,
        tunnel_id: None,
        dns_record_name: None,
    };
    let snapshot = external_tunnel_snapshot(Some((endpoint(), verified("verified"))), &None, true);
    let value = snapshot.to_value(Json::Null);
    assert_eq!(
        at(&value, "advertisedEndpoint"),
        Some(&json(
            r#"{
                "id": "cloudflare-external:https://a.example.com",
                "label": "Cloudflare Tunnel",
                "provider": {"id": "cloudflare", "label": "Cloudflare Tunnel", "kind": "tunnel", "isAddon": true},
                "httpBaseUrl": "https://a.example.com",
                "wsBaseUrl": "wss://a.example.com",
                "reachability": "public",
                "compatibility": {"hostedHttpsApp": "compatible", "desktopApp": "compatible"},
                "source": "user",
                "status": "available",
                "description": "Externally managed by your operator"
            }"#
        ))
    );
    assert_eq!(
        at(&value, "health"),
        Some(&json(r#"{"connector": "external", "https": "healthy", "webSocket": "healthy"}"#))
    );
    assert_eq!(at(&value, "deletableAtCloudflare"), Some(&Json::Bool(true)));
    let cleaned = external_tunnel_snapshot(Some((endpoint(), verified("verified"))), &None, false);
    assert_eq!(at(&cleaned.to_value(Json::Null), "advertisedEndpoint"), Some(&Json::Null));
    let none = external_tunnel_snapshot(None, &None, true);
    assert_eq!(text_at(&none.to_value(Json::Null), "verificationState"), "unconfigured");
}

#[test]
fn one_check_runs_at_a_time_and_leaves_nothing_behind() {
    let mut shared = Shared::new();
    let seen = shared.generation;
    assert_eq!(shared.enter(seen), checking::Entry::Check);
    assert_eq!(shared.enter(seen), checking::Entry::Wait);
    let (check, action) = Check::begin();
    assert_eq!(action, checking::Action::ReadEndpoint);
    let (check, action) =
        check.step(&mut shared, checking::Event::Endpoint(Some("https://a.example.com".to_owned())));
    assert_eq!(action, checking::Action::MintTokens);
    let (check, _) = check.step(
        &mut shared,
        checking::Event::Tokens { http_token: "h".to_owned(), ws_token: "w".to_owned() },
    );
    assert!(shared.challenges.open.contains("h") && shared.challenges.open.contains("w"));
    let (check, action) = check.step(&mut shared, checking::Event::Verdict(None));
    assert_eq!(
        action,
        checking::Action::Record {
            origin: "https://a.example.com".to_owned(),
            verified: false,
            failure_kind: Some("http".to_owned()),
            failure_message: Some("Public endpoint verification timed out.".to_owned()),
        }
    );
    assert_eq!(shared.challenges.open.len(), 0);
    assert_eq!(checking::test_external_tunnel(true, shared.running), Tested::StillRunning);
    let (_, action) = check.step(&mut shared, checking::Event::Recorded(Some(true)));
    assert_eq!(action, checking::Action::Done(false));
    assert!(!shared.running);
    assert_eq!(shared.generation, 1);
    assert_eq!(checking::test_external_tunnel(true, false), Tested::Report);
    assert_eq!(checking::test_external_tunnel(false, true), Tested::NotFound);
    assert_eq!(Tested::StillRunning.message(), Some("Verification is still running."));
    assert_eq!(shared.enter(seen), checking::Entry::Check);
    assert_eq!(shared.enter(seen), checking::Entry::Missed);
}

/// What a whole check ends with.
fn checked(verdict: Result<(), VerificationFailure>, recorded: Option<bool>) -> bool {
    let mut shared = Shared::new();
    shared.enter(0);
    let (check, _) = Check::begin();
    let (check, _) = check.step(&mut shared, checking::Event::Endpoint(Some("https://a".to_owned())));
    let (check, _) = check.step(
        &mut shared,
        checking::Event::Tokens { http_token: "h".to_owned(), ws_token: "w".to_owned() },
    );
    let (check, _) = check.step(&mut shared, checking::Event::Verdict(Some(verdict)));
    match check.step(&mut shared, checking::Event::Recorded(recorded)).1 {
        checking::Action::Done(succeeded) => succeeded,
        other => panic!("{other:?}"),
    }
}

#[test]
fn a_check_succeeds_only_where_it_is_recorded() {
    assert!(checked(Ok(()), Some(true)));
    assert!(!checked(Ok(()), Some(false)));
    assert!(!checked(Ok(()), None));
    assert!(!checked(Err(VerificationFailure { kind: "dns", message: "DNS lookup failed." }), Some(true)));
}

#[test]
fn a_deletion_is_offered_with_what_it_removes() {
    let offer = exposure::DeletionOffer {
        tunnel_id: "t-1".to_owned(),
        tunnel_name: None,
        https_origin: "https://a.example.com".to_owned(),
        dns_record_name: Some("a.example.com".to_owned()),
        confirmation: "yes".to_owned(),
    };
    let value = offer.to_value();
    assert_eq!(at(&value, "expiresInSeconds"), Some(&Json::Whole(300)));
    assert_eq!(at(&value, "tunnelName"), Some(&Json::Null));
    assert_eq!(
        at(&value, "steps"),
        Some(&json(r#"["dns-record-delete", "tunnel-delete", "configuration-remove", "credential-remove"]"#))
    );
    assert_eq!(exposure::unconfirmed_status(), 409);
    let refused = exposure::unconfirmed_value("trace-1");
    assert_eq!(text_at(&refused, "reason"), "confirmation-required");
    assert_eq!(text_at(&refused, "_tag"), "EnvironmentPublicExposurePreconditionError");
    assert_eq!(at(&refused, "completed"), Some(&Json::Array(vec![])));
}

#[test]
fn an_offer_names_the_tunnel_only_where_it_is_the_one_selected() {
    let selected = |tunnel_id: &str| {
        let selection = Selection {
            tunnel_id: tunnel_id.to_owned(),
            https_origin: "https://a.example.com".to_owned(),
            adoptable: true,
        };
        Some((selection, "laptop".to_owned()))
    };
    let offered = |selection| {
        let endpoint = Endpoint {
            https_origin: "https://a.example.com".to_owned(),
            ownership: TunnelOwnership::LaplusCreated,
            tunnel_id: Some("t-1".to_owned()),
            dns_record_name: Some("a.example.com".to_owned()),
        };
        exposure::offer_deletion("t-1".to_owned(), endpoint, selection, "yes".to_owned())
    };
    let named = offered(selected("t-1"));
    assert_eq!(named.tunnel_name.as_deref(), Some("laptop"));
    assert_eq!(named.tunnel_id, "t-1");
    assert_eq!(named.https_origin, "https://a.example.com");
    assert_eq!(named.dns_record_name.as_deref(), Some("a.example.com"));
    assert_eq!(named.confirmation, "yes");
    assert_eq!(offered(selected("t-2")).tunnel_name, None);
    assert_eq!(offered(None).tunnel_name, None);
}
