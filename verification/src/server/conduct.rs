//! What the server does for whoever connects to it, told by what came in and what
//! goes out.

use crate::access::DiagnosticChallenge;
use crate::json;
use crate::json::Value;
use crate::public_exposure;
use crate::public_exposure::verification::Failure;
use crate::public_exposure::{MutationStep, RefusalKind, RefusalReason, TunnelOwnership};
use crate::refusals;
use crate::rpc;
use crate::rpc::{Additions, DispatchError};
use crate::server;
use crate::server::checking;
use crate::server::checking::Check;
use crate::server::connection;
use crate::server::connection::{ClientMessage, Exit, Flow, Incoming, Reaction, ServerMessage, ServerState};
use crate::server::exposure;
use crate::server::exposure::{DeletionOffer, Wanted};
use crate::server::requests;
use crate::server::{ServerModel, SocketAddr, Starting};
use crate::text;
use crate::tunnels::adoption::Selection;
use crate::tunnels::report::{AdvertisedEndpoint, Health, Snapshot, UnfinishedCreation, Verified};
use crate::tunnels::Refused;
use crate::web::UrlParts;
use vstd::prelude::*;

verus! {

/// Text as the contracts see it.
pub type Text = Seq<char>;

// ---------------------------------------------------------------------------
// Frames
// ---------------------------------------------------------------------------

/// Each frame is answered as what it is: a ping by a pong, an acknowledgement and an
/// interruption by what they name, and a request by its own call, or by the refusal
/// that it gets.
pub proof fn a_frame_is_answered_as_what_it_is(
    additions: Additions<Text>,
    scopes: Seq<Text>,
    id: Text,
    tag: Text,
    payload: Value,
)
    ensures
        connection::reaction(additions, scopes, Some(ClientMessage::Ping)) == Reaction::<Text, Value>::Send(
            ServerMessage::Pong,
        ),
        connection::reaction(additions, scopes, Some(ClientMessage::Ack { request_id: id })) == Reaction::<
            Text,
            Value,
        >::Acknowledge(id),
        connection::reaction(additions, scopes, Some(ClientMessage::Interrupt { request_id: id })) == Reaction::<
            Text,
            Value,
        >::Interrupt(id),
        rpc::routed(additions, scopes, tag) matches Ok(route) ==> connection::reaction(
            additions,
            scopes,
            Some(ClientMessage::Request { id, tag, payload }),
        ) == (Reaction::<Text, Value>::Call { id, route, payload }),
        rpc::routed(additions, scopes, tag) matches Err(DispatchError::Declared(error)) ==> connection::reaction(
            additions,
            scopes,
            Some(ClientMessage::Request { id, tag, payload }),
        ) == Reaction::<Text, Value>::Send(ServerMessage::Exit { request_id: id, exit: Exit::Failed(error) }),
        rpc::routed(additions, scopes, tag) matches Err(DispatchError::UnknownMethod(named)) ==> connection::reaction(
            additions,
            scopes,
            Some(ClientMessage::Request { id, tag, payload }),
        ) == Reaction::<Text, Value>::Send(
            ServerMessage::Exit { request_id: id, exit: Exit::Failed(refusals::refused(named)) },
        ),
{
}

/// A frame that cannot be read and one of no known kind are each counted by one, and
/// apart.
pub proof fn stray_frames_are_counted_apart(state: ServerState, frame: ClientMessage<Text, Value>)
    requires
        state.unparseable_frames < usize::MAX,
        state.unrecognized_messages < usize::MAX,
    ensures
        ({
            let n = connection::counted(state, None);
            &&& n.unparseable_frames == state.unparseable_frames + 1
            &&& n.unrecognized_messages == state.unrecognized_messages
            &&& n.live_connections == state.live_connections && n.next_fiber == state.next_fiber
        }),
        ({
            let n = connection::counted(state, Some(ClientMessage::Unrecognized));
            &&& n.unrecognized_messages == state.unrecognized_messages + 1
            &&& n.unparseable_frames == state.unparseable_frames
            &&& n.live_connections == state.live_connections && n.next_fiber == state.next_fiber
        }),
        !(frame is Unrecognized) ==> connection::counted(state, Some(frame)) == state,
{
}

/// What a call gave is what is sent: a value as a success, a refusal as the failure
/// that it declares, and nothing yet for a stream or for work that answers for
/// itself.
pub proof fn what_a_call_gave_is_what_is_sent(id: Text, value: Value, tag: Text)
    ensures
        connection::after_call(id, Ok(connection::Answer::Value(value))) == Reaction::<Text, Value>::Send(
            ServerMessage::Exit { request_id: id, exit: Exit::Success(value) },
        ),
        connection::after_call(id, Ok(connection::Answer::Stream)) == Reaction::<Text, Value>::Stream(id),
        connection::after_call(id, Ok(connection::Answer::Deferred)) == Reaction::<Text, Value>::Defer(id),
        connection::after_call(id, Err(DispatchError::Declared(value))) == Reaction::<Text, Value>::Send(
            ServerMessage::Exit { request_id: id, exit: Exit::Failed(value) },
        ),
        connection::after_call(id, Err(DispatchError::UnknownMethod(tag))) == Reaction::<Text, Value>::Send(
            ServerMessage::Exit { request_id: id, exit: Exit::Failed(refusals::refused(tag)) },
        ),
{
}

/// On the wire an answer names its request and holds its own value; a failure and an
/// interruption are told apart by their cause.
pub proof fn an_answer_is_written_as_what_it_is(id: Text, value: Value, fiber: u64)
    ensures
        ({
            let written = (ServerMessage::<Text, Value>::Exit { request_id: id, exit: Exit::Success(value) }).written();
            &&& json::holds(written, "_tag"@, Value::Text("Exit"@))
            &&& json::holds(written, "requestId"@, Value::Text(id))
            &&& json::holds(written, "exit"@, Exit::Success(value).written())
        }),
        json::holds(Exit::Success(value).written(), "_tag"@, Value::Text("Success"@)),
        json::holds(Exit::Success(value).written(), "value"@, value),
        json::holds(Exit::Failed(value).written(), "_tag"@, Value::Text("Failure"@)),
        json::holds(Exit::<Value>::Interrupted(fiber).written(), "_tag"@, Value::Text("Failure"@)),
        ({
            let causes = Exit::Failed(value).written()->Object_0[1];
            &&& causes.0 == "cause"@
            &&& causes.1 is Array && causes.1->Array_0.len() == 1
            &&& json::holds(causes.1->Array_0[0], "_tag"@, Value::Text("Fail"@))
            &&& json::holds(causes.1->Array_0[0], "error"@, value)
        }),
        ({
            let causes = Exit::<Value>::Interrupted(fiber).written()->Object_0[1];
            &&& causes.0 == "cause"@
            &&& causes.1 is Array && causes.1->Array_0.len() == 1
            &&& json::holds(causes.1->Array_0[0], "_tag"@, Value::Text("Interrupt"@))
            &&& json::holds(causes.1->Array_0[0], "fiberId"@, Value::Whole(fiber))
        }),
        json::holds(ServerMessage::<Text, Value>::Pong.written(), "_tag"@, Value::Text("Pong"@)),
{
    let exit = (ServerMessage::<Text, Value>::Exit { request_id: id, exit: Exit::Success(value) }).written()->Object_0;
    assert(exit[0].0 == "_tag"@ && exit[1].0 == "exit"@ && exit[2].0 == "requestId"@);
    let success = Exit::Success(value).written()->Object_0;
    assert(success[0].0 == "_tag"@ && success[1].0 == "value"@);
    let failed = Exit::Failed(value).written()->Object_0;
    assert(failed[0].0 == "_tag"@ && failed[1].0 == "cause"@);
    let fail = failed[1].1->Array_0[0]->Object_0;
    assert(fail[0].0 == "_tag"@ && fail[1].0 == "error"@);
    let stopped = Exit::<Value>::Interrupted(fiber).written()->Object_0;
    assert(stopped[0].0 == "_tag"@ && stopped[1].0 == "cause"@);
    let interrupt = stopped[1].1->Array_0[0]->Object_0;
    assert(interrupt[0].0 == "_tag"@ && interrupt[1].0 == "fiberId"@);
    let pong = ServerMessage::<Text, Value>::Pong.written()->Object_0;
    assert(pong[0].0 == "_tag"@);
}

/// Text is handled, what is neither text nor an end is passed over, and an end ends.
/// A connection whose frames nobody takes ends too.
pub proof fn a_connection_goes_on_until_its_end(incoming: Incoming, queued: bool, flow: Flow, after: Flow)
    requires
        call_ensures(connection::flow, (incoming,), flow),
        call_ensures(connection::after_send, (queued,), after),
    ensures
        flow is Handle <==> incoming is Text,
        flow is Break <==> incoming is Shutdown || incoming is Close || incoming is Gone,
        after is Break <==> !queued,
        after is Continue <==> queued,
{
}

// ---------------------------------------------------------------------------
// Requests
// ---------------------------------------------------------------------------

/// A token is what follows the word `Bearer`, and nothing else is one.
pub proof fn a_token_follows_its_word(header: Text, token: Text)
    ensures
        requests::token_of(Some("Bearer "@ + token)) == Some(token),
        requests::token_of(Some(header)) matches Some(found) ==> header == "Bearer "@ + found,
        requests::token_of(None) is None,
{
    reveal_strlit("Bearer ");
    let whole = "Bearer "@ + token;
    assert(whole.take(7) =~= "Bearer "@);
    assert(whole.skip(7) =~= token);
    if requests::token_of(Some(header)) is Some {
        assert(header =~= header.take(7) + header.skip(7));
    }
}

/// An origin is this machine's where its host is, by name or by address.
pub proof fn an_origin_is_local_by_its_host(url: UrlParts<Text>)
    ensures
        requests::is_local(Some(url)) <==> url.host is Some && (text::ascii_lowered(url.host->0) == "localhost"@
            || text::is_loopback(url.host->0)),
        !requests::is_local(None),
{
}

/// A call of another machine's page is forbidden before anything else is looked at,
/// one without authority is turned away next, and one that is no document, or asks
/// for no answer, is not dispatched.
pub proof fn a_call_is_dispatched_only_where_it_may(
    foreign: bool,
    authorized: bool,
    has_method: Option<bool>,
    has_id: Option<bool>,
)
    ensures
        ({
            let answer = requests::mcp_answer(foreign, authorized, has_method, has_id);
            &&& answer is Forbidden <==> foreign
            &&& answer is Unauthorized <==> !foreign && !authorized
            &&& answer is BadRequest <==> !foreign && authorized && (has_method is None || has_id is None)
            &&& answer is Dispatch <==> !foreign && authorized && has_method == Some(true) && has_id == Some(true)
            &&& answer is Accepted <==> !foreign && authorized && has_method is Some && has_id is Some && !(has_method
                == Some(true) && has_id == Some(true))
        }),
{
}

/// An asset that is there is served, one that is not is not found, and one that
/// could not be looked for is the server's own failure.
pub proof fn an_asset_is_answered_by_what_was_found<T>(asset: T)
    ensures
        requests::asset_status(Some(Some(asset))) == 200,
        requests::asset_status(Some(None::<T>)) == 404,
        requests::asset_status(None::<Option<T>>) == 500,
{
}

/// A deleted thread is not shown, and neither is one that is not held.
pub proof fn a_deleted_thread_is_not_shown<T>(deleted: bool, held: Option<T>, shown: requests::Shown<T>)
    requires
        call_ensures(requests::thread_snapshot::<T>, (deleted, held), shown),
    ensures
        shown is NotFound <==> deleted || held is None,
        shown matches requests::Shown::Snapshot(snapshot) ==> held == Some(snapshot),
{
}

// ---------------------------------------------------------------------------
// Checks of the public endpoint
// ---------------------------------------------------------------------------

/// A check is of the endpoint that is recorded and with the two tokens that were
/// minted for it; what it found is recorded under that endpoint, and it succeeds
/// only where the endpoint passed and that was written down.
pub proof fn a_check_records_what_it_found(
    origin: Text,
    http_token: Text,
    ws_token: Text,
    failure: Failure,
    recorded: Option<bool>,
)
    ensures
        ({
            let read = Check::<Text>::Endpoint.step(checking::Event::Endpoint(Some(origin)));
            let missing = Check::<Text>::Endpoint.step(checking::Event::Endpoint(None));
            let minted = read.0.step(checking::Event::Tokens { http_token, ws_token });
            let passed = minted.0.step(checking::Event::Verdict(Some(Ok(()))));
            let failed = minted.0.step(checking::Event::Verdict(Some(Err(failure))));
            let late = minted.0.step(checking::Event::Verdict(None));
            &&& missing.1 == checking::Action::<Text>::Done(false)
            &&& read.1 is MintTokens
            &&& minted.1 == (checking::Action::Verify { origin, http_token, ws_token })
            &&& passed.1 == (checking::Action::Record {
                origin,
                verified: true,
                failure_kind: None,
                failure_message: None,
            })
            &&& failed.1 == (checking::Action::Record {
                origin,
                verified: false,
                failure_kind: Some(failure.kind),
                failure_message: Some(failure.message),
            })
            &&& late.1 == (checking::Action::Record {
                origin,
                verified: false,
                failure_kind: Some("http"@),
                failure_message: Some("Public endpoint verification timed out."@),
            })
            &&& passed.0.step(checking::Event::Recorded(recorded)).1 == checking::Action::<Text>::Done(recorded == Some(true))
            &&& failed.0.step(checking::Event::Recorded(recorded)).1 == checking::Action::<Text>::Done(false)
            &&& late.0.step(checking::Event::Recorded(recorded)).1 == checking::Action::<Text>::Done(false)
        }),
{
}

/// While a check runs, each of its two tokens opens the one challenge that it was
/// minted for, and once it is judged neither opens anything.
pub proof fn a_token_opens_its_own_challenge(
    origin: Text,
    http_token: Text,
    ws_token: Text,
    verdict: Option<Result<(), Failure>>,
    token: Text,
    before: Option<DiagnosticChallenge>,
)
    requires
        http_token != ws_token,
    ensures
        ({
            let posing = Check::Tokens { origin };
            let judging = Check::Verdict { origin, http_token, ws_token };
            let tokens = checking::Event::Tokens { http_token, ws_token };
            let judged = checking::Event::Verdict(verdict);
            &&& posing.challenge_after(tokens, http_token, before) == Some(DiagnosticChallenge::Http)
            &&& posing.challenge_after(tokens, ws_token, before) == Some(DiagnosticChallenge::WebSocket)
            &&& token != http_token && token != ws_token ==> posing.challenge_after(tokens, token, before) == before
            &&& judging.challenge_after(judged, http_token, before) is None
            &&& judging.challenge_after(judged, ws_token, before) is None
            &&& token != http_token && token != ws_token ==> judging.challenge_after(judged, token, before) == before
        }),
{
}

/// A test of an endpoint that is not recorded finds none, and one that is still
/// running says so.
pub proof fn a_test_tells_what_it_found(recorded: bool, running: bool, tested: checking::Tested)
    requires
        call_ensures(checking::test_external_tunnel, (recorded, running), tested),
    ensures
        tested is NotFound <==> !recorded,
        tested is StillRunning <==> recorded && running,
        tested is Report <==> recorded && !running,
{
}

// ---------------------------------------------------------------------------
// Starting and stopping
// ---------------------------------------------------------------------------

/// A server is reached here under the loopback address where it listens on every
/// one, and otherwise where it listens.
pub proof fn a_server_is_reached_where_it_listens(bound: SocketAddr, credential: Text, url: Text)
    ensures
        bound.ip@ == seq![0u8, 0u8, 0u8, 0u8] ==> server::reachable(bound).ip@ == seq![127u8, 0u8, 0u8, 1u8],
        bound.ip@ != seq![0u8, 0u8, 0u8, 0u8] ==> server::reachable(bound) == bound,
        server::reachable(bound).port == bound.port,
        bound.shown() == text::decimal(bound.ip@[0] as nat) + "."@ + (text::decimal(bound.ip@[1] as nat) + "."@ + (
        text::decimal(bound.ip@[2] as nat) + "."@ + text::decimal(bound.ip@[3] as nat))) + ":"@ + text::decimal(
            bound.port as nat,
        ),
        server::with_token(url, Some(credential)) == Some(url + "#token="@ + credential),
        server::with_token(url, None) is None,
{
    reveal_strlit(".");
    let parts = seq![
        text::decimal(bound.ip@[0] as nat),
        text::decimal(bound.ip@[1] as nat),
        text::decimal(bound.ip@[2] as nat),
        text::decimal(bound.ip@[3] as nat),
    ];
    let dot = seq!['.'];
    assert("."@ =~= dot);
    let two = parts.drop_first();
    let three = two.drop_first();
    let four = three.drop_first();
    assert(four[0] == parts[3] && three[0] == parts[2] && two[0] == parts[1]);
    assert(text::join(four, dot) == parts[3]);
    assert(text::join(three, dot) == parts[2] + dot + text::join(four, dot));
    assert(text::join(two, dot) == parts[1] + dot + text::join(three, dot));
    assert(text::join(parts, dot) == parts[0] + dot + text::join(two, dot));
}

/// A start goes in its order: its name, its connector, the endpoint that the
/// connector has, the grant, the address, and then it serves. What fails on the way
/// is complained of and does not stop it, but for the address.
pub proof fn a_start_goes_in_its_order(starting: Starting<Text>, given: Text, error: Text, bound: SocketAddr)
    ensures
        ({
            let (n, turn) = starting.step(server::Event::Name(Ok(given)));
            turn.complaint is None && turn.action is ReadConnector && n.name == Some(given) && n.stage is Connector
        }),
        ({
            let (n, turn) = starting.step(server::Event::Name(Err(error)));
            &&& turn.complaint == Some(
                "cannot read this environment's durable name, using a temporary one for this run: "@ + error,
            )
            &&& turn.action is ReadConnector && n.name is None && n.stage is Connector
        }),
        ({
            let (n, turn) = starting.step(server::Event::Connector(Some(given)));
            turn.complaint is None && turn.action == server::Action::<Text, ServerModel>::RestoreEndpoint(given)
                && n.stage is Endpoint
        }),
        ({
            let (n, turn) = starting.step(server::Event::Connector(None));
            turn.complaint is None && turn.action is MintGrant && n.stage is Grant
        }),
        ({
            let (n, turn) = starting.step(server::Event::Restored(Ok(())));
            turn.complaint is None && turn.action is MintGrant && n.stage is Grant
        }),
        ({
            let (n, turn) = starting.step(server::Event::Restored(Err(error)));
            turn.complaint == Some("cannot restore managed public endpoint: "@ + error) && turn.action is MintGrant
                && n.stage is Grant
        }),
        ({
            let (n, turn) = starting.step(server::Event::Minted(Ok(given)));
            turn.complaint is None && turn.action is Listen && n.credential == Some(given) && n.stage is Listening
        }),
        ({
            let (n, turn) = starting.step(server::Event::Minted(Err(error)));
            turn.complaint == Some("cannot mint the credential this window boots with: "@ + error) && turn.action is Listen
                && n.credential is None && n.stage is Listening
        }),
        ({
            let (n, turn) = starting.step(server::Event::Listening(Ok(bound)));
            &&& turn.complaint is None
            &&& turn.action == server::Action::<Text, ServerModel>::Serve(
                "http://127.0.0.1:"@ + text::decimal(bound.port as nat),
            )
            &&& n.bound == bound && n.stage is Serving && n.credential == starting.credential
        }),
        ({
            let (n, turn) = starting.step(server::Event::Listening(Err(error)));
            turn.action matches server::Action::Failed(server::StartupFailure::Listen { address, error: why }) && why
                == error && address.port == starting.port && n.stage is Over
        }),
{
}

/// A running server is where it was bound, with the credential that was minted and
/// the access it was started with; it verifies its endpoint where its connector is
/// meant to run.
pub proof fn a_running_server_is_what_was_started(starting: Starting<Text>, desired: Option<Text>, ip: [u8; 4])
    ensures
        starting.step(server::Event::Serving { desired }).1.action matches server::Action::Running { server, verify } && {
            &&& server.local_addr == starting.bound
            &&& server.boot_credential == starting.credential
            &&& server.remote_access == starting.access
            &&& verify <==> desired == Some("running"@)
        },
        ({
            let address = server::listens_on(starting.access, starting.port);
            &&& address.port == starting.port
            &&& starting.access.exposure is LocalOnly ==> address.ip@ == seq![127u8, 0u8, 0u8, 1u8]
            &&& starting.access.exposure is NetworkAccessible ==> address.ip@ == seq![0u8, 0u8, 0u8, 0u8]
        }),
{
    assert([127u8, 0u8, 0u8, 1u8]@ =~= seq![127u8, 0u8, 0u8, 1u8]);
    assert([0u8, 0u8, 0u8, 0u8]@ =~= seq![0u8, 0u8, 0u8, 0u8]);
}

/// What a failed start says.
pub proof fn a_failed_start_says_why(address: SocketAddr, error: Text)
    ensures
        server::StartupFailure::Database(error).said() == error,
        (server::StartupFailure::Listen { address, error }).said() == "cannot listen on "@ + address.shown() + ": "@
            + error,
{
}

/// A server stops in the order that loses nothing: nobody is served any more before
/// anything is taken down, and what agents and terminals said is written last.
pub proof fn a_server_stops_in_its_order(i: int, j: int)
    requires
        0 <= i < 7,
        0 <= j < 7,
    ensures
        server::stopping_order().len() == 7,
        server::stopping_order()[i] == server::stopping_order()[j] ==> i == j,
        server::stopping_order()[0] is Sockets,
        server::stopping_order()[6] is Transcripts,
        server::stopping_order()[i] is Connector && server::stopping_order()[j] is ProviderProcesses ==> i < j,
        server::stopping_order()[i] is ProviderProcesses && server::stopping_order()[j] is Listener ==> i < j,
        server::stopping_order()[i] is Listener && server::stopping_order()[j] is Agents ==> i < j,
        server::stopping_order()[i] is Agents && server::stopping_order()[j] is Terminals ==> i < j,
{
}

/// An endpoint is looked at again soon where there is none, later where it passed,
/// and ever later where it keeps failing, up to a bound.
pub proof fn a_failing_endpoint_is_looked_at_less_often(delay: u128, checked: Option<bool>, next: u128)
    requires
        call_ensures(server::background_delay, (delay, checked), next),
    ensures
        checked is None ==> next == 30_000_000_000,
        checked == Some(true) ==> next == public_exposure::VERIFIED_DELAY,
        checked == Some(false) ==> next <= public_exposure::LONGEST_DELAY && (2 * delay <= public_exposure::LONGEST_DELAY
            ==> next == 2 * delay) && (2 * delay > public_exposure::LONGEST_DELAY ==> next
            == public_exposure::LONGEST_DELAY),
{
}

// ---------------------------------------------------------------------------
// Exposure
// ---------------------------------------------------------------------------

/// What a client is told of a refusal is that refusal: its kind by the status and
/// the tag, and its reason, its words and its steps as they are.
pub proof fn a_refusal_is_told_as_it_is(refusal: Refused, trace_id: Text, i: int)
    ensures
        exposure::status_of(RefusalKind::Precondition) == 409,
        exposure::status_of(RefusalKind::Rejected) == 400,
        ({
            let told = exposure::refusal_body(refusal, trace_id);
            &&& json::holds(
                told,
                "_tag"@,
                Value::Text(
                    match refusal.kind {
                        RefusalKind::Precondition => "EnvironmentPublicExposurePreconditionError"@,
                        RefusalKind::Rejected => "EnvironmentPublicExposureRejectedError"@,
                    },
                ),
            )
            &&& json::holds(told, "code"@, Value::Text("public_exposure_refused"@))
            &&& json::holds(told, "message"@, Value::Text(refusal.message))
            &&& json::holds(told, "reason"@, Value::Text(refusal.reason.word()))
            &&& json::holds(told, "traceId"@, Value::Text(trace_id))
            &&& json::holds(told, "completed"@, exposure::step_words(refusal.completed))
            &&& json::holds(told, "remaining"@, exposure::step_words(refusal.remaining))
            &&& told->Object_0.len() == 7
        }),
        exposure::step_words(refusal.completed) is Array,
        exposure::step_words(refusal.completed)->Array_0.len() == refusal.completed.len(),
        0 <= i < refusal.completed.len() ==> exposure::step_words(refusal.completed)->Array_0[i] == Value::Text(
            refusal.completed[i].word(),
        ),
{
    let fields = exposure::refusal_body(refusal, trace_id)->Object_0;
    assert(fields[0].0 == "_tag"@ && fields[1].0 == "code"@ && fields[2].0 == "completed"@);
    assert(fields[3].0 == "message"@ && fields[4].0 == "reason"@ && fields[5].0 == "remaining"@);
    assert(fields[6].0 == "traceId"@);
}

/// A deletion that was not confirmed is told as one that asks for a confirmation
/// first, with nothing done and nothing left.
pub proof fn an_unconfirmed_deletion_is_told_so(trace_id: Text)
    ensures
        ({
            let told = exposure::unconfirmed_body(trace_id);
            &&& json::holds(told, "_tag"@, Value::Text("EnvironmentPublicExposurePreconditionError"@))
            &&& json::holds(told, "reason"@, Value::Text("confirmation-required"@))
            &&& json::holds(told, "traceId"@, Value::Text(trace_id))
            &&& json::holds(told, "completed"@, Value::Array(Seq::empty()))
            &&& json::holds(told, "remaining"@, Value::Array(Seq::empty()))
        }),
{
    let fields = exposure::unconfirmed_body(trace_id)->Object_0;
    assert(fields[0].0 == "_tag"@ && fields[2].0 == "completed"@ && fields[4].0 == "reason"@);
    assert(fields[5].0 == "remaining"@ && fields[6].0 == "traceId"@);
}

/// What a deletion is offered with is what it would remove, and the confirmation
/// that would spend it.
pub proof fn an_offer_tells_what_it_would_remove(offer: DeletionOffer<Text>, selection: Selection<Text>, name: Text)
    ensures
        ({
            let told = exposure::offer_body(offer);
            &&& json::holds(told, "tunnelId"@, Value::Text(offer.tunnel_id))
            &&& json::holds(told, "httpsOrigin"@, Value::Text(offer.https_origin))
            &&& json::holds(told, "confirmation"@, Value::Text(offer.confirmation))
            &&& json::holds(told, "expiresInSeconds"@, Value::Whole(300))
            &&& offer.dns_record_name matches Some(record) ==> json::holds(told, "dnsRecordName"@, Value::Text(record))
            &&& offer.dns_record_name is None ==> json::holds(told, "dnsRecordName"@, Value::Null)
            &&& offer.tunnel_name matches Some(named) ==> json::holds(told, "tunnelName"@, Value::Text(named))
            &&& offer.tunnel_name is None ==> json::holds(told, "tunnelName"@, Value::Null)
            &&& json::holds(
                told,
                "steps"@,
                exposure::step_words(
                    seq![
                        MutationStep::DnsRecordDelete,
                        MutationStep::TunnelDelete,
                        MutationStep::ConfigurationRemove,
                        MutationStep::CredentialRemove,
                    ],
                ),
            )
        }),
        exposure::offered_name(Some((selection, name)), offer.tunnel_id) == (if selection.tunnel_id == offer.tunnel_id {
            Some(name)
        } else {
            None
        }),
        exposure::offered_name(None, offer.tunnel_id) is None,
{
    let fields = exposure::offer_body(offer)->Object_0;
    assert(fields[0].0 == "confirmation"@ && fields[1].0 == "dnsRecordName"@ && fields[2].0 == "expiresInSeconds"@);
    assert(fields[3].0 == "httpsOrigin"@ && fields[4].0 == "steps"@ && fields[5].0 == "tunnelId"@);
    assert(fields[6].0 == "tunnelName"@);
}

/// A request that lacks a scope is told which one.
pub proof fn a_missing_scope_is_named(scope: Text, trace_id: Text)
    ensures
        ({
            let told = exposure::scope_body(scope, trace_id);
            &&& json::holds(told, "_tag"@, Value::Text("EnvironmentScopeRequiredError"@))
            &&& json::holds(told, "code"@, Value::Text("insufficient_scope"@))
            &&& json::holds(told, "requiredScope"@, Value::Text(scope))
            &&& json::holds(told, "traceId"@, Value::Text(trace_id))
        }),
{
    let fields = exposure::scope_body(scope, trace_id)->Object_0;
    assert(fields[0].0 == "_tag"@ && fields[1].0 == "code"@ && fields[2].0 == "requiredScope"@);
    assert(fields[3].0 == "traceId"@);
}

/// What a client is shown of an endpoint is what was found of it, field by field.
pub proof fn an_endpoint_is_told_field_by_field(
    snapshot: Snapshot<Text>,
    cleanup: Value,
    endpoint: AdvertisedEndpoint<Text>,
    health: Health<Text>,
)
    ensures
        ({
            let told = exposure::snapshot_value(snapshot, cleanup);
            &&& json::holds(told, "configured"@, Value::Bool(snapshot.configured))
            &&& json::holds(told, "deletableAtCloudflare"@, Value::Bool(snapshot.deletable_at_cloudflare))
            &&& json::holds(told, "cleanup"@, cleanup)
            &&& json::holds(told, "ownership"@, Value::Text(snapshot.ownership.word()))
            &&& json::holds(told, "verificationState"@, Value::Text(snapshot.verification_state))
            &&& json::holds(told, "health"@, exposure::health_value(snapshot.health))
            &&& json::holds(told, "failureKind"@, json::or_null(snapshot.failure_kind))
            &&& json::holds(told, "failureMessage"@, json::or_null(snapshot.failure_message))
            &&& json::holds(told, "httpsOrigin"@, json::or_null(snapshot.https_origin))
            &&& json::holds(told, "wssOrigin"@, json::or_null(snapshot.wss_origin))
            &&& json::holds(told, "lastAttemptAt"@, json::or_null(snapshot.last_attempt_at))
            &&& json::holds(told, "lastVerifiedAt"@, json::or_null(snapshot.last_verified_at))
            &&& snapshot.advertised_endpoint is None ==> json::holds(told, "advertisedEndpoint"@, Value::Null)
            &&& snapshot.advertised_endpoint matches Some(shown) ==> json::holds(
                told,
                "advertisedEndpoint"@,
                exposure::advertised(shown),
            )
        }),
        ({
            let told = exposure::advertised(endpoint);
            &&& json::holds(told, "id"@, Value::Text(endpoint.id))
            &&& json::holds(told, "httpBaseUrl"@, Value::Text(endpoint.http_base_url))
            &&& json::holds(told, "wsBaseUrl"@, Value::Text(endpoint.ws_base_url))
            &&& json::holds(told, "source"@, Value::Text(endpoint.source))
            &&& json::holds(told, "description"@, Value::Text(endpoint.description))
            &&& json::holds(told, "reachability"@, Value::Text("public"@))
            &&& json::holds(told, "status"@, Value::Text("available"@))
            &&& json::holds(told, "label"@, Value::Text("Cloudflare Tunnel"@))
        }),
        ({
            let told = exposure::health_value(health);
            &&& json::holds(told, "connector"@, Value::Text(health.connector))
            &&& json::holds(told, "https"@, Value::Text(health.https))
            &&& json::holds(told, "webSocket"@, Value::Text(health.web_socket))
        }),
{
    let fields = exposure::snapshot_value(snapshot, cleanup)->Object_0;
    assert(fields[0].0 == "advertisedEndpoint"@ && fields[1].0 == "cleanup"@ && fields[2].0 == "configured"@);
    assert(fields[3].0 == "deletableAtCloudflare"@ && fields[4].0 == "failureKind"@ && fields[5].0 == "failureMessage"@);
    assert(fields[6].0 == "health"@ && fields[7].0 == "httpsOrigin"@ && fields[8].0 == "lastAttemptAt"@);
    assert(fields[9].0 == "lastVerifiedAt"@ && fields[10].0 == "ownership"@ && fields[11].0 == "verificationState"@);
    assert(fields[12].0 == "wssOrigin"@);
    let shown = exposure::advertised(endpoint)->Object_0;
    assert(shown[1].0 == "description"@ && shown[2].0 == "httpBaseUrl"@ && shown[3].0 == "id"@ && shown[4].0 == "label"@);
    assert(shown[6].0 == "reachability"@ && shown[7].0 == "source"@ && shown[8].0 == "status"@);
    assert(shown[9].0 == "wsBaseUrl"@);
    let layers = exposure::health_value(health)->Object_0;
    assert(layers[0].0 == "connector"@ && layers[1].0 == "https"@ && layers[2].0 == "webSocket"@);
}

/// What a client is told of the connector is what the connector says, with whose
/// tunnel it is and how its endpoint fared, and nothing else changed.
pub proof fn a_connector_is_told_with_its_record(
    fields: Seq<(Text, Value)>,
    ownership: Option<TunnelOwnership>,
    verified: Verified<Text>,
    other: Text,
)
    requires
        forall|name: Text| #[trigger] json::field_is_in_order(fields, name),
    ensures
        ({
            let owner = match ownership {
                Some(ownership) => ownership,
                None => TunnelOwnership::External,
            };
            let told = exposure::managed_connector(Value::Object(fields), ownership, Some(verified))->Object_0;
            let bare = exposure::managed_connector(Value::Object(fields), ownership, None)->Object_0;
            &&& json::field(told, "tunnelOwnership"@) == Some(Value::Text(owner.word()))
            &&& json::field(told, "verificationState"@) == Some(Value::Text(verified.state))
            &&& json::field(told, "failureKind"@) == Some(json::or_null(verified.failure_kind))
            &&& json::field(told, "publicFailureMessage"@) == Some(json::or_null(verified.failure_message))
            &&& json::field(told, "lastVerifiedAt"@) == Some(json::or_null(verified.last_verified_at))
            &&& json::field(bare, "verificationState"@) == Some(Value::Text("unconfigured"@))
            &&& json::field(bare, "failureKind"@) == Some(Value::Null)
            &&& other != "tunnelOwnership"@ && other != "deletableAtCloudflare"@ && other != "verificationState"@ && other
                != "failureKind"@ && other != "publicFailureMessage"@ && other != "lastVerifiedAt"@ ==> json::field(
                told,
                other,
            ) == json::field(fields, other) && json::field(bare, other) == json::field(fields, other)
        }),
{
    connector_fields(fields, ownership, Some(verified), other);
    connector_fields(fields, ownership, None, other);
}

#[verifier::spinoff_prover]
proof fn connector_fields(
    fields: Seq<(Text, Value)>,
    ownership: Option<TunnelOwnership>,
    verified: Option<Verified<Text>>,
    other: Text,
)
    requires
        forall|name: Text| #[trigger] json::field_is_in_order(fields, name),
    ensures
        ({
            let owner = match ownership {
                Some(ownership) => ownership,
                None => TunnelOwnership::External,
            };
            let told = exposure::managed_connector(Value::Object(fields), ownership, verified)->Object_0;
            &&& json::field(told, "tunnelOwnership"@) == Some(Value::Text(owner.word()))
            &&& verified matches Some(found) ==> {
                &&& json::field(told, "verificationState"@) == Some(Value::Text(found.state))
                &&& json::field(told, "failureKind"@) == Some(json::or_null(found.failure_kind))
                &&& json::field(told, "publicFailureMessage"@) == Some(json::or_null(found.failure_message))
                &&& json::field(told, "lastVerifiedAt"@) == Some(json::or_null(found.last_verified_at))
            }
            &&& verified is None ==> json::field(told, "verificationState"@) == Some(Value::Text("unconfigured"@))
                && json::field(told, "failureKind"@) == Some(Value::Null)
            &&& other != "tunnelOwnership"@ && other != "deletableAtCloudflare"@ && other != "verificationState"@ && other
                != "failureKind"@ && other != "publicFailureMessage"@ && other != "lastVerifiedAt"@ ==> json::field(
                told,
                other,
            ) == json::field(fields, other)
        }),
{
    let a = "tunnelOwnership"@;
    let b = "deletableAtCloudflare"@;
    let c = "verificationState"@;
    let d = "failureKind"@;
    let e = "publicFailureMessage"@;
    let f = "lastVerifiedAt"@;
    reveal_strlit("tunnelOwnership");
    reveal_strlit("deletableAtCloudflare");
    reveal_strlit("verificationState");
    reveal_strlit("failureKind");
    reveal_strlit("publicFailureMessage");
    reveal_strlit("lastVerifiedAt");
    assert(a.len() == 15 && b.len() == 21 && c.len() == 17 && d.len() == 11 && e.len() == 20 && f.len() == 14);
    let owner = match ownership {
        Some(ownership) => ownership,
        None => TunnelOwnership::External,
    };
    let (state, kind, message, at) = match verified {
        Some(found) => (found.state, found.failure_kind, found.failure_message, found.last_verified_at),
        None => ("unconfigured"@, None, None, None),
    };
    let va = Value::Text(owner.word());
    let vb = Value::Bool(owner == TunnelOwnership::LaplusCreated);
    let vc = Value::Text(state);
    let vd = json::or_null(kind);
    let ve = json::or_null(message);
    let vf = json::or_null(at);
    let s1 = json::with_field(fields, a, va);
    let s2 = json::with_field(s1, b, vb);
    let s3 = json::with_field(s2, c, vc);
    let s4 = json::with_field(s3, d, vd);
    let s5 = json::with_field(s4, e, ve);
    let s6 = json::with_field(s5, f, vf);
    assert(exposure::managed_connector(Value::Object(fields), ownership, verified) == Value::Object(s6));
    let names = seq![a, b, c, d, e, f, other];
    in_order_through(fields, a, va, names);
    in_order_through(s1, b, vb, names);
    in_order_through(s2, c, vc, names);
    in_order_through(s3, d, vd, names);
    in_order_through(s4, e, ve, names);
    in_order_through(s5, f, vf, names);
    assert(names[0] == a && names[1] == b && names[2] == c && names[3] == d && names[4] == e && names[5] == f
        && names[6] == other);
}

/// Setting a field of an ordered object keeps the order of each of these names, sets
/// that field, and leaves every other of them alone.
proof fn in_order_through(fields: Seq<(Text, Value)>, name: Text, value: Value, names: Seq<Text>)
    requires
        json::field_is_in_order(fields, name),
        forall|k: int| 0 <= k < names.len() ==> json::field_is_in_order(fields, #[trigger] names[k]),
    ensures
        forall|k: int|
            0 <= k < names.len() ==> json::field_is_in_order(json::with_field(fields, name, value), #[trigger] names[k]),
        forall|k: int|
            0 <= k < names.len() ==> json::field(json::with_field(fields, name, value), #[trigger] names[k]) == if names[k]
                == name {
                Some(value)
            } else {
                json::field(fields, names[k])
            },
{
    assert forall|k: int| 0 <= k < names.len() implies json::field_is_in_order(
        json::with_field(fields, name, value),
        #[trigger] names[k],
    ) && json::field(json::with_field(fields, name, value), names[k]) == (if names[k] == name {
        Some(value)
    } else {
        json::field(fields, names[k])
    }) by {
        json::setting_keeps_order(fields, name, value, names[k]);
        json::setting_a_field(fields, name, value, names[k]);
    }
}

/// What a client is told of its account is what the account says, with the creation
/// that is not through.
pub proof fn an_account_is_told_with_its_creation(
    fields: Seq<(Text, Value)>,
    creation: UnfinishedCreation<Text, Seq<MutationStep>>,
    other: Text,
)
    requires
        json::field_is_in_order(fields, "unfinishedCreation"@),
    ensures
        ({
            let told = exposure::account_value(Value::Object(fields), Some(creation))->Object_0;
            let bare = exposure::account_value(Value::Object(fields), None)->Object_0;
            &&& json::field(told, "unfinishedCreation"@) == Some(exposure::unfinished_value(Some(creation)))
            &&& json::field(bare, "unfinishedCreation"@) == Some(Value::Null)
            &&& other != "unfinishedCreation"@ ==> json::field(told, other) == json::field(fields, other) && json::field(
                bare,
                other,
            ) == json::field(fields, other)
        }),
        ({
            let told = exposure::unfinished_value(Some(creation));
            &&& json::holds(told, "completed"@, exposure::step_words(creation.completed))
            &&& json::holds(told, "remaining"@, exposure::step_words(creation.remaining))
            &&& json::holds(told, "hostname"@, json::or_null(creation.hostname))
            &&& json::holds(told, "name"@, json::or_null(creation.name))
            &&& json::holds(told, "tunnelId"@, json::or_null(creation.tunnel_id))
        }),
{
    let name = "unfinishedCreation"@;
    json::setting_a_field(fields, name, exposure::unfinished_value(Some(creation)), name);
    json::setting_a_field(fields, name, exposure::unfinished_value(Some(creation)), other);
    json::setting_a_field(fields, name, exposure::unfinished_value(None), name);
    json::setting_a_field(fields, name, exposure::unfinished_value(None), other);
    let shown = exposure::unfinished_value(Some(creation))->Object_0;
    assert(shown[0].0 == "completed"@ && shown[1].0 == "hostname"@ && shown[2].0 == "name"@);
    assert(shown[3].0 == "remaining"@ && shown[4].0 == "tunnelId"@);
}

/// A hostname is registered where nothing of this server's stands in its way, as the
/// origin that it is; what stands in its way is told by its own name.
pub proof fn a_hostname_is_registered_where_nothing_stands_in_its_way(
    configured: bool,
    recorded: Option<TunnelOwnership>,
    url: Option<UrlParts<Text>>,
)
    ensures
        ({
            let free = !configured && (recorded is None || recorded == Some(TunnelOwnership::External));
            let registered = exposure::registration(configured, recorded, url);
            &&& free ==> (public_exposure::origin_of(url) matches Ok(origin) ==> registered == Ok::<Text, Refused>(origin))
            &&& free ==> (public_exposure::origin_of(url) matches Err(why) ==> (registered matches Err(refused)
                && refused.kind == RefusalKind::Rejected && refused.reason == RefusalReason::HostnameInvalid
                && refused.message == why))
            &&& !free ==> (registered matches Err(refused) && refused.kind == RefusalKind::Precondition && refused.reason
                == RefusalReason::OwnershipConflict)
            &&& configured ==> registered->Err_0.message
                == "laplus already runs a connector for this environment. Stop and forget it before registering a hostname somebody else operates."@
            &&& !configured && !free ==> registered->Err_0.message == "This environment already has a "@
                + recorded->0.word()
                + " Cloudflare tunnel. Forget it before registering a hostname somebody else operates."@
            &&& exposure::claim_refused(configured, recorded) is None <==> free
            &&& exposure::conversion_refused(recorded) is None <==> recorded is None || recorded == Some(
                TunnelOwnership::External,
            )
        }),
{
}

/// A start starts, a stop stops, and a retry starts again.
pub proof fn what_is_wanted_is_what_is_asked_for(wanted: Wanted, desired: (bool, bool))
    requires
        call_ensures(Wanted::desired, (wanted,), desired),
    ensures
        desired.0 <==> wanted is Start || wanted is Retry,
        desired.1 <==> wanted is Retry,
{
}

} // verus!
