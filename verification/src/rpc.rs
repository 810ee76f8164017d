//! Which call a request is, and how it is answered.
//!
//! Nothing in a request says whether the answer is one value, a stream of them or
//! a value that is not ready yet: the method's name decides that.

pub mod payloads;

use crate::access;
use crate::access::Grant;
use crate::config::Settings;
use crate::json;
use crate::json::{Fields, Json, Value};
use crate::refusals;
use crate::refusals::Method;
use crate::settings;
use crate::text;
use vstd::prelude::*;

verus! {

/// Text as the contracts see it.
pub type Text = Seq<char>;

/// The first call of a client, and its liveness probe where no other is
/// advertised.
pub const SERVER_GET_CONFIG: &'static str = "server.getConfig";

/// The liveness probe: nothing in, nothing out.
pub const SERVER_PROBE: &'static str = "server.probe";

/// The configuration, kept current.
pub const SUBSCRIBE_SERVER_CONFIG: &'static str = "subscribeServerConfig";

/// The pairing links, kept current.
pub const SUBSCRIBE_AUTH_ACCESS: &'static str = "subscribeAuthAccess";

// ---------------------------------------------------------------------------
// Payloads and refusals
// ---------------------------------------------------------------------------

/// An error under `tag` that carries a sentence and nothing else.
pub open spec fn declares(tag: Text, message: Text) -> Value {
    Value::Object(seq![("_tag"@, Value::Text(tag)), ("message"@, Value::Text(message))])
}

/// An error under `tag` that carries a sentence and nothing else.
pub fn declared(tag: &str, message: &str) -> (out: Json)
    ensures
        out@ == declares(tag@, message@),
{
    let fields: Fields = vec![json::entry("_tag", Json::text(tag)), json::entry("message", Json::text(message))];
    proof {
        assert(json::fields_view(fields@) =~= declares(tag@, message@)->Object_0);
    }
    Json::object(fields)
}

/// A required text without the space around it, or the method's own refusal where
/// nothing is left of it.
pub fn non_blank(value: &str, tag: &str, subject: &str) -> (out: Result<String, Json>)
    ensures
        match out {
            Ok(given) => given@ == text::trimmed(value@) && given@.len() > 0,
            Err(refused) => text::trimmed(value@).len() == 0 && refused@ == declares(
                tag@,
                "This call needs a "@ + subject@ + "; none was given."@,
            ),
        },
{
    let trimmed = text::trim(value);
    if trimmed.as_str().is_empty() {
        return Err(declared(tag, &text::glue3("This call needs a ", subject, "; none was given.")));
    }
    Ok(trimmed)
}

/// What a payload holds under a name.
pub open spec fn in_payload(payload: Value, name: Text) -> Option<Value> {
    match payload {
        Value::Object(fields) => json::field(fields, name),
        _ => None,
    }
}

/// What a payload holds under a name.
pub fn payload_field<'a>(payload: &'a Json, name: &str) -> (out: Option<&'a Json>)
    ensures
        match out {
            Some(found) => in_payload(payload@, name@) == Some(found@),
            None => in_payload(payload@, name@) is None,
        },
{
    match payload.as_object() {
        Some(fields) => json::find(fields, name),
        None => None,
    }
}

/// Where a subscription is to go on from.
pub open spec fn cursor_in(payload: Value) -> Option<i64> {
    match in_payload(payload, "afterSequence"@) {
        Some(Value::Whole(n)) if n <= i64::MAX => Some(n as i64),
        _ => None,
    }
}

/// Where a subscription is to go on from, or nothing for a client that holds
/// nothing to go on from. Only a whole number that is not negative is a cursor.
pub fn resume_cursor(payload: &Json) -> (out: Option<i64>)
    ensures
        out == cursor_in(payload@),
        out matches Some(cursor) ==> cursor >= 0,
{
    match payload_field(payload, "afterSequence") {
        Some(Json::Whole(n)) if *n <= 0x7fff_ffff_ffff_ffff => Some(*n as i64),
        _ => None,
    }
}

/// Whether a command changes the directories that skills are read from.
pub open spec fn moves_skills(payload: Value) -> bool {
    match in_payload(payload, "type"@) {
        Some(Value::Text(named)) => named == "project.create"@ || named == "project.delete"@,
        _ => false,
    }
}

/// Whether a command changes the directories that skills are read from: the two
/// that touch the project registry.
pub fn changes_where_skills_live(payload: &Json) -> (out: bool)
    ensures
        out == moves_skills(payload@),
{
    match payload_field(payload, "type") {
        Some(Json::Text(named)) => text::same(named, "project.create") || text::same(named, "project.delete"),
        _ => false,
    }
}

// ---------------------------------------------------------------------------
// Dispatch
// ---------------------------------------------------------------------------

/// How a call is answered.
#[derive(Debug, Clone, Copy, PartialEq, Eq, Structural)]
pub enum Answered {
    /// One value, at once and from memory.
    Value,
    /// A stream of values until the client cancels it.
    Stream,
    /// One value, from work that has to touch the world first and therefore runs
    /// off the read loop.
    Deferred,
}

/// The methods beside the contract's, by the tags they are called under.
#[derive(Debug, PartialEq, Eq)]
pub struct Additions<S> {
    pub usage_summary: S,
    pub subscribe_subagent: S,
}

/// The call that a tag names.
#[derive(Debug, Clone, Copy, PartialEq, Eq, Structural)]
pub enum Call {
    Contract(Method),
    UsageSummary,
    SubscribeSubagent,
}

/// A call, and how it is answered.
#[derive(Debug, Clone, Copy, PartialEq, Eq, Structural)]
pub struct Route {
    pub call: Call,
    pub answered: Answered,
}

/// How a method of the contract is answered, where it is implemented.
pub open spec fn answers(method: Method) -> Option<Answered> {
    match method {
        Method::ServerGetConfig
        | Method::ServerProbe
        | Method::OrchestrationDispatchCommand
        | Method::OrchestrationGetArchivedShellSnapshot
        | Method::TerminalWrite
        | Method::TerminalResize
        | Method::TerminalClear
        | Method::ServerGetSettings => Some(Answered::Value),
        Method::SubscribeServerConfig
        | Method::SubscribeAuthAccess
        | Method::OrchestrationSubscribeShell
        | Method::OrchestrationSubscribeThread
        | Method::TerminalAttach
        | Method::SubscribeTerminalMetadata
        | Method::SubscribeVcsStatus => Some(Answered::Stream),
        Method::FilesystemBrowse
        | Method::ProjectsListEntries
        | Method::ProjectsSearchEntries
        | Method::ProjectsReadFile
        | Method::ProjectsWriteFile
        | Method::ShellOpenInEditor
        | Method::AssetsCreateUrl
        | Method::TerminalOpen
        | Method::TerminalRestart
        | Method::TerminalClose
        | Method::VcsRefreshStatus
        | Method::VcsListRefs
        | Method::VcsCreateRef
        | Method::VcsSwitchRef
        | Method::VcsRemoveWorktree
        | Method::VcsInit
        | Method::OrchestrationGetTurnDiff
        | Method::OrchestrationGetFullThreadDiff
        | Method::ServerRefreshProviders
        | Method::ServerUpdateProvider
        | Method::ServerUpdateSettings
        | Method::ServerUpsertKeybinding
        | Method::ServerRemoveKeybinding => Some(Answered::Deferred),
        _ => None,
    }
}

/// How a method of the contract is answered, where it is implemented.
pub fn answered(method: Method) -> (out: Option<Answered>)
    ensures
        out == answers(method),
{
    match method {
        Method::ServerGetConfig
        | Method::ServerProbe
        | Method::OrchestrationDispatchCommand
        | Method::OrchestrationGetArchivedShellSnapshot
        | Method::TerminalWrite
        | Method::TerminalResize
        | Method::TerminalClear
        | Method::ServerGetSettings => Some(Answered::Value),
        Method::SubscribeServerConfig
        | Method::SubscribeAuthAccess
        | Method::OrchestrationSubscribeShell
        | Method::OrchestrationSubscribeThread
        | Method::TerminalAttach
        | Method::SubscribeTerminalMetadata
        | Method::SubscribeVcsStatus => Some(Answered::Stream),
        Method::FilesystemBrowse
        | Method::ProjectsListEntries
        | Method::ProjectsSearchEntries
        | Method::ProjectsReadFile
        | Method::ProjectsWriteFile
        | Method::ShellOpenInEditor
        | Method::AssetsCreateUrl
        | Method::TerminalOpen
        | Method::TerminalRestart
        | Method::TerminalClose
        | Method::VcsRefreshStatus
        | Method::VcsListRefs
        | Method::VcsCreateRef
        | Method::VcsSwitchRef
        | Method::VcsRemoveWorktree
        | Method::VcsInit
        | Method::OrchestrationGetTurnDiff
        | Method::OrchestrationGetFullThreadDiff
        | Method::ServerRefreshProviders
        | Method::ServerUpdateProvider
        | Method::ServerUpdateSettings
        | Method::ServerUpsertKeybinding
        | Method::ServerRemoveKeybinding => Some(Answered::Deferred),
        _ => None,
    }
}

/// Why a call produced no value.
#[derive(Debug, PartialEq, Eq)]
pub enum DispatchError<S, J> {
    /// No method is wired to this tag.
    UnknownMethod(S),
    /// The method refused, in the shape that the client decodes.
    Declared(J),
}

impl View for DispatchError<String, Json> {
    type V = DispatchError<Text, Value>;

    open spec fn view(&self) -> DispatchError<Text, Value> {
        match self {
            DispatchError::UnknownMethod(tag) => DispatchError::UnknownMethod(tag@),
            DispatchError::Declared(error) => DispatchError::Declared(error@),
        }
    }
}

impl DispatchError<String, Json> {
    /// The error that the call fails with.
    pub fn to_error(&self) -> (out: Json)
        ensures
            out@ == match self@ {
                DispatchError::UnknownMethod(tag) => refusals::refused(tag),
                DispatchError::Declared(error) => error,
            },
    {
        match self {
            DispatchError::UnknownMethod(tag) => refusals::refusal(tag),
            DispatchError::Declared(error) => error.copy(),
        }
    }
}

/// The refusal of a call that needs a scope which was not granted.
pub open spec fn needs_reading() -> Value {
    Value::Object(
        seq![
            ("_tag"@, Value::Text("EnvironmentAuthorizationError"@)),
            ("message"@, Value::Text("This method requires orchestration:read access."@)),
            ("requiredScope"@, Value::Text("orchestration:read"@)),
        ],
    )
}

/// Which call a tag is, and how it is answered. Only the summary of usage asks for
/// a scope.
pub open spec fn routed(additions: Additions<Text>, scopes: Seq<Text>, tag: Text) -> Result<
    Route,
    DispatchError<Text, Value>,
> {
    match Method::reading(tag) {
        Some(method) => match answers(method) {
            Some(answered) => Ok(Route { call: Call::Contract(method), answered }),
            None => Err(DispatchError::UnknownMethod(tag)),
        },
        None => if tag == additions.usage_summary {
            if scopes.contains("orchestration:read"@) {
                Ok(Route { call: Call::UsageSummary, answered: Answered::Deferred })
            } else {
                Err(DispatchError::Declared(needs_reading()))
            }
        } else if tag == additions.subscribe_subagent {
            Ok(Route { call: Call::SubscribeSubagent, answered: Answered::Stream })
        } else {
            Err(DispatchError::UnknownMethod(tag))
        },
    }
}

/// Which call a tag is, and how it is answered, for a client with these scopes.
fn dispatch_scoped(additions: &Additions<String>, scopes: &Vec<String>, tag: &str) -> (out: Result<
    Route,
    DispatchError<String, Json>,
>)
    ensures
        match out {
            Ok(route) => routed(additions@, text::views(scopes@), tag@) == Ok::<Route, DispatchError<Text, Value>>(
                route,
            ),
            Err(refused) => routed(additions@, text::views(scopes@), tag@) == Err::<Route, DispatchError<Text, Value>>(
                refused@,
            ),
        },
{
    if let Some(method) = Method::named(tag) {
        return match answered(method) {
            Some(answered) => Ok(Route { call: Call::Contract(method), answered }),
            None => Err(DispatchError::UnknownMethod(tag.to_owned())),
        };
    }
    if text::same(tag, &additions.usage_summary) {
        if !access::has_word(scopes, "orchestration:read") {
            let fields: Fields = vec![
                json::entry("_tag", Json::text("EnvironmentAuthorizationError")),
                json::entry("message", Json::text("This method requires orchestration:read access.")),
                json::entry("requiredScope", Json::text("orchestration:read")),
            ];
            proof {
                assert(json::fields_view(fields@) =~= needs_reading()->Object_0);
            }
            return Err(DispatchError::Declared(Json::object(fields)));
        }
        return Ok(Route { call: Call::UsageSummary, answered: Answered::Deferred });
    }
    if text::same(tag, &additions.subscribe_subagent) {
        return Ok(Route { call: Call::SubscribeSubagent, answered: Answered::Stream });
    }
    Err(DispatchError::UnknownMethod(tag.to_owned()))
}

impl View for Additions<String> {
    type V = Additions<Text>;

    open spec fn view(&self) -> Additions<Text> {
        Additions { usage_summary: self.usage_summary@, subscribe_subagent: self.subscribe_subagent@ }
    }
}

/// Which call a tag is, and how it is answered, for a client that was granted
/// nothing.
pub fn dispatch_without_grant(additions: &Additions<String>, tag: &str) -> (out: Result<
    Route,
    DispatchError<String, Json>,
>)
    ensures
        match out {
            Ok(route) => routed(additions@, Seq::empty(), tag@) == Ok::<Route, DispatchError<Text, Value>>(route),
            Err(refused) => routed(additions@, Seq::empty(), tag@) == Err::<Route, DispatchError<Text, Value>>(
                refused@,
            ),
        },
{
    let none: Vec<String> = Vec::new();
    proof {
        assert(text::views(none@) =~= Seq::<Text>::empty());
    }
    dispatch_scoped(additions, &none, tag)
}

/// Which call a tag is, and how it is answered, for a client with this grant.
/// [`payloads::prepare`] reads what the call was sent with.
pub fn dispatch(additions: &Additions<String>, grant: &Grant<String, Vec<String>>, tag: &str) -> (out: Result<
    Route,
    DispatchError<String, Json>,
>)
    ensures
        match out {
            Ok(route) => routed(additions@, grant@.scopes, tag@) == Ok::<Route, DispatchError<Text, Value>>(route),
            Err(refused) => routed(additions@, grant@.scopes, tag@) == Err::<Route, DispatchError<Text, Value>>(
                refused@,
            ),
        },
{
    dispatch_scoped(additions, &grant.scopes, tag)
}

// ---------------------------------------------------------------------------
// Answers from memory
// ---------------------------------------------------------------------------

/// The answer of a call that asks nothing of the world, given the configuration as
/// it is sent and the settings in force.
pub open spec fn remembered(method: Method, config: Value, settings: Value) -> Option<Value> {
    match method {
        Method::ServerGetConfig => Some(config),
        Method::ServerProbe => Some(Value::Object(seq![])),
        Method::ServerGetSettings => Some(settings),
        _ => None,
    }
}

/// The answer of a call that asks nothing of the world: the configuration, nothing
/// at all to a probe, and the settings as a client sees them. No such call uses
/// anything up, so that it may be repeated for as long as a connection lives.
pub fn at_once(method: Method, config: &Json, settings: &Settings) -> (out: Option<Json>)
    requires
        settings.provider_instances.wf(),
    ensures
        match out {
            Some(answer) => remembered(method, config@, settings::shown_to_clients(*settings)) == Some(answer@),
            None => remembered(method, config@, settings::shown_to_clients(*settings)) is None,
        },
{
    match method {
        Method::ServerGetConfig => Some(config.copy()),
        Method::ServerProbe => {
            let none: Fields = Vec::new();
            proof {
                assert(json::fields_view(none@) =~= seq![]);
            }
            Some(Json::object(none))
        },
        Method::ServerGetSettings => Some(settings::public_value(settings)),
        _ => None,
    }
}

/// The refusal where the archived conversations cannot be read.
pub fn archive_unreadable(error: &str) -> (out: Json)
    ensures
        out@ == declares("OrchestrationGetSnapshotError"@, "Could not read the archived conversations: "@ + error@),
{
    declared("OrchestrationGetSnapshotError", &text::glue("Could not read the archived conversations: ", error))
}

// ---------------------------------------------------------------------------
// Laws
// ---------------------------------------------------------------------------

/// Every call that is answered from memory is answered at once.
pub proof fn what_is_remembered_is_answered_at_once(method: Method, config: Value, settings: Value)
    ensures
        remembered(method, config, settings) is Some ==> answers(method) == Some(Answered::Value),
{
}

/// A grant decides nothing but the summary of usage: every other tag is the same
/// call, answered the same way, whatever was granted.
pub proof fn only_the_usage_summary_asks_for_a_scope(
    additions: Additions<Text>,
    scopes: Seq<Text>,
    others: Seq<Text>,
    tag: Text,
)
    ensures
        tag != additions.usage_summary ==> routed(additions, scopes, tag) == routed(additions, others, tag),
{
}

/// A method of the contract that is not implemented is refused under a tag that
/// its union declares, so the refusal costs that one call and no more.
pub proof fn an_unimplemented_method_is_refused_legibly(additions: Additions<Text>, scopes: Seq<Text>, method: Method)
    requires
        answers(method) is None,
    ensures
        routed(additions, scopes, method.word()) == Err::<Route, DispatchError<Text, Value>>(
            DispatchError::UnknownMethod(method.word()),
        ),
        json::field(refusals::refused(method.word())->Object_0, "_tag"@) == Some(
            Value::Text("EnvironmentAuthorizationError"@),
        ),
{
    refusals::method_reads_back(method);
    refusals::a_refusal_is_legible(method.word());
}

/// What each method is answered by: at once, by a stream, or later; and the rest by
/// nothing.
pub proof fn each_method_is_answered_in_its_own_way(method: Method)
    ensures
        answers(method) == Some(Answered::Value) <==> method is ServerGetConfig || method is ServerProbe || method
            is ServerGetSettings || method is OrchestrationDispatchCommand || method
            is OrchestrationGetArchivedShellSnapshot || method is TerminalWrite || method is TerminalResize || method
            is TerminalClear,
        answers(method) == Some(Answered::Stream) <==> method is SubscribeServerConfig || method is SubscribeAuthAccess
            || method is OrchestrationSubscribeShell || method is OrchestrationSubscribeThread || method
            is TerminalAttach || method is SubscribeTerminalMetadata || method is SubscribeVcsStatus,
        answers(method) == Some(Answered::Deferred) <==> method is FilesystemBrowse || method is ProjectsListEntries
            || method is ProjectsSearchEntries || method is ProjectsReadFile || method is ProjectsWriteFile || method
            is ShellOpenInEditor || method is AssetsCreateUrl || method is TerminalOpen || method is TerminalRestart
            || method is TerminalClose || method is VcsRefreshStatus || method is VcsListRefs || method is VcsCreateRef
            || method is VcsSwitchRef || method is VcsRemoveWorktree || method is VcsInit || method
            is OrchestrationGetTurnDiff || method is OrchestrationGetFullThreadDiff || method is ServerRefreshProviders
            || method is ServerUpdateProvider || method is ServerUpdateSettings || method is ServerUpsertKeybinding
            || method is ServerRemoveKeybinding,
{
}

/// A tag is routed to the method that goes by it, and to how that one is answered.
pub proof fn a_tag_is_routed_to_its_method(additions: Additions<Text>, scopes: Seq<Text>, method: Method)
    ensures
        answers(method) matches Some(answered) ==> routed(additions, scopes, method.word()) == Ok::<
            Route,
            DispatchError<Text, Value>,
        >(Route { call: Call::Contract(method), answered }),
        answers(method) is None ==> routed(additions, scopes, method.word()) == Err::<Route, DispatchError<Text, Value>>(
            DispatchError::UnknownMethod(method.word()),
        ),
{
    refusals::method_reads_back(method);
}

/// The two additions are routed to their own calls: the usage summary, which is made
/// later and asks for the right to read, and a subagent's stream, which asks for
/// nothing. Any other tag is unknown, and is told as it was sent.
pub proof fn an_addition_is_routed_to_its_own_call(additions: Additions<Text>, scopes: Seq<Text>, tag: Text)
    requires
        Method::reading(tag) is None,
        additions.usage_summary != additions.subscribe_subagent,
    ensures
        tag == additions.usage_summary && scopes.contains("orchestration:read"@) ==> routed(additions, scopes, tag)
            == Ok::<Route, DispatchError<Text, Value>>(
            Route { call: Call::UsageSummary, answered: Answered::Deferred },
        ),
        tag == additions.usage_summary && !scopes.contains("orchestration:read"@) ==> (routed(additions, scopes, tag)
            matches Err(DispatchError::Declared(error)) && json::holds(
            error,
            "_tag"@,
            Value::Text("EnvironmentAuthorizationError"@),
        ) && json::holds(error, "requiredScope"@, Value::Text("orchestration:read"@)) && json::holds(
            error,
            "message"@,
            Value::Text("This method requires orchestration:read access."@),
        )),
        tag == additions.subscribe_subagent ==> routed(additions, scopes, tag) == Ok::<Route, DispatchError<Text, Value>>(
            Route { call: Call::SubscribeSubagent, answered: Answered::Stream },
        ),
        tag != additions.usage_summary && tag != additions.subscribe_subagent ==> routed(additions, scopes, tag) == Err::<
            Route,
            DispatchError<Text, Value>,
        >(DispatchError::UnknownMethod(tag)),
{
    let fields = needs_reading()->Object_0;
    assert(fields[0].0 == "_tag"@ && fields[1].0 == "message"@ && fields[2].0 == "requiredScope"@);
}

/// A stream resumes after the sequence number that its payload names, where that is
/// one, and from the beginning otherwise.
pub proof fn a_stream_resumes_where_it_was_asked_to(fields: Seq<(Text, Value)>, value: Value)
    ensures
        json::field(fields, "afterSequence"@) matches Some(Value::Whole(n)) ==> (n <= i64::MAX ==> cursor_in(
            Value::Object(fields),
        ) == Some(n as i64)) && (n > i64::MAX ==> cursor_in(Value::Object(fields)) is None),
        !(json::field(fields, "afterSequence"@) matches Some(Value::Whole(_))) ==> cursor_in(Value::Object(fields))
            is None,
        !(value is Object) ==> cursor_in(value) is None,
{
}

/// Skills move where a project is made or removed, and with nothing else.
pub proof fn skills_move_with_projects(fields: Seq<(Text, Value)>, named: Text, value: Value)
    ensures
        json::field(fields, "type"@) == Some(Value::Text(named)) ==> (moves_skills(Value::Object(fields)) <==> named
            == "project.create"@ || named == "project.delete"@),
        !(json::field(fields, "type"@) matches Some(Value::Text(_))) ==> !moves_skills(Value::Object(fields)),
        !(value is Object) ==> !moves_skills(value),
{
}

/// What is remembered is told as it is: the configuration, the settings, and that the
/// server is there. Nothing else is remembered.
pub proof fn what_is_remembered_is_told(method: Method, config: Value, settings: Value)
    ensures
        remembered(Method::ServerGetConfig, config, settings) == Some(config),
        remembered(Method::ServerGetSettings, config, settings) == Some(settings),
        remembered(Method::ServerProbe, config, settings) == Some(Value::Object(Seq::empty())),
        !(method is ServerGetConfig || method is ServerGetSettings || method is ServerProbe) ==> remembered(
            method,
            config,
            settings,
        ) is None,
{
}

/// A declared error holds its tag and its message.
pub proof fn an_error_declares_itself(tag: Text, message: Text)
    ensures
        json::holds(declares(tag, message), "_tag"@, Value::Text(tag)),
        json::holds(declares(tag, message), "message"@, Value::Text(message)),
        declares(tag, message)->Object_0.len() == 2,
{
    let fields = declares(tag, message)->Object_0;
    assert(fields[0].0 == "_tag"@ && fields[1].0 == "message"@);
}

/// What a call was given is taken without the space around it, and where nothing is
/// left it is refused by the name of what it lacks.
pub proof fn what_is_blank_is_refused_by_its_name(value: &str, tag: &str, subject: &str, out: Result<String, Json>)
    requires
        call_ensures(non_blank, (value, tag, subject), out),
    ensures
        out is Ok <==> text::trimmed(value@).len() > 0,
        out matches Ok(given) ==> given@ == text::trimmed(value@),
        out matches Err(refused) ==> json::holds(refused@, "_tag"@, Value::Text(tag@)) && json::holds(
            refused@,
            "message"@,
            Value::Text("This call needs a "@ + subject@ + "; none was given."@),
        ),
{
    an_error_declares_itself(tag@, "This call needs a "@ + subject@ + "; none was given."@);
}

/// An error is sent as it was declared, and an unknown method is refused by its own
/// tag.
pub proof fn an_error_is_sent_as_it_is(error: DispatchError<String, Json>, out: Json, reason: &str, unreadable: Json)
    requires
        call_ensures(DispatchError::<String, Json>::to_error, (&error,), out),
        call_ensures(archive_unreadable, (reason,), unreadable),
    ensures
        error matches DispatchError::Declared(declared) ==> out@ == declared@,
        error matches DispatchError::UnknownMethod(tag) ==> out@ == refusals::refused(tag@),
        json::holds(unreadable@, "_tag"@, Value::Text("OrchestrationGetSnapshotError"@)),
        json::holds(
            unreadable@,
            "message"@,
            Value::Text("Could not read the archived conversations: "@ + reason@),
        ),
{
    an_error_declares_itself(
        "OrchestrationGetSnapshotError"@,
        "Could not read the archived conversations: "@ + reason@,
    );
}

} // verus!
