//! Which call a tag is, and how it is answered.

use laplus::access::Grant;
use laplus::config::AgentSettings;
use laplus::config::Observability;
use laplus::config::Providers;
use laplus::config::Settings;
use laplus::config::SettingsOf;
use laplus::config::ThreadEnvMode;
use laplus::json::Json;
use laplus::keyed::Keyed;
use laplus::refs::Asked;
use laplus::refs::Kind;
use laplus::refusals::Method;
use laplus::rpc::archive_unreadable;
use laplus::rpc::at_once;
use laplus::rpc::changes_where_skills_live;
use laplus::rpc::declared;
use laplus::rpc::dispatch;
use laplus::rpc::dispatch_without_grant;
use laplus::rpc::non_blank;
use laplus::rpc::payload_field;
use laplus::rpc::payloads::prepare;
use laplus::rpc::payloads::rescans_skills;
use laplus::rpc::payloads::shape;
use laplus::rpc::payloads::Payload;
use laplus::rpc::payloads::Prepared;
use laplus::rpc::payloads::Shape;
use laplus::rpc::resume_cursor;
use laplus::rpc::Additions;
use laplus::rpc::Answered;
use laplus::rpc::Call;
use laplus::rpc::DispatchError;
use laplus::rpc::Route;
use laplus::rpc::SERVER_GET_CONFIG;
use laplus::rpc::SERVER_PROBE;
use laplus::rpc::SUBSCRIBE_SERVER_CONFIG;
use laplus::settings::public_value;
use laplus::settings::Update;
use laplus::settings::GET;

/// A JSON document, as the library holds one.
fn json(document: &str) -> Json {
    read(&serde_json::from_str(document).expect("a document"))
}

fn read(value: &serde_json::Value) -> Json {
    match value {
        serde_json::Value::Null => Json::Null,
        serde_json::Value::Bool(b) => Json::Bool(*b),
        serde_json::Value::Number(n) => match n.as_u64() {
            Some(n) => Json::Whole(n),
            None => Json::Number(n.to_string()),
        },
        serde_json::Value::String(s) => Json::Text(s.clone()),
        serde_json::Value::Array(items) => Json::Array(items.iter().map(read).collect()),
        serde_json::Value::Object(fields) => {
            let mut fields: Vec<(String, Json)> =
                fields.iter().map(|(name, value)| (name.clone(), read(value))).collect();
            fields.sort_by(|a, b| a.0.cmp(&b.0));
            Json::Object(fields)
        }
    }
}

/// What a value has under a name.
fn at<'a>(value: &'a Json, name: &str) -> Option<&'a Json> {
    value.as_object().and_then(|fields| fields.iter().find(|field| field.0 == name)).map(|field| &field.1)
}

fn text_at<'a>(value: &'a Json, name: &str) -> &'a str {
    at(value, name).and_then(|value| value.as_text()).expect("a text")
}

fn additions() -> Additions<String> {
    Additions { usage_summary: "usage.summary".to_owned(), subscribe_subagent: "subscribeSubagent".to_owned() }
}

fn grant(scopes: &[&str]) -> Grant<String, Vec<String>> {
    Grant {
        subject: "window".to_owned(),
        scopes: scopes.iter().map(|scope| scope.to_string()).collect(),
        label: None,
    }
}

fn answered(tag: &str) -> Answered {
    dispatch_without_grant(&additions(), tag).expect("dispatches").answered
}

#[test]
fn only_a_non_negative_integer_is_a_cursor() {
    assert_eq!(resume_cursor(&json(r#"{"afterSequence": 4}"#)), Some(4));
    assert_eq!(
        resume_cursor(&json(r#"{"afterSequence": 0}"#)),
        Some(0),
        "a client that has read an empty registry holds a real position"
    );

    assert_eq!(resume_cursor(&json(r#"{"afterSequence": -1}"#)), None, "negative");
    assert_eq!(resume_cursor(&json(r#"{"afterSequence": null}"#)), None, "null");
    assert_eq!(resume_cursor(&json(r#"{"afterSequence": "3"}"#)), None, "a string");
    assert_eq!(resume_cursor(&json(r#"{"afterSequence": 1.5}"#)), None, "not whole");
    assert_eq!(resume_cursor(&json("{}")), None, "a client that holds nothing");
    assert_eq!(
        resume_cursor(&json(r#"{"afterSequence": 9223372036854775808}"#)),
        None,
        "more than a sequence can count"
    );
}

#[test]
fn the_liveness_calls_are_answered_at_once() {
    for (tag, method) in [(SERVER_GET_CONFIG, Method::ServerGetConfig), (SERVER_PROBE, Method::ServerProbe)] {
        for _ in 0..3 {
            assert_eq!(
                dispatch_without_grant(&additions(), tag),
                Ok(Route { call: Call::Contract(method), answered: Answered::Value })
            );
        }
    }
}

#[test]
fn the_subscriptions_answer_with_a_stream() {
    for tag in [
        SUBSCRIBE_SERVER_CONFIG,
        "orchestration.subscribeShell",
        "orchestration.subscribeThread",
        "subscribeTerminalMetadata",
    ] {
        assert_eq!(answered(tag), Answered::Stream, "{tag} does not stream");
    }
}

#[test]
fn the_filesystem_methods_answer_with_deferred_work() {
    for tag in ["filesystem.browse", "projects.listEntries"] {
        assert_eq!(answered(tag), Answered::Deferred, "{tag} answered inline");
    }
}

#[test]
fn the_terminal_calls_that_end_a_process_answer_with_deferred_work() {
    for tag in ["terminal.close", "terminal.restart"] {
        assert_eq!(answered(tag), Answered::Deferred, "{tag} answered inline");
    }
    assert_eq!(answered("terminal.clear"), Answered::Value);
}

#[test]
fn an_unknown_tag_becomes_a_typed_error_naming_the_method() {
    let error = dispatch_without_grant(&additions(), "no.such.method").expect_err("not implemented");
    assert_eq!(error, DispatchError::UnknownMethod("no.such.method".to_owned()));

    let payload = error.to_error();
    assert_eq!(text_at(&payload, "_tag"), "ServerMethodNotImplementedError");
    assert_eq!(text_at(&payload, "method"), "no.such.method");
    assert!(text_at(&payload, "message").contains("no.such.method"));
}

#[test]
fn every_method_this_server_refuses_answers_under_its_own_union() {
    let mut refused = std::collections::BTreeSet::new();
    for method in Method::all() {
        let tag = method.as_str();
        if let Err(error) = dispatch_without_grant(&additions(), tag) {
            assert_eq!(error, DispatchError::UnknownMethod(tag.to_owned()));
            assert_eq!(text_at(&error.to_error(), "_tag"), "EnvironmentAuthorizationError", "{tag}");
            refused.insert(tag);
        }
    }
    assert!(refused.contains("previewAutomation.respond"), "{refused:?}");
}

#[test]
fn the_diff_methods_answer_with_deferred_work() {
    for tag in ["orchestration.getTurnDiff", "orchestration.getFullThreadDiff"] {
        assert_eq!(answered(tag), Answered::Deferred, "{tag} answered inline");
    }
}

#[test]
fn only_the_summary_of_usage_needs_a_scope() {
    let refused = dispatch_without_grant(&additions(), "usage.summary").expect_err("a scope is needed");
    let error = refused.to_error();
    assert_eq!(
        error,
        json(
            r#"{
                "_tag": "EnvironmentAuthorizationError",
                "message": "This method requires orchestration:read access.",
                "requiredScope": "orchestration:read"
            }"#
        )
    );
    assert_eq!(
        dispatch(&additions(), &grant(&["access:read", "orchestration:read"]), "usage.summary"),
        Ok(Route { call: Call::UsageSummary, answered: Answered::Deferred })
    );
    assert!(dispatch(&additions(), &grant(&["access:read"]), "usage.summary").is_err());
    assert_eq!(
        dispatch_without_grant(&additions(), "subscribeSubagent"),
        Ok(Route { call: Call::SubscribeSubagent, answered: Answered::Stream })
    );
}

#[test]
fn a_declared_error_is_a_tag_and_a_sentence() {
    assert_eq!(
        declared("FilesystemBrowseError", "No such folder."),
        json(r#"{"_tag": "FilesystemBrowseError", "message": "No such folder."}"#)
    );
    assert_eq!(non_blank("  x ", "SomeError", "workspace root"), Ok("x".to_owned()));
    let refused = non_blank("   ", "SomeError", "workspace root").expect_err("blank");
    assert_eq!(text_at(&refused, "_tag"), "SomeError");
    assert_eq!(text_at(&refused, "message"), "This call needs a workspace root; none was given.");
}

#[test]
fn a_payload_is_read_by_its_fields() {
    assert_eq!(payload_field(&json(r#"{"a": 1}"#), "a"), Some(&Json::Whole(1)));
    assert_eq!(payload_field(&json(r#"{"a": 1}"#), "b"), None);
    assert_eq!(payload_field(&json("[1]"), "a"), None);
    for (kind, moved) in [("project.create", true), ("project.delete", true), ("thread.create", false)] {
        assert_eq!(changes_where_skills_live(&json(&format!(r#"{{"type": "{kind}"}}"#))), moved);
    }
    assert!(!changes_where_skills_live(&json("{}")));
}

fn settings() -> Settings {
    let agent = || AgentSettings {
        enabled: true,
        binary_path: "agent".to_owned(),
        home_path: String::new(),
        launch_args: String::new(),
        custom_models: Vec::new(),
    };
    SettingsOf {
        enable_assistant_streaming: true,
        enable_provider_update_checks: true,
        new_worktrees_start_from_origin: false,
        add_project_base_directory: "/work".to_owned(),
        automatic_git_fetch_interval: 0,
        default_thread_env_mode: ThreadEnvMode::Local,
        observability: Observability { otlp_traces_url: String::new(), otlp_metrics_url: String::new() },
        providers: Providers { claude_agent: agent(), codex: agent() },
        provider_instances: Keyed::new(),
        text_generation_model_selection: Json::Null,
    }
}

/// What a tag is answered with from memory.
fn value(tag: &str, config: &Json) -> Option<Json> {
    match dispatch_without_grant(&additions(), tag).expect("dispatches").call {
        Call::Contract(method) => at_once(method, config, &settings()),
        _ => None,
    }
}

#[test]
fn get_config_returns_the_config() {
    let config = json(r#"{"cwd": "/work", "providers": []}"#);
    assert_eq!(value(SERVER_GET_CONFIG, &config), Some(config.copy()));
}

#[test]
fn get_config_is_repeatable() {
    let config = json(r#"{"cwd": "/work", "providers": []}"#);
    let first = value(SERVER_GET_CONFIG, &config);
    let second = value(SERVER_GET_CONFIG, &config);
    assert!(first.is_some());
    assert_eq!(first, second);
}

#[test]
fn probe_answers_empty_every_time() {
    let config = json(r#"{"cwd": "/work"}"#);
    for _ in 0..3 {
        assert_eq!(value(SERVER_PROBE, &config), Some(json("{}")));
    }
}

#[test]
fn the_settings_are_answered_as_a_client_sees_them() {
    let config = json("{}");
    let answer = value(GET, &config).expect("an answer");
    assert_eq!(answer, public_value(&settings()));
    assert_eq!(text_at(&answer, "addProjectBaseDirectory"), "/work");
    assert_eq!(value("terminal.clear", &config), None);
}

#[test]
fn an_archive_that_cannot_be_read_says_so() {
    let refused = archive_unreadable("disk I/O error");
    assert_eq!(text_at(&refused, "_tag"), "OrchestrationGetSnapshotError");
    assert_eq!(text_at(&refused, "message"), "Could not read the archived conversations: disk I/O error");
}

const SETTINGS: &str = "/state/settings.json";

fn prepared(method: Method, payload: Payload<String, Json>) -> Result<Prepared<String, Update, Json>, Json> {
    match prepare(Call::Contract(method), payload, SETTINGS) {
        Ok(prepared) => Ok(prepared),
        Err(DispatchError::Declared(refusal)) => Err(refusal),
        Err(DispatchError::UnknownMethod(tag)) => panic!("{tag} is a method"),
    }
}

fn asked() -> Asked<String> {
    Asked { query: None, cursor: None, limit: None, ref_kind: None, include_matching_remote_refs: None }
}

fn unreadable() -> Payload<String, Json> {
    Payload::Unreadable { error: "missing field `cwd`".to_owned(), refusal: json(r#"{"_tag": "GitCommandError"}"#) }
}

#[test]
fn only_the_calls_about_branches_are_taken_apart() {
    assert_eq!(shape(Call::Contract(Method::VcsListRefs)), Shape::ListRefs);
    assert_eq!(shape(Call::Contract(Method::VcsCreateRef)), Shape::CreateRef);
    assert_eq!(shape(Call::Contract(Method::VcsSwitchRef)), Shape::SwitchRef);
    assert_eq!(shape(Call::Contract(Method::VcsInit)), Shape::Init);
    assert_eq!(shape(Call::Contract(Method::ServerUpdateSettings)), Shape::Sent);
    assert_eq!(shape(Call::Contract(Method::OrchestrationDispatchCommand)), Shape::Sent);
}

#[test]
fn a_payload_that_can_be_read_goes_on() {
    let listed = prepared(
        Method::VcsListRefs,
        Payload::ListRefs { cwd: " /work ".to_owned(), asked: Asked { ref_kind: Some("local".to_owned()), ..asked() } },
    );
    match listed {
        Ok(Prepared::ListRefs(call)) => {
            assert_eq!(call.cwd, "/work");
            assert_eq!(call.kind, Kind::Local);
        }
        other => panic!("{other:?}"),
    }
    let created = prepared(
        Method::VcsCreateRef,
        Payload::CreateRef { cwd: "/work".to_owned(), ref_name: " topic ".to_owned(), switch_ref: Some(true) },
    );
    match created {
        Ok(Prepared::CreateRef(call)) => {
            assert_eq!((call.cwd.as_str(), call.name.as_str(), call.switch), ("/work", "topic", true));
        }
        other => panic!("{other:?}"),
    }
    let switched = prepared(
        Method::VcsSwitchRef,
        Payload::SwitchRef { cwd: "/work".to_owned(), ref_name: "origin/topic".to_owned() },
    );
    match switched {
        Ok(Prepared::SwitchRef(call)) => assert_eq!((call.cwd.as_str(), call.name.as_str()), ("/work", "origin/topic")),
        other => panic!("{other:?}"),
    }
    match prepared(Method::VcsInit, Payload::Init { cwd: " /work".to_owned(), kind: None }) {
        Ok(Prepared::Init(call)) => assert_eq!(call.cwd, "/work"),
        other => panic!("{other:?}"),
    }
    let patch = json(r#"{"patch": {"addProjectBaseDirectory": "/work"}}"#);
    match prepared(Method::ServerUpdateSettings, Payload::Sent(patch)) {
        Ok(Prepared::UpdateSettings(update)) => {
            assert_eq!(update.patch, [("addProjectBaseDirectory".to_owned(), Json::Text("/work".to_owned()))]);
        }
        other => panic!("{other:?}"),
    }
    let typed = json(r#"{"data": "ls"}"#);
    assert_eq!(
        prepared(Method::TerminalWrite, Payload::Sent(json(r#"{"data": "ls"}"#))),
        Ok(Prepared::Sent(typed))
    );
}

#[test]
fn a_payload_that_asks_for_nothing_is_refused_before_anything_is_deferred() {
    let blank = "This call needs a workspace root; none was given.";
    let listed = prepared(Method::VcsListRefs, Payload::ListRefs { cwd: "  ".to_owned(), asked: asked() });
    let listed = listed.expect_err("a refusal");
    assert_eq!(text_at(&listed, "operation"), "vcs.listRefs");
    assert_eq!(text_at(&listed, "detail"), blank);
    let named = prepared(
        Method::VcsCreateRef,
        Payload::CreateRef { cwd: "/work".to_owned(), ref_name: "a..b".to_owned(), switch_ref: None },
    );
    let named = named.expect_err("a refusal");
    assert_eq!(text_at(&named, "operation"), "vcs.createRef");
    let switched =
        prepared(Method::VcsSwitchRef, Payload::SwitchRef { cwd: String::new(), ref_name: "topic".to_owned() });
    assert_eq!(text_at(&switched.expect_err("a refusal"), "operation"), "vcs.switchRef");
    let made = prepared(Method::VcsInit, Payload::Init { cwd: String::new(), kind: Some("git".to_owned()) });
    let made = made.expect_err("a refusal");
    assert_eq!(text_at(&made, "_tag"), "VcsRepositoryDetectionError");
    assert_eq!(text_at(&made, "detail"), blank);
    for (payload, cause) in [
        ("{}", "This call needs a patch of the settings to change; none was given."),
        (r#"{"patch": 7}"#, "The patch has to be a group of settings."),
    ] {
        let refused = prepared(Method::ServerUpdateSettings, Payload::Sent(json(payload)));
        let refused = refused.expect_err("a refusal");
        assert_eq!(text_at(&refused, "_tag"), "ServerSettingsError");
        assert_eq!(text_at(&refused, "cause"), cause);
        assert_eq!(text_at(&refused, "operation"), "normalize");
        assert_eq!(text_at(&refused, "settingsPath"), SETTINGS);
    }
}

#[test]
fn a_payload_of_another_shape_is_refused_under_its_methods_own_error() {
    for method in [Method::VcsListRefs, Method::VcsCreateRef, Method::VcsSwitchRef] {
        let refused = prepared(method, unreadable()).expect_err("a refusal");
        assert_eq!(refused, json(r#"{"_tag": "GitCommandError"}"#));
    }
    let refused = prepared(Method::VcsInit, unreadable()).expect_err("a refusal");
    assert_eq!(text_at(&refused, "_tag"), "VcsRepositoryDetectionError");
    assert_eq!(text_at(&refused, "detail"), "This call is malformed: missing field `cwd`");
    assert_eq!(text_at(&refused, "cwd"), "");
}

#[test]
fn a_command_that_was_carried_out_rescans_where_it_moved_skills() {
    let command = Call::Contract(Method::OrchestrationDispatchCommand);
    let created = json(r#"{"type": "project.create"}"#);
    assert!(rescans_skills(command, &created, true));
    assert!(rescans_skills(command, &json(r#"{"type": "project.delete"}"#), true));
    assert!(!rescans_skills(command, &created, false));
    assert!(!rescans_skills(command, &json(r#"{"type": "thread.create"}"#), true));
    assert!(!rescans_skills(Call::Contract(Method::TerminalWrite), &created, true));
}
