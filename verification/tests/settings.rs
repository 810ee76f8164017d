//! The settings: what a patch may say, what the file keeps and what a client sees.

use laplus::config::AgentSettings;
use laplus::config::Instance;
use laplus::config::InstanceConfig;
use laplus::config::Observability;
use laplus::config::Providers;
use laplus::config::Settings;
use laplus::config::SettingsOf;
use laplus::config::ThreadEnvMode;
use laplus::json::Json;
use laplus::keyed::Keyed;
use laplus::provider::DriverKind;
use laplus::settings::apply;
use laplus::settings::changed;
use laplus::settings::is_web;
use laplus::settings::load;
use laplus::settings::load_file;
use laplus::settings::model::Found;
use laplus::settings::public_value;
use laplus::settings::reconfigure;
use laplus::settings::removed;
use laplus::settings::stored_value;
use laplus::settings::Update;
use laplus::settings::ERROR;
use laplus::settings::FILE;
use laplus::web::UrlParts;

/// A JSON document, as the library holds one.
fn json(document: &str) -> Json {
    read(&serde_json::from_str(document).expect("a document"))
}

fn read(value: &serde_json::Value) -> Json {
    match value {
        serde_json::Value::Null => Json::Null,
        serde_json::Value::Bool(b) => Json::Bool(*b),
        serde_json::Value::Number(n) => match n.as_u64() {
            Some(n) => Json::Whole(n),
            None => Json::Number(n.to_string()),
        },
        serde_json::Value::String(s) => Json::Text(s.clone()),
        serde_json::Value::Array(items) => Json::Array(items.iter().map(read).collect()),
        serde_json::Value::Object(fields) => {
            let mut fields: Vec<(String, Json)> =
                fields.iter().map(|(name, value)| (name.clone(), read(value))).collect();
            fields.sort_by(|a, b| a.0.cmp(&b.0));
            Json::Object(fields)
        }
    }
}

/// What a value has under a name.
fn at<'a>(value: &'a Json, name: &str) -> Option<&'a Json> {
    value.as_object().and_then(|fields| fields.iter().find(|field| field.0 == name)).map(|field| &field.1)
}

fn text_at<'a>(value: &'a Json, name: &str) -> &'a str {
    at(value, name).and_then(|value| value.as_text()).expect("a text")
}

fn fields(document: &str) -> Vec<(String, Json)> {
    match json(document) {
        Json::Object(fields) => fields,
        other => panic!("{other:?} is no object"),
    }
}

fn agent(driver: DriverKind) -> AgentSettings<String, Vec<String>> {
    AgentSettings {
        enabled: true,
        binary_path: driver.command_name(),
        home_path: String::new(),
        launch_args: String::new(),
        custom_models: Vec::new(),
    }
}

fn instance(driver: DriverKind) -> Instance<String, Vec<String>> {
    let agent = agent(driver);
    Instance {
        display_name: driver.display_name(),
        enabled: true,
        config: match driver {
            DriverKind::Claude => InstanceConfig::Claude {
                binary_path: agent.binary_path,
                home_path: agent.home_path,
                launch_args: agent.launch_args,
                custom_models: agent.custom_models,
            },
            _ => InstanceConfig::Codex {
                binary_path: agent.binary_path,
                home_path: agent.home_path,
                launch_args: agent.launch_args,
                custom_models: agent.custom_models,
            },
        },
    }
}

fn defaults() -> Settings {
    let mut instances = Keyed::new();
    for driver in [DriverKind::Claude, DriverKind::Codex] {
        instances.insert(driver.as_str().to_owned(), instance(driver));
    }
    SettingsOf {
        enable_assistant_streaming: true,
        enable_provider_update_checks: true,
        new_worktrees_start_from_origin: false,
        add_project_base_directory: String::new(),
        automatic_git_fetch_interval: 30_000,
        default_thread_env_mode: ThreadEnvMode::Local,
        observability: Observability { otlp_traces_url: String::new(), otlp_metrics_url: String::new() },
        providers: Providers { claude_agent: agent(DriverKind::Claude), codex: agent(DriverKind::Codex) },
        provider_instances: instances,
        text_generation_model_selection: json(r#"{"instanceId": "codex", "model": "small"}"#),
    }
}

/// The settings as a value, to be held against each other.
fn all(settings: &Settings) -> Json {
    stored_value(settings)
}

/// How a value is shown in a sentence.
fn shown(value: &Json) -> String {
    match value {
        Json::Null => "null".to_owned(),
        Json::Bool(b) => b.to_string(),
        Json::Whole(n) => n.to_string(),
        Json::Number(n) => n.clone(),
        Json::Text(text) => serde_json::to_string(text).expect("a text"),
        Json::Array(items) => format!("[{}]", items.iter().map(shown).collect::<Vec<_>>().join(",")),
        Json::Object(fields) => format!(
            "{{{}}}",
            fields
                .iter()
                .map(|(name, value)| format!("{}:{}", serde_json::to_string(name).expect("a text"), shown(value)))
                .collect::<Vec<_>>()
                .join(",")
        ),
    }
}

fn patched(patch: &str) -> Result<Settings, String> {
    let mut settings = defaults();
    let patch = fields(patch);
    match apply(&mut settings, &patch) {
        Ok(()) => Ok(settings),
        Err(why) => Err(why.sentence(&why.value.map(shown).unwrap_or_default())),
    }
}

#[test]
fn a_patch_changes_what_it_names_and_nothing_else() {
    let before = defaults();
    let after = patched(r#"{"addProjectBaseDirectory": "/work"}"#).expect("applies");

    assert_eq!(after.add_project_base_directory, "/work");
    assert_eq!(after.enable_provider_update_checks, before.enable_provider_update_checks);
    assert_eq!(after.automatic_git_fetch_interval, before.automatic_git_fetch_interval);
    assert_eq!(after.providers.claude_agent, before.providers.claude_agent);
}

#[test]
fn a_nested_patch_leaves_its_neighbours_standing() {
    let path = format!("/opt/{}", DriverKind::Claude.command_name());
    let after = patched(&format!(r#"{{"providers": {{"claudeAgent": {{"binaryPath": "{path}"}}}}}}"#)).expect("applies");

    assert_eq!(after.providers.claude_agent.binary_path, path);
    assert!(after.providers.claude_agent.enabled, "the neighbour moved");
    assert_eq!(after.providers.claude_agent.custom_models, Vec::<String>::new());
}

#[test]
fn a_refused_patch_leaves_every_previous_value_intact() {
    let mut settings = defaults();
    let before = all(&settings);

    let patch = fields(r#"{"addProjectBaseDirectory": "/work", "automaticGitFetchInterval": -5}"#);
    let why = apply(&mut settings, &patch).expect_err("a refusal");

    let why = why.sentence(&why.value.map(shown).unwrap_or_default());
    assert!(why.contains("automaticGitFetchInterval"), "{why}");
    assert_eq!(all(&settings), before, "a refused patch was half applied");
}

#[test]
fn an_invalid_value_is_refused_with_a_sentence_naming_the_field() {
    for (patch, named) in [
        (r#"{"enableProviderUpdateChecks": "yes"}"#, "enableProviderUpdateChecks"),
        (r#"{"automaticGitFetchInterval": 999999999999}"#, "automaticGitFetchInterval"),
        (r#"{"defaultThreadEnvMode": "elsewhere"}"#, "defaultThreadEnvMode"),
        (r#"{"addProjectBaseDirectory": 7}"#, "addProjectBaseDirectory"),
        (r#"{"observability": {"otlpTracesUrl": 7}}"#, "otlpTracesUrl"),
        (r#"{"providers": {"claudeAgent": {"customModels": "opus"}}}"#, "customModels"),
        (r#"{"providers": {"claudeAgent": {"customModels": [""]}}}"#, "customModels"),
        (r#"{"textGenerationModelSelection": {"model": "x"}}"#, "instanceId"),
        (r#"{"nonsense": true}"#, "nonsense"),
    ] {
        let why = patched(patch).map(|settings| all(&settings)).expect_err("a refusal");
        assert!(why.contains(named), "{patch} was refused with {why}");
    }
}

#[test]
fn a_setting_this_server_does_not_have_says_so_rather_than_ignoring_it() {
    for (patch, expected) in [
        (r#"{"enableAssistantStreaming": false}"#, "always streams"),
        (r#"{"defaultThreadEnvMode": "worktree"}"#, "own worktree"),
        (r#"{"providers": {"codex": {"shadowHomePath": "/accounts/work"}}}"#, "account-selection"),
    ] {
        let why = patched(patch).map(|settings| all(&settings)).expect_err("a refusal");
        assert!(why.contains(expected), "{patch} was refused with {why}");
    }
}

#[test]
fn a_reported_setting_may_be_repeated_even_though_it_cannot_be_changed() {
    let after = patched(
        r#"{"enableAssistantStreaming": true, "providerInstances": {}, "defaultThreadEnvMode": "local"}"#,
    )
    .expect("a patch that changes nothing is not a change");
    assert_eq!(all(&after), all(&defaults()));
}

#[test]
fn a_machine_with_no_settings_file_gets_the_defaults_quietly() {
    let (loaded, complaints) = load_file(defaults(), &Found::Missing);
    assert_eq!(all(&loaded), all(&defaults()));
    assert!(complaints.is_empty());
}

/// What a file of this text is found to be.
fn found(raw: &str) -> Found<String, Json> {
    match serde_json::from_str::<serde_json::Value>(raw) {
        Ok(document) => Found::Document(read(&document)),
        Err(error) => Found::NotJson(error.to_string()),
    }
}

#[test]
fn a_corrupt_file_falls_back_to_the_defaults() {
    let corrupt = found("{ not json");
    let (loaded, complaints) = load_file(defaults(), &corrupt);
    assert_eq!(all(&loaded), all(&defaults()));
    assert_eq!(complaints.len(), 1);
    assert!(complaints[0].sentence("").starts_with("it is not valid JSON: "));
}

#[test]
fn a_file_that_holds_something_else_falls_back_too() {
    let list = found("[1, 2]");
    let (loaded, complaints) = load_file(defaults(), &list);
    assert_eq!(all(&loaded), all(&defaults()));
    assert_eq!(complaints.len(), 1);
    assert_eq!(complaints[0].sentence(""), "it is not a settings object.");

    let unreadable = Found::Unreadable("permission denied".to_string());
    let (loaded, complaints) = load_file(defaults(), &unreadable);
    assert_eq!(all(&loaded), all(&defaults()));
    assert_eq!(complaints[0].sentence(""), "it could not be read: permission denied");
}

#[test]
fn a_field_that_is_refused_keeps_its_default_and_the_log_says_so() {
    let odd = found(r#"{"addProjectBaseDirectory": "/work", "enableAssistantStreaming": 7}"#);
    let (loaded, complaints) = load_file(defaults(), &odd);
    assert_eq!(loaded.add_project_base_directory, "/work");
    assert_eq!(loaded.enable_assistant_streaming, defaults().enable_assistant_streaming);
    assert_eq!(complaints.len(), 1);
    assert!(complaints[0].sentence("7").ends_with(" That setting kept its default."));
}

#[test]
fn what_is_written_is_read_back() {
    let model = format!("{}-opus-5", DriverKind::Claude.command_name());
    let settings = patched(&format!(
        r#"{{
            "addProjectBaseDirectory": "/work",
            "providers": {{
                "claudeAgent": {{"customModels": ["{model}"]}},
                "codex": {{
                    "binaryPath": "/opt/codex",
                    "homePath": "/home/developer/.codex",
                    "launchArgs": "--config model_reasoning_effort=high"
                }}
            }}
        }}"#
    ))
    .expect("saves");

    let written = match stored_value(&settings) {
        Json::Object(fields) => fields,
        other => panic!("{other:?} is no object"),
    };
    let (loaded, complaints) = load(defaults(), &written);
    assert!(complaints.is_empty());
    assert_eq!(all(&loaded), all(&settings));
    assert_eq!(loaded.add_project_base_directory, "/work");
    assert_eq!(loaded.providers.claude_agent.custom_models, vec![model]);
    assert_eq!(loaded.providers.codex.binary_path, "/opt/codex");
    assert_eq!(loaded.providers.codex.home_path, "/home/developer/.codex");
    assert_eq!(loaded.providers.codex.launch_args, "--config model_reasoning_effort=high");
}

#[test]
fn a_file_from_another_build_loses_only_the_setting_this_build_lacks() {
    let stored = fields(r#"{"addProjectBaseDirectory": "/work", "somethingNewer": true}"#);
    let (loaded, complaints) = load(defaults(), &stored);
    assert_eq!(
        loaded.add_project_base_directory, "/work",
        "one unreadable key threw away a setting beside it"
    );
    assert_eq!(complaints.len(), 1);
}

#[test]
fn a_call_without_a_patch_is_refused_by_name() {
    for payload in ["{}", r#"{"patch": "everything"}"#] {
        let error = match Update::read(json(payload), &format!("somewhere/{FILE}")) {
            Ok(_) => panic!("{payload} was taken"),
            Err(error) => error,
        };
        assert_eq!(text_at(&error, "_tag"), ERROR, "{payload}");
        assert!(at(&error, "cause").and_then(|cause| cause.as_text()).is_some(), "{payload}");
        assert_eq!(text_at(&error, "operation"), "normalize", "{payload}");
        assert!(text_at(&error, "settingsPath").ends_with(FILE), "{error:?}");
    }
}

#[test]
fn settings_that_were_not_saved_are_not_in_force() {
    let mut settings = defaults();
    let update = Update::read(json(r#"{"patch": {"addProjectBaseDirectory": "/work"}}"#), FILE).expect("a patch");
    let next = update.propose(&settings).expect("applies");
    let error = reconfigure(&mut settings, next, Err("disk full".to_owned()), FILE).expect_err("not saved");
    assert_eq!(text_at(&error, "operation"), "write-file");
    assert_eq!(text_at(&error, "cause"), "they were not saved: disk full");
    assert_eq!(settings.add_project_base_directory, "");

    let next = update.propose(&settings).expect("applies");
    assert_eq!(reconfigure(&mut settings, next, Ok(()), FILE), Ok(()));
    assert_eq!(settings.add_project_base_directory, "/work");
}

const WITH_PASSWORD: &str = r#"{
    "providerInstances": {
        "remote": {
            "driver": "opencode",
            "displayName": "Remote",
            "config": {"serverUrl": "https://code.example.com", "serverPassword": "hush"}
        }
    }
}"#;

#[test]
fn a_password_is_kept_and_not_shown() {
    let settings = patched(WITH_PASSWORD).expect("applies");
    let instances = |value: &Json| shown(at(value, "providerInstances").expect("instances"));
    assert!(instances(&stored_value(&settings)).contains("hush"));
    assert!(!instances(&public_value(&settings)).contains("hush"));
    assert!(instances(&public_value(&settings)).contains("https://code.example.com"));
}

#[test]
fn the_instances_a_client_is_shown_may_be_repeated_alone() {
    let mut settings = patched(WITH_PASSWORD).expect("applies");
    let before = all(&settings);
    let instances: Vec<(String, Json)> = fields(&shown(&public_value(&settings)))
        .into_iter()
        .filter(|(name, _)| name == "providerInstances")
        .collect();
    assert!(apply(&mut settings, &instances).is_ok());
    assert_eq!(all(&settings), before, "a password that was not shown was lost");
}

#[test]
fn instances_that_are_written_down_describe_themselves() {
    let once = patched(WITH_PASSWORD).expect("applies");
    let written: Vec<(String, Json)> = fields(&shown(&stored_value(&once)))
        .into_iter()
        .filter(|(name, _)| name == "providerInstances")
        .collect();
    let mut again = defaults();
    assert!(apply(&mut again, &written).is_ok());
    assert_eq!(all(&again), all(&once));
    assert!(again.provider_instances.get("remote").expect("an instance").enabled);
}

#[test]
fn a_server_url_has_to_be_one() {
    let why = patched(
        r#"{"providerInstances": {"remote": {"driver": "opencode", "displayName": "R", "config": {"serverUrl": "nowhere"}}}}"#,
    )
    .map(|settings| all(&settings))
    .expect_err("a refusal");
    assert!(why.contains("serverUrl"), "{why}");
}

#[test]
fn instances_are_compared_by_what_they_say() {
    let before = defaults();
    let after = patched(WITH_PASSWORD).expect("applies");
    assert_eq!(changed(&before.provider_instances, &after.provider_instances), ["remote"]);
    assert!(removed(&before.provider_instances, &after.provider_instances).is_empty());
    assert_eq!(removed(&after.provider_instances, &before.provider_instances), ["remote"]);
    assert!(changed(&after.provider_instances, &before.provider_instances).is_empty());
}

#[test]
fn configuring_by_driver_brings_the_default_instance_in_line() {
    let after = patched(r#"{"providers": {"codex": {"binaryPath": "/opt/codex"}}}"#).expect("applies");
    match &after.provider_instances.get("codex").expect("the default instance").config {
        InstanceConfig::Codex { binary_path, .. } => assert_eq!(binary_path, "/opt/codex"),
        other => panic!("{other:?}"),
    }
    assert_eq!(DriverKind::Codex.display_name(), "Codex");
    assert_eq!(DriverKind::OpenCode.display_name(), "OpenCode");
    assert_eq!(DriverKind::Claude.command_name(), DriverKind::Claude.as_str()[..6]);
}

#[test]
fn a_server_of_an_agent_is_reached_over_http() {
    let parts = |scheme: &str| {
        Some(UrlParts {
            scheme: scheme.to_owned(),
            host: Some("localhost".to_owned()),
            port: Some(4096),
            known_port: Some(4096),
            username: String::new(),
            password: None,
            path: "/".to_owned(),
            query: None,
            fragment: None,
        })
    };
    assert!(is_web(&parts("http")));
    assert!(is_web(&parts("https")));
    assert!(!is_web(&parts("ftp")));
    assert!(!is_web(&None));
}

#[test]
fn an_unnamed_observability_setting_stands() {
    let mut settings = defaults();
    settings.observability.otlp_metrics_url = "https://metrics.example.com".to_owned();
    let patch = fields(r#"{"observability": {"otlpTracesUrl": "https://traces.example.com"}}"#);
    assert!(apply(&mut settings, &patch).is_ok());
    assert_eq!(settings.observability.otlp_traces_url, "https://traces.example.com");
    assert_eq!(settings.observability.otlp_metrics_url, "https://metrics.example.com");
}

#[test]
fn an_unnamed_driver_stands() {
    let before = defaults();
    let after = patched(r#"{"providers": {"codex": {"enabled": false}}}"#).expect("applies");
    assert!(!after.providers.codex.enabled);
    assert_eq!(after.providers.claude_agent, before.providers.claude_agent);
}
