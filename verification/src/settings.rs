//! Settings: what the developer configured, kept between runs.
//!
//! A change arrives as a patch. A setting that the patch does not name stays as
//! it is, and so does everything where the patch is refused. The file that keeps
//! the settings is read by the same rules, one field at a time.

pub mod conduct;
pub mod fields;
pub mod laws;
pub mod model;

use crate::config::{
    AgentModel, AgentSettings, Instance, InstanceConfig, InstanceModel, Instances, Observability, Providers, Settings,
    SettingsModel, SettingsOf, Text, ThreadEnvMode,
};
use crate::config;
use crate::json::{Fields, Json, Value};
use crate::json;
use crate::keyed::Keyed;
use crate::keyed;
use crate::provider::DriverKind;
use crate::settings::fields::{
    AgentField, EnvelopeField, Field, ObservabilityField, OpenCodeField, ProviderField,
};
use crate::settings::model::{Found, Problem, Refusal, LONGEST_INTERVAL};
use crate::text;
use crate::web;
use crate::web::UrlParts;
use vstd::prelude::*;

verus! {

/// Reading the settings, without the rest of the configuration around them.
pub const GET: &'static str = "server.getSettings";

/// Changing some of them.
pub const UPDATE: &'static str = "server.updateSettings";

/// The tag that both methods refuse under.
pub const ERROR: &'static str = "ServerSettingsError";

/// The file, inside the app's data directory.
pub const FILE: &'static str = "settings.json";

/// Why a patch is refused.
pub type Said<'a> = Problem<String, &'a Json>;

impl<'a> View for Problem<String, &'a Json> {
    type V = Refusal;

    open spec fn view(&self) -> Refusal {
        Problem {
            before: self.before@,
            value: match self.value {
                Some(value) => Some(value@),
                None => None,
            },
            after: self.after@,
        }
    }
}

impl<'a> Problem<String, &'a Json> {
    /// The sentence. `shown` is the text of the value that it is about.
    pub fn sentence(&self, shown: &str) -> (out: String)
        ensures
            out@ == if self.value is Some {
                self.before@ + shown@ + self.after@
            } else {
                self.before@ + self.after@
            },
    {
        if self.value.is_some() {
            text::glue3(&self.before, shown, &self.after)
        } else {
            text::glue(&self.before, &self.after)
        }
    }
}

// ---------------------------------------------------------------------------
// Copies
// ---------------------------------------------------------------------------

/// The same texts again.
fn copy_list(list: &Vec<String>) -> (out: Vec<String>)
    ensures
        text::views(out@) == text::views(list@),
{
    let mut out: Vec<String> = Vec::new();
    let mut i: usize = 0;
    while i < list.len()
        invariant
            i <= list@.len(),
            out@.len() == i,
            forall|j: int| 0 <= j < i ==> (#[trigger] out@[j])@ == list@[j]@,
        decreases list@.len() - i,
    {
        out.push(list[i].clone());
        i += 1;
    }
    proof {
        assert(text::views(out@) =~= text::views(list@));
    }
    out
}

/// The same agent again.
fn copy_agent(agent: &AgentSettings<String, Vec<String>>) -> (out: AgentSettings<String, Vec<String>>)
    ensures
        out@ == agent@,
{
    AgentSettings {
        enabled: agent.enabled,
        binary_path: agent.binary_path.clone(),
        home_path: agent.home_path.clone(),
        launch_args: agent.launch_args.clone(),
        custom_models: copy_list(&agent.custom_models),
    }
}

/// The same instance again.
fn copy_instance(instance: &Instance<String, Vec<String>>) -> (out: Instance<String, Vec<String>>)
    ensures
        out@ == instance@,
{
    Instance {
        display_name: instance.display_name.clone(),
        enabled: instance.enabled,
        config: match &instance.config {
            InstanceConfig::Claude { binary_path, home_path, launch_args, custom_models } => InstanceConfig::Claude {
                binary_path: binary_path.clone(),
                home_path: home_path.clone(),
                launch_args: launch_args.clone(),
                custom_models: copy_list(custom_models),
            },
            InstanceConfig::Codex { binary_path, home_path, launch_args, custom_models } => InstanceConfig::Codex {
                binary_path: binary_path.clone(),
                home_path: home_path.clone(),
                launch_args: launch_args.clone(),
                custom_models: copy_list(custom_models),
            },
            InstanceConfig::OpenCode { binary_path, server_url, server_password, custom_models } =>
                InstanceConfig::OpenCode {
                    binary_path: binary_path.clone(),
                    server_url: server_url.clone(),
                    server_password: server_password.clone(),
                    custom_models: copy_list(custom_models),
                },
        },
    }
}

/// The same instances again.
fn copy_instances(instances: &Instances) -> (out: Instances)
    requires
        instances.wf(),
    ensures
        out.wf(),
        config::instances_of(out@) == config::instances_of(instances@),
{
    let mut out: Instances = Keyed::new();
    let mut i: usize = 0;
    while i < instances.len()
        invariant
            instances.wf(),
            out.wf(),
            i <= instances@.len(),
            forall|k: int|
                0 <= k < i ==> keyed::has(out@, (#[trigger] instances@[k]).0) && keyed::find(
                    out@,
                    instances@[k].0,
                )->Some_0@ == instances@[k].1@,
            forall|id: Text| #[trigger] keyed::has(out@, id) ==> keyed::has(instances@, id),
        decreases instances@.len() - i,
    {
        let ghost before = out@;
        out.insert(instances.key_at(i).clone(), copy_instance(instances.value_at(i)));
        proof {
            let name = instances@[i as int].0;
            assert forall|id: Text| #[trigger] keyed::has(out@, id) implies keyed::has(instances@, id) by {
                if id != name {
                    assert(keyed::find(out@, id) == keyed::find(before, id));
                }
            }
            assert forall|k: int| 0 <= k < i + 1 implies keyed::has(out@, (#[trigger] instances@[k]).0)
                && keyed::find(out@, instances@[k].0)->Some_0@ == instances@[k].1@ by {
                if instances@[k].0 == name {
                    keyed::found(instances@, k);
                    keyed::found(instances@, i as int);
                } else {
                    assert(keyed::find(out@, instances@[k].0) == keyed::find(before, instances@[k].0));
                }
            }
        }
        i += 1;
    }
    proof {
        assert forall|id: Text| keyed::has(instances@, id) implies #[trigger] keyed::has(out@, id) && keyed::find(
            out@,
            id,
        )->Some_0@ == keyed::find(instances@, id)->Some_0@ by {
            let k = keyed::place(instances@, id);
            assert(instances@[k].0 == id);
        }
        assert(config::instances_of(out@) =~= config::instances_of(instances@));
    }
    out
}

/// The same settings again.
fn copy_settings(settings: &Settings) -> (out: Settings)
    requires
        settings.provider_instances.wf(),
    ensures
        out@ == settings@,
        out.provider_instances.wf(),
{
    SettingsOf {
        enable_assistant_streaming: settings.enable_assistant_streaming,
        enable_provider_update_checks: settings.enable_provider_update_checks,
        new_worktrees_start_from_origin: settings.new_worktrees_start_from_origin,
        add_project_base_directory: settings.add_project_base_directory.clone(),
        automatic_git_fetch_interval: settings.automatic_git_fetch_interval,
        default_thread_env_mode: settings.default_thread_env_mode,
        observability: Observability {
            otlp_traces_url: settings.observability.otlp_traces_url.clone(),
            otlp_metrics_url: settings.observability.otlp_metrics_url.clone(),
        },
        providers: Providers {
            claude_agent: copy_agent(&settings.providers.claude_agent),
            codex: copy_agent(&settings.providers.codex),
        },
        provider_instances: copy_instances(&settings.provider_instances),
        text_generation_model_selection: settings.text_generation_model_selection.copy(),
    }
}

// ---------------------------------------------------------------------------
// Reading one value
// ---------------------------------------------------------------------------

/// A refusal that shows a value.
fn showing<'a>(before: String, value: &'a Json) -> (out: Said<'a>)
    ensures
        out@ == model::showing(before@, value@, "."@),
{
    Problem { before, value: Some(value), after: ".".to_owned() }
}

/// A refusal that shows none.
fn saying<'a>(sentence: String) -> (out: Said<'a>)
    ensures
        out@ == model::saying(sentence@),
{
    Problem { before: sentence, value: None, after: "".to_owned() }
}

/// A setting that is not one.
fn unrecognised<'a>(field: &str) -> (out: Said<'a>)
    ensures
        out@ == model::unrecognised(field@),
{
    saying(text::glue3("'", field, "' is not a setting this server knows."))
}

/// A value that has to be true or false.
fn boolean<'a>(field: &str, value: &'a Json) -> (out: Result<bool, Said<'a>>)
    ensures
        match out {
            Ok(b) => model::boolean(field@, value@) == Ok::<bool, Refusal>(b),
            Err(refused) => model::boolean(field@, value@) == Err::<bool, Refusal>(refused@),
        },
{
    match value {
        Json::Bool(b) => Ok(*b),
        _ => Err(showing(text::glue3("'", field, "' has to be true or false, and was "), value)),
    }
}

/// A value that has to be text.
fn written_text<'a>(field: &str, value: &'a Json) -> (out: Result<String, Said<'a>>)
    ensures
        match out {
            Ok(s) => model::written_text(field@, value@) == Ok::<Text, Refusal>(s@),
            Err(refused) => model::written_text(field@, value@) == Err::<Text, Refusal>(refused@),
        },
{
    match value.as_text() {
        Some(found) => Ok(text::trim(found)),
        None => Err(showing(text::glue3("'", field, "' has to be text, and was "), value)),
    }
}

/// A value that has to be text and is shown to nobody.
fn secret_text<'a>(field: &str, value: &'a Json) -> (out: Result<String, Said<'a>>)
    ensures
        match out {
            Ok(s) => model::secret_text(field@, value@) == Ok::<Text, Refusal>(s@),
            Err(refused) => model::secret_text(field@, value@) == Err::<Text, Refusal>(refused@),
        },
{
    match value.as_text() {
        Some(found) => Ok(text::trim(found)),
        None => Err(saying(text::glue3("'", field, "' has to be text."))),
    }
}

/// A value that has to be a group of settings.
fn group<'a>(field: &str, value: &'a Json) -> (out: Result<&'a Fields, Said<'a>>)
    ensures
        match out {
            Ok(fields) => model::group(field@, value@) == Ok::<Seq<(Text, Value)>, Refusal>(
                json::fields_view(fields@),
            ),
            Err(refused) => model::group(field@, value@) == Err::<Seq<(Text, Value)>, Refusal>(refused@),
        },
{
    match value.as_object() {
        Some(fields) => Ok(fields),
        None => Err(showing(text::glue3("'", field, "' has to be a group of settings, and was "), value)),
    }
}

/// A value that has to be a fetch interval.
fn interval<'a>(value: &'a Json) -> (out: Result<u64, Said<'a>>)
    ensures
        match out {
            Ok(n) => model::interval(value@) == Ok::<u64, Refusal>(n),
            Err(refused) => model::interval(value@) == Err::<u64, Refusal>(refused@),
        },
{
    if let Json::Whole(n) = value {
        if *n <= LONGEST_INTERVAL {
            return Ok(*n);
        }
    }
    Err(
        showing(
            "'automaticGitFetchInterval' has to be a whole number of milliseconds between 0 and 86400000, and was ".to_owned(),
            value,
        ),
    )
}

/// A value that has to name where a new thread works.
fn env_mode<'a>(value: &'a Json) -> (out: Result<ThreadEnvMode, Said<'a>>)
    ensures
        match out {
            Ok(mode) => model::env_mode(value@) == Ok::<ThreadEnvMode, Refusal>(mode),
            Err(refused) => model::env_mode(value@) == Err::<ThreadEnvMode, Refusal>(refused@),
        },
{
    if let Some(named) = value.as_text() {
        if text::same(named, "local") {
            return Ok(ThreadEnvMode::Local);
        }
        if text::same(named, "worktree") {
            return Err(
                saying(
                    "Threads that run in their own worktree are not supported by this server, so 'defaultThreadEnvMode' cannot be set to 'worktree'.".to_owned(),
                ),
            );
        }
    }
    Err(showing("'defaultThreadEnvMode' has to be one of local or worktree, and was ".to_owned(), value))
}

/// A value that has to be a list of model names.
fn models<'a>(value: &'a Json) -> (out: Result<Vec<String>, Said<'a>>)
    ensures
        match out {
            Ok(list) => model::models(value@) == Ok::<Seq<Text>, Refusal>(text::views(list@)),
            Err(refused) => model::models(value@) == Err::<Seq<Text>, Refusal>(refused@),
        },
{
    let Some(items) = value.as_array() else {
        return Err(showing("'customModels' has to be a list of model names, and was ".to_owned(), value));
    };
    let ghost seen = json::items_view(items@);
    let mut list: Vec<String> = Vec::new();
    let mut i: usize = 0;
    proof {
        assert(text::views(list@) =~= Seq::<Text>::empty());
    }
    while i < items.len()
        invariant
            i <= items@.len(),
            seen == json::items_view(items@),
            value@ == Value::Array(seen),
            model::folded(Seq::<Text>::empty(), seen, model::model_step(), i as nat) == Ok::<Seq<Text>, Refusal>(
                text::views(list@),
            ),
        decreases items@.len() - i,
    {
        let ghost before = text::views(list@);
        let ghost held = items@[i as int]@;
        assert(seen[i as int] == held);
        let mut named: Option<String> = None;
        if let Some(found) = items[i].as_text() {
            let trimmed = text::trim(found);
            if !trimmed.as_str().is_empty() {
                named = Some(trimmed);
            }
        }
        match named {
            Some(name) => {
                list.push(name);
                proof {
                    assert(text::views(list@) =~= before.push(name@));
                }
            },
            None => {
                let refused = showing("'customModels' has to hold model names, and held ".to_owned(), &items[i]);
                proof {
                    let step = model::model_step();
                    assert(step(before, held) == Err::<Seq<Text>, Refusal>(refused@));
                    model::a_refusal_stands(Seq::<Text>::empty(), seen, step, (i + 1) as nat, seen.len());
                }
                return Err(refused);
            },
        }
        i += 1;
    }
    Ok(list)
}

/// A letter, then letters, digits, `-` and `_`: at most 64 characters in all.
fn slug(s: &str) -> (out: bool)
    ensures
        out == model::slug(s@),
{
    let chars = text::characters(s);
    if chars.len() == 0 || chars.len() > 64 {
        return false;
    }
    let first = chars[0];
    if !(('a' <= first && first <= 'z') || ('A' <= first && first <= 'Z')) {
        return false;
    }
    let mut i: usize = 0;
    while i < chars.len()
        invariant
            chars@ == s@,
            i <= chars@.len(),
            forall|j: int| 0 <= j < i ==> model::slug_character(#[trigger] s@[j]),
        decreases chars@.len() - i,
    {
        let c = chars[i];
        let letter = ('a' <= c && c <= 'z') || ('A' <= c && c <= 'Z');
        if !(letter || ('0' <= c && c <= '9') || c == '-' || c == '_') {
            assert(!model::slug_character(s@[i as int]));
            return false;
        }
        i += 1;
    }
    true
}

/// The text in a field without the space around it, or nothing.
fn text_in(fields: &Fields, name: &str) -> (out: String)
    ensures
        out@ == text::trimmed(model::text_in(json::fields_view(fields@), name@)),
{
    if let Some(value) = json::find(fields, name) {
        if let Some(found) = value.as_text() {
            return text::trim(found);
        }
    }
    proof {
        reveal_strlit("");
        assert(""@ =~= Seq::<char>::empty());
    }
    text::trim("")
}

/// A value that has to name an instance and a model.
fn selection<'a>(value: &'a Json) -> (out: Result<Json, Said<'a>>)
    ensures
        match out {
            Ok(chosen) => model::selection(value@) == Ok::<Value, Refusal>(chosen@),
            Err(refused) => model::selection(value@) == Err::<Value, Refusal>(refused@),
        },
{
    let Some(fields) = value.as_object() else {
        return Err(
            showing("'textGenerationModelSelection' has to name an instance and a model, and was ".to_owned(), value),
        );
    };
    let instance = text_in(fields, "instanceId");
    if instance.as_str().is_empty() {
        return Err(saying("'textGenerationModelSelection' has to name a non-empty 'instanceId'.".to_owned()));
    }
    if text_in(fields, "model").as_str().is_empty() {
        return Err(saying("'textGenerationModelSelection' has to name a non-empty 'model'.".to_owned()));
    }
    if !slug(&instance) {
        return Err(not_an_instance_id(&instance));
    }
    Ok(value.copy())
}

/// That something is no provider instance id.
fn not_an_instance_id<'a>(id: &str) -> (out: Said<'a>)
    ensures
        out@ == model::not_an_instance_id(id@),
{
    saying(
        text::glue3(
            "'",
            id,
            "' is not a provider instance id: it has to start with a letter and hold only letters, digits, '-' and '_'.",
        ),
    )
}

// ---------------------------------------------------------------------------
// Agents
// ---------------------------------------------------------------------------

/// What one setting of an agent makes of it.
fn agent_field<'a>(
    driver: DriverKind,
    agent: AgentSettings<String, Vec<String>>,
    name: &str,
    value: &'a Json,
) -> (out: Result<AgentSettings<String, Vec<String>>, Said<'a>>)
    ensures
        match out {
            Ok(next) => model::agent_field(driver, agent@, name@, value@) == Ok::<AgentModel, Refusal>(next@),
            Err(refused) => model::agent_field(driver, agent@, name@, value@) == Err::<AgentModel, Refusal>(refused@),
        },
{
    let mut agent = agent;
    match AgentField::named(name) {
        Some(AgentField::Enabled) => {
            agent.enabled = boolean(name, value)?;
            Ok(agent)
        },
        Some(AgentField::BinaryPath) => {
            agent.binary_path = written_text(name, value)?;
            Ok(agent)
        },
        Some(AgentField::HomePath) => {
            agent.home_path = written_text(name, value)?;
            Ok(agent)
        },
        Some(AgentField::LaunchArgs) => {
            agent.launch_args = written_text(name, value)?;
            Ok(agent)
        },
        Some(AgentField::CustomModels) => {
            agent.custom_models = models(value)?;
            Ok(agent)
        },
        Some(AgentField::ShadowHomePath) if driver == DriverKind::Codex => Err(
            saying(
                "'providers.codex.shadowHomePath' is an account-selection setting, and this server runs one Codex account, so it cannot honour or store it.".to_owned(),
            ),
        ),
        _ => Err(unrecognised(&text::glue4("providers.", driver.as_str(), ".", name))),
    }
}

/// What a group of settings makes of an agent.
fn agent<'a>(driver: DriverKind, start: AgentSettings<String, Vec<String>>, patch: &'a Fields) -> (out: Result<
    AgentSettings<String, Vec<String>>,
    Said<'a>,
>)
    ensures
        match out {
            Ok(next) => model::agent(driver, start@, json::fields_view(patch@)) == Ok::<AgentModel, Refusal>(next@),
            Err(refused) => model::agent(driver, start@, json::fields_view(patch@)) == Err::<AgentModel, Refusal>(
                refused@,
            ),
        },
{
    let ghost seen = json::fields_view(patch@);
    let ghost step = model::agent_step(driver);
    let ghost first = start@;
    let mut reached = start;
    let mut i: usize = 0;
    while i < patch.len()
        invariant
            i <= patch@.len(),
            seen == json::fields_view(patch@),
            step == model::agent_step(driver),
            first == start@,
            model::folded(first, seen, step, i as nat) == Ok::<AgentModel, Refusal>(reached@),
        decreases patch@.len() - i,
    {
        assert(seen[i as int] == (patch@[i as int].0@, patch@[i as int].1@));
        match agent_field(driver, reached, &patch[i].0, &patch[i].1) {
            Ok(next) => {
                reached = next;
            },
            Err(refused) => {
                proof {
                    model::a_refusal_stands(first, seen, step, (i + 1) as nat, seen.len());
                }
                return Err(refused);
            },
        }
        i += 1;
    }
    Ok(reached)
}

// ---------------------------------------------------------------------------
// Provider instances
// ---------------------------------------------------------------------------

/// Whether what a text was parsed into is an HTTP or HTTPS URL.
pub fn is_web(url: &Option<UrlParts<String>>) -> (out: bool)
    ensures
        out == model::is_web(web::parts_view(*url)),
{
    match url {
        Some(parts) => text::same(&parts.scheme, "http") || text::same(&parts.scheme, "https"),
        None => false,
    }
}

/// Whether a text is an HTTP or HTTPS URL.
fn is_web_url(url: &str) -> (out: bool)
    ensures
        out == model::is_web_url(url@),
{
    is_web(&web::parse_url(url))
}

/// A text setting that may be left out.
fn text_or<'a>(fields: &'a Fields, name: &str, otherwise: &str) -> (out: Result<String, Said<'a>>)
    ensures
        match out {
            Ok(s) => model::text_or(json::fields_view(fields@), name@, otherwise@) == Ok::<Text, Refusal>(s@),
            Err(refused) => model::text_or(json::fields_view(fields@), name@, otherwise@) == Err::<Text, Refusal>(
                refused@,
            ),
        },
{
    match json::find(fields, name) {
        Some(value) => written_text(name, value),
        None => Ok(otherwise.to_owned()),
    }
}

/// The configuration of an OpenCode agent.
fn opencode<'a>(config: &'a Fields) -> (out: Result<InstanceConfig<String, Vec<String>>, Said<'a>>)
    ensures
        match out {
            Ok(found) => model::opencode(json::fields_view(config@)) == Ok::<InstanceConfig<Text, Seq<Text>>, Refusal>(
                found@,
            ),
            Err(refused) => model::opencode(json::fields_view(config@)) == Err::<
                InstanceConfig<Text, Seq<Text>>,
                Refusal,
            >(refused@),
        },
{
    let ghost seen = json::fields_view(config@);
    let ghost step = model::known_to_opencode();
    let mut i: usize = 0;
    while i < config.len()
        invariant
            i <= config@.len(),
            seen == json::fields_view(config@),
            step == model::known_to_opencode(),
            model::folded((), seen, step, i as nat) == Ok::<(), Refusal>(()),
        decreases config@.len() - i,
    {
        assert(seen[i as int] == (config@[i as int].0@, config@[i as int].1@));
        if OpenCodeField::named(&config[i].0).is_none() {
            proof {
                model::a_refusal_stands((), seen, step, (i + 1) as nat, seen.len());
            }
            return Err(unrecognised(&text::glue("providers.opencode.", &config[i].0)));
        }
        i += 1;
    }
    let server_url = text_or(config, "serverUrl", "")?;
    if !server_url.as_str().is_empty() && !is_web_url(&server_url) {
        return Err(saying("'serverUrl' has to be an HTTP or HTTPS URL.".to_owned()));
    }
    let binary_path = text_or(config, "binaryPath", "opencode")?;
    let server_password = match json::find(config, "serverPassword") {
        Some(value) => secret_text("serverPassword", value)?,
        None => "".to_owned(),
    };
    let custom_models = match json::find(config, "customModels") {
        Some(value) => models(value)?,
        None => {
            let none: Vec<String> = Vec::new();
            proof {
                assert(text::views(none@) =~= Seq::<Text>::empty());
            }
            none
        },
    };
    Ok(InstanceConfig::OpenCode { binary_path, server_url, server_password, custom_models })
}

/// An agent as it is before anything of it is configured.
fn unconfigured(binary_path: &str, enabled: bool) -> (out: AgentSettings<String, Vec<String>>)
    ensures
        out@ == model::unconfigured(binary_path@, enabled),
{
    let out = AgentSettings {
        enabled,
        binary_path: binary_path.to_owned(),
        home_path: "".to_owned(),
        launch_args: "".to_owned(),
        custom_models: Vec::new(),
    };
    proof {
        assert(text::views(out.custom_models@) =~= Seq::<Text>::empty());
    }
    out
}

/// The configuration of an instance of this driver.
fn configured<'a>(driver: DriverKind, enabled: bool, config: &'a Fields) -> (out: Result<
    InstanceConfig<String, Vec<String>>,
    Said<'a>,
>)
    ensures
        match out {
            Ok(found) => model::configured(driver, enabled, json::fields_view(config@)) == Ok::<
                InstanceConfig<Text, Seq<Text>>,
                Refusal,
            >(found@),
            Err(refused) => model::configured(driver, enabled, json::fields_view(config@)) == Err::<
                InstanceConfig<Text, Seq<Text>>,
                Refusal,
            >(refused@),
        },
{
    match driver {
        DriverKind::Claude => {
            let found = agent(driver, unconfigured(&driver.command_name(), enabled), config)?;
            Ok(
                InstanceConfig::Claude {
                    binary_path: found.binary_path,
                    home_path: found.home_path,
                    launch_args: found.launch_args,
                    custom_models: found.custom_models,
                },
            )
        },
        DriverKind::Codex => {
            let found = agent(driver, unconfigured(&driver.command_name(), enabled), config)?;
            Ok(
                InstanceConfig::Codex {
                    binary_path: found.binary_path,
                    home_path: found.home_path,
                    launch_args: found.launch_args,
                    custom_models: found.custom_models,
                },
            )
        },
        DriverKind::OpenCode => opencode(config),
    }
}

/// The driver that an envelope names, for the instance of this id.
fn envelope_driver<'a>(id: &str, envelope: &'a Fields) -> (out: Result<DriverKind, Said<'a>>)
    ensures
        match out {
            Ok(driver) => model::envelope_driver(id@, json::fields_view(envelope@)) == Ok::<DriverKind, Refusal>(
                driver,
            ),
            Err(refused) => model::envelope_driver(id@, json::fields_view(envelope@)) == Err::<DriverKind, Refusal>(
                refused@,
            ),
        },
{
    let named = text_in(envelope, "driver");
    if !slug(&named) {
        return Err(saying(text::glue3("Provider instance '", id, "' needs a valid driver kind.")));
    }
    let driver = match DriverKind::named(&named) {
        Some(driver) => driver,
        None => {
            return Err(
                saying(
                    text::glue5("Provider instance '", id, "' uses unsupported driver kind '", &named, "'."),
                ),
            );
        },
    };
    let expected: Option<DriverKind> = default_driver(id);
    match expected {
        Some(expected) if expected != driver => {
            let about = text::glue3("Default provider instance '", id, "' belongs to driver '");
            Err(saying(text::glue5(&about, expected.as_str(), "', not '", &named, "'.")))
        },
        _ => Ok(driver),
    }
}

/// The driver that an instance which is there by default belongs to.
fn default_driver(id: &str) -> (out: Option<DriverKind>)
    ensures
        out == model::default_driver(id@),
{
    if text::same(id, "claudeAgent") {
        Some(DriverKind::Claude)
    } else if text::same(id, "codex") {
        Some(DriverKind::Codex)
    } else {
        None
    }
}

/// The instance that an envelope describes.
fn described<'a>(id: &str, envelope: &'a Fields) -> (out: Result<Instance<String, Vec<String>>, Said<'a>>)
    ensures
        match out {
            Ok(found) => model::described(id@, json::fields_view(envelope@)) == Ok::<InstanceModel, Refusal>(found@),
            Err(refused) => model::described(id@, json::fields_view(envelope@)) == Err::<InstanceModel, Refusal>(
                refused@,
            ),
        },
{
    let driver = envelope_driver(id, envelope)?;
    let display_name = text_in(envelope, "displayName");
    if display_name.as_str().is_empty() {
        return Err(saying(text::glue3("Provider instance '", id, "' needs a non-empty displayName.")));
    }
    let enabled: bool = match json::find(envelope, "enabled") {
        Some(value) => boolean("enabled", value)?,
        None => true,
    };
    let config = match json::find(envelope, "config") {
        Some(value) => {
            let inside = group(&text::glue3("providerInstances.", id, ".config"), value)?;
            configured(driver, enabled, inside)
        },
        None => Ok(bare(driver, enabled)),
    };
    match config {
        Ok(config) => Ok(Instance { display_name, enabled, config }),
        Err(refused) => Err(refused),
    }
}

/// The configuration of an instance that configures nothing.
fn bare(driver: DriverKind, enabled: bool) -> (out: InstanceConfig<String, Vec<String>>)
    ensures
        model::configured(driver, enabled, Seq::empty()) == Ok::<InstanceConfig<Text, Seq<Text>>, Refusal>(out@),
{
    let ghost none = Seq::<(Text, Value)>::empty();
    let none_listed: Vec<String> = Vec::new();
    proof {
        assert(text::views(none_listed@) =~= Seq::<Text>::empty());
        reveal_strlit("");
    }
    match driver {
        DriverKind::Claude => {
            let found = unconfigured(&driver.command_name(), enabled);
            proof {
                assert(model::agent(driver, found@, none) == Ok::<AgentModel, Refusal>(found@));
            }
            InstanceConfig::Claude {
                binary_path: found.binary_path,
                home_path: found.home_path,
                launch_args: found.launch_args,
                custom_models: found.custom_models,
            }
        },
        DriverKind::Codex => {
            let found = unconfigured(&driver.command_name(), enabled);
            proof {
                assert(model::agent(driver, found@, none) == Ok::<AgentModel, Refusal>(found@));
            }
            InstanceConfig::Codex {
                binary_path: found.binary_path,
                home_path: found.home_path,
                launch_args: found.launch_args,
                custom_models: found.custom_models,
            }
        },
        DriverKind::OpenCode => {
            proof {
                assert(model::folded((), none, model::known_to_opencode(), 0) == Ok::<(), Refusal>(()));
            }
            InstanceConfig::OpenCode {
                binary_path: "opencode".to_owned(),
                server_url: "".to_owned(),
                server_password: "".to_owned(),
                custom_models: none_listed,
            }
        },
    }
}

/// The instance that a value describes under this id.
fn instance<'a>(id: &str, value: &'a Json) -> (out: Result<Instance<String, Vec<String>>, Said<'a>>)
    ensures
        match out {
            Ok(found) => model::instance(id@, value@) == Ok::<InstanceModel, Refusal>(found@),
            Err(refused) => model::instance(id@, value@) == Err::<InstanceModel, Refusal>(refused@),
        },
{
    if !slug(id) {
        return Err(not_an_instance_id(id));
    }
    let envelope = group(&text::glue("providerInstances.", id), value)?;
    let ghost seen = json::fields_view(envelope@);
    let ghost step = model::known_to_envelope(id@);
    let mut i: usize = 0;
    while i < envelope.len()
        invariant
            i <= envelope@.len(),
            model::slug(id@),
            model::group("providerInstances."@ + id@, value@) == Ok::<Seq<(Text, Value)>, Refusal>(seen),
            seen == json::fields_view(envelope@),
            step == model::known_to_envelope(id@),
            model::folded((), seen, step, i as nat) == Ok::<(), Refusal>(()),
        decreases envelope@.len() - i,
    {
        assert(seen[i as int] == (envelope@[i as int].0@, envelope@[i as int].1@));
        if EnvelopeField::named(&envelope[i].0).is_none() {
            proof {
                model::a_refusal_stands((), seen, step, (i + 1) as nat, seen.len());
            }
            return Err(unrecognised(&text::glue4("providerInstances.", id, ".", &envelope[i].0)));
        }
        i += 1;
    }
    described(id, envelope)
}

/// The provider instances that a group describes.
fn provider_instances<'a>(provided: &'a Fields) -> (out: Result<Instances, Said<'a>>)
    ensures
        match out {
            Ok(found) => found.wf() && model::provider_instances(json::fields_view(provided@)) == Ok::<
                Map<Text, InstanceModel>,
                Refusal,
            >(config::instances_of(found@)),
            Err(refused) => model::provider_instances(json::fields_view(provided@)) == Err::<
                Map<Text, InstanceModel>,
                Refusal,
            >(refused@),
        },
{
    let ghost seen = json::fields_view(provided@);
    let ghost step = model::instance_step();
    let ghost none = Map::<Text, InstanceModel>::empty();
    let mut listed: Instances = Keyed::new();
    let mut i: usize = 0;
    proof {
        assert(config::instances_of(listed@) =~= none);
    }
    while i < provided.len()
        invariant
            i <= provided@.len(),
            listed.wf(),
            seen == json::fields_view(provided@),
            step == model::instance_step(),
            none == Map::<Text, InstanceModel>::empty(),
            model::folded(none, seen, step, i as nat) == Ok::<Map<Text, InstanceModel>, Refusal>(
                config::instances_of(listed@),
            ),
        decreases provided@.len() - i,
    {
        assert(seen[i as int] == (provided@[i as int].0@, provided@[i as int].1@));
        let ghost before = listed@;
        match instance(&provided[i].0, &provided[i].1) {
            Ok(found) => {
                listed.insert(provided[i].0.clone(), found);
                proof {
                    inserting_is_inserting(before, listed@, provided@[i as int].0@, found);
                }
            },
            Err(refused) => {
                proof {
                    model::a_refusal_stands(none, seen, step, (i + 1) as nat, seen.len());
                }
                return Err(refused);
            },
        }
        i += 1;
    }
    Ok(listed)
}

/// Putting an instance into the table puts its model into the model.
proof fn inserting_is_inserting(
    before: Seq<(Text, Instance<String, Vec<String>>)>,
    after: Seq<(Text, Instance<String, Vec<String>>)>,
    id: Text,
    instance: Instance<String, Vec<String>>,
)
    requires
        keyed::find(after, id) == Some(instance),
        forall|other: Text| other != id ==> #[trigger] keyed::find(after, other) == keyed::find(before, other),
    ensures
        config::instances_of(after) == config::instances_of(before).insert(id, instance@),
{
    let a = config::instances_of(after);
    let b = config::instances_of(before).insert(id, instance@);
    assert forall|other: Text| #[trigger] a.dom().contains(other) == b.dom().contains(other) by {
        if other != id {
            assert(keyed::find(after, other) == keyed::find(before, other));
        }
    }
    assert(a.dom() =~= b.dom());
    assert forall|other: Text| a.dom().contains(other) implies #[trigger] a[other] == b[other] by {
        if other != id {
            assert(keyed::find(after, other) == keyed::find(before, other));
        }
    }
    assert(a =~= b);
}

/// Whether a group leaves out the password of the instance of this id.
fn password_is_omitted(provided: &Fields, id: &str) -> (out: bool)
    ensures
        out == model::password_is_omitted(json::fields_view(provided@), id@),
{
    let Some(value) = json::find(provided, id) else {
        return true;
    };
    let Some(envelope) = value.as_object() else {
        return true;
    };
    let Some(value) = json::find(envelope, "config") else {
        return true;
    };
    let Some(config) = value.as_object() else {
        return true;
    };
    json::find(config, "serverPassword").is_none()
}

/// An instance with the password of the one it replaces, where both are OpenCode
/// agents and the group that describes it leaves the password out.
fn with_kept_password(
    previous: Option<&Instance<String, Vec<String>>>,
    fresh: &Instance<String, Vec<String>>,
    omitted: bool,
) -> (out: Instance<String, Vec<String>>)
    ensures
        out@ == model::with_kept_password(
            match previous {
                Some(previous) => Some(previous@),
                None => None,
            },
            fresh@,
            omitted,
        ),
{
    if omitted {
        if let Some(previous) = previous {
            if let InstanceConfig::OpenCode { server_password: kept, .. } = &previous.config {
                if let InstanceConfig::OpenCode { binary_path, server_url, server_password: _, custom_models } =
                    &fresh.config {
                    return Instance {
                        display_name: fresh.display_name.clone(),
                        enabled: fresh.enabled,
                        config: InstanceConfig::OpenCode {
                            binary_path: binary_path.clone(),
                            server_url: server_url.clone(),
                            server_password: kept.clone(),
                            custom_models: copy_list(custom_models),
                        },
                    };
                }
            }
        }
    }
    copy_instance(fresh)
}

/// The instances of `fresh`, each with the password that it keeps.
fn with_kept_passwords(previous: &Instances, provided: &Fields, fresh: &Instances) -> (out: Instances)
    requires
        previous.wf(),
        fresh.wf(),
    ensures
        out.wf(),
        config::instances_of(out@) == Map::new(
            |id: Text| config::instances_of(fresh@).dom().contains(id),
            |id: Text|
                model::with_kept_password(
                    model::held(config::instances_of(previous@), id),
                    config::instances_of(fresh@)[id],
                    model::password_is_omitted(json::fields_view(provided@), id),
                ),
        ),
{
    let ghost before = config::instances_of(previous@);
    let ghost now = config::instances_of(fresh@);
    let ghost seen = json::fields_view(provided@);
    let ghost kept = |id: Text|
        model::with_kept_password(model::held(before, id), now[id], model::password_is_omitted(seen, id));
    let mut out: Instances = Keyed::new();
    let mut i: usize = 0;
    while i < fresh.len()
        invariant
            previous.wf(),
            fresh.wf(),
            out.wf(),
            i <= fresh@.len(),
            before == config::instances_of(previous@),
            now == config::instances_of(fresh@),
            seen == json::fields_view(provided@),
            kept == (|id: Text|
                model::with_kept_password(model::held(before, id), now[id], model::password_is_omitted(seen, id))),
            forall|k: int|
                0 <= k < i ==> keyed::has(out@, (#[trigger] fresh@[k]).0) && keyed::find(
                    out@,
                    fresh@[k].0,
                )->Some_0@ == kept(fresh@[k].0),
            forall|id: Text| #[trigger] keyed::has(out@, id) ==> keyed::has(fresh@, id),
        decreases fresh@.len() - i,
    {
        let ghost listed = out@;
        let ghost name = fresh@[i as int].0;
        let id = fresh.key_at(i);
        let held = previous.get(id);
        let omitted: bool = password_is_omitted(provided, id);
        proof {
            keyed::found(fresh@, i as int);
        }
        let entry = with_kept_password(held, fresh.value_at(i), omitted);
        assert(entry@ == kept(name));
        out.insert(id.clone(), entry);
        proof {
            assert forall|id: Text| #[trigger] keyed::has(out@, id) implies keyed::has(fresh@, id) by {
                if id != name {
                    assert(keyed::find(out@, id) == keyed::find(listed, id));
                }
            }
            assert forall|k: int| 0 <= k < i + 1 implies keyed::has(out@, (#[trigger] fresh@[k]).0) && keyed::find(
                out@,
                fresh@[k].0,
            )->Some_0@ == kept(fresh@[k].0) by {
                if fresh@[k].0 != name {
                    assert(keyed::find(out@, fresh@[k].0) == keyed::find(listed, fresh@[k].0));
                }
            }
        }
        i += 1;
    }
    proof {
        assert forall|id: Text| keyed::has(fresh@, id) implies #[trigger] keyed::has(out@, id) && keyed::find(
            out@,
            id,
        )->Some_0@ == kept(id) by {
            let k = keyed::place(fresh@, id);
            assert(fresh@[k].0 == id);
        }
        let want = Map::new(|id: Text| now.dom().contains(id), kept);
        assert(config::instances_of(out@).dom() =~= want.dom());
        assert(config::instances_of(out@) =~= want);
        assert(want =~= Map::new(
            |id: Text| config::instances_of(fresh@).dom().contains(id),
            |id: Text|
                model::with_kept_password(
                    model::held(config::instances_of(previous@), id),
                    config::instances_of(fresh@)[id],
                    model::password_is_omitted(json::fields_view(provided@), id),
                ),
        ));
    }
    out
}

/// Puts back an instance that is there by default.
fn keep_default(previous: &Instances, out: &mut Instances, id: &str)
    requires
        previous.wf(),
        old(out).wf(),
    ensures
        final(out).wf(),
        config::instances_of(final(out)@) == if !config::instances_of(old(out)@).dom().contains(id@) && config::instances_of(
            previous@,
        ).dom().contains(id@) {
            config::instances_of(old(out)@).insert(id@, config::instances_of(previous@)[id@])
        } else {
            config::instances_of(old(out)@)
        },
{
    if !out.contains(id) {
        if let Some(kept) = previous.get(id) {
            let ghost before = out@;
            let kept = copy_instance(kept);
            out.insert(id.to_owned(), kept);
            proof {
                inserting_is_inserting(before, out@, id@, kept);
            }
        }
    }
}

/// The instances in force after `fresh` replaced `previous`.
fn replaced(previous: &Instances, provided: &Fields, fresh: &Instances) -> (out: Instances)
    requires
        previous.wf(),
        fresh.wf(),
    ensures
        out.wf(),
        config::instances_of(out@) == model::replaced(
            config::instances_of(previous@),
            json::fields_view(provided@),
            config::instances_of(fresh@),
        ),
{
    let mut out = with_kept_passwords(previous, provided, fresh);
    keep_default(previous, &mut out, "claudeAgent");
    keep_default(previous, &mut out, "codex");
    proof {
        reveal_strlit("claudeAgent");
        reveal_strlit("codex");
        assert("claudeAgent"@.len() == 11);
        assert("codex"@.len() == 5);
        assert(config::instances_of(out@) =~= model::replaced(
            config::instances_of(previous@),
            json::fields_view(provided@),
            config::instances_of(fresh@),
        ));
    }
    out
}

// ---------------------------------------------------------------------------
// The patch
// ---------------------------------------------------------------------------

/// The model of where what the server observes of itself is sent.
spec fn observability_view(observability: Observability<String>) -> Observability<Text> {
    Observability {
        otlp_traces_url: observability.otlp_traces_url@,
        otlp_metrics_url: observability.otlp_metrics_url@,
    }
}

/// What a group of settings makes of `observability`.
fn observability<'a>(start: &Observability<String>, inside: &'a Fields) -> (out: Result<
    Observability<String>,
    Said<'a>,
>)
    ensures
        match out {
            Ok(next) => model::folded(
                observability_view(*start),
                json::fields_view(inside@),
                model::observability_step(),
                inside@.len(),
            ) == Ok::<Observability<Text>, Refusal>(observability_view(next)),
            Err(refused) => model::folded(
                observability_view(*start),
                json::fields_view(inside@),
                model::observability_step(),
                inside@.len(),
            ) == Err::<Observability<Text>, Refusal>(refused@),
        },
{
    let ghost seen = json::fields_view(inside@);
    let ghost step = model::observability_step();
    let ghost first = observability_view(*start);
    let mut reached = Observability {
        otlp_traces_url: start.otlp_traces_url.clone(),
        otlp_metrics_url: start.otlp_metrics_url.clone(),
    };
    let mut i: usize = 0;
    while i < inside.len()
        invariant
            i <= inside@.len(),
            seen == json::fields_view(inside@),
            step == model::observability_step(),
            first == observability_view(*start),
            model::folded(first, seen, step, i as nat) == Ok::<Observability<Text>, Refusal>(
                observability_view(reached),
            ),
        decreases inside@.len() - i,
    {
        assert(seen[i as int] == (inside@[i as int].0@, inside@[i as int].1@));
        let name: &String = &inside[i].0;
        let read: Result<String, Said<'a>> = match ObservabilityField::named(name) {
            Some(_) => written_text(name, &inside[i].1),
            None => Err(unrecognised(&text::glue("observability.", name))),
        };
        match read {
            Ok(url) => {
                if let Some(ObservabilityField::OtlpTracesUrl) = ObservabilityField::named(name) {
                    reached.otlp_traces_url = url;
                } else {
                    reached.otlp_metrics_url = url;
                }
            },
            Err(refused) => {
                proof {
                    model::a_refusal_stands(first, seen, step, (i + 1) as nat, seen.len());
                }
                return Err(refused);
            },
        }
        i += 1;
    }
    Ok(reached)
}

/// The model of the agents that are configured by driver.
spec fn providers_view(providers: Providers<AgentSettings<String, Vec<String>>>) -> Providers<AgentModel> {
    Providers { claude_agent: providers.claude_agent@, codex: providers.codex@ }
}

/// What a group of settings makes of `providers`.
fn providers<'a>(start: &Providers<AgentSettings<String, Vec<String>>>, inside: &'a Fields) -> (out: Result<
    Providers<AgentSettings<String, Vec<String>>>,
    Said<'a>,
>)
    ensures
        match out {
            Ok(next) => model::folded(
                providers_view(*start),
                json::fields_view(inside@),
                model::provider_step(),
                inside@.len(),
            ) == Ok::<Providers<AgentModel>, Refusal>(providers_view(next)),
            Err(refused) => model::folded(
                providers_view(*start),
                json::fields_view(inside@),
                model::provider_step(),
                inside@.len(),
            ) == Err::<Providers<AgentModel>, Refusal>(refused@),
        },
{
    let ghost seen = json::fields_view(inside@);
    let ghost step = model::provider_step();
    let ghost first = providers_view(*start);
    let mut reached = Providers { claude_agent: copy_agent(&start.claude_agent), codex: copy_agent(&start.codex) };
    let mut i: usize = 0;
    while i < inside.len()
        invariant
            i <= inside@.len(),
            seen == json::fields_view(inside@),
            step == model::provider_step(),
            first == providers_view(*start),
            model::folded(first, seen, step, i as nat) == Ok::<Providers<AgentModel>, Refusal>(
                providers_view(reached),
            ),
        decreases inside@.len() - i,
    {
        assert(seen[i as int] == (inside@[i as int].0@, inside@[i as int].1@));
        match provider(&reached, &inside[i].0, &inside[i].1) {
            Ok(next) => {
                reached = next;
            },
            Err(refused) => {
                proof {
                    model::a_refusal_stands(first, seen, step, (i + 1) as nat, seen.len());
                }
                return Err(refused);
            },
        }
        i += 1;
    }
    Ok(reached)
}

/// What one driver of `providers` makes of it.
fn provider<'a>(
    reached: &Providers<AgentSettings<String, Vec<String>>>,
    name: &str,
    value: &'a Json,
) -> (out: Result<Providers<AgentSettings<String, Vec<String>>>, Said<'a>>)
    ensures
        match out {
            Ok(next) => (model::provider_step())(providers_view(*reached), (name@, value@)) == Ok::<
                Providers<AgentModel>,
                Refusal,
            >(providers_view(next)),
            Err(refused) => (model::provider_step())(providers_view(*reached), (name@, value@)) == Err::<
                Providers<AgentModel>,
                Refusal,
            >(refused@),
        },
{
    match ProviderField::named(name) {
        Some(ProviderField::ClaudeAgent) => {
            let patch = group(name, value)?;
            let claude_agent = agent(DriverKind::Claude, copy_agent(&reached.claude_agent), patch)?;
            Ok(Providers { claude_agent, codex: copy_agent(&reached.codex) })
        },
        Some(ProviderField::Codex) => {
            let patch = group(name, value)?;
            let codex = agent(DriverKind::Codex, copy_agent(&reached.codex), patch)?;
            Ok(Providers { claude_agent: copy_agent(&reached.claude_agent), codex })
        },
        Some(_) => Err(
            saying(text::glue3("This server has no '", name, "' driver, so it cannot be configured.")),
        ),
        None => Err(unrecognised(&text::glue("providers.", name))),
    }
}

/// What one setting makes of all of them.
fn setting<'a>(next: &mut Settings, name: &str, value: &'a Json) -> (out: Result<(), Said<'a>>)
    requires
        old(next).provider_instances.wf(),
    ensures
        final(next).provider_instances.wf(),
        match out {
            Ok(_) => model::setting(old(next)@, name@, value@) == Ok::<SettingsModel, Refusal>(final(next)@),
            Err(refused) => model::setting(old(next)@, name@, value@) == Err::<SettingsModel, Refusal>(refused@),
        },
{
    match Field::named(name) {
        Some(Field::EnableProviderUpdateChecks) => {
            next.enable_provider_update_checks = boolean(name, value)?;
        },
        Some(Field::NewWorktreesStartFromOrigin) => {
            next.new_worktrees_start_from_origin = boolean(name, value)?;
        },
        Some(Field::AddProjectBaseDirectory) => {
            next.add_project_base_directory = written_text(name, value)?;
        },
        Some(Field::AutomaticGitFetchInterval) => {
            next.automatic_git_fetch_interval = interval(value)?;
        },
        Some(Field::DefaultThreadEnvMode) => {
            next.default_thread_env_mode = env_mode(value)?;
        },
        Some(Field::Observability) => {
            let inside = group(name, value)?;
            next.observability = observability(&next.observability, inside)?;
        },
        Some(Field::Providers) => {
            let inside = group(name, value)?;
            next.providers = providers(&next.providers, inside)?;
        },
        Some(Field::EnableAssistantStreaming) => {
            if boolean(name, value)? != next.enable_assistant_streaming {
                return Err(
                    saying(
                        "This server always streams the agent's reply, so 'enableAssistantStreaming' cannot be turned off.".to_owned(),
                    ),
                );
            }
        },
        Some(Field::ProviderInstances) => {
            let provided = group(name, value)?;
            let fresh = provider_instances(provided)?;
            next.provider_instances = replaced(&next.provider_instances, provided, &fresh);
        },
        Some(Field::TextGenerationModelSelection) => {
            next.text_generation_model_selection = selection(value)?;
        },
        None => {
            return Err(unrecognised(name));
        },
    }
    Ok(())
}

/// Whether there is a value, and it is a group that has this field.
fn groups(value: Option<&Json>, inner: &str) -> (out: bool)
    ensures
        out == model::groups(
            match value {
                Some(value) => Some(value@),
                None => None,
            },
            inner@,
        ),
{
    match value {
        Some(value) => match value.as_object() {
            Some(inside) => json::find(inside, inner).is_some(),
            None => false,
        },
        None => false,
    }
}

/// The instance that an agent configured by driver amounts to.
fn envelope_of(driver: DriverKind, agent: &AgentSettings<String, Vec<String>>, display_name: &str) -> (out: Instance<
    String,
    Vec<String>,
>)
    ensures
        out@ == model::envelope_of(driver, agent@, display_name@),
{
    let config = if driver == DriverKind::Claude {
        InstanceConfig::Claude {
            binary_path: agent.binary_path.clone(),
            home_path: agent.home_path.clone(),
            launch_args: agent.launch_args.clone(),
            custom_models: copy_list(&agent.custom_models),
        }
    } else {
        InstanceConfig::Codex {
            binary_path: agent.binary_path.clone(),
            home_path: agent.home_path.clone(),
            launch_args: agent.launch_args.clone(),
            custom_models: copy_list(&agent.custom_models),
        }
    };
    Instance { display_name: display_name.to_owned(), enabled: agent.enabled, config }
}

/// Brings the default instance of a driver in line with the agent, after a patch
/// whose `providers` and `providerInstances` are these.
fn align(
    by_driver: Option<&Json>,
    explicit: Option<&Json>,
    driver: DriverKind,
    agent: &AgentSettings<String, Vec<String>>,
    display_name: &str,
    instances: &mut Instances,
)
    requires
        old(instances).wf(),
    ensures
        final(instances).wf(),
        forall|patch: Seq<(Text, Value)>|
            json::field(patch, "providers"@) == maybe_view(by_driver) && json::field(patch, "providerInstances"@)
                == maybe_view(explicit) ==> config::instances_of(final(instances)@) == #[trigger] model::with_envelope(
                patch,
                driver,
                agent@,
                display_name@,
                config::instances_of(old(instances)@),
            ),
{
    if groups(by_driver, driver.as_str()) && !groups(explicit, driver.as_str()) {
        let ghost before = instances@;
        let envelope = envelope_of(driver, agent, display_name);
        instances.insert(driver.as_str().to_owned(), envelope);
        proof {
            inserting_is_inserting(before, instances@, driver.word(), envelope);
        }
    }
}

/// The model of a value that may be missing.
spec fn maybe_view(value: Option<&Json>) -> Option<Value> {
    match value {
        Some(value) => Some(value@),
        None => None,
    }
}

/// Folds a patch into the settings, or refuses all of it and leaves them as they
/// are.
pub fn apply<'a>(settings: &mut Settings, patch: &'a Fields) -> (out: Result<(), Said<'a>>)
    requires
        old(settings).provider_instances.wf(),
    ensures
        final(settings).provider_instances.wf(),
        match out {
            Ok(_) => model::applied(old(settings)@, json::fields_view(patch@)) == Ok::<SettingsModel, Refusal>(
                final(settings)@,
            ),
            Err(refused) => model::applied(old(settings)@, json::fields_view(patch@)) == Err::<SettingsModel, Refusal>(
                refused@,
            ) && *final(settings) == *old(settings),
        },
{
    let ghost seen = json::fields_view(patch@);
    let ghost step = model::setting_step();
    let ghost first = settings@;
    let mut next = copy_settings(settings);
    let mut i: usize = 0;
    while i < patch.len()
        invariant
            i <= patch@.len(),
            next.provider_instances.wf(),
            settings.provider_instances.wf(),
            *settings == *old(settings),
            seen == json::fields_view(patch@),
            step == model::setting_step(),
            first == old(settings)@,
            model::folded(first, seen, step, i as nat) == Ok::<SettingsModel, Refusal>(next@),
        decreases patch@.len() - i,
    {
        assert(seen[i as int] == (patch@[i as int].0@, patch@[i as int].1@));
        match setting(&mut next, &patch[i].0, &patch[i].1) {
            Ok(_) => {},
            Err(refused) => {
                proof {
                    model::a_refusal_stands(first, seen, step, (i + 1) as nat, seen.len());
                }
                return Err(refused);
            },
        }
        i += 1;
    }
    let by_driver = json::find(patch, "providers");
    let explicit = json::find(patch, "providerInstances");
    align(
        by_driver,
        explicit,
        DriverKind::Claude,
        &next.providers.claude_agent,
        &DriverKind::Claude.display_name(),
        &mut next.provider_instances,
    );
    align(by_driver, explicit, DriverKind::Codex, &next.providers.codex, &DriverKind::Codex.display_name(), &mut next.provider_instances);
    *settings = next;
    Ok(())
}

// ---------------------------------------------------------------------------
// The file
// ---------------------------------------------------------------------------

/// Reads one field of the file. A field that does not read costs itself.
fn settle<'a>(settings: Settings, name: &str, value: &'a Json) -> (out: (Settings, Option<Said<'a>>))
    requires
        settings.provider_instances.wf(),
    ensures
        out.0.provider_instances.wf(),
        out.0@ == model::settled(settings@, name@, value@),
        match out.1 {
            None => model::complaint(settings@, name@, value@) == Seq::<Refusal>::empty(),
            Some(refused) => model::complaint(settings@, name@, value@) == seq![refused@],
        },
{
    let ghost patch = seq![(name@, value@)];
    let mut next = copy_settings(&settings);
    proof {
        let step = model::setting_step();
        assert(model::folded(settings@, patch, step, 0) == Ok::<SettingsModel, Refusal>(settings@));
        assert(model::folded(settings@, patch, step, 1) == step(settings@, patch[0]));
        json::only_field(name@, value@, "providers"@);
        json::only_field(name@, value@, "providerInstances"@);
    }
    match setting(&mut next, name, value) {
        Ok(_) => {},
        Err(refused) => {
            return (settings, Some(refused));
        },
    }
    let by_driver: Option<&Json> = if text::same(name, "providers") {
        Some(value)
    } else {
        None
    };
    let explicit: Option<&Json> = if text::same(name, "providerInstances") {
        Some(value)
    } else {
        None
    };
    align(
        by_driver,
        explicit,
        DriverKind::Claude,
        &next.providers.claude_agent,
        &DriverKind::Claude.display_name(),
        &mut next.provider_instances,
    );
    align(by_driver, explicit, DriverKind::Codex, &next.providers.codex, &DriverKind::Codex.display_name(), &mut next.provider_instances);
    (next, None)
}

/// The models of a list of refusals.
pub open spec fn refusals_view<'a>(list: Seq<Said<'a>>) -> Seq<Refusal> {
    Seq::new(list.len(), |i: int| list[i]@)
}

/// The settings that the fields of a file give over the defaults, and what was
/// wrong with the file.
pub fn load<'a>(defaults: Settings, stored: &'a Fields) -> (out: (Settings, Vec<Said<'a>>))
    requires
        defaults.provider_instances.wf(),
    ensures
        out.0.provider_instances.wf(),
        out.0@ == model::loaded(defaults@, json::fields_view(stored@)),
        refusals_view(out.1@) == model::complaints(defaults@, json::fields_view(stored@)),
{
    let ghost first = defaults@;
    let ghost seen = json::fields_view(stored@);
    let mut reached = defaults;
    let mut complaints: Vec<Said<'a>> = Vec::new();
    let mut i: usize = 0;
    proof {
        assert(refusals_view(complaints@) =~= Seq::<Refusal>::empty());
    }
    while i < stored.len()
        invariant
            i <= stored@.len(),
            reached.provider_instances.wf(),
            first == defaults@,
            seen == json::fields_view(stored@),
            reached@ == model::read_so_far(first, seen, i as nat),
            refusals_view(complaints@) == model::complaints_so_far(first, seen, i as nat),
        decreases stored@.len() - i,
    {
        assert(seen[i as int] == (stored@[i as int].0@, stored@[i as int].1@));
        let ghost before = refusals_view(complaints@);
        let (next, wrong) = settle(reached, &stored[i].0, &stored[i].1);
        reached = next;
        match wrong {
            Some(refused) => {
                complaints.push(refused);
                proof {
                    assert(refusals_view(complaints@) =~= before + seq![refused@]);
                }
            },
            None => {
                proof {
                    assert(before =~= before + Seq::<Refusal>::empty());
                }
            },
        }
        i += 1;
    }
    if let Some(value) = json::find(stored, "providerInstances") {
        let ghost before = refusals_view(complaints@);
        let (next, wrong) = settle(reached, "providerInstances", value);
        reached = next;
        match wrong {
            Some(refused) => {
                complaints.push(refused);
                proof {
                    assert(refusals_view(complaints@) =~= before + seq![refused@]);
                }
            },
            None => {
                proof {
                    assert(before =~= before + Seq::<Refusal>::empty());
                }
            },
        }
    } else {
        proof {
            assert(refusals_view(complaints@) =~= refusals_view(complaints@) + Seq::<Refusal>::empty());
        }
    }
    (reached, complaints)
}

impl View for Found<String, Json> {
    type V = Found<Text, Value>;

    open spec fn view(&self) -> Found<Text, Value> {
        match self {
            Found::Missing => Found::Missing,
            Found::Unreadable(why) => Found::Unreadable(why@),
            Found::NotJson(why) => Found::NotJson(why@),
            Found::Document(document) => Found::Document(document@),
        }
    }
}

/// The settings in force once the file has been looked for, and what the log is
/// told about it. Whatever is wrong with the file, there are settings.
pub fn load_file<'a>(defaults: Settings, found: &'a Found<String, Json>) -> (out: (Settings, Vec<Said<'a>>))
    requires
        defaults.provider_instances.wf(),
    ensures
        out.0.provider_instances.wf(),
        out.0@ == model::in_force(defaults@, found@),
        refusals_view(out.1@) == model::logged(defaults@, found@),
{
    let ghost first = defaults@;
    let mut logged: Vec<Said<'a>> = Vec::new();
    let settings: Settings = match found {
        Found::Missing => defaults,
        Found::Unreadable(why) => {
            logged.push(saying(text::glue("it could not be read: ", why)));
            defaults
        },
        Found::NotJson(why) => {
            logged.push(saying(text::glue("it is not valid JSON: ", why)));
            defaults
        },
        Found::Document(document) => match document.as_object() {
            None => {
                logged.push(saying("it is not a settings object.".to_owned()));
                defaults
            },
            Some(fields) => {
                let (settings, complaints) = load(defaults, fields);
                let ghost said = refusals_view(complaints@);
                let mut i: usize = 0;
                while i < complaints.len()
                    invariant
                        i <= complaints@.len(),
                        said == refusals_view(complaints@),
                        logged@.len() == i,
                        forall|j: int| 0 <= j < i ==> (#[trigger] logged@[j])@ == model::kept_default(said[j]),
                    decreases complaints@.len() - i,
                {
                    let complaint: &Said<'a> = &complaints[i];
                    assert(complaint@ == said[i as int]);
                    logged.push(
                        Problem {
                            before: complaint.before.as_str().to_owned(),
                            value: complaint.value,
                            after: text::glue(&complaint.after, " That setting kept its default."),
                        },
                    );
                    i += 1;
                }
                settings
            },
        },
    };
    proof {
        assert(refusals_view(logged@) =~= model::logged(first, found@));
    }
    (settings, logged)
}

/// A list of texts, written down.
fn write_list(list: &Vec<String>) -> (out: Json)
    ensures
        out@ == model::written_list(text::views(list@)),
{
    let mut items: Vec<Json> = Vec::new();
    let mut i: usize = 0;
    while i < list.len()
        invariant
            i <= list@.len(),
            items@.len() == i,
            forall|j: int| 0 <= j < i ==> (#[trigger] items@[j])@ == Value::Text(list@[j]@),
        decreases list@.len() - i,
    {
        items.push(Json::text(&list[i]));
        i += 1;
    }
    proof {
        assert(json::items_view(items@) =~= model::written_list(text::views(list@))->Array_0);
    }
    Json::array(items)
}

/// An agent, written down.
fn write_agent(agent: &AgentSettings<String, Vec<String>>) -> (out: Json)
    ensures
        out@ == model::written_agent(agent@),
{
    let fields: Fields = vec![
        json::entry("binaryPath", Json::text(&agent.binary_path)),
        json::entry("customModels", write_list(&agent.custom_models)),
        json::entry("enabled", Json::Bool(agent.enabled)),
        json::entry("homePath", Json::text(&agent.home_path)),
        json::entry("launchArgs", Json::text(&agent.launch_args)),
    ];
    proof {
        assert(json::fields_view(fields@) =~= model::written_agent(agent@)->Object_0);
    }
    Json::object(fields)
}

/// The configuration of an instance, written down.
fn write_config(config: &InstanceConfig<String, Vec<String>>, secrets: bool) -> (out: Json)
    ensures
        out@ == model::written_config(config@, secrets),
{
    let fields: Fields = match config {
        InstanceConfig::Claude { binary_path, home_path, launch_args, custom_models } => vec![
            json::entry("binaryPath", Json::text(binary_path)),
            json::entry("customModels", write_list(custom_models)),
            json::entry("homePath", Json::text(home_path)),
            json::entry("launchArgs", Json::text(launch_args)),
        ],
        InstanceConfig::Codex { binary_path, home_path, launch_args, custom_models } => vec![
            json::entry("binaryPath", Json::text(binary_path)),
            json::entry("customModels", write_list(custom_models)),
            json::entry("homePath", Json::text(home_path)),
            json::entry("launchArgs", Json::text(launch_args)),
        ],
        InstanceConfig::OpenCode { binary_path, server_url, server_password, custom_models } => if secrets {
            vec![
                json::entry("binaryPath", Json::text(binary_path)),
                json::entry("customModels", write_list(custom_models)),
                json::entry("serverPassword", Json::text(server_password)),
                json::entry("serverUrl", Json::text(server_url)),
            ]
        } else {
            vec![
                json::entry("binaryPath", Json::text(binary_path)),
                json::entry("customModels", write_list(custom_models)),
                json::entry("serverUrl", Json::text(server_url)),
            ]
        },
    };
    proof {
        assert(json::fields_view(fields@) =~= model::written_config(config@, secrets)->Object_0);
    }
    Json::object(fields)
}

/// The driver of an instance.
fn kind_of(instance: &Instance<String, Vec<String>>) -> (out: DriverKind)
    ensures
        out == instance@.kind(),
{
    match &instance.config {
        InstanceConfig::Claude { .. } => DriverKind::Claude,
        InstanceConfig::Codex { .. } => DriverKind::Codex,
        InstanceConfig::OpenCode { .. } => DriverKind::OpenCode,
    }
}

/// A provider instance, written down.
fn write_instance(instance: &Instance<String, Vec<String>>, secrets: bool) -> (out: Json)
    ensures
        out@ == model::written_instance(instance@, secrets),
{
    let fields: Fields = vec![
        json::entry("config", write_config(&instance.config, secrets)),
        json::entry("displayName", Json::text(&instance.display_name)),
        json::entry("driver", Json::text(kind_of(instance).as_str())),
        json::entry("enabled", Json::Bool(instance.enabled)),
    ];
    proof {
        assert(json::fields_view(fields@) =~= model::written_instance(instance@, secrets)->Object_0);
    }
    Json::object(fields)
}

/// The ids of the instances in a table, in their order.
pub open spec fn ids_of(entries: Seq<(Text, Instance<String, Vec<String>>)>) -> Seq<Text> {
    Seq::new(entries.len(), |i: int| entries[i].0)
}

/// The provider instances, written down.
fn write_instances(instances: &Instances, secrets: bool) -> (out: Json)
    requires
        instances.wf(),
    ensures
        out@ == Value::Object(
            model::written_instances(config::instances_of(instances@), ids_of(instances@), secrets),
        ),
{
    let ghost ids = ids_of(instances@);
    let ghost table = config::instances_of(instances@);
    let mut fields: Fields = Vec::new();
    let mut i: usize = 0;
    while i < instances.len()
        invariant
            instances.wf(),
            ids == ids_of(instances@),
            table == config::instances_of(instances@),
            i <= instances@.len(),
            fields@.len() == i,
            forall|j: int|
                0 <= j < i ==> (#[trigger] fields@[j]).0@ == ids[j] && fields@[j].1@ == model::written_instance(
                    table[ids[j]],
                    secrets,
                ),
        decreases instances@.len() - i,
    {
        proof {
            keyed::found(instances@, i as int);
        }
        fields.push(json::entry(instances.key_at(i), write_instance(instances.value_at(i), secrets)));
        i += 1;
    }
    proof {
        assert(json::fields_view(fields@) =~= model::written_instances(table, ids, secrets));
    }
    Json::object(fields)
}

/// The settings, written down.
fn write(settings: &Settings, secrets: bool) -> (out: Json)
    requires
        settings.provider_instances.wf(),
    ensures
        out@ == Value::Object(model::written(settings@, ids_of(settings.provider_instances@), secrets)),
{
    let observability: Fields = vec![
        json::entry("otlpMetricsUrl", Json::text(&settings.observability.otlp_metrics_url)),
        json::entry("otlpTracesUrl", Json::text(&settings.observability.otlp_traces_url)),
    ];
    let providers: Fields = vec![
        json::entry("claudeAgent", write_agent(&settings.providers.claude_agent)),
        json::entry("codex", write_agent(&settings.providers.codex)),
    ];
    let ghost wanted = model::written(settings@, ids_of(settings.provider_instances@), secrets);
    proof {
        assert(json::fields_view(observability@) =~= wanted[6].1->Object_0);
        assert(json::fields_view(providers@) =~= wanted[8].1->Object_0);
    }
    let fields: Fields = vec![
        json::entry("addProjectBaseDirectory", Json::text(&settings.add_project_base_directory)),
        json::entry("automaticGitFetchInterval", Json::Whole(settings.automatic_git_fetch_interval)),
        json::entry("defaultThreadEnvMode", Json::text("local")),
        json::entry("enableAssistantStreaming", Json::Bool(settings.enable_assistant_streaming)),
        json::entry("enableProviderUpdateChecks", Json::Bool(settings.enable_provider_update_checks)),
        json::entry("newWorktreesStartFromOrigin", Json::Bool(settings.new_worktrees_start_from_origin)),
        json::entry("observability", Json::object(observability)),
        json::entry("providerInstances", write_instances(&settings.provider_instances, secrets)),
        json::entry("providers", Json::object(providers)),
        json::entry("textGenerationModelSelection", settings.text_generation_model_selection.copy()),
    ];
    proof {
        assert(json::fields_view(fields@) =~= wanted);
    }
    Json::object(fields)
}

/// The settings as the file keeps them: every one of them, passwords included.
pub fn stored_value(settings: &Settings) -> (out: Json)
    requires
        settings.provider_instances.wf(),
    ensures
        out@ == Value::Object(model::written(settings@, ids_of(settings.provider_instances@), true)),
{
    write(settings, true)
}

/// The settings as a client sees them: everything but the passwords.
pub open spec fn shown_to_clients(settings: Settings) -> Value {
    Value::Object(model::written(settings@, ids_of(settings.provider_instances@), false))
}

/// The settings as they may cross a client boundary. A provider's password stays
/// in the settings in force and in the file, and is shown to no client.
pub fn public_value(settings: &Settings) -> (out: Json)
    requires
        settings.provider_instances.wf(),
    ensures
        out@ == shown_to_clients(*settings),
{
    write(settings, false)
}

// ---------------------------------------------------------------------------
// The calls
// ---------------------------------------------------------------------------

/// What failed, as a refusal names it.
#[derive(Debug, Clone, Copy, PartialEq, Eq, Structural)]
pub enum Operation {
    /// The patch itself was not one: the request never got as far as a file.
    Normalize,
    /// The settings were good and the disk would not take them.
    Write,
}

impl Operation {
    /// The word for it.
    pub open spec fn word(self) -> Text {
        match self {
            Operation::Normalize => "normalize"@,
            Operation::Write => "write-file"@,
        }
    }

    /// The word for it.
    pub fn as_str(self) -> (out: &'static str)
        ensures
            out@ == self.word(),
    {
        match self {
            Operation::Normalize => "normalize",
            Operation::Write => "write-file",
        }
    }
}

/// The refusal that a client decodes.
pub open spec fn refusal(settings_path: Text, operation: Operation, detail: Text) -> Value {
    Value::Object(
        seq![
            ("_tag"@, Value::Text("ServerSettingsError"@)),
            ("cause"@, Value::Text(detail)),
            ("operation"@, Value::Text(operation.word())),
            ("settingsPath"@, Value::Text(settings_path)),
        ],
    )
}

/// The refusal that a client decodes, about the file at `settings_path`.
pub fn refused(settings_path: &str, operation: Operation, detail: &str) -> (out: Json)
    ensures
        out@ == refusal(settings_path@, operation, detail@),
{
    let fields: Fields = vec![
        json::entry("_tag", Json::text(ERROR)),
        json::entry("cause", Json::text(detail)),
        json::entry("operation", Json::text(operation.as_str())),
        json::entry("settingsPath", Json::text(settings_path)),
    ];
    proof {
        assert(json::fields_view(fields@) =~= refusal(settings_path@, operation, detail@)->Object_0);
    }
    Json::object(fields)
}

/// A change of the settings that was asked for.
#[derive(Debug, PartialEq, Eq)]
pub struct Update {
    pub patch: Fields,
}

/// What a payload holds under a name.
pub open spec fn in_payload(payload: Value, name: Text) -> Option<Value> {
    match payload {
        Value::Object(fields) => json::field(fields, name),
        _ => None,
    }
}

/// The patch in a payload, or what to refuse it with.
pub open spec fn patch_in(payload: Value) -> Result<Seq<(Text, Value)>, Text> {
    match in_payload(payload, "patch"@) {
        None => Err("This call needs a patch of the settings to change; none was given."@),
        Some(Value::Object(fields)) => Ok(fields),
        Some(_) => Err("The patch has to be a group of settings."@),
    }
}

impl Update {
    /// Reads one, naming the file that a refusal is about.
    pub fn read(payload: Json, settings_path: &str) -> (out: Result<Update, Json>)
        ensures
            match (patch_in(payload@), out) {
                (Ok(fields), Ok(update)) => json::fields_view(update.patch@) == fields,
                (Err(why), Err(refused)) => refused@ == refusal(settings_path@, Operation::Normalize, why),
                _ => false,
            },
    {
        proof {
            json::parts_are_viewed(payload);
        }
        let given: Option<&Json> = match payload.as_object() {
            Some(fields) => json::find(fields, "patch"),
            None => None,
        };
        match given {
            None => Err(
                refused(
                    settings_path,
                    Operation::Normalize,
                    "This call needs a patch of the settings to change; none was given.",
                ),
            ),
            Some(given) => {
                proof {
                    json::parts_are_viewed(*given);
                }
                match given.copy() {
                    Json::Object(patch) => {
                        proof {
                            json::parts_are_viewed(Json::Object(patch));
                        }
                        Ok(Update { patch })
                    },
                    _ => Err(
                        refused(settings_path, Operation::Normalize, "The patch has to be a group of settings."),
                    ),
                }
            },
        }
    }

    /// What the settings will be, still to be written down.
    pub fn propose(&self, settings: &Settings) -> (out: Result<Settings, Said<'_>>)
        requires
            settings.provider_instances.wf(),
        ensures
            match out {
                Ok(next) => next.provider_instances.wf() && model::applied(
                    settings@,
                    json::fields_view(self.patch@),
                ) == Ok::<SettingsModel, Refusal>(next@),
                Err(refused) => model::applied(settings@, json::fields_view(self.patch@)) == Err::<
                    SettingsModel,
                    Refusal,
                >(refused@),
            },
    {
        let mut next = copy_settings(settings);
        match apply(&mut next, &self.patch) {
            Ok(_) => Ok(next),
            Err(refused) => Err(refused),
        }
    }
}

/// Puts proposed settings in force once they are written down. Where they could
/// not be, the settings stay as they are.
pub fn reconfigure(
    settings: &mut Settings,
    next: Settings,
    saved: Result<(), String>,
    settings_path: &str,
) -> (out: Result<(), Json>)
    ensures
        match saved {
            Ok(_) => out is Ok && *final(settings) == next,
            Err(why) => *final(settings) == *old(settings) && (out matches Err(refused) && refused@ == refusal(
                settings_path@,
                Operation::Write,
                "they were not saved: "@ + why@,
            )),
        },
{
    match saved {
        Ok(_) => {
            *settings = next;
            Ok(())
        },
        Err(why) => Err(refused(settings_path, Operation::Write, &text::glue("they were not saved: ", &why))),
    }
}

/// Whether two lists hold the same texts.
fn same_list(a: &Vec<String>, b: &Vec<String>) -> (out: bool)
    ensures
        out == (text::views(a@) == text::views(b@)),
{
    if a.len() != b.len() {
        proof {
            assert(text::views(a@).len() != text::views(b@).len());
        }
        return false;
    }
    let mut i: usize = 0;
    while i < a.len()
        invariant
            a@.len() == b@.len(),
            i <= a@.len(),
            forall|j: int| 0 <= j < i ==> (#[trigger] a@[j])@ == b@[j]@,
        decreases a@.len() - i,
    {
        if !text::same(&a[i], &b[i]) {
            proof {
                assert(text::views(a@)[i as int] != text::views(b@)[i as int]);
            }
            return false;
        }
        i += 1;
    }
    proof {
        assert(text::views(a@) =~= text::views(b@));
    }
    true
}

/// Whether two instances are configured alike.
fn same_instance(a: &Instance<String, Vec<String>>, b: &Instance<String, Vec<String>>) -> (out: bool)
    ensures
        out == (a@ == b@),
{
    if a.enabled != b.enabled || !text::same(&a.display_name, &b.display_name) {
        return false;
    }
    match (&a.config, &b.config) {
        (
            InstanceConfig::Claude { binary_path, home_path, launch_args, custom_models },
            InstanceConfig::Claude {
                binary_path: binary_path_b,
                home_path: home_path_b,
                launch_args: launch_args_b,
                custom_models: custom_models_b,
            },
        ) => text::same(binary_path, binary_path_b) && text::same(home_path, home_path_b) && text::same(
            launch_args,
            launch_args_b,
        ) && same_list(custom_models, custom_models_b),
        (
            InstanceConfig::Codex { binary_path, home_path, launch_args, custom_models },
            InstanceConfig::Codex {
                binary_path: binary_path_b,
                home_path: home_path_b,
                launch_args: launch_args_b,
                custom_models: custom_models_b,
            },
        ) => text::same(binary_path, binary_path_b) && text::same(home_path, home_path_b) && text::same(
            launch_args,
            launch_args_b,
        ) && same_list(custom_models, custom_models_b),
        (
            InstanceConfig::OpenCode { binary_path, server_url, server_password, custom_models },
            InstanceConfig::OpenCode {
                binary_path: binary_path_b,
                server_url: server_url_b,
                server_password: server_password_b,
                custom_models: custom_models_b,
            },
        ) => text::same(binary_path, binary_path_b) && text::same(server_url, server_url_b) && text::same(
            server_password,
            server_password_b,
        ) && same_list(custom_models, custom_models_b),
        _ => false,
    }
}

/// The ids among `ids` that the predicate holds of, in their order.
pub open spec fn chosen(ids: Seq<Text>, picked: spec_fn(Text) -> bool) -> Seq<Text>
    decreases ids.len(),
{
    if ids.len() == 0 {
        Seq::empty()
    } else if picked(ids.last()) {
        chosen(ids.drop_last(), picked).push(ids.last())
    } else {
        chosen(ids.drop_last(), picked)
    }
}

/// The instances that are no longer there: what is known of them is dropped.
pub fn removed(previous: &Instances, current: &Instances) -> (out: Vec<String>)
    requires
        previous.wf(),
        current.wf(),
    ensures
        text::views(out@) == chosen(
            ids_of(previous@),
            |id: Text| !config::instances_of(current@).dom().contains(id),
        ),
{
    let ghost ids = ids_of(previous@);
    let ghost picked = |id: Text| !config::instances_of(current@).dom().contains(id);
    let mut out: Vec<String> = Vec::new();
    let mut i: usize = 0;
    proof {
        assert(ids.take(0) =~= Seq::<Text>::empty());
        assert(text::views(out@) =~= chosen(ids.take(0), picked));
    }
    while i < previous.len()
        invariant
            previous.wf(),
            current.wf(),
            ids == ids_of(previous@),
            picked == (|id: Text| !config::instances_of(current@).dom().contains(id)),
            i <= previous@.len(),
            text::views(out@) == chosen(ids.take(i as int), picked),
        decreases previous@.len() - i,
    {
        let ghost before = text::views(out@);
        let id = previous.key_at(i);
        proof {
            assert(ids.take(i + 1).drop_last() =~= ids.take(i as int));
            assert(ids.take(i + 1).last() == id@);
        }
        if !current.contains(id) {
            out.push(id.clone());
            proof {
                assert(text::views(out@) =~= before.push(id@));
            }
        }
        i += 1;
    }
    proof {
        assert(ids.take(i as int) =~= ids);
    }
    out
}

/// The instances that are configured otherwise than before: they are probed
/// again.
pub fn changed(previous: &Instances, current: &Instances) -> (out: Vec<String>)
    requires
        previous.wf(),
        current.wf(),
    ensures
        text::views(out@) == chosen(
            ids_of(current@),
            |id: Text|
                model::held(config::instances_of(previous@), id) != Some(config::instances_of(current@)[id]),
        ),
{
    let ghost ids = ids_of(current@);
    let ghost picked = |id: Text|
        model::held(config::instances_of(previous@), id) != Some(config::instances_of(current@)[id]);
    let mut out: Vec<String> = Vec::new();
    let mut i: usize = 0;
    proof {
        assert(ids.take(0) =~= Seq::<Text>::empty());
        assert(text::views(out@) =~= chosen(ids.take(0), picked));
    }
    while i < current.len()
        invariant
            previous.wf(),
            current.wf(),
            ids == ids_of(current@),
            picked == (|id: Text|
                model::held(config::instances_of(previous@), id) != Some(config::instances_of(current@)[id])),
            i <= current@.len(),
            text::views(out@) == chosen(ids.take(i as int), picked),
        decreases current@.len() - i,
    {
        let ghost before = text::views(out@);
        let id = current.key_at(i);
        proof {
            keyed::found(current@, i as int);
            assert(ids.take(i + 1).drop_last() =~= ids.take(i as int));
            assert(ids.take(i + 1).last() == id@);
        }
        let same: bool = match previous.get(id) {
            Some(held) => same_instance(held, current.value_at(i)),
            None => false,
        };
        assert(picked(id@) == !same);
        if !same {
            out.push(id.clone());
            proof {
                assert(text::views(out@) =~= before.push(id@));
            }
        }
        i += 1;
    }
    proof {
        assert(ids.take(i as int) =~= ids);
    }
    out
}

} // verus!
