//! What a patch makes of the settings, and how the settings are written down.

use crate::config::{
    AgentModel, AgentSettings, Instance, InstanceConfig, InstanceModel, Observability, Providers, SettingsModel,
    SettingsOf, Text, ThreadEnvMode,
};
use crate::json::Value;
use crate::json;
use crate::provider::DriverKind;
use crate::settings::fields::{
    AgentField, EnvelopeField, Field, ObservabilityField, OpenCodeField, ProviderField,
};
use crate::text;
use crate::web;
use crate::web::UrlParts;
use vstd::prelude::*;

verus! {

/// Why a patch is refused: a sentence, with the value it is about in the middle
/// where it is about one.
#[derive(Debug, PartialEq, Eq)]
pub struct Problem<S, V> {
    pub before: S,
    pub value: Option<V>,
    pub after: S,
}

/// The model of why a patch is refused.
pub type Refusal = Problem<Text, Value>;

/// A refusal that shows a value.
pub open spec fn showing(before: Text, value: Value, after: Text) -> Refusal {
    Problem { before, value: Some(value), after }
}

/// A refusal that shows none.
pub open spec fn saying(sentence: Text) -> Refusal {
    Problem { before: sentence, value: None, after: ""@ }
}

/// What `step` makes of `start` and the first `n` items in turn, unless it
/// refuses one: then that refusal.
pub open spec fn folded<A, X, E>(start: A, items: Seq<X>, step: spec_fn(A, X) -> Result<A, E>, n: nat) -> Result<A, E>
    decreases n,
{
    if n == 0 {
        Ok(start)
    } else {
        match folded(start, items, step, (n - 1) as nat) {
            Ok(reached) => step(reached, items[n - 1]),
            Err(refused) => Err(refused),
        }
    }
}

/// Once an item is refused, no later one changes that.
pub proof fn a_refusal_stands<A, X, E>(
    start: A,
    items: Seq<X>,
    step: spec_fn(A, X) -> Result<A, E>,
    at: nat,
    n: nat,
)
    requires
        at <= n,
        folded(start, items, step, at) is Err,
    ensures
        folded(start, items, step, n) == folded(start, items, step, at),
    decreases n,
{
    if at < n {
        a_refusal_stands(start, items, step, at, (n - 1) as nat);
    }
}

// ---------------------------------------------------------------------------
// Reading one value
// ---------------------------------------------------------------------------

/// A setting that is not one.
pub open spec fn unrecognised(field: Text) -> Refusal {
    saying("'"@ + field + "' is not a setting this server knows."@)
}

/// A value that has to be true or false.
pub open spec fn boolean(field: Text, value: Value) -> Result<bool, Refusal> {
    match value {
        Value::Bool(b) => Ok(b),
        _ => Err(showing("'"@ + field + "' has to be true or false, and was "@, value, "."@)),
    }
}

/// A value that has to be text, taken without the space around it.
pub open spec fn written_text(field: Text, value: Value) -> Result<Text, Refusal> {
    match value {
        Value::Text(text) => Ok(text::trimmed(text)),
        _ => Err(showing("'"@ + field + "' has to be text, and was "@, value, "."@)),
    }
}

/// A value that has to be text and is shown to nobody.
pub open spec fn secret_text(field: Text, value: Value) -> Result<Text, Refusal> {
    match value {
        Value::Text(text) => Ok(text::trimmed(text)),
        _ => Err(saying("'"@ + field + "' has to be text."@)),
    }
}

/// A value that has to be a group of settings.
pub open spec fn group(field: Text, value: Value) -> Result<Seq<(Text, Value)>, Refusal> {
    match value {
        Value::Object(fields) => Ok(fields),
        _ => Err(showing("'"@ + field + "' has to be a group of settings, and was "@, value, "."@)),
    }
}

/// The longest that a fetch interval may be, in milliseconds: a day.
pub const LONGEST_INTERVAL: u64 = 86_400_000;

/// A value that has to be a fetch interval.
pub open spec fn interval(value: Value) -> Result<u64, Refusal> {
    match value {
        Value::Whole(n) if n <= LONGEST_INTERVAL => Ok(n),
        _ => Err(
            showing(
                "'automaticGitFetchInterval' has to be a whole number of milliseconds between 0 and 86400000, and was "@,
                value,
                "."@,
            ),
        ),
    }
}

/// A value that has to name where a new thread works.
pub open spec fn env_mode(value: Value) -> Result<ThreadEnvMode, Refusal> {
    if value.as_text() == Some("local"@) {
        Ok(ThreadEnvMode::Local)
    } else if value.as_text() == Some("worktree"@) {
        Err(
            saying(
                "Threads that run in their own worktree are not supported by this server, so 'defaultThreadEnvMode' cannot be set to 'worktree'."@,
            ),
        )
    } else {
        Err(showing("'defaultThreadEnvMode' has to be one of local or worktree, and was "@, value, "."@))
    }
}

/// One name of a list of models, added to those before it.
pub open spec fn model_step() -> spec_fn(Seq<Text>, Value) -> Result<Seq<Text>, Refusal> {
    |named: Seq<Text>, value: Value|
        match value {
            Value::Text(text) if text::trimmed(text).len() > 0 => Ok(named.push(text::trimmed(text))),
            _ => Err(showing("'customModels' has to hold model names, and held "@, value, "."@)),
        }
}

/// A value that has to be a list of model names.
pub open spec fn models(value: Value) -> Result<Seq<Text>, Refusal> {
    match value {
        Value::Array(items) => folded(Seq::empty(), items, model_step(), items.len()),
        _ => Err(showing("'customModels' has to be a list of model names, and was "@, value, "."@)),
    }
}

/// Whether a character may stand in a slug.
pub open spec fn slug_character(c: char) -> bool {
    slug_letter(c) || '0' <= c <= '9' || c == '-' || c == '_'
}

/// Whether a character may stand first in a slug.
pub open spec fn slug_letter(c: char) -> bool {
    'a' <= c <= 'z' || 'A' <= c <= 'Z'
}

/// A letter, then letters, digits, `-` and `_`: at most 64 characters in all.
pub open spec fn slug(s: Text) -> bool {
    &&& 1 <= s.len() <= 64
    &&& slug_letter(s[0])
    &&& forall|i: int| 0 <= i < s.len() ==> slug_character(#[trigger] s[i])
}

/// That something is no provider instance id.
pub open spec fn not_an_instance_id(id: Text) -> Refusal {
    saying(
        "'"@ + id
            + "' is not a provider instance id: it has to start with a letter and hold only letters, digits, '-' and '_'."@,
    )
}

/// The text in a field, or nothing.
pub open spec fn text_in(fields: Seq<(Text, Value)>, name: Text) -> Text {
    match json::field(fields, name) {
        Some(Value::Text(text)) => text,
        _ => Seq::empty(),
    }
}

/// A value that has to name an instance and a model.
pub open spec fn selection(value: Value) -> Result<Value, Refusal> {
    match value {
        Value::Object(fields) => {
            let instance = text::trimmed(text_in(fields, "instanceId"@));
            if instance.len() == 0 {
                Err(saying("'textGenerationModelSelection' has to name a non-empty 'instanceId'."@))
            } else if text::trimmed(text_in(fields, "model"@)).len() == 0 {
                Err(saying("'textGenerationModelSelection' has to name a non-empty 'model'."@))
            } else if !slug(instance) {
                Err(not_an_instance_id(instance))
            } else {
                Ok(value)
            }
        },
        _ => Err(
            showing(
                "'textGenerationModelSelection' has to name an instance and a model, and was "@,
                value,
                "."@,
            ),
        ),
    }
}

// ---------------------------------------------------------------------------
// Agents
// ---------------------------------------------------------------------------

/// What one setting of an agent makes of it. `driver` is the agent's own.
pub open spec fn agent_field(driver: DriverKind, agent: AgentModel, name: Text, value: Value) -> Result<
    AgentModel,
    Refusal,
> {
    match AgentField::reading(name) {
        Some(AgentField::Enabled) => match boolean(name, value) {
            Ok(enabled) => Ok(AgentSettings { enabled, ..agent }),
            Err(refused) => Err(refused),
        },
        Some(AgentField::BinaryPath) => match written_text(name, value) {
            Ok(binary_path) => Ok(AgentSettings { binary_path, ..agent }),
            Err(refused) => Err(refused),
        },
        Some(AgentField::HomePath) => match written_text(name, value) {
            Ok(home_path) => Ok(AgentSettings { home_path, ..agent }),
            Err(refused) => Err(refused),
        },
        Some(AgentField::LaunchArgs) => match written_text(name, value) {
            Ok(launch_args) => Ok(AgentSettings { launch_args, ..agent }),
            Err(refused) => Err(refused),
        },
        Some(AgentField::CustomModels) => match models(value) {
            Ok(custom_models) => Ok(AgentSettings { custom_models, ..agent }),
            Err(refused) => Err(refused),
        },
        Some(AgentField::ShadowHomePath) if driver == DriverKind::Codex => Err(
            saying(
                "'providers.codex.shadowHomePath' is an account-selection setting, and this server runs one Codex account, so it cannot honour or store it."@,
            ),
        ),
        _ => Err(unrecognised("providers."@ + driver.word() + "."@ + name)),
    }
}

/// What one setting of an agent makes of it.
pub open spec fn agent_step(driver: DriverKind) -> spec_fn(AgentModel, (Text, Value)) -> Result<AgentModel, Refusal> {
    |agent: AgentModel, entry: (Text, Value)| agent_field(driver, agent, entry.0, entry.1)
}

/// What a group of settings makes of an agent: each named one is set, and the
/// others stay.
pub open spec fn agent(driver: DriverKind, start: AgentModel, patch: Seq<(Text, Value)>) -> Result<AgentModel, Refusal> {
    folded(start, patch, agent_step(driver), patch.len())
}

// ---------------------------------------------------------------------------
// Provider instances
// ---------------------------------------------------------------------------

/// A setting of an OpenCode agent that is not one.
pub open spec fn known_to_opencode() -> spec_fn((), (Text, Value)) -> Result<(), Refusal> {
    |_seen: (), entry: (Text, Value)|
        if OpenCodeField::reading(entry.0) is Some {
            Ok(())
        } else {
            Err(unrecognised("providers.opencode."@ + entry.0))
        }
}

/// Whether what a text was parsed into is an HTTP or HTTPS URL.
pub open spec fn is_web(url: Option<UrlParts<Text>>) -> bool {
    match url {
        Some(parts) => parts.scheme == "http"@ || parts.scheme == "https"@,
        None => false,
    }
}

/// Whether a text is an HTTP or HTTPS URL.
pub open spec fn is_web_url(url: Text) -> bool {
    is_web(web::parsed_url(url))
}

/// A text setting that may be left out.
pub open spec fn text_or(fields: Seq<(Text, Value)>, name: Text, otherwise: Text) -> Result<Text, Refusal> {
    match json::field(fields, name) {
        Some(value) => written_text(name, value),
        None => Ok(otherwise),
    }
}

/// The configuration of an OpenCode agent.
pub open spec fn opencode(config: Seq<(Text, Value)>) -> Result<InstanceConfig<Text, Seq<Text>>, Refusal> {
    match folded((), config, known_to_opencode(), config.len()) {
        Err(refused) => Err(refused),
        Ok(_) => match text_or(config, "serverUrl"@, ""@) {
            Err(refused) => Err(refused),
            Ok(server_url) => if server_url.len() > 0 && !is_web_url(server_url) {
                Err(saying("'serverUrl' has to be an HTTP or HTTPS URL."@))
            } else {
                match text_or(config, "binaryPath"@, "opencode"@) {
                    Err(refused) => Err(refused),
                    Ok(binary_path) => match opencode_password(config) {
                        Err(refused) => Err(refused),
                        Ok(server_password) => match opencode_models(config) {
                            Err(refused) => Err(refused),
                            Ok(custom_models) => Ok(
                                InstanceConfig::OpenCode { binary_path, server_url, server_password, custom_models },
                            ),
                        },
                    },
                }
            },
        },
    }
}

/// The password in the configuration of an OpenCode agent.
pub open spec fn opencode_password(config: Seq<(Text, Value)>) -> Result<Text, Refusal> {
    match json::field(config, "serverPassword"@) {
        Some(value) => secret_text("serverPassword"@, value),
        None => Ok(""@),
    }
}

/// The models in the configuration of an OpenCode agent.
pub open spec fn opencode_models(config: Seq<(Text, Value)>) -> Result<Seq<Text>, Refusal> {
    match json::field(config, "customModels"@) {
        Some(value) => models(value),
        None => Ok(Seq::empty()),
    }
}

/// An agent as it is before anything of it is configured.
pub open spec fn unconfigured(binary_path: Text, enabled: bool) -> AgentModel {
    AgentSettings {
        enabled,
        binary_path,
        home_path: ""@,
        launch_args: ""@,
        custom_models: Seq::empty(),
    }
}

/// The configuration of an instance of this driver.
pub open spec fn configured(driver: DriverKind, enabled: bool, config: Seq<(Text, Value)>) -> Result<
    InstanceConfig<Text, Seq<Text>>,
    Refusal,
> {
    match driver {
        DriverKind::Claude => match agent(driver, unconfigured(driver.command(), enabled), config) {
            Ok(agent) => Ok(
                InstanceConfig::Claude {
                    binary_path: agent.binary_path,
                    home_path: agent.home_path,
                    launch_args: agent.launch_args,
                    custom_models: agent.custom_models,
                },
            ),
            Err(refused) => Err(refused),
        },
        DriverKind::Codex => match agent(driver, unconfigured(driver.command(), enabled), config) {
            Ok(agent) => Ok(
                InstanceConfig::Codex {
                    binary_path: agent.binary_path,
                    home_path: agent.home_path,
                    launch_args: agent.launch_args,
                    custom_models: agent.custom_models,
                },
            ),
            Err(refused) => Err(refused),
        },
        DriverKind::OpenCode => opencode(config),
    }
}

/// A part of a provider instance that is not one.
pub open spec fn known_to_envelope(id: Text) -> spec_fn((), (Text, Value)) -> Result<(), Refusal> {
    |_seen: (), entry: (Text, Value)|
        if EnvelopeField::reading(entry.0) is Some {
            Ok(())
        } else {
            Err(unrecognised("providerInstances."@ + id + "."@ + entry.0))
        }
}

/// The driver that an instance which is there by default belongs to.
pub open spec fn default_driver(id: Text) -> Option<DriverKind> {
    if id == "claudeAgent"@ {
        Some(DriverKind::Claude)
    } else if id == "codex"@ {
        Some(DriverKind::Codex)
    } else {
        None
    }
}

/// The driver that an envelope names, for the instance of this id.
pub open spec fn envelope_driver(id: Text, envelope: Seq<(Text, Value)>) -> Result<DriverKind, Refusal> {
    let named = text::trimmed(text_in(envelope, "driver"@));
    if !slug(named) {
        Err(saying("Provider instance '"@ + id + "' needs a valid driver kind."@))
    } else {
        match DriverKind::reading(named) {
            None => Err(saying("Provider instance '"@ + id + "' uses unsupported driver kind '"@ + named + "'."@)),
            Some(driver) => match default_driver(id) {
                Some(expected) if expected != driver => Err(
                    saying(
                        "Default provider instance '"@ + id + "' belongs to driver '"@ + expected.word() + "', not '"@
                            + named + "'."@,
                    ),
                ),
                _ => Ok(driver),
            },
        }
    }
}

/// Whether an envelope says that its instance is on. One that says nothing is.
pub open spec fn envelope_enabled(envelope: Seq<(Text, Value)>) -> Result<bool, Refusal> {
    match json::field(envelope, "enabled"@) {
        Some(value) => boolean("enabled"@, value),
        None => Ok(true),
    }
}

/// The configuration group of an envelope. One without it has an empty one.
pub open spec fn envelope_config(id: Text, envelope: Seq<(Text, Value)>) -> Result<Seq<(Text, Value)>, Refusal> {
    match json::field(envelope, "config"@) {
        Some(value) => group("providerInstances."@ + id + ".config"@, value),
        None => Ok(Seq::empty()),
    }
}

/// The instance that an envelope describes.
pub open spec fn described(id: Text, envelope: Seq<(Text, Value)>) -> Result<InstanceModel, Refusal> {
    match envelope_driver(id, envelope) {
        Err(refused) => Err(refused),
        Ok(driver) => {
            let display_name = text::trimmed(text_in(envelope, "displayName"@));
            if display_name.len() == 0 {
                Err(saying("Provider instance '"@ + id + "' needs a non-empty displayName."@))
            } else {
                match envelope_enabled(envelope) {
                    Err(refused) => Err(refused),
                    Ok(enabled) => match envelope_config(id, envelope) {
                        Err(refused) => Err(refused),
                        Ok(config) => match configured(driver, enabled, config) {
                            Err(refused) => Err(refused),
                            Ok(config) => Ok(Instance { display_name, enabled, config }),
                        },
                    },
                }
            }
        },
    }
}

/// The instance that a value describes under this id.
pub open spec fn instance(id: Text, value: Value) -> Result<InstanceModel, Refusal> {
    if !slug(id) {
        Err(not_an_instance_id(id))
    } else {
        match group("providerInstances."@ + id, value) {
            Err(refused) => Err(refused),
            Ok(envelope) => match folded((), envelope, known_to_envelope(id), envelope.len()) {
                Err(refused) => Err(refused),
                Ok(_) => described(id, envelope),
            },
        }
    }
}

/// One more provider instance.
pub open spec fn instance_step() -> spec_fn(Map<Text, InstanceModel>, (Text, Value)) -> Result<
    Map<Text, InstanceModel>,
    Refusal,
> {
    |listed: Map<Text, InstanceModel>, entry: (Text, Value)|
        match instance(entry.0, entry.1) {
            Ok(instance) => Ok(listed.insert(entry.0, instance)),
            Err(refused) => Err(refused),
        }
}

/// The provider instances that a group describes.
pub open spec fn provider_instances(provided: Seq<(Text, Value)>) -> Result<Map<Text, InstanceModel>, Refusal> {
    folded(Map::<Text, InstanceModel>::empty(), provided, instance_step(), provided.len())
}

/// Whether a group leaves out the password of the instance of this id.
pub open spec fn password_is_omitted(provided: Seq<(Text, Value)>, id: Text) -> bool {
    match json::field(provided, id) {
        Some(Value::Object(envelope)) => match json::field(envelope, "config"@) {
            Some(Value::Object(config)) => json::field(config, "serverPassword"@) is None,
            _ => true,
        },
        _ => true,
    }
}

/// An instance with the password of the one it replaces, where both are OpenCode
/// agents and the group that describes it leaves the password out.
pub open spec fn with_kept_password(
    previous: Option<InstanceModel>,
    fresh: InstanceModel,
    omitted: bool,
) -> InstanceModel {
    match (previous, fresh.config) {
        (
            Some(Instance { config: InstanceConfig::OpenCode { server_password: kept, .. }, .. }),
            InstanceConfig::OpenCode { binary_path, server_url, server_password, custom_models },
        ) if omitted => Instance {
            config: InstanceConfig::OpenCode { binary_path, server_url, server_password: kept, custom_models },
            ..fresh
        },
        _ => fresh,
    }
}

/// What a table holds under an id.
pub open spec fn held(instances: Map<Text, InstanceModel>, id: Text) -> Option<InstanceModel> {
    if instances.dom().contains(id) {
        Some(instances[id])
    } else {
        None
    }
}

/// The instances in force after `fresh` replaced `previous`: passwords that were
/// left out are kept, and so are the two default instances.
pub open spec fn replaced(
    previous: Map<Text, InstanceModel>,
    provided: Seq<(Text, Value)>,
    fresh: Map<Text, InstanceModel>,
) -> Map<Text, InstanceModel> {
    Map::new(
        |id: Text| fresh.dom().contains(id) || (default_driver(id) is Some && previous.dom().contains(id)),
        |id: Text|
            if fresh.dom().contains(id) {
                with_kept_password(held(previous, id), fresh[id], password_is_omitted(provided, id))
            } else {
                previous[id]
            },
    )
}

// ---------------------------------------------------------------------------
// The patch
// ---------------------------------------------------------------------------

/// One setting of `observability`.
pub open spec fn observability_step() -> spec_fn(Observability<Text>, (Text, Value)) -> Result<
    Observability<Text>,
    Refusal,
> {
    |reached: Observability<Text>, entry: (Text, Value)|
        match ObservabilityField::reading(entry.0) {
            Some(ObservabilityField::OtlpTracesUrl) => match written_text(entry.0, entry.1) {
                Ok(otlp_traces_url) => Ok(Observability { otlp_traces_url, ..reached }),
                Err(refused) => Err(refused),
            },
            Some(ObservabilityField::OtlpMetricsUrl) => match written_text(entry.0, entry.1) {
                Ok(otlp_metrics_url) => Ok(Observability { otlp_metrics_url, ..reached }),
                Err(refused) => Err(refused),
            },
            None => Err(unrecognised("observability."@ + entry.0)),
        }
}

/// One driver of `providers`.
pub open spec fn provider_step() -> spec_fn(Providers<AgentModel>, (Text, Value)) -> Result<
    Providers<AgentModel>,
    Refusal,
> {
    |reached: Providers<AgentModel>, entry: (Text, Value)|
        match ProviderField::reading(entry.0) {
            Some(ProviderField::ClaudeAgent) => match group(entry.0, entry.1) {
                Err(refused) => Err(refused),
                Ok(patch) => match agent(DriverKind::Claude, reached.claude_agent, patch) {
                    Ok(claude_agent) => Ok(Providers { claude_agent, ..reached }),
                    Err(refused) => Err(refused),
                },
            },
            Some(ProviderField::Codex) => match group(entry.0, entry.1) {
                Err(refused) => Err(refused),
                Ok(patch) => match agent(DriverKind::Codex, reached.codex, patch) {
                    Ok(codex) => Ok(Providers { codex, ..reached }),
                    Err(refused) => Err(refused),
                },
            },
            Some(_) => Err(
                saying("This server has no '"@ + entry.0 + "' driver, so it cannot be configured."@),
            ),
            None => Err(unrecognised("providers."@ + entry.0)),
        }
}

/// What one setting makes of all of them.
pub open spec fn setting(settings: SettingsModel, name: Text, value: Value) -> Result<SettingsModel, Refusal> {
    match Field::reading(name) {
        Some(Field::EnableProviderUpdateChecks) => match boolean(name, value) {
            Ok(b) => Ok(SettingsOf { enable_provider_update_checks: b, ..settings }),
            Err(refused) => Err(refused),
        },
        Some(Field::NewWorktreesStartFromOrigin) => match boolean(name, value) {
            Ok(b) => Ok(SettingsOf { new_worktrees_start_from_origin: b, ..settings }),
            Err(refused) => Err(refused),
        },
        Some(Field::AddProjectBaseDirectory) => match written_text(name, value) {
            Ok(text) => Ok(SettingsOf { add_project_base_directory: text, ..settings }),
            Err(refused) => Err(refused),
        },
        Some(Field::AutomaticGitFetchInterval) => match interval(value) {
            Ok(n) => Ok(SettingsOf { automatic_git_fetch_interval: n, ..settings }),
            Err(refused) => Err(refused),
        },
        Some(Field::DefaultThreadEnvMode) => match env_mode(value) {
            Ok(mode) => Ok(SettingsOf { default_thread_env_mode: mode, ..settings }),
            Err(refused) => Err(refused),
        },
        Some(Field::Observability) => match group(name, value) {
            Err(refused) => Err(refused),
            Ok(inside) => match folded(settings.observability, inside, observability_step(), inside.len()) {
                Ok(observability) => Ok(SettingsOf { observability, ..settings }),
                Err(refused) => Err(refused),
            },
        },
        Some(Field::Providers) => match group(name, value) {
            Err(refused) => Err(refused),
            Ok(inside) => match folded(settings.providers, inside, provider_step(), inside.len()) {
                Ok(providers) => Ok(SettingsOf { providers, ..settings }),
                Err(refused) => Err(refused),
            },
        },
        Some(Field::EnableAssistantStreaming) => match boolean(name, value) {
            Err(refused) => Err(refused),
            Ok(b) => if b == settings.enable_assistant_streaming {
                Ok(settings)
            } else {
                Err(
                    saying(
                        "This server always streams the agent's reply, so 'enableAssistantStreaming' cannot be turned off."@,
                    ),
                )
            },
        },
        Some(Field::ProviderInstances) => match group(name, value) {
            Err(refused) => Err(refused),
            Ok(provided) => match provider_instances(provided) {
                Err(refused) => Err(refused),
                Ok(fresh) => Ok(
                    SettingsOf {
                        provider_instances: replaced(settings.provider_instances, provided, fresh),
                        ..settings
                    },
                ),
            },
        },
        Some(Field::TextGenerationModelSelection) => match selection(value) {
            Ok(chosen) => Ok(SettingsOf { text_generation_model_selection: chosen, ..settings }),
            Err(refused) => Err(refused),
        },
        None => Err(unrecognised(name)),
    }
}

/// What one setting makes of all of them.
pub open spec fn setting_step() -> spec_fn(SettingsModel, (Text, Value)) -> Result<SettingsModel, Refusal> {
    |settings: SettingsModel, entry: (Text, Value)| setting(settings, entry.0, entry.1)
}

/// Whether there is a value, and it is a group that has this field.
pub open spec fn groups(value: Option<Value>, inner: Text) -> bool {
    match value {
        Some(Value::Object(inside)) => json::field(inside, inner) is Some,
        _ => false,
    }
}

/// The instance that an agent configured by driver amounts to.
pub open spec fn envelope_of(driver: DriverKind, agent: AgentModel, display_name: Text) -> InstanceModel {
    Instance {
        display_name,
        enabled: agent.enabled,
        config: if driver == DriverKind::Claude {
            InstanceConfig::Claude {
                binary_path: agent.binary_path,
                home_path: agent.home_path,
                launch_args: agent.launch_args,
                custom_models: agent.custom_models,
            }
        } else {
            InstanceConfig::Codex {
                binary_path: agent.binary_path,
                home_path: agent.home_path,
                launch_args: agent.launch_args,
                custom_models: agent.custom_models,
            }
        },
    }
}

/// The instances after an agent was configured by driver: its default instance is
/// what the agent now is, unless the patch describes that instance itself.
pub open spec fn with_envelope(
    patch: Seq<(Text, Value)>,
    driver: DriverKind,
    agent: AgentModel,
    display_name: Text,
    instances: Map<Text, InstanceModel>,
) -> Map<Text, InstanceModel> {
    if groups(json::field(patch, "providers"@), driver.word()) && !groups(
        json::field(patch, "providerInstances"@),
        driver.word(),
    ) {
        instances.insert(driver.word(), envelope_of(driver, agent, display_name))
    } else {
        instances
    }
}

/// The settings with the two default instances brought in line with `providers`.
pub open spec fn aligned(patch: Seq<(Text, Value)>, settings: SettingsModel) -> SettingsModel {
    SettingsOf {
        provider_instances: with_envelope(
            patch,
            DriverKind::Codex,
            settings.providers.codex,
            DriverKind::Codex.label(),
            with_envelope(
                patch,
                DriverKind::Claude,
                settings.providers.claude_agent,
                DriverKind::Claude.label(),
                settings.provider_instances,
            ),
        ),
        ..settings
    }
}

/// What a patch makes of the settings, or why it is refused.
pub open spec fn applied(settings: SettingsModel, patch: Seq<(Text, Value)>) -> Result<SettingsModel, Refusal> {
    match folded(settings, patch, setting_step(), patch.len()) {
        Ok(next) => Ok(aligned(patch, next)),
        Err(refused) => Err(refused),
    }
}

// ---------------------------------------------------------------------------
// The file
// ---------------------------------------------------------------------------

/// The settings after one field of the file was read. A field that does not read
/// costs itself.
pub open spec fn settled(settings: SettingsModel, name: Text, value: Value) -> SettingsModel {
    match applied(settings, seq![(name, value)]) {
        Ok(next) => next,
        Err(_) => settings,
    }
}

/// The settings after the first `n` fields of the file were read.
pub open spec fn read_so_far(defaults: SettingsModel, stored: Seq<(Text, Value)>, n: nat) -> SettingsModel
    decreases n,
{
    if n == 0 {
        defaults
    } else {
        let reached = read_so_far(defaults, stored, (n - 1) as nat);
        settled(reached, stored[n - 1].0, stored[n - 1].1)
    }
}

/// What was wrong with the first `n` fields of the file.
pub open spec fn complaints_so_far(defaults: SettingsModel, stored: Seq<(Text, Value)>, n: nat) -> Seq<Refusal>
    decreases n,
{
    if n == 0 {
        Seq::empty()
    } else {
        complaints_so_far(defaults, stored, (n - 1) as nat) + complaint(
            read_so_far(defaults, stored, (n - 1) as nat),
            stored[n - 1].0,
            stored[n - 1].1,
        )
    }
}

/// What was wrong with one field of the file.
pub open spec fn complaint(settings: SettingsModel, name: Text, value: Value) -> Seq<Refusal> {
    match applied(settings, seq![(name, value)]) {
        Ok(_) => Seq::empty(),
        Err(refused) => seq![refused],
    }
}

/// What was wrong with the file.
pub open spec fn complaints(defaults: SettingsModel, stored: Seq<(Text, Value)>) -> Seq<Refusal> {
    let reached = read_so_far(defaults, stored, stored.len());
    complaints_so_far(defaults, stored, stored.len()) + match json::field(stored, "providerInstances"@) {
        Some(value) => complaint(reached, "providerInstances"@, value),
        None => Seq::empty(),
    }
}

/// The settings that a file gives: each field in turn over the defaults, and the
/// provider instances once more, so that it does not matter where they stand.
pub open spec fn loaded(defaults: SettingsModel, stored: Seq<(Text, Value)>) -> SettingsModel {
    let reached = read_so_far(defaults, stored, stored.len());
    match json::field(stored, "providerInstances"@) {
        Some(value) => settled(reached, "providerInstances"@, value),
        None => reached,
    }
}

/// What stands where the settings file belongs.
#[derive(Debug)]
pub enum Found<S, J> {
    /// Nothing, as on every first run.
    Missing,
    /// A file that could not be read, and why.
    Unreadable(S),
    /// A text that is no JSON, and why.
    NotJson(S),
    /// A document.
    Document(J),
}

/// A complaint about one field of the file, which then says what became of it.
pub open spec fn kept_default(said: Refusal) -> Refusal {
    Problem { before: said.before, value: said.value, after: said.after + " That setting kept its default."@ }
}

/// The settings in force once the file has been looked for.
pub open spec fn in_force(defaults: SettingsModel, found: Found<Text, Value>) -> SettingsModel {
    match found {
        Found::Document(Value::Object(fields)) => loaded(defaults, fields),
        _ => defaults,
    }
}

/// What the log is told about the file.
pub open spec fn logged(defaults: SettingsModel, found: Found<Text, Value>) -> Seq<Refusal> {
    match found {
        Found::Missing => Seq::empty(),
        Found::Unreadable(why) => seq![saying("it could not be read: "@ + why)],
        Found::NotJson(why) => seq![saying("it is not valid JSON: "@ + why)],
        Found::Document(Value::Object(fields)) => complaints(defaults, fields).map_values(
            |said: Refusal| kept_default(said),
        ),
        Found::Document(_) => seq![saying("it is not a settings object."@)],
    }
}

/// A list of texts, written down.
pub open spec fn written_list(list: Seq<Text>) -> Value {
    Value::Array(Seq::new(list.len(), |i: int| Value::Text(list[i])))
}

/// An agent, written down.
pub open spec fn written_agent(agent: AgentModel) -> Value {
    Value::Object(
        seq![
            ("binaryPath"@, Value::Text(agent.binary_path)),
            ("customModels"@, written_list(agent.custom_models)),
            ("enabled"@, Value::Bool(agent.enabled)),
            ("homePath"@, Value::Text(agent.home_path)),
            ("launchArgs"@, Value::Text(agent.launch_args)),
        ],
    )
}

/// The configuration of an instance, written down. A password is left out unless
/// `secrets` are written.
pub open spec fn written_config(config: InstanceConfig<Text, Seq<Text>>, secrets: bool) -> Value {
    match config {
        InstanceConfig::Claude { binary_path, home_path, launch_args, custom_models } => Value::Object(
            seq![
                ("binaryPath"@, Value::Text(binary_path)),
                ("customModels"@, written_list(custom_models)),
                ("homePath"@, Value::Text(home_path)),
                ("launchArgs"@, Value::Text(launch_args)),
            ],
        ),
        InstanceConfig::Codex { binary_path, home_path, launch_args, custom_models } => Value::Object(
            seq![
                ("binaryPath"@, Value::Text(binary_path)),
                ("customModels"@, written_list(custom_models)),
                ("homePath"@, Value::Text(home_path)),
                ("launchArgs"@, Value::Text(launch_args)),
            ],
        ),
        InstanceConfig::OpenCode { binary_path, server_url, server_password, custom_models } => if secrets {
            Value::Object(
                seq![
                    ("binaryPath"@, Value::Text(binary_path)),
                    ("customModels"@, written_list(custom_models)),
                    ("serverPassword"@, Value::Text(server_password)),
                    ("serverUrl"@, Value::Text(server_url)),
                ],
            )
        } else {
            Value::Object(
                seq![
                    ("binaryPath"@, Value::Text(binary_path)),
                    ("customModels"@, written_list(custom_models)),
                    ("serverUrl"@, Value::Text(server_url)),
                ],
            )
        },
    }
}

/// A provider instance, written down.
pub open spec fn written_instance(instance: InstanceModel, secrets: bool) -> Value {
    Value::Object(
        seq![
            ("config"@, written_config(instance.config, secrets)),
            ("displayName"@, Value::Text(instance.display_name)),
            ("driver"@, Value::Text(instance.kind().word())),
            ("enabled"@, Value::Bool(instance.enabled)),
        ],
    )
}

/// The provider instances of these ids, written down.
pub open spec fn written_instances(instances: Map<Text, InstanceModel>, ids: Seq<Text>, secrets: bool) -> Seq<
    (Text, Value),
> {
    Seq::new(ids.len(), |i: int| (ids[i], written_instance(instances[ids[i]], secrets)))
}

/// The settings, written down: every one of them, in the order of their names,
/// with the provider instances in the order of `ids`.
pub open spec fn written(settings: SettingsModel, ids: Seq<Text>, secrets: bool) -> Seq<(Text, Value)> {
    seq![
        ("addProjectBaseDirectory"@, Value::Text(settings.add_project_base_directory)),
        ("automaticGitFetchInterval"@, Value::Whole(settings.automatic_git_fetch_interval)),
        ("defaultThreadEnvMode"@, Value::Text("local"@)),
        ("enableAssistantStreaming"@, Value::Bool(settings.enable_assistant_streaming)),
        ("enableProviderUpdateChecks"@, Value::Bool(settings.enable_provider_update_checks)),
        ("newWorktreesStartFromOrigin"@, Value::Bool(settings.new_worktrees_start_from_origin)),
        (
            "observability"@,
            Value::Object(
                seq![
                    ("otlpMetricsUrl"@, Value::Text(settings.observability.otlp_metrics_url)),
                    ("otlpTracesUrl"@, Value::Text(settings.observability.otlp_traces_url)),
                ],
            ),
        ),
        ("providerInstances"@, Value::Object(written_instances(settings.provider_instances, ids, secrets))),
        (
            "providers"@,
            Value::Object(
                seq![
                    ("claudeAgent"@, written_agent(settings.providers.claude_agent)),
                    ("codex"@, written_agent(settings.providers.codex)),
                ],
            ),
        ),
        ("textGenerationModelSelection"@, settings.text_generation_model_selection),
    ]
}

} // verus!
