//! What holds of the settings whatever is patched, written and read.

use crate::config;
use crate::config::{
    AgentModel, AgentSettings, Instance, InstanceConfig, InstanceModel, Observability, Providers, SettingsModel,
    SettingsOf, Text,
};
use crate::json;
use crate::json::Value;
use crate::keyed;
use crate::provider;
use crate::provider::DriverKind;
use crate::settings;
use crate::settings::fields;
use crate::settings::fields::{
    AgentField, EnvelopeField, Field, ObservabilityField, OpenCodeField, ProviderField,
};
use crate::settings::model;
use crate::settings::model::{Found, LONGEST_INTERVAL};
use crate::text;
use vstd::prelude::*;

verus! {

// ---------------------------------------------------------------------------
// Validity
// ---------------------------------------------------------------------------

/// A text without space around it.
pub open spec fn tidy(s: Text) -> bool {
    text::trimmed(s) == s
}

/// Model names: none empty, none with space around it.
pub open spec fn valid_models(list: Seq<Text>) -> bool {
    forall|i: int| 0 <= i < list.len() ==> (#[trigger] list[i]).len() > 0 && tidy(list[i])
}

/// An agent as a patch can leave it.
pub open spec fn valid_agent(agent: AgentModel) -> bool {
    &&& tidy(agent.binary_path)
    &&& tidy(agent.home_path)
    &&& tidy(agent.launch_args)
    &&& valid_models(agent.custom_models)
}

/// The configuration of an instance as a patch can leave it.
pub open spec fn valid_config(config: InstanceConfig<Text, Seq<Text>>) -> bool {
    match config {
        InstanceConfig::Claude { binary_path, home_path, launch_args, custom_models } => {
            tidy(binary_path) && tidy(home_path) && tidy(launch_args) && valid_models(custom_models)
        },
        InstanceConfig::Codex { binary_path, home_path, launch_args, custom_models } => {
            tidy(binary_path) && tidy(home_path) && tidy(launch_args) && valid_models(custom_models)
        },
        InstanceConfig::OpenCode { binary_path, server_url, server_password, custom_models } => {
            &&& tidy(binary_path) && tidy(server_url) && tidy(server_password) && valid_models(custom_models)
            &&& server_url.len() > 0 ==> model::is_web_url(server_url)
        },
    }
}

/// An instance as a patch can leave it under this id.
pub open spec fn valid_instance(id: Text, instance: InstanceModel) -> bool {
    &&& model::slug(id)
    &&& tidy(instance.display_name) && instance.display_name.len() > 0
    &&& model::default_driver(id) is Some ==> model::default_driver(id) == Some(instance.kind())
    &&& valid_config(instance.config)
}

/// Instances as a patch can leave them.
pub open spec fn valid_instances(instances: Map<Text, InstanceModel>) -> bool {
    forall|id: Text| #[trigger] instances.dom().contains(id) ==> valid_instance(id, instances[id])
}

/// Settings as a patch can leave them: every value is one that the patch's own
/// rules accept and keep, and the two default instances are there.
pub open spec fn valid(settings: SettingsModel) -> bool {
    &&& tidy(settings.add_project_base_directory)
    &&& settings.automatic_git_fetch_interval <= LONGEST_INTERVAL
    &&& tidy(settings.observability.otlp_traces_url)
    &&& tidy(settings.observability.otlp_metrics_url)
    &&& valid_agent(settings.providers.claude_agent)
    &&& valid_agent(settings.providers.codex)
    &&& valid_instances(settings.provider_instances)
    &&& settings.provider_instances.dom().contains("claudeAgent"@)
    &&& settings.provider_instances.dom().contains("codex"@)
    &&& model::selection(settings.text_generation_model_selection) is Ok
}

/// Texts that begin and end with no space have none around them.
proof fn tidy_literals()
    ensures
        tidy(""@),
        tidy(DriverKind::Claude.label()),
        tidy(DriverKind::Codex.label()),
        tidy(DriverKind::Claude.command()),
        tidy(DriverKind::Codex.command()),
        tidy("opencode"@),
        tidy("claudeAgent"@),
        DriverKind::Claude.label().len() > 0,
        DriverKind::Codex.label().len() > 0,
        model::slug("claudeAgent"@),
        model::slug("codex"@),
        model::slug("opencode"@),
        "claudeAgent"@ != "codex"@,
{
    reveal_strlit("");
    reveal_strlit("codex");
    reveal_strlit("opencode");
    reveal_strlit("claudeAgent");
    reveal_strlit("Agent");
    assert("claudeAgent"@.len() == 11);
    assert("codex"@.len() == 5);
    let first = DriverKind::Claude.command();
    assert("Agent"@ =~= "claudeAgent"@.subrange(6, 11));
    assert(first == "claudeAgent"@.take(6));
    assert(first[0] == "claudeAgent"@[0] && first.last() == "claudeAgent"@[5]);
    let second = DriverKind::Codex.command();
    assert("codex"@.subrange(0, 5)[0] != "Agent"@[0]);
    assert(second == "codex"@);
    assert(DriverKind::Claude.label().last() == first.last() && DriverKind::Codex.label().last() == second.last());
}

/// What is read as a text has no space around it.
proof fn read_text_is_tidy(field: Text, value: Value)
    ensures
        model::written_text(field, value) matches Ok(s) ==> tidy(s),
        model::secret_text(field, value) matches Ok(s) ==> tidy(s),
{
    if let Value::Text(s) = value {
        text::trimming_is_idempotent(s);
    }
}

/// What is read as a list of models is one.
proof fn read_models_are_valid(items: Seq<Value>, n: nat)
    requires
        n <= items.len(),
    ensures
        model::folded(Seq::<Text>::empty(), items, model::model_step(), n) matches Ok(list) ==> valid_models(list),
    decreases n,
{
    if n > 0 {
        read_models_are_valid(items, (n - 1) as nat);
        if let Value::Text(s) = items[n - 1] {
            text::trimming_is_idempotent(s);
        }
    }
}

/// An agent stays valid.
proof fn an_agent_stays_valid(driver: DriverKind, start: AgentModel, patch: Seq<(Text, Value)>, n: nat)
    requires
        valid_agent(start),
        n <= patch.len(),
    ensures
        model::folded(start, patch, model::agent_step(driver), n) matches Ok(next) ==> valid_agent(next),
    decreases n,
{
    if n > 0 {
        an_agent_stays_valid(driver, start, patch, (n - 1) as nat);
        read_text_is_tidy(patch[n - 1].0, patch[n - 1].1);
        if let Value::Array(items) = patch[n - 1].1 {
            read_models_are_valid(items, items.len());
        }
    }
}

/// What is configured is valid.
proof fn a_configuration_is_valid(driver: DriverKind, enabled: bool, config: Seq<(Text, Value)>)
    ensures
        model::configured(driver, enabled, config) matches Ok(found) ==> valid_config(found),
{
    tidy_literals();
    match driver {
        DriverKind::Claude => {
            an_agent_stays_valid(driver, model::unconfigured(driver.command(), enabled), config, config.len());
        },
        DriverKind::Codex => {
            an_agent_stays_valid(driver, model::unconfigured(driver.command(), enabled), config, config.len());
        },
        DriverKind::OpenCode => {
            if let Some(value) = json::field(config, "serverUrl"@) {
                read_text_is_tidy("serverUrl"@, value);
            }
            if let Some(value) = json::field(config, "binaryPath"@) {
                read_text_is_tidy("binaryPath"@, value);
            }
            if let Some(value) = json::field(config, "serverPassword"@) {
                read_text_is_tidy("serverPassword"@, value);
            }
            if let Some(Value::Array(items)) = json::field(config, "customModels"@) {
                read_models_are_valid(items, items.len());
            }
        },
    }
}

/// The driver that configures an instance is the instance's.
proof fn a_configuration_is_its_drivers(driver: DriverKind, enabled: bool, config: Seq<(Text, Value)>)
    ensures
        model::configured(driver, enabled, config) matches Ok(found) ==> driver == (match found {
            InstanceConfig::Claude { .. } => DriverKind::Claude,
            InstanceConfig::Codex { .. } => DriverKind::Codex,
            InstanceConfig::OpenCode { .. } => DriverKind::OpenCode,
        }),
{
}

/// An instance that is described is valid.
proof fn a_described_instance_is_valid(id: Text, value: Value)
    ensures
        model::instance(id, value) matches Ok(found) ==> valid_instance(id, found),
{
    if let Value::Object(envelope) = value {
        if let Some(Value::Text(s)) = json::field(envelope, "displayName"@) {
            text::trimming_is_idempotent(s);
        }
        if model::instance(id, value) is Ok {
            let driver = model::envelope_driver(id, envelope)->Ok_0;
            let enabled = model::envelope_enabled(envelope)->Ok_0;
            let config = model::envelope_config(id, envelope)->Ok_0;
            a_configuration_is_valid(driver, enabled, config);
            a_configuration_is_its_drivers(driver, enabled, config);
            let name = model::text_in(envelope, "displayName"@);
            text::trimming_is_idempotent(name);
        }
    }
}

/// Instances that are described are valid.
proof fn described_instances_are_valid(provided: Seq<(Text, Value)>, n: nat)
    requires
        n <= provided.len(),
    ensures
        model::folded(Map::<Text, InstanceModel>::empty(), provided, model::instance_step(), n) matches Ok(found) ==> valid_instances(
            found,
        ),
    decreases n,
{
    if n > 0 {
        described_instances_are_valid(provided, (n - 1) as nat);
        a_described_instance_is_valid(provided[n - 1].0, provided[n - 1].1);
    }
}

/// One setting leaves valid settings valid.
proof fn a_setting_keeps_validity(settings: SettingsModel, name: Text, value: Value)
    requires
        valid(settings),
    ensures
        model::setting(settings, name, value) matches Ok(next) ==> valid(next),
{
    read_text_is_tidy(name, value);
    match Field::reading(name) {
        Some(Field::Observability) => {
            if let Value::Object(inside) = value {
                observability_stays_tidy(settings.observability, inside, inside.len());
            }
        },
        Some(Field::Providers) => {
            if let Value::Object(inside) = value {
                providers_stay_valid(settings.providers, inside, inside.len());
            }
        },
        Some(Field::ProviderInstances) => {
            if let Value::Object(provided) = value {
                described_instances_are_valid(provided, provided.len());
                if let Ok(fresh) = model::provider_instances(provided) {
                    let next = model::replaced(settings.provider_instances, provided, fresh);
                    assert forall|id: Text| #[trigger] next.dom().contains(id) implies valid_instance(id, next[id]) by {
                        if fresh.dom().contains(id) {
                            assert(valid_instance(id, fresh[id]));
                            if settings.provider_instances.dom().contains(id) {
                                assert(valid_instance(id, settings.provider_instances[id]));
                            }
                        } else {
                            assert(valid_instance(id, settings.provider_instances[id]));
                        }
                    }
                }
            }
        },
        _ => {},
    }
}

/// Where the server's observations are sent stays without space around it.
proof fn observability_stays_tidy(start: Observability<Text>, inside: Seq<(Text, Value)>, n: nat)
    requires
        tidy(start.otlp_traces_url),
        tidy(start.otlp_metrics_url),
        n <= inside.len(),
    ensures
        model::folded(start, inside, model::observability_step(), n) matches Ok(next) ==> tidy(next.otlp_traces_url) && tidy(
            next.otlp_metrics_url,
        ),
    decreases n,
{
    if n > 0 {
        observability_stays_tidy(start, inside, (n - 1) as nat);
        read_text_is_tidy(inside[n - 1].0, inside[n - 1].1);
    }
}

/// The agents stay valid.
proof fn providers_stay_valid(start: Providers<AgentModel>, inside: Seq<(Text, Value)>, n: nat)
    requires
        valid_agent(start.claude_agent),
        valid_agent(start.codex),
        n <= inside.len(),
    ensures
        model::folded(start, inside, model::provider_step(), n) matches Ok(next) ==> valid_agent(next.claude_agent) && valid_agent(
            next.codex,
        ),
    decreases n,
{
    if n > 0 {
        providers_stay_valid(start, inside, (n - 1) as nat);
        if let Ok(reached) = model::folded(start, inside, model::provider_step(), (n - 1) as nat) {
            if let Value::Object(patch) = inside[n - 1].1 {
                an_agent_stays_valid(DriverKind::Claude, reached.claude_agent, patch, patch.len());
                an_agent_stays_valid(DriverKind::Codex, reached.codex, patch, patch.len());
            }
        }
    }
}

/// Settings stay valid up to every field of a patch.
proof fn settings_stay_valid(settings: SettingsModel, patch: Seq<(Text, Value)>, n: nat)
    requires
        valid(settings),
        n <= patch.len(),
    ensures
        model::folded(settings, patch, model::setting_step(), n) matches Ok(next) ==> valid(next),
    decreases n,
{
    if n > 0 {
        settings_stay_valid(settings, patch, (n - 1) as nat);
        if let Ok(reached) = model::folded(settings, patch, model::setting_step(), (n - 1) as nat) {
            a_setting_keeps_validity(reached, patch[n - 1].0, patch[n - 1].1);
        }
    }
}

/// A patch that is accepted leaves valid settings valid.
pub proof fn an_accepted_patch_keeps_validity(settings: SettingsModel, patch: Seq<(Text, Value)>)
    requires
        valid(settings),
    ensures
        model::applied(settings, patch) matches Ok(next) ==> valid(next),
{
    settings_stay_valid(settings, patch, patch.len());
    tidy_literals();
    if let Ok(next) = model::folded(settings, patch, model::setting_step(), patch.len()) {
        let after = model::aligned(patch, next);
        assert forall|id: Text| #[trigger] after.provider_instances.dom().contains(id) implies valid_instance(
            id,
            after.provider_instances[id],
        ) by {
            if next.provider_instances.dom().contains(id) {
                assert(valid_instance(id, next.provider_instances[id]));
            }
        }
    }
}

/// Whatever the file holds, what it gives over valid defaults is valid.
pub proof fn what_is_loaded_is_valid(defaults: SettingsModel, stored: Seq<(Text, Value)>)
    requires
        valid(defaults),
    ensures
        valid(model::loaded(defaults, stored)),
{
    what_is_read_so_far_is_valid(defaults, stored, stored.len());
    let reached = model::read_so_far(defaults, stored, stored.len());
    if let Some(value) = json::field(stored, "providerInstances"@) {
        an_accepted_patch_keeps_validity(reached, seq![("providerInstances"@, value)]);
    }
}

/// Whatever stands where the file belongs, there are valid settings; and where it
/// is no document of settings, they are the defaults.
pub proof fn a_corrupt_file_costs_nothing_but_itself(defaults: SettingsModel, found: Found<Text, Value>)
    requires
        valid(defaults),
    ensures
        valid(model::in_force(defaults, found)),
        !(found matches Found::Document(Value::Object(_))) ==> model::in_force(defaults, found) == defaults,
{
    if let Found::Document(Value::Object(fields)) = found {
        what_is_loaded_is_valid(defaults, fields);
    }
}

proof fn what_is_read_so_far_is_valid(defaults: SettingsModel, stored: Seq<(Text, Value)>, n: nat)
    requires
        valid(defaults),
        n <= stored.len(),
    ensures
        valid(model::read_so_far(defaults, stored, n)),
    decreases n,
{
    if n > 0 {
        what_is_read_so_far_is_valid(defaults, stored, (n - 1) as nat);
        let reached = model::read_so_far(defaults, stored, (n - 1) as nat);
        an_accepted_patch_keeps_validity(reached, seq![(stored[n - 1].0, stored[n - 1].1)]);
    }
}

// ---------------------------------------------------------------------------
// Reading back what was written
// ---------------------------------------------------------------------------

/// Model names are read back.
proof fn models_are_read_back(list: Seq<Text>, n: nat)
    requires
        valid_models(list),
        n <= list.len(),
    ensures
        model::folded(Seq::<Text>::empty(), model::written_list(list)->Array_0, model::model_step(), n) == Ok::<
            Seq<Text>,
            model::Refusal,
        >(list.take(n as int)),
    decreases n,
{
    if n > 0 {
        models_are_read_back(list, (n - 1) as nat);
        assert(list.take(n as int) =~= list.take(n - 1).push(list[n - 1]));
    } else {
        assert(list.take(0) =~= Seq::<Text>::empty());
    }
}

/// A list of model names is read back.
proof fn a_list_is_read_back(list: Seq<Text>)
    requires
        valid_models(list),
    ensures
        model::models(model::written_list(list)) == Ok::<Seq<Text>, model::Refusal>(list),
{
    models_are_read_back(list, list.len());
    assert(list.take(list.len() as int) =~= list);
}

/// The names of an agent's settings mean what they say.
pub(crate) proof fn agent_names()
    ensures
        AgentField::reading("binaryPath"@) == Some(AgentField::BinaryPath),
        AgentField::reading("customModels"@) == Some(AgentField::CustomModels),
        AgentField::reading("enabled"@) == Some(AgentField::Enabled),
        AgentField::reading("homePath"@) == Some(AgentField::HomePath),
        AgentField::reading("launchArgs"@) == Some(AgentField::LaunchArgs),
{
    fields::agent_field_reads_back(AgentField::BinaryPath);
    fields::agent_field_reads_back(AgentField::CustomModels);
    fields::agent_field_reads_back(AgentField::Enabled);
    fields::agent_field_reads_back(AgentField::HomePath);
    fields::agent_field_reads_back(AgentField::LaunchArgs);
}

/// An agent is read back, whatever it was before.
proof fn an_agent_is_read_back(driver: DriverKind, start: AgentModel, written: AgentModel)
    requires
        valid_agent(written),
    ensures
        model::agent(driver, start, model::written_agent(written)->Object_0) == Ok::<AgentModel, model::Refusal>(
            written,
        ),
{
    let patch = model::written_agent(written)->Object_0;
    let step = model::agent_step(driver);
    agent_names();
    a_list_is_read_back(written.custom_models);
    reveal_with_fuel(model::folded, 6);
    let a1 = AgentSettings { binary_path: written.binary_path, ..start };
    let a2 = AgentSettings { custom_models: written.custom_models, ..a1 };
    let a3 = AgentSettings { enabled: written.enabled, ..a2 };
    let a4 = AgentSettings { home_path: written.home_path, ..a3 };
    assert(step(start, patch[0]) == Ok::<AgentModel, model::Refusal>(a1));
    assert(step(a1, patch[1]) == Ok::<AgentModel, model::Refusal>(a2));
    assert(step(a2, patch[2]) == Ok::<AgentModel, model::Refusal>(a3));
    assert(step(a3, patch[3]) == Ok::<AgentModel, model::Refusal>(a4));
    assert(step(a4, patch[4]) == Ok::<AgentModel, model::Refusal>(written));
    assert(patch.len() == 5);
}

/// The configuration of an agent that is started from a binary is read back.
proof fn an_agent_configuration_is_read_back(
    driver: DriverKind,
    start: AgentModel,
    written: AgentModel,
    patch: Seq<(Text, Value)>,
)
    requires
        valid_agent(written),
        start.enabled == written.enabled,
        patch == seq![
            ("binaryPath"@, Value::Text(written.binary_path)),
            ("customModels"@, model::written_list(written.custom_models)),
            ("homePath"@, Value::Text(written.home_path)),
            ("launchArgs"@, Value::Text(written.launch_args)),
        ],
    ensures
        model::agent(driver, start, patch) == Ok::<AgentModel, model::Refusal>(written),
{
    let step = model::agent_step(driver);
    agent_names();
    a_list_is_read_back(written.custom_models);
    reveal_with_fuel(model::folded, 5);
    let a1 = AgentSettings { binary_path: written.binary_path, ..start };
    let a2 = AgentSettings { custom_models: written.custom_models, ..a1 };
    let a3 = AgentSettings { home_path: written.home_path, ..a2 };
    assert(step(start, patch[0]) == Ok::<AgentModel, model::Refusal>(a1));
    assert(step(a1, patch[1]) == Ok::<AgentModel, model::Refusal>(a2));
    assert(step(a2, patch[2]) == Ok::<AgentModel, model::Refusal>(a3));
    assert(step(a3, patch[3]) == Ok::<AgentModel, model::Refusal>(written));
    assert(patch.len() == 4);
}

/// An instance as it is written down without its secrets.
pub open spec fn without_password(instance: InstanceModel) -> InstanceModel {
    match instance.config {
        InstanceConfig::OpenCode { binary_path, server_url, server_password, custom_models } => Instance {
            config: InstanceConfig::OpenCode { binary_path, server_url, server_password: ""@, custom_models },
            ..instance
        },
        _ => instance,
    }
}

/// What is read of an instance that was written down with or without secrets.
pub open spec fn as_written(instance: InstanceModel, secrets: bool) -> InstanceModel {
    if secrets {
        instance
    } else {
        without_password(instance)
    }
}

/// The names of an OpenCode agent's settings mean what they say and differ.
pub(crate) proof fn opencode_names()
    ensures
        OpenCodeField::reading("binaryPath"@) == Some(OpenCodeField::BinaryPath),
        OpenCodeField::reading("customModels"@) == Some(OpenCodeField::CustomModels),
        OpenCodeField::reading("serverPassword"@) == Some(OpenCodeField::ServerPassword),
        OpenCodeField::reading("serverUrl"@) == Some(OpenCodeField::ServerUrl),
{
    fields::open_code_field_reads_back(OpenCodeField::BinaryPath);
    fields::open_code_field_reads_back(OpenCodeField::CustomModels);
    fields::open_code_field_reads_back(OpenCodeField::ServerPassword);
    fields::open_code_field_reads_back(OpenCodeField::ServerUrl);
}

/// The configuration of an OpenCode agent is read back.
proof fn an_opencode_configuration_is_read_back(
    binary_path: Text,
    server_url: Text,
    server_password: Text,
    custom_models: Seq<Text>,
    secrets: bool,
)
    requires
        valid_config(InstanceConfig::OpenCode { binary_path, server_url, server_password, custom_models }),
    ensures
        ({
            let config = InstanceConfig::OpenCode { binary_path, server_url, server_password, custom_models };
            let fields = model::written_config(config, secrets)->Object_0;
            &&& model::opencode(fields) == Ok::<InstanceConfig<Text, Seq<Text>>, model::Refusal>(
                InstanceConfig::OpenCode {
                    binary_path,
                    server_url,
                    server_password: if secrets {
                        server_password
                    } else {
                        ""@
                    },
                    custom_models,
                },
            )
            &&& json::field(fields, "serverPassword"@) is Some == secrets
        }),
{
    let config = InstanceConfig::OpenCode { binary_path, server_url, server_password, custom_models };
    let fields = model::written_config(config, secrets)->Object_0;
    let step = model::known_to_opencode();
    opencode_names();
    a_list_is_read_back(custom_models);
    reveal_with_fuel(model::folded, 5);
    assert(step((), fields[0]) == Ok::<(), model::Refusal>(()));
    assert(step((), fields[1]) == Ok::<(), model::Refusal>(()));
    assert(step((), fields[2]) == Ok::<(), model::Refusal>(()));
    json::first_field(fields, "binaryPath"@, 0);
    json::first_field(fields, "customModels"@, 1);
    if secrets {
        assert(step((), fields[3]) == Ok::<(), model::Refusal>(()));
        assert(fields.len() == 4);
        json::first_field(fields, "serverPassword"@, 2);
        json::first_field(fields, "serverUrl"@, 3);
    } else {
        assert(fields.len() == 3);
        json::first_field(fields, "serverUrl"@, 2);
        json::first_field(fields, "serverPassword"@, 3);
    }
}

/// The names of the parts of an instance mean what they say and differ.
pub(crate) proof fn envelope_names()
    ensures
        EnvelopeField::reading("config"@) == Some(EnvelopeField::Config),
        EnvelopeField::reading("displayName"@) == Some(EnvelopeField::DisplayName),
        EnvelopeField::reading("driver"@) == Some(EnvelopeField::Driver),
        EnvelopeField::reading("enabled"@) == Some(EnvelopeField::Enabled),
{
    fields::envelope_field_reads_back(EnvelopeField::Config);
    fields::envelope_field_reads_back(EnvelopeField::DisplayName);
    fields::envelope_field_reads_back(EnvelopeField::Driver);
    fields::envelope_field_reads_back(EnvelopeField::Enabled);
}

/// The configuration of an instance is read back.
proof fn a_configuration_is_read_back(instance: InstanceModel, secrets: bool)
    requires
        valid_config(instance.config),
    ensures
        model::configured(
            instance.kind(),
            instance.enabled,
            model::written_config(instance.config, secrets)->Object_0,
        ) == Ok::<InstanceConfig<Text, Seq<Text>>, model::Refusal>(as_written(instance, secrets).config),
        model::written_config(instance.config, secrets) is Object,
        instance.kind() == DriverKind::OpenCode ==> json::field(
            model::written_config(instance.config, secrets)->Object_0,
            "serverPassword"@,
        ) is Some == secrets,
{
    let patch = model::written_config(instance.config, secrets)->Object_0;
    match instance.config {
        InstanceConfig::Claude { binary_path, home_path, launch_args, custom_models } => {
            let agent = AgentSettings { enabled: instance.enabled, binary_path, home_path, launch_args, custom_models };
            let start = model::unconfigured(DriverKind::Claude.command(), instance.enabled);
            an_agent_configuration_is_read_back(DriverKind::Claude, start, agent, patch);
        },
        InstanceConfig::Codex { binary_path, home_path, launch_args, custom_models } => {
            let agent = AgentSettings { enabled: instance.enabled, binary_path, home_path, launch_args, custom_models };
            let start = model::unconfigured(DriverKind::Codex.command(), instance.enabled);
            an_agent_configuration_is_read_back(DriverKind::Codex, start, agent, patch);
        },
        InstanceConfig::OpenCode { binary_path, server_url, server_password, custom_models } => {
            an_opencode_configuration_is_read_back(binary_path, server_url, server_password, custom_models, secrets);
        },
    }
}

/// A provider instance is read back.
proof fn an_instance_is_read_back(id: Text, instance: InstanceModel, secrets: bool)
    requires
        valid_instance(id, instance),
    ensures
        model::instance(id, model::written_instance(instance, secrets)) == Ok::<InstanceModel, model::Refusal>(
            as_written(instance, secrets),
        ),
{
    let envelope = model::written_instance(instance, secrets)->Object_0;
    let step = model::known_to_envelope(id);
    envelope_names();
    tidy_literals();
    provider::driver_kind_reads_back(instance.kind());
    reveal_with_fuel(model::folded, 5);
    assert(envelope.len() == 4);
    assert(step((), envelope[0]) == Ok::<(), model::Refusal>(()));
    assert(step((), envelope[1]) == Ok::<(), model::Refusal>(()));
    assert(step((), envelope[2]) == Ok::<(), model::Refusal>(()));
    assert(step((), envelope[3]) == Ok::<(), model::Refusal>(()));
    json::first_field(envelope, "config"@, 0);
    json::first_field(envelope, "displayName"@, 1);
    json::first_field(envelope, "driver"@, 2);
    json::first_field(envelope, "enabled"@, 3);
    assert(tidy(instance.kind().word()));
    assert(model::slug(instance.kind().word()));
    assert(model::envelope_driver(id, envelope) == Ok::<DriverKind, model::Refusal>(instance.kind()));
    a_configuration_is_read_back(instance, secrets);
}

/// A list of ids that holds every instance of a table once.
pub open spec fn lists(ids: Seq<Text>, instances: Map<Text, InstanceModel>) -> bool {
    &&& ids.no_duplicates()
    &&& forall|id: Text| #[trigger] ids.contains(id) == instances.dom().contains(id)
}

/// The ids of a table list its instances: what the file keeps and what a client is
/// shown name every one of them once.
pub proof fn a_table_lists_its_instances(entries: Seq<(Text, Instance<String, Vec<String>>)>)
    requires
        keyed::ascending(entries),
    ensures
        lists(settings::ids_of(entries), config::instances_of(entries)),
{
    let ids = settings::ids_of(entries);
    let instances = config::instances_of(entries);
    assert forall|i: int, j: int| 0 <= i < ids.len() && 0 <= j < ids.len() && i != j implies ids[i] != ids[j] by {
        keyed::found(entries, i);
        keyed::found(entries, j);
    }
    assert forall|id: Text| #[trigger] ids.contains(id) == instances.dom().contains(id) by {
        if ids.contains(id) {
            let k = choose|k: int| 0 <= k < ids.len() && ids[k] == id;
            assert(entries[k].0 == id);
        }
        if keyed::has(entries, id) {
            let k = keyed::place(entries, id);
            assert(ids[k] == id);
        }
    }
}

/// The first `n` provider instances are read back.
proof fn instances_are_read_back(instances: Map<Text, InstanceModel>, ids: Seq<Text>, secrets: bool, n: nat)
    requires
        valid_instances(instances),
        lists(ids, instances),
        n <= ids.len(),
    ensures
        model::folded(
            Map::<Text, InstanceModel>::empty(),
            model::written_instances(instances, ids, secrets),
            model::instance_step(),
            n,
        ) == Ok::<Map<Text, InstanceModel>, model::Refusal>(
            Map::new(
                |id: Text| ids.take(n as int).contains(id),
                |id: Text| as_written(instances[id], secrets),
            ),
        ),
    decreases n,
{
    let after = Map::new(
        |id: Text| ids.take(n as int).contains(id),
        |id: Text| as_written(instances[id], secrets),
    );
    if n == 0 {
        assert(after =~= Map::<Text, InstanceModel>::empty());
    } else {
        instances_are_read_back(instances, ids, secrets, (n - 1) as nat);
        let id = ids[n - 1];
        assert(ids.contains(id));
        assert(instances.dom().contains(id));
        an_instance_is_read_back(id, instances[id], secrets);
        let before = Map::new(
            |id: Text| ids.take(n - 1).contains(id),
            |id: Text| as_written(instances[id], secrets),
        );
        assert(ids.take(n as int) =~= ids.take(n - 1).push(id));
        assert forall|other: Text| #[trigger] ids.take(n as int).contains(other) == (ids.take(n - 1).contains(other)
            || other == id) by {
            if ids.take(n - 1).contains(other) {
                let earlier = ids.take(n - 1);
                let k = choose|k: int| 0 <= k < earlier.len() && earlier[k] == other;
                assert(ids.take(n as int)[k] == other);
            }
            if other == id {
                assert(ids.take(n as int)[n - 1] == other);
            }
        }
        assert(after =~= before.insert(id, as_written(instances[id], secrets)));
    }
}

/// Where an id stands in a list, its instance is what is written there.
proof fn what_is_written_of_an_instance(
    instances: Map<Text, InstanceModel>,
    ids: Seq<Text>,
    secrets: bool,
    id: Text,
)
    requires
        lists(ids, instances),
        instances.dom().contains(id),
    ensures
        json::field(model::written_instances(instances, ids, secrets), id) == Some(
            model::written_instance(instances[id], secrets),
        ),
{
    assert(ids.contains(id));
    let k = choose|k: int| 0 <= k < ids.len() && ids[k] == id;
    json::first_field(model::written_instances(instances, ids, secrets), id, k);
}

/// The provider instances are read back. Without their secrets, that holds over
/// the very instances that were written.
proof fn the_instances_are_read_back(
    previous: Map<Text, InstanceModel>,
    instances: Map<Text, InstanceModel>,
    ids: Seq<Text>,
    secrets: bool,
)
    requires
        valid_instances(instances),
        lists(ids, instances),
        instances.dom().contains("claudeAgent"@),
        instances.dom().contains("codex"@),
        secrets || previous == instances,
    ensures
        ({
            let provided = model::written_instances(instances, ids, secrets);
            model::provider_instances(provided) matches Ok(fresh) && model::replaced(previous, provided, fresh)
                == instances
        }),
{
    let provided = model::written_instances(instances, ids, secrets);
    instances_are_read_back(instances, ids, secrets, ids.len());
    assert(ids.take(ids.len() as int) =~= ids);
    let fresh = model::provider_instances(provided)->Ok_0;
    assert(fresh == Map::new(|id: Text| ids.contains(id), |id: Text| as_written(instances[id], secrets)));
    let next = model::replaced(previous, provided, fresh);
    assert forall|id: Text| #[trigger] next.dom().contains(id) == instances.dom().contains(id) by {
        assert(ids.contains(id) == instances.dom().contains(id));
        assert(fresh.dom().contains(id) == ids.contains(id));
    }
    assert(next.dom() =~= instances.dom());
    assert forall|id: Text| instances.dom().contains(id) implies #[trigger] next[id] == instances[id] by {
        assert(ids.contains(id) == instances.dom().contains(id));
        assert(fresh.dom().contains(id));
        what_is_written_of_an_instance(instances, ids, secrets, id);
        assert(valid_instance(id, instances[id]));
        a_configuration_is_read_back(instances[id], secrets);
        envelope_names();
        let envelope = model::written_instance(instances[id], secrets)->Object_0;
        json::first_field(envelope, "config"@, 0);
        if instances[id].kind() == DriverKind::OpenCode {
            assert(model::password_is_omitted(provided, id) == !secrets);
        }
    }
    assert(next =~= instances);
}

/// The settings with the setting that stands at `k` in the file taken from others.
spec fn with_setting(settings: SettingsModel, from: SettingsModel, k: int) -> SettingsModel {
    if k == 0 {
        SettingsOf { add_project_base_directory: from.add_project_base_directory, ..settings }
    } else if k == 1 {
        SettingsOf { automatic_git_fetch_interval: from.automatic_git_fetch_interval, ..settings }
    } else if k == 2 {
        SettingsOf { default_thread_env_mode: from.default_thread_env_mode, ..settings }
    } else if k == 4 {
        SettingsOf { enable_provider_update_checks: from.enable_provider_update_checks, ..settings }
    } else if k == 5 {
        SettingsOf { new_worktrees_start_from_origin: from.new_worktrees_start_from_origin, ..settings }
    } else if k == 6 {
        SettingsOf { observability: from.observability, ..settings }
    } else if k == 7 {
        SettingsOf { provider_instances: from.provider_instances, ..settings }
    } else if k == 8 {
        SettingsOf { providers: from.providers, ..settings }
    } else if k == 9 {
        SettingsOf { text_generation_model_selection: from.text_generation_model_selection, ..settings }
    } else {
        settings
    }
}

/// The names of the settings mean what they say.
pub(crate) proof fn setting_names()
    ensures
        Field::reading("addProjectBaseDirectory"@) == Some(Field::AddProjectBaseDirectory),
        Field::reading("automaticGitFetchInterval"@) == Some(Field::AutomaticGitFetchInterval),
        Field::reading("defaultThreadEnvMode"@) == Some(Field::DefaultThreadEnvMode),
        Field::reading("enableAssistantStreaming"@) == Some(Field::EnableAssistantStreaming),
        Field::reading("enableProviderUpdateChecks"@) == Some(Field::EnableProviderUpdateChecks),
        Field::reading("newWorktreesStartFromOrigin"@) == Some(Field::NewWorktreesStartFromOrigin),
        Field::reading("observability"@) == Some(Field::Observability),
        Field::reading("providerInstances"@) == Some(Field::ProviderInstances),
        Field::reading("providers"@) == Some(Field::Providers),
        Field::reading("textGenerationModelSelection"@) == Some(Field::TextGenerationModelSelection),
{
    fields::field_reads_back(Field::AddProjectBaseDirectory);
    fields::field_reads_back(Field::AutomaticGitFetchInterval);
    fields::field_reads_back(Field::DefaultThreadEnvMode);
    fields::field_reads_back(Field::EnableAssistantStreaming);
    fields::field_reads_back(Field::EnableProviderUpdateChecks);
    fields::field_reads_back(Field::NewWorktreesStartFromOrigin);
    fields::field_reads_back(Field::Observability);
    fields::field_reads_back(Field::ProviderInstances);
    fields::field_reads_back(Field::Providers);
    fields::field_reads_back(Field::TextGenerationModelSelection);
}

/// Where the server's observations are sent is read back.
proof fn observability_is_read_back(start: Observability<Text>, written: Observability<Text>)
    requires
        tidy(written.otlp_traces_url),
        tidy(written.otlp_metrics_url),
    ensures
        model::folded(
            start,
            seq![
                ("otlpMetricsUrl"@, Value::Text(written.otlp_metrics_url)),
                ("otlpTracesUrl"@, Value::Text(written.otlp_traces_url)),
            ],
            model::observability_step(),
            2,
        ) == Ok::<Observability<Text>, model::Refusal>(written),
{
    let inside = seq![
        ("otlpMetricsUrl"@, Value::Text(written.otlp_metrics_url)),
        ("otlpTracesUrl"@, Value::Text(written.otlp_traces_url)),
    ];
    let step = model::observability_step();
    fields::observability_field_reads_back(ObservabilityField::OtlpMetricsUrl);
    fields::observability_field_reads_back(ObservabilityField::OtlpTracesUrl);
    reveal_with_fuel(model::folded, 3);
    let o1 = Observability { otlp_metrics_url: written.otlp_metrics_url, ..start };
    assert(step(start, inside[0]) == Ok::<Observability<Text>, model::Refusal>(o1));
    assert(step(o1, inside[1]) == Ok::<Observability<Text>, model::Refusal>(written));
}

/// The agents that are configured by driver are read back.
proof fn providers_are_read_back(start: Providers<AgentModel>, written: Providers<AgentModel>)
    requires
        valid_agent(written.claude_agent),
        valid_agent(written.codex),
    ensures
        model::folded(
            start,
            seq![
                ("claudeAgent"@, model::written_agent(written.claude_agent)),
                ("codex"@, model::written_agent(written.codex)),
            ],
            model::provider_step(),
            2,
        ) == Ok::<Providers<AgentModel>, model::Refusal>(written),
{
    let inside = seq![
        ("claudeAgent"@, model::written_agent(written.claude_agent)),
        ("codex"@, model::written_agent(written.codex)),
    ];
    let step = model::provider_step();
    fields::provider_field_reads_back(ProviderField::ClaudeAgent);
    fields::provider_field_reads_back(ProviderField::Codex);
    an_agent_is_read_back(DriverKind::Claude, start.claude_agent, written.claude_agent);
    an_agent_is_read_back(DriverKind::Codex, start.codex, written.codex);
    reveal_with_fuel(model::folded, 3);
    let p1 = Providers { claude_agent: written.claude_agent, ..start };
    assert(step(start, inside[0]) == Ok::<Providers<AgentModel>, model::Refusal>(p1));
    assert(step(p1, inside[1]) == Ok::<Providers<AgentModel>, model::Refusal>(written));
}

/// Every setting is read back, whatever it was before.
proof fn a_setting_is_read_back(
    settings: SettingsModel,
    written: SettingsModel,
    ids: Seq<Text>,
    secrets: bool,
    k: int,
)
    requires
        valid(written),
        lists(ids, written.provider_instances),
        settings.enable_assistant_streaming == written.enable_assistant_streaming,
        secrets || settings.provider_instances == written.provider_instances,
        0 <= k < 10,
    ensures
        ({
            let entry = model::written(written, ids, secrets)[k];
            model::setting(settings, entry.0, entry.1) == Ok::<SettingsModel, model::Refusal>(
                with_setting(settings, written, k),
            )
        }),
{
    setting_names();
    if k == 6 {
        observability_is_read_back(settings.observability, written.observability);
    } else if k == 7 {
        the_instances_are_read_back(settings.provider_instances, written.provider_instances, ids, secrets);
    } else if k == 8 {
        providers_are_read_back(settings.providers, written.providers);
    }
}

/// While every field leaves the settings as they are, so do the first `n`.
proof fn nothing_changes(settings: SettingsModel, patch: Seq<(Text, Value)>, n: nat)
    requires
        n <= patch.len(),
        forall|k: int|
            0 <= k < patch.len() ==> model::setting(settings, (#[trigger] patch[k]).0, patch[k].1) == Ok::<
                SettingsModel,
                model::Refusal,
            >(settings),
    ensures
        model::folded(settings, patch, model::setting_step(), n) == Ok::<SettingsModel, model::Refusal>(settings),
    decreases n,
{
    if n > 0 {
        nothing_changes(settings, patch, (n - 1) as nat);
        assert(model::setting(settings, patch[n - 1].0, patch[n - 1].1) is Ok);
    }
}

/// A patch that describes every instance itself brings none in line.
proof fn nothing_is_aligned(settings: SettingsModel, ids: Seq<Text>, secrets: bool)
    requires
        valid(settings),
        lists(ids, settings.provider_instances),
    ensures
        model::aligned(model::written(settings, ids, secrets), settings) == settings,
{
    let patch = model::written(settings, ids, secrets);
    setting_names();
    json::first_field(patch, "providerInstances"@, 7);
    what_is_written_of_an_instance(settings.provider_instances, ids, secrets, "claudeAgent"@);
    what_is_written_of_an_instance(settings.provider_instances, ids, secrets, "codex"@);
    assert(model::groups(json::field(patch, "providerInstances"@), DriverKind::Claude.word()));
    assert(model::groups(json::field(patch, "providerInstances"@), DriverKind::Codex.word()));
}

/// Asking for what is in force is not a change: a patch that repeats every
/// setting is accepted and leaves all of them as they are. That holds of what the
/// file keeps, and of what a client is shown, which has no passwords in it.
pub proof fn repeating_what_is_in_force_changes_nothing(settings: SettingsModel, ids: Seq<Text>, secrets: bool)
    requires
        valid(settings),
        lists(ids, settings.provider_instances),
    ensures
        model::applied(settings, model::written(settings, ids, secrets)) == Ok::<SettingsModel, model::Refusal>(
            settings,
        ),
{
    let patch = model::written(settings, ids, secrets);
    assert(patch.len() == 10);
    assert forall|k: int| 0 <= k < patch.len() implies model::setting(settings, (#[trigger] patch[k]).0, patch[k].1)
        == Ok::<SettingsModel, model::Refusal>(settings) by {
        a_setting_is_read_back(settings, settings, ids, secrets, k);
    }
    nothing_changes(settings, patch, patch.len());
    nothing_is_aligned(settings, ids, secrets);
}

/// Asking for the instances that are in force is not a change: a patch of
/// `providerInstances` alone, as a client is shown them, is accepted and leaves
/// every setting as it is. No password that is kept is lost, though the patch
/// names none. By [`an_accepted_patch_keeps_validity`] that holds of whatever
/// accepted patches made of valid settings.
pub proof fn repeating_the_instances_in_force_changes_nothing(settings: SettingsModel, ids: Seq<Text>, secrets: bool)
    requires
        valid(settings),
        lists(ids, settings.provider_instances),
    ensures
        ({
            let shown = Value::Object(model::written_instances(settings.provider_instances, ids, secrets));
            &&& json::field(model::written(settings, ids, secrets), "providerInstances"@) == Some(shown)
            &&& model::applied(settings, seq![("providerInstances"@, shown)]) == Ok::<SettingsModel, model::Refusal>(
                settings,
            )
        }),
{
    let shown = Value::Object(model::written_instances(settings.provider_instances, ids, secrets));
    let patch = seq![("providerInstances"@, shown)];
    setting_names();
    json::first_field(model::written(settings, ids, secrets), "providerInstances"@, 7);
    the_instances_are_read_back(settings.provider_instances, settings.provider_instances, ids, secrets);
    assert(model::setting(settings, "providerInstances"@, shown) == Ok::<SettingsModel, model::Refusal>(settings));
    nothing_changes(settings, patch, 1);
    json::only_field("providerInstances"@, shown, "providers"@);
}

/// The first `n` entries of a group of instances each describe the instance of
/// their name, and there is no other.
proof fn what_is_described_so_far(provided: Seq<(Text, Value)>, n: nat)
    requires
        n <= provided.len(),
        forall|i: int, j: int| 0 <= i < j < provided.len() ==> (#[trigger] provided[i]).0 != (#[trigger] provided[j]).0,
    ensures
        model::folded(Map::<Text, InstanceModel>::empty(), provided, model::instance_step(), n) matches Ok(found) ==> {
            &&& forall|k: int|
                0 <= k < n ==> found.dom().contains((#[trigger] provided[k]).0) && model::instance(
                    provided[k].0,
                    provided[k].1,
                ) == Ok::<InstanceModel, model::Refusal>(found[provided[k].0])
            &&& forall|id: Text| #[trigger]
                found.dom().contains(id) ==> exists|k: int| 0 <= k < n && (#[trigger] provided[k]).0 == id
        },
    decreases n,
{
    if n > 0 {
        what_is_described_so_far(provided, (n - 1) as nat);
        let none = Map::<Text, InstanceModel>::empty();
        if let Ok(found) = model::folded(none, provided, model::instance_step(), n) {
            let before = model::folded(none, provided, model::instance_step(), (n - 1) as nat)->Ok_0;
            let entry = provided[n - 1];
            assert(found == before.insert(entry.0, model::instance(entry.0, entry.1)->Ok_0));
            assert forall|id: Text| #[trigger] found.dom().contains(id) implies exists|k: int|
                0 <= k < n && (#[trigger] provided[k]).0 == id by {
                if id == entry.0 {
                    assert(provided[n - 1].0 == id);
                } else {
                    assert(before.dom().contains(id));
                }
            }
        }
    }
}

/// Whether a configuration that was written down names every setting of its
/// driver.
pub open spec fn names_every_setting(kind: DriverKind, config: Value) -> bool {
    config matches Value::Object(fields) && {
        &&& json::field(fields, "binaryPath"@) is Some
        &&& json::field(fields, "customModels"@) is Some
        &&& kind == DriverKind::OpenCode ==> json::field(fields, "serverUrl"@) is Some && json::field(
            fields,
            "serverPassword"@,
        ) is Some
        &&& kind != DriverKind::OpenCode ==> json::field(fields, "homePath"@) is Some && json::field(
            fields,
            "launchArgs"@,
        ) is Some
    }
}

/// A configuration that is written down with its secrets names every setting of
/// its driver.
proof fn every_setting_is_written(instance: InstanceModel)
    ensures
        names_every_setting(instance.kind(), model::written_config(instance.config, true)),
{
    let fields = model::written_config(instance.config, true)->Object_0;
    agent_names();
    opencode_names();
    json::first_field(fields, "binaryPath"@, 0);
    json::first_field(fields, "customModels"@, 1);
    if instance.kind() == DriverKind::OpenCode {
        json::first_field(fields, "serverPassword"@, 2);
        json::first_field(fields, "serverUrl"@, 3);
    } else {
        json::first_field(fields, "homePath"@, 2);
        json::first_field(fields, "launchArgs"@, 3);
    }
}

/// What a group of instances describes: one instance for every entry and no
/// other, each valid under its id, so that ids are slugs, names are neither empty
/// nor padded and the two default instances keep their own drivers. One whose
/// entry does not say whether it is on is on. Each is written down with every
/// setting of its driver.
pub proof fn what_a_group_of_instances_describes(provided: Seq<(Text, Value)>)
    requires
        forall|i: int, j: int| 0 <= i < j < provided.len() ==> (#[trigger] provided[i]).0 != (#[trigger] provided[j]).0,
        model::provider_instances(provided) is Ok,
    ensures
        ({
            let found = model::provider_instances(provided)->Ok_0;
            &&& valid_instances(found)
            &&& forall|id: Text| #[trigger]
                found.dom().contains(id) <==> exists|k: int| 0 <= k < provided.len() && (#[trigger] provided[k]).0 == id
            &&& forall|k: int|
                0 <= k < provided.len() ==> {
                    &&& model::instance((#[trigger] provided[k]).0, provided[k].1) == Ok::<
                        InstanceModel,
                        model::Refusal,
                    >(found[provided[k].0])
                    &&& provided[k].1 matches Value::Object(envelope) && (json::field(envelope, "enabled"@) is None
                        ==> found[provided[k].0].enabled)
                }
            &&& forall|id: Text| #[trigger]
                found.dom().contains(id) ==> names_every_setting(
                    found[id].kind(),
                    model::written_config(found[id].config, true),
                )
        }),
{
    let found = model::provider_instances(provided)->Ok_0;
    described_instances_are_valid(provided, provided.len());
    what_is_described_so_far(provided, provided.len());
    assert forall|k: int| 0 <= k < provided.len() implies ((#[trigger] provided[k]).1 matches Value::Object(envelope)
        && (json::field(envelope, "enabled"@) is None ==> found[provided[k].0].enabled)) by {
        assert(model::instance(provided[k].0, provided[k].1) is Ok);
    }
    assert forall|id: Text| #[trigger] found.dom().contains(id) implies names_every_setting(
        found[id].kind(),
        model::written_config(found[id].config, true),
    ) by {
        every_setting_is_written(found[id]);
    }
}

/// Reading a group of instances is idempotent: what it described, written down
/// with its secrets, describes just that again.
pub proof fn described_instances_describe_themselves(provided: Seq<(Text, Value)>, ids: Seq<Text>)
    requires
        model::provider_instances(provided) matches Ok(found) && lists(ids, found),
    ensures
        model::provider_instances(model::written_instances(model::provider_instances(provided)->Ok_0, ids, true))
            == model::provider_instances(provided),
{
    let found = model::provider_instances(provided)->Ok_0;
    described_instances_are_valid(provided, provided.len());
    instances_are_read_back(found, ids, true, ids.len());
    assert(ids.take(ids.len() as int) =~= ids);
    let again = Map::new(|id: Text| ids.take(ids.len() as int).contains(id), |id: Text| as_written(found[id], true));
    assert forall|id: Text| #[trigger] again.dom().contains(id) == found.dom().contains(id) by {
        assert(ids.contains(id) == found.dom().contains(id));
    }
    assert(again =~= found);
}

/// A file of one field, other than `providers`, does what the field does.
proof fn one_field_is_one_setting(settings: SettingsModel, name: Text, value: Value)
    ensures
        model::setting(settings, name, value) matches Ok(next) ==> model::settled(settings, name, value)
            == model::aligned(seq![(name, value)], next),
        model::setting(settings, name, value) matches Ok(next) ==> name != "providers"@ ==> model::settled(
            settings,
            name,
            value,
        ) == next,
{
    let patch = seq![(name, value)];
    let step = model::setting_step();
    assert(model::folded(settings, patch, step, 0) == Ok::<SettingsModel, model::Refusal>(settings));
    assert(model::folded(settings, patch, step, 1) == step(settings, patch[0]));
    json::only_field(name, value, "providers"@);
}

/// The settings after one more field of the file was read back.
spec fn after_field(settings: SettingsModel, from: SettingsModel, k: int) -> SettingsModel {
    if k == 8 {
        let patch = seq![model::written(from, Seq::empty(), true)[8]];
        model::aligned(patch, with_setting(settings, from, k))
    } else {
        with_setting(settings, from, k)
    }
}

/// One more field of the file is read back.
proof fn one_more_field_is_read_back(
    defaults: SettingsModel,
    reached: SettingsModel,
    settings: SettingsModel,
    ids: Seq<Text>,
    k: int,
)
    requires
        valid(settings),
        lists(ids, settings.provider_instances),
        reached.enable_assistant_streaming == settings.enable_assistant_streaming,
        0 <= k < 10,
        model::read_so_far(defaults, model::written(settings, ids, true), k as nat) == reached,
    ensures
        model::read_so_far(defaults, model::written(settings, ids, true), (k + 1) as nat) == after_field(
            reached,
            settings,
            k,
        ),
        after_field(reached, settings, k).enable_assistant_streaming == settings.enable_assistant_streaming,
{
    let stored = model::written(settings, ids, true);
    setting_names();
    a_setting_is_read_back(reached, settings, ids, true, k);
    one_field_is_one_setting(reached, stored[k].0, stored[k].1);
    assert(stored[8] == model::written(settings, Seq::empty(), true)[8]);
}

/// What is written is read back: the file that keeps valid settings gives them
/// again, over any defaults that stream as they do. This is what makes settings
/// survive a restart.
pub proof fn what_is_written_is_read_back(defaults: SettingsModel, settings: SettingsModel, ids: Seq<Text>)
    requires
        valid(settings),
        lists(ids, settings.provider_instances),
        defaults.enable_assistant_streaming == settings.enable_assistant_streaming,
    ensures
        model::loaded(defaults, model::written(settings, ids, true)) == settings,
{
    let stored = model::written(settings, ids, true);
    let s1 = after_field(defaults, settings, 0);
    let s2 = after_field(s1, settings, 1);
    let s3 = after_field(s2, settings, 2);
    let s4 = after_field(s3, settings, 3);
    let s5 = after_field(s4, settings, 4);
    let s6 = after_field(s5, settings, 5);
    let s7 = after_field(s6, settings, 6);
    let s8 = after_field(s7, settings, 7);
    let s9 = after_field(s8, settings, 8);
    let s10 = after_field(s9, settings, 9);
    one_more_field_is_read_back(defaults, defaults, settings, ids, 0);
    one_more_field_is_read_back(defaults, s1, settings, ids, 1);
    one_more_field_is_read_back(defaults, s2, settings, ids, 2);
    one_more_field_is_read_back(defaults, s3, settings, ids, 3);
    one_more_field_is_read_back(defaults, s4, settings, ids, 4);
    one_more_field_is_read_back(defaults, s5, settings, ids, 5);
    one_more_field_is_read_back(defaults, s6, settings, ids, 6);
    one_more_field_is_read_back(defaults, s7, settings, ids, 7);
    one_more_field_is_read_back(defaults, s8, settings, ids, 8);
    one_more_field_is_read_back(defaults, s9, settings, ids, 9);
    assert(with_setting(s10, settings, 7) == settings);
    the_instances_come_last(defaults, s10, settings, ids);
}

/// The provider instances of the file are read once more at the end.
proof fn the_instances_come_last(
    defaults: SettingsModel,
    reached: SettingsModel,
    settings: SettingsModel,
    ids: Seq<Text>,
)
    requires
        valid(settings),
        lists(ids, settings.provider_instances),
        reached.enable_assistant_streaming == settings.enable_assistant_streaming,
        model::read_so_far(defaults, model::written(settings, ids, true), 10) == reached,
    ensures
        model::loaded(defaults, model::written(settings, ids, true)) == with_setting(reached, settings, 7),
{
    let stored = model::written(settings, ids, true);
    assert(stored.len() == 10);
    setting_names();
    json::first_field(stored, "providerInstances"@, 7);
    a_setting_is_read_back(reached, settings, ids, true, 7);
    one_field_is_one_setting(reached, stored[7].0, stored[7].1);
}

// ---------------------------------------------------------------------------
// What a patch does not name
// ---------------------------------------------------------------------------

/// Whether one of the first `n` fields of a patch is this setting.
pub open spec fn names(patch: Seq<(Text, Value)>, field: Field, n: nat) -> bool {
    exists|i: int| 0 <= i < n && Field::reading((#[trigger] patch[i]).0) == Some(field)
}

/// What no field of the patch names is as it was.
pub open spec fn stands(before: SettingsModel, after: SettingsModel, patch: Seq<(Text, Value)>, n: nat) -> bool {
    &&& after.enable_assistant_streaming == before.enable_assistant_streaming
    &&& !names(patch, Field::EnableProviderUpdateChecks, n) ==> after.enable_provider_update_checks
        == before.enable_provider_update_checks
    &&& !names(patch, Field::NewWorktreesStartFromOrigin, n) ==> after.new_worktrees_start_from_origin
        == before.new_worktrees_start_from_origin
    &&& !names(patch, Field::AddProjectBaseDirectory, n) ==> after.add_project_base_directory
        == before.add_project_base_directory
    &&& !names(patch, Field::AutomaticGitFetchInterval, n) ==> after.automatic_git_fetch_interval
        == before.automatic_git_fetch_interval
    &&& !names(patch, Field::DefaultThreadEnvMode, n) ==> after.default_thread_env_mode
        == before.default_thread_env_mode
    &&& !names(patch, Field::Observability, n) ==> after.observability == before.observability
    &&& !names(patch, Field::Providers, n) ==> after.providers == before.providers
    &&& !names(patch, Field::TextGenerationModelSelection, n) ==> after.text_generation_model_selection
        == before.text_generation_model_selection
    &&& !names(patch, Field::ProviderInstances, n) && !names(patch, Field::Providers, n)
        ==> after.provider_instances == before.provider_instances
}

proof fn unnamed_settings_stand_so_far(settings: SettingsModel, patch: Seq<(Text, Value)>, n: nat)
    requires
        n <= patch.len(),
    ensures
        model::folded(settings, patch, model::setting_step(), n) matches Ok(next) ==> stands(settings, next, patch, n),
    decreases n,
{
    if n > 0 {
        unnamed_settings_stand_so_far(settings, patch, (n - 1) as nat);
        let name = patch[n - 1].0;
        assert forall|field: Field| #[trigger] names(patch, field, n) == (names(patch, field, (n - 1) as nat)
            || Field::reading(name) == Some(field)) by {
            if Field::reading(name) == Some(field) {
                assert(Field::reading(patch[n - 1].0) == Some(field));
            }
        }
        if let Ok(reached) = model::folded(settings, patch, model::setting_step(), (n - 1) as nat) {
            assert(model::setting(reached, patch[n - 1].0, patch[n - 1].1) matches Ok(next) ==> stands(
                settings,
                next,
                patch,
                n,
            ));
        }
    }
}

/// A patch changes what it names and nothing else: a setting that an accepted
/// patch does not name is as it was.
pub proof fn an_unnamed_setting_stands(settings: SettingsModel, patch: Seq<(Text, Value)>)
    ensures
        model::applied(settings, patch) matches Ok(next) ==> stands(settings, next, patch, patch.len()),
{
    unnamed_settings_stand_so_far(settings, patch, patch.len());
    if !names(patch, Field::Providers, patch.len()) {
        setting_names();
        assert forall|i: int| 0 <= i < patch.len() implies (#[trigger] patch[i]).0 != "providers"@ by {
            assert(Field::reading(patch[i].0) != Some(Field::Providers));
        }
        json::first_field(patch, "providers"@, patch.len() as int);
    }
}

/// Whether one of the first `n` fields of a group is this setting of an agent.
pub open spec fn names_of_agent(patch: Seq<(Text, Value)>, field: AgentField, n: nat) -> bool {
    exists|i: int| 0 <= i < n && AgentField::reading((#[trigger] patch[i]).0) == Some(field)
}

/// What no field of the group names is as it was.
pub open spec fn agent_stands(before: AgentModel, after: AgentModel, patch: Seq<(Text, Value)>, n: nat) -> bool {
    &&& !names_of_agent(patch, AgentField::Enabled, n) ==> after.enabled == before.enabled
    &&& !names_of_agent(patch, AgentField::BinaryPath, n) ==> after.binary_path == before.binary_path
    &&& !names_of_agent(patch, AgentField::HomePath, n) ==> after.home_path == before.home_path
    &&& !names_of_agent(patch, AgentField::LaunchArgs, n) ==> after.launch_args == before.launch_args
    &&& !names_of_agent(patch, AgentField::CustomModels, n) ==> after.custom_models == before.custom_models
}

proof fn unnamed_agent_settings_stand_so_far(
    driver: DriverKind,
    agent: AgentModel,
    patch: Seq<(Text, Value)>,
    n: nat,
)
    requires
        n <= patch.len(),
    ensures
        model::folded(agent, patch, model::agent_step(driver), n) matches Ok(next) ==> agent_stands(
            agent,
            next,
            patch,
            n,
        ),
    decreases n,
{
    if n > 0 {
        unnamed_agent_settings_stand_so_far(driver, agent, patch, (n - 1) as nat);
        let name = patch[n - 1].0;
        assert forall|field: AgentField| #[trigger] names_of_agent(patch, field, n) == (names_of_agent(
            patch,
            field,
            (n - 1) as nat,
        ) || AgentField::reading(name) == Some(field)) by {
            if AgentField::reading(name) == Some(field) {
                assert(AgentField::reading(patch[n - 1].0) == Some(field));
            }
        }
    }
}

/// The same holds inside a group: a setting of an agent that an accepted group
/// does not name is as it was.
pub proof fn an_unnamed_agent_setting_stands(driver: DriverKind, agent: AgentModel, patch: Seq<(Text, Value)>)
    ensures
        model::agent(driver, agent, patch) matches Ok(next) ==> agent_stands(agent, next, patch, patch.len()),
{
    unnamed_agent_settings_stand_so_far(driver, agent, patch, patch.len());
}

/// Whether one of the first `n` fields of a group is this setting of
/// `observability`.
pub open spec fn names_of_observability(patch: Seq<(Text, Value)>, field: ObservabilityField, n: nat) -> bool {
    exists|i: int| 0 <= i < n && ObservabilityField::reading((#[trigger] patch[i]).0) == Some(field)
}

/// What no field of the group names is as it was.
pub open spec fn observability_stands(
    before: Observability<Text>,
    after: Observability<Text>,
    patch: Seq<(Text, Value)>,
    n: nat,
) -> bool {
    &&& !names_of_observability(patch, ObservabilityField::OtlpTracesUrl, n) ==> after.otlp_traces_url
        == before.otlp_traces_url
    &&& !names_of_observability(patch, ObservabilityField::OtlpMetricsUrl, n) ==> after.otlp_metrics_url
        == before.otlp_metrics_url
}

proof fn unnamed_observability_stands_so_far(start: Observability<Text>, patch: Seq<(Text, Value)>, n: nat)
    requires
        n <= patch.len(),
    ensures
        model::folded(start, patch, model::observability_step(), n) matches Ok(next) ==> observability_stands(
            start,
            next,
            patch,
            n,
        ),
    decreases n,
{
    if n > 0 {
        unnamed_observability_stands_so_far(start, patch, (n - 1) as nat);
        let name = patch[n - 1].0;
        assert forall|field: ObservabilityField| #[trigger] names_of_observability(patch, field, n) == (
        names_of_observability(patch, field, (n - 1) as nat) || ObservabilityField::reading(name) == Some(field)) by {
            if ObservabilityField::reading(name) == Some(field) {
                assert(ObservabilityField::reading(patch[n - 1].0) == Some(field));
            }
        }
    }
}

/// A patch of `observability` alone changes the settings inside the group that it
/// names, and nothing else: neither the other one nor any setting beside the group.
pub proof fn an_unnamed_observability_setting_stands(settings: SettingsModel, inside: Seq<(Text, Value)>)
    ensures
        model::applied(settings, seq![("observability"@, Value::Object(inside))]) matches Ok(next) ==> {
            &&& next == (SettingsOf { observability: next.observability, ..settings })
            &&& observability_stands(settings.observability, next.observability, inside, inside.len())
        },
{
    let value = Value::Object(inside);
    let patch = seq![("observability"@, value)];
    let step = model::setting_step();
    setting_names();
    unnamed_observability_stands_so_far(settings.observability, inside, inside.len());
    assert(model::folded(settings, patch, step, 0) == Ok::<SettingsModel, model::Refusal>(settings));
    assert(model::folded(settings, patch, step, 1) == step(settings, patch[0]));
    json::only_field("observability"@, value, "providers"@);
}

/// Whether one of the first `n` fields of a group is this driver.
pub open spec fn names_of_providers(patch: Seq<(Text, Value)>, field: ProviderField, n: nat) -> bool {
    exists|i: int| 0 <= i < n && ProviderField::reading((#[trigger] patch[i]).0) == Some(field)
}

/// What no field of the group names is as it was.
pub open spec fn providers_stand(
    before: Providers<AgentModel>,
    after: Providers<AgentModel>,
    patch: Seq<(Text, Value)>,
    n: nat,
) -> bool {
    &&& !names_of_providers(patch, ProviderField::ClaudeAgent, n) ==> after.claude_agent == before.claude_agent
    &&& !names_of_providers(patch, ProviderField::Codex, n) ==> after.codex == before.codex
}

/// And between the drivers: one that an accepted group does not name is as it was.
pub proof fn an_unnamed_driver_stands(start: Providers<AgentModel>, patch: Seq<(Text, Value)>, n: nat)
    requires
        n <= patch.len(),
    ensures
        model::folded(start, patch, model::provider_step(), n) matches Ok(next) ==> providers_stand(
            start,
            next,
            patch,
            n,
        ),
    decreases n,
{
    if n > 0 {
        an_unnamed_driver_stands(start, patch, (n - 1) as nat);
        let name = patch[n - 1].0;
        assert forall|field: ProviderField| #[trigger] names_of_providers(patch, field, n) == (names_of_providers(
            patch,
            field,
            (n - 1) as nat,
        ) || ProviderField::reading(name) == Some(field)) by {
            if ProviderField::reading(name) == Some(field) {
                assert(ProviderField::reading(patch[n - 1].0) == Some(field));
            }
        }
    }
}

// ---------------------------------------------------------------------------
// Secrets
// ---------------------------------------------------------------------------

/// A password never crosses to a client: what a client is shown is the same for
/// any two settings that differ in passwords alone.
pub proof fn a_password_is_shown_to_no_client(
    settings: SettingsModel,
    others: Map<Text, InstanceModel>,
    ids: Seq<Text>,
)
    requires
        forall|i: int|
            0 <= i < ids.len() ==> without_password(settings.provider_instances[#[trigger] ids[i]])
                == without_password(others[ids[i]]),
    ensures
        model::written(SettingsOf { provider_instances: others, ..settings }, ids, false) == model::written(
            settings,
            ids,
            false,
        ),
{
    let a = model::written_instances(settings.provider_instances, ids, false);
    let b = model::written_instances(others, ids, false);
    assert forall|i: int| 0 <= i < ids.len() implies #[trigger] a[i] == b[i] by {
        let x = settings.provider_instances[ids[i]];
        let y = others[ids[i]];
        assert(without_password(x) == without_password(y));
        assert(model::written_instance(x, false) == model::written_instance(without_password(x), false));
        assert(model::written_instance(y, false) == model::written_instance(without_password(y), false));
    }
    assert(a =~= b);
}

} // verus!
