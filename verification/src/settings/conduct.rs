//! What a patch of the settings does for whoever sends it, told by what it names
//! and what is then in force.

use crate::config::{
    AgentModel, AgentSettings, InstanceConfig, InstanceModel, Observability, Providers, Settings, SettingsModel,
    SettingsOf, Text, ThreadEnvMode,
};
use crate::json;
use crate::json::{Json, Value};
use crate::provider;
use crate::provider::DriverKind;
use crate::settings;
use crate::settings::fields;
use crate::settings::fields::{Field, ObservabilityField, ProviderField};
use crate::settings::laws;
use crate::settings::model;
use crate::settings::model::{Found, Refusal};
use crate::text;
use vstd::prelude::*;

verus! {

// ---------------------------------------------------------------------------
// The default instances
// ---------------------------------------------------------------------------

/// Whether the fields of a patch hold a group of this name, and that group has this
/// field.
pub open spec fn names_inside(patch: Seq<(Text, Value)>, outer: Text, inner: Text) -> bool {
    json::field(patch, outer) matches Some(Value::Object(inside)) && json::field(inside, inner) is Some
}

/// A driver that is configured is what runs: where a patch names one and does not
/// describe its default instance itself, that instance is on exactly where the agent
/// is, and is started as the agent is.
pub proof fn a_configured_driver_is_its_default_instance(settings: SettingsModel, patch: Seq<(Text, Value)>)
    ensures
        model::applied(settings, patch) matches Ok(next) ==> {
            &&& names_inside(patch, "providers"@, "codex"@) && !names_inside(patch, "providerInstances"@, "codex"@) ==> {
                &&& next.provider_instances.dom().contains("codex"@)
                &&& next.provider_instances["codex"@].enabled == next.providers.codex.enabled
                &&& next.provider_instances["codex"@].config == (InstanceConfig::Codex {
                    binary_path: next.providers.codex.binary_path,
                    home_path: next.providers.codex.home_path,
                    launch_args: next.providers.codex.launch_args,
                    custom_models: next.providers.codex.custom_models,
                })
                &&& next.provider_instances["codex"@].display_name == DriverKind::Codex.label()
            }
            &&& names_inside(patch, "providers"@, "claudeAgent"@) && !names_inside(
                patch,
                "providerInstances"@,
                "claudeAgent"@,
            ) ==> {
                &&& next.provider_instances.dom().contains("claudeAgent"@)
                &&& next.provider_instances["claudeAgent"@].enabled == next.providers.claude_agent.enabled
                &&& next.provider_instances["claudeAgent"@].config == (InstanceConfig::Claude {
                    binary_path: next.providers.claude_agent.binary_path,
                    home_path: next.providers.claude_agent.home_path,
                    launch_args: next.providers.claude_agent.launch_args,
                    custom_models: next.providers.claude_agent.custom_models,
                })
                &&& next.provider_instances["claudeAgent"@].display_name == DriverKind::Claude.label()
            }
        },
{
    reveal_strlit("codex");
    reveal_strlit("claudeAgent");
    assert("codex"@.len() != "claudeAgent"@.len());
}

/// A driver that a patch does not name leaves its default instance alone, and so
/// does one whose instance the patch describes: neither is put in its place.
pub proof fn a_driver_that_is_not_named_moves_no_instance(settings: SettingsModel, patch: Seq<(Text, Value)>, id: Text)
    ensures
        model::folded(settings, patch, model::setting_step(), patch.len()) matches Ok(reached) ==> (model::applied(
            settings,
            patch,
        ) matches Ok(next) && {
            &&& next.providers == reached.providers
            &&& id != "codex"@ && id != "claudeAgent"@ ==> model::held(next.provider_instances, id) == model::held(
                reached.provider_instances,
                id,
            )
            &&& (!names_inside(patch, "providers"@, "codex"@) || names_inside(patch, "providerInstances"@, "codex"@))
                ==> model::held(next.provider_instances, "codex"@) == model::held(reached.provider_instances, "codex"@)
            &&& (!names_inside(patch, "providers"@, "claudeAgent"@) || names_inside(
                patch,
                "providerInstances"@,
                "claudeAgent"@,
            )) ==> model::held(next.provider_instances, "claudeAgent"@) == model::held(
                reached.provider_instances,
                "claudeAgent"@,
            )
        }),
{
    reveal_strlit("codex");
    reveal_strlit("claudeAgent");
    assert("codex"@.len() != "claudeAgent"@.len());
}

// ---------------------------------------------------------------------------
// What a named setting becomes
// ---------------------------------------------------------------------------

/// What a setting is once this value was given for it.
pub open spec fn took(next: SettingsModel, name: Text, value: Value) -> bool {
    &&& name == "enableProviderUpdateChecks"@ ==> value == Value::Bool(next.enable_provider_update_checks)
    &&& name == "newWorktreesStartFromOrigin"@ ==> value == Value::Bool(next.new_worktrees_start_from_origin)
    &&& name == "enableAssistantStreaming"@ ==> value == Value::Bool(next.enable_assistant_streaming)
    &&& name == "addProjectBaseDirectory"@ ==> (value matches Value::Text(given) && next.add_project_base_directory
        == text::trimmed(given))
    &&& name == "automaticGitFetchInterval"@ ==> value == Value::Whole(next.automatic_git_fetch_interval)
        && next.automatic_git_fetch_interval <= 86_400_000
    &&& name == "defaultThreadEnvMode"@ ==> value == Value::Text("local"@) && next.default_thread_env_mode
        == ThreadEnvMode::Local
    &&& name == "textGenerationModelSelection"@ ==> value == next.text_generation_model_selection
}

proof fn a_value_is_taken_so_far(settings: SettingsModel, patch: Seq<(Text, Value)>, i: int, n: nat)
    requires
        0 <= i < n <= patch.len(),
        forall|j: int| 0 <= j < patch.len() && j != i ==> (#[trigger] patch[j]).0 != patch[i].0,
    ensures
        model::folded(settings, patch, model::setting_step(), n) matches Ok(next) ==> took(next, patch[i].0, patch[i].1),
    decreases n,
{
    let step = model::setting_step();
    laws::setting_names();
    if let Ok(reached) = model::folded(settings, patch, step, (n - 1) as nat) {
        assert(model::folded(settings, patch, step, n) == model::setting(reached, patch[n - 1].0, patch[n - 1].1));
        if i < n - 1 {
            a_value_is_taken_so_far(settings, patch, i, (n - 1) as nat);
            assert(patch[n - 1].0 != patch[i].0);
        }
    }
}

/// A setting that an accepted patch names is what the patch gives for it.
pub proof fn a_named_setting_takes_its_value(settings: SettingsModel, patch: Seq<(Text, Value)>, i: int)
    requires
        0 <= i < patch.len(),
        forall|j: int| 0 <= j < patch.len() && j != i ==> (#[trigger] patch[j]).0 != patch[i].0,
    ensures
        model::applied(settings, patch) matches Ok(next) ==> took(next, patch[i].0, patch[i].1),
{
    a_value_is_taken_so_far(settings, patch, i, patch.len());
}

/// What a setting of an agent is once this value was given for it.
pub open spec fn agent_took(next: AgentModel, name: Text, value: Value) -> bool {
    &&& name == "enabled"@ ==> value == Value::Bool(next.enabled)
    &&& name == "binaryPath"@ ==> (value matches Value::Text(given) && next.binary_path == text::trimmed(given))
    &&& name == "homePath"@ ==> (value matches Value::Text(given) && next.home_path == text::trimmed(given))
    &&& name == "launchArgs"@ ==> (value matches Value::Text(given) && next.launch_args == text::trimmed(given))
    &&& name == "customModels"@ ==> (value matches Value::Array(given) && holds_models(next.custom_models, given))
}

/// Whether these are the models that a list names, in its order.
pub open spec fn holds_models(models: Seq<Text>, given: Seq<Value>) -> bool {
    &&& models.len() == given.len()
    &&& forall|k: int|
        0 <= k < given.len() ==> ((#[trigger] given[k]) matches Value::Text(named) && models[k] == text::trimmed(named)
            && models[k].len() > 0)
}

proof fn models_are_those_named(given: Seq<Value>, n: nat)
    requires
        n <= given.len(),
    ensures
        model::folded(Seq::<Text>::empty(), given, model::model_step(), n) matches Ok(models) ==> holds_models(
            models,
            given.take(n as int),
        ),
    decreases n,
{
    if n > 0 {
        models_are_those_named(given, (n - 1) as nat);
        let before = given.take(n - 1);
        let after = given.take(n as int);
        if let Ok(models) = model::folded(Seq::<Text>::empty(), given, model::model_step(), (n - 1) as nat) {
            if let Ok(next) = model::folded(Seq::<Text>::empty(), given, model::model_step(), n) {
                assert forall|k: int| 0 <= k < after.len() implies ((#[trigger] after[k]) matches Value::Text(named)
                    && next[k] == text::trimmed(named) && next[k].len() > 0) by {
                    if k < n - 1 {
                        assert(after[k] == before[k]);
                    }
                }
            }
        }
    }
}

/// A list of models is read as the names it holds.
pub proof fn a_list_of_models_is_read_name_by_name(given: Seq<Value>)
    ensures
        model::models(Value::Array(given)) matches Ok(models) ==> holds_models(models, given),
{
    models_are_those_named(given, given.len());
    assert(given.take(given.len() as int) =~= given);
}

proof fn an_agents_value_is_taken_so_far(
    driver: DriverKind,
    agent: AgentModel,
    patch: Seq<(Text, Value)>,
    i: int,
    n: nat,
)
    requires
        0 <= i < n <= patch.len(),
        forall|j: int| 0 <= j < patch.len() && j != i ==> (#[trigger] patch[j]).0 != patch[i].0,
    ensures
        model::folded(agent, patch, model::agent_step(driver), n) matches Ok(next) ==> agent_took(
            next,
            patch[i].0,
            patch[i].1,
        ),
    decreases n,
{
    let step = model::agent_step(driver);
    laws::agent_names();
    if patch[i].1 is Array {
        a_list_of_models_is_read_name_by_name(patch[i].1->Array_0);
    }
    if let Ok(reached) = model::folded(agent, patch, step, (n - 1) as nat) {
        assert(model::folded(agent, patch, step, n) == model::agent_field(
            driver,
            reached,
            patch[n - 1].0,
            patch[n - 1].1,
        ));
        if i < n - 1 {
            an_agents_value_is_taken_so_far(driver, agent, patch, i, (n - 1) as nat);
            assert(patch[n - 1].0 != patch[i].0);
        }
    }
}

/// A setting of an agent that an accepted group names is what the group gives for
/// it.
pub proof fn a_named_agent_setting_takes_its_value(
    driver: DriverKind,
    agent: AgentModel,
    patch: Seq<(Text, Value)>,
    i: int,
)
    requires
        0 <= i < patch.len(),
        forall|j: int| 0 <= j < patch.len() && j != i ==> (#[trigger] patch[j]).0 != patch[i].0,
    ensures
        model::agent(driver, agent, patch) matches Ok(next) ==> agent_took(next, patch[i].0, patch[i].1),
{
    an_agents_value_is_taken_so_far(driver, agent, patch, i, patch.len());
}

proof fn observability_names()
    ensures
        ObservabilityField::reading("otlpMetricsUrl"@) == Some(ObservabilityField::OtlpMetricsUrl),
        ObservabilityField::reading("otlpTracesUrl"@) == Some(ObservabilityField::OtlpTracesUrl),
{
    fields::observability_field_reads_back(ObservabilityField::OtlpMetricsUrl);
    fields::observability_field_reads_back(ObservabilityField::OtlpTracesUrl);
}

proof fn provider_names()
    ensures
        ProviderField::reading("claudeAgent"@) == Some(ProviderField::ClaudeAgent),
        ProviderField::reading("codex"@) == Some(ProviderField::Codex),
        ProviderField::reading("cursor"@) == Some(ProviderField::Cursor),
        ProviderField::reading("grok"@) == Some(ProviderField::Grok),
        ProviderField::reading("opencode"@) == Some(ProviderField::OpenCode),
{
    fields::provider_field_reads_back(ProviderField::ClaudeAgent);
    fields::provider_field_reads_back(ProviderField::Codex);
    fields::provider_field_reads_back(ProviderField::Cursor);
    fields::provider_field_reads_back(ProviderField::Grok);
    fields::provider_field_reads_back(ProviderField::OpenCode);
}

/// A patch of one setting that is a group of its own reaches into that group: each
/// of the two places that observations go to is the one given, and each driver is
/// configured by its own group.
pub proof fn a_group_reaches_what_it_names(settings: SettingsModel, given: Text, inside: Seq<(Text, Value)>)
    ensures
        ({
            let next = model::setting(
                settings,
                "observability"@,
                Value::Object(seq![("otlpTracesUrl"@, Value::Text(given))]),
            );
            next == Ok::<SettingsModel, Refusal>(
                SettingsOf {
                    observability: Observability {
                        otlp_traces_url: text::trimmed(given),
                        otlp_metrics_url: settings.observability.otlp_metrics_url,
                    },
                    ..settings
                },
            )
        }),
        ({
            let next = model::setting(
                settings,
                "observability"@,
                Value::Object(seq![("otlpMetricsUrl"@, Value::Text(given))]),
            );
            next == Ok::<SettingsModel, Refusal>(
                SettingsOf {
                    observability: Observability {
                        otlp_traces_url: settings.observability.otlp_traces_url,
                        otlp_metrics_url: text::trimmed(given),
                    },
                    ..settings
                },
            )
        }),
        ({
            let next = model::setting(settings, "providers"@, Value::Object(seq![("codex"@, Value::Object(inside))]));
            let agent = model::agent(DriverKind::Codex, settings.providers.codex, inside);
            &&& next is Ok <==> agent is Ok
            &&& agent matches Ok(codex) ==> next->Ok_0 == (SettingsOf {
                providers: Providers { claude_agent: settings.providers.claude_agent, codex },
                ..settings
            })
        }),
        ({
            let next = model::setting(
                settings,
                "providers"@,
                Value::Object(seq![("claudeAgent"@, Value::Object(inside))]),
            );
            let agent = model::agent(DriverKind::Claude, settings.providers.claude_agent, inside);
            &&& next is Ok <==> agent is Ok
            &&& agent matches Ok(claude_agent) ==> next->Ok_0 == (SettingsOf {
                providers: Providers { claude_agent, codex: settings.providers.codex },
                ..settings
            })
        }),
{
    laws::setting_names();
    observability_names();
    provider_names();
    let traces = seq![("otlpTracesUrl"@, Value::Text(given))];
    let metrics = seq![("otlpMetricsUrl"@, Value::Text(given))];
    let codex = seq![("codex"@, Value::Object(inside))];
    let first = seq![("claudeAgent"@, Value::Object(inside))];
    one_item(settings.observability, traces, model::observability_step());
    one_item(settings.observability, metrics, model::observability_step());
    one_item(settings.providers, codex, model::provider_step());
    one_item(settings.providers, first, model::provider_step());
}

proof fn one_item<A, X, E>(start: A, items: Seq<X>, step: spec_fn(A, X) -> Result<A, E>)
    requires
        items.len() == 1,
    ensures
        model::folded(start, items, step, 1) == step(start, items[0]),
{
    assert(model::folded(start, items, step, 0) == Ok::<A, E>(start));
}

/// A patch is taken in its order, each of its fields over what those before it
/// made; and one field that is refused refuses all of it, in its own words.
pub proof fn a_patch_is_taken_in_its_order(settings: SettingsModel, patch: Seq<(Text, Value)>, i: int)
    requires
        0 <= i < patch.len(),
    ensures
        model::folded(settings, patch, model::setting_step(), 0) == Ok::<SettingsModel, Refusal>(settings),
        model::folded(settings, patch, model::setting_step(), i as nat) matches Ok(reached) ==> model::folded(
            settings,
            patch,
            model::setting_step(),
            (i + 1) as nat,
        ) == model::setting(reached, patch[i].0, patch[i].1),
        model::folded(settings, patch, model::setting_step(), i as nat) matches Ok(reached) ==> (model::setting(
            reached,
            patch[i].0,
            patch[i].1,
        ) matches Err(refused) ==> model::applied(settings, patch) == Err::<SettingsModel, Refusal>(refused)),
        model::applied(settings, patch) is Ok <==> model::folded(settings, patch, model::setting_step(), patch.len()) is Ok,
{
    let step = model::setting_step();
    if model::folded(settings, patch, step, i as nat) is Ok && model::folded(settings, patch, step, (i + 1) as nat) is Err {
        model::a_refusal_stands(settings, patch, step, (i + 1) as nat, patch.len());
    }
}

// ---------------------------------------------------------------------------
// What is refused
// ---------------------------------------------------------------------------

/// A setting that takes a switch takes nothing else, one that takes text takes
/// nothing else, and so on for every setting that is no group.
pub proof fn a_setting_takes_its_own_kind(settings: SettingsModel, value: Value)
    ensures
        model::setting(settings, "enableProviderUpdateChecks"@, value) is Ok <==> value is Bool,
        model::setting(settings, "newWorktreesStartFromOrigin"@, value) is Ok <==> value is Bool,
        model::setting(settings, "enableAssistantStreaming"@, value) is Ok <==> value == Value::Bool(
            settings.enable_assistant_streaming,
        ),
        model::setting(settings, "addProjectBaseDirectory"@, value) is Ok <==> value is Text,
        model::setting(settings, "automaticGitFetchInterval"@, value) is Ok <==> (value matches Value::Whole(n) && n
            <= 86_400_000),
        model::setting(settings, "defaultThreadEnvMode"@, value) is Ok <==> value == Value::Text("local"@),
        !(value is Object) ==> model::setting(settings, "observability"@, value) is Err,
        !(value is Object) ==> model::setting(settings, "providers"@, value) is Err,
        !(value is Object) ==> model::setting(settings, "providerInstances"@, value) is Err,
        !(value is Object) ==> model::setting(settings, "textGenerationModelSelection"@, value) is Err,
        value is Object ==> {
            let instance = text::trimmed(model::text_in(value->Object_0, "instanceId"@));
            let named = text::trimmed(model::text_in(value->Object_0, "model"@));
            model::setting(settings, "textGenerationModelSelection"@, value) is Ok <==> instance.len() > 0 && named.len() > 0
                && model::slug(instance)
        },
{
    laws::setting_names();
    reveal_strlit("local");
    reveal_strlit("worktree");
    assert("local"@.len() != "worktree"@.len());
}

/// The text of a field is what its first entry holds, where that is text.
pub proof fn a_field_holds_its_text(fields: Seq<(Text, Value)>, name: Text)
    ensures
        json::field(fields, name) matches Some(Value::Text(held)) ==> model::text_in(fields, name) == held,
        !(json::field(fields, name) is Some && json::field(fields, name)->0 is Text) ==> model::text_in(fields, name).len()
            == 0,
{
}

/// A name that is no setting's is refused with that name.
pub proof fn an_unknown_setting_is_refused_by_name(settings: SettingsModel, name: Text, value: Value)
    requires
        forall|field: Field| name != #[trigger] field.word(),
    ensures
        model::setting(settings, name, value) matches Err(refused) && refused.before == "'"@ + name
            + "' is not a setting this server knows."@ && refused.value is None && refused.after == ""@,
{
    assert(name != Field::AddProjectBaseDirectory.word());
    assert(name != Field::AutomaticGitFetchInterval.word());
    assert(name != Field::DefaultThreadEnvMode.word());
    assert(name != Field::EnableAssistantStreaming.word());
    assert(name != Field::EnableProviderUpdateChecks.word());
    assert(name != Field::NewWorktreesStartFromOrigin.word());
    assert(name != Field::Observability.word());
    assert(name != Field::ProviderInstances.word());
    assert(name != Field::Providers.word());
    assert(name != Field::TextGenerationModelSelection.word());
}

/// What is refused names the setting and shows the value; a secret is named and not
/// shown.
pub proof fn a_refusal_names_its_setting(field: Text, value: Value)
    ensures
        model::boolean(field, value) matches Err(refused) ==> refused.before == "'"@ + field
            + "' has to be true or false, and was "@ && refused.value == Some(value) && refused.after == "."@,
        model::written_text(field, value) matches Err(refused) ==> refused.before == "'"@ + field
            + "' has to be text, and was "@ && refused.value == Some(value) && refused.after == "."@,
        model::group(field, value) matches Err(refused) ==> refused.before == "'"@ + field
            + "' has to be a group of settings, and was "@ && refused.value == Some(value) && refused.after == "."@,
        model::secret_text(field, value) matches Err(refused) ==> refused.before == "'"@ + field + "' has to be text."@
            && refused.value is None,
        model::secret_text(field, value) is Ok <==> value is Text,
        value matches Value::Text(given) ==> model::secret_text(field, value) == Ok::<Text, Refusal>(text::trimmed(given)),
{
}

/// A slug is a letter and then letters, digits, `-` and `_`, at most sixty-four of
/// them.
pub proof fn a_slug_is_short_and_plain(s: Text, i: int)
    requires
        0 <= i < s.len(),
    ensures
        model::slug(s) ==> s.len() <= 64,
        model::slug(s) ==> ('a' <= s[0] <= 'z' || 'A' <= s[0] <= 'Z'),
        model::slug(s) ==> ('a' <= s[i] <= 'z' || 'A' <= s[i] <= 'Z' || '0' <= s[i] <= '9' || s[i] == '-' || s[i] == '_'),
        s.len() <= 64 && ('a' <= s[0] <= 'z' || 'A' <= s[0] <= 'Z') && (forall|j: int|
            0 <= j < s.len() ==> ('a' <= #[trigger] s[j] <= 'z' || 'A' <= s[j] <= 'Z' || '0' <= s[j] <= '9' || s[j] == '-'
                || s[j] == '_')) ==> model::slug(s),
        !model::slug(Seq::empty()),
{
}

/// The settings of an agent are five, each taking its own kind; the sixth that a
/// Codex agent could have is refused, and so is every other.
pub proof fn an_agent_takes_its_own_settings(driver: DriverKind, agent: AgentModel, name: Text, value: Value)
    ensures
        model::agent_field(driver, agent, "enabled"@, value) is Ok <==> value is Bool,
        model::agent_field(driver, agent, "binaryPath"@, value) is Ok <==> value is Text,
        model::agent_field(driver, agent, "homePath"@, value) is Ok <==> value is Text,
        model::agent_field(driver, agent, "launchArgs"@, value) is Ok <==> value is Text,
        model::agent_field(driver, agent, "customModels"@, value) is Ok <==> model::models(value) is Ok,
        !(value is Array) ==> model::models(value) is Err,
        name != "enabled"@ && name != "binaryPath"@ && name != "homePath"@ && name != "launchArgs"@ && name
            != "customModels"@ ==> model::agent_field(driver, agent, name, value) is Err,
{
    laws::agent_names();
}

/// A driver that this server does not have is refused as one, and a name that is no
/// driver's as an unknown setting.
pub proof fn a_driver_that_is_not_here_is_refused(start: Providers<AgentModel>, value: Value, name: Text)
    ensures
        (model::provider_step())(start, ("cursor"@, value)) is Err,
        (model::provider_step())(start, ("grok"@, value)) is Err,
        (model::provider_step())(start, ("opencode"@, value)) is Err,
        (model::provider_step())(start, ("opencode"@, value))->Err_0.before == "This server has no '"@ + "opencode"@
            + "' driver, so it cannot be configured."@,
        ProviderField::reading(name) is None ==> (model::provider_step())(start, (name, value)) is Err,
{
    provider_names();
}

// ---------------------------------------------------------------------------
// Provider instances
// ---------------------------------------------------------------------------

/// An instance is what its envelope says: it has the envelope's name and driver, is
/// on unless the envelope says that it is not, and is configured as the driver reads
/// the envelope's configuration. The two default instances stay with their drivers.
pub proof fn an_instance_is_what_its_envelope_says(id: Text, envelope: Seq<(Text, Value)>)
    ensures
        model::instance(id, Value::Object(envelope)) matches Ok(found) ==> {
            &&& model::slug(id)
            &&& json::field(envelope, "displayName"@) matches Some(Value::Text(named)) && found.display_name
                == text::trimmed(named) && found.display_name.len() > 0
            &&& json::field(envelope, "driver"@) matches Some(Value::Text(named)) && found.kind().word() == text::trimmed(
                named,
            )
            &&& json::field(envelope, "enabled"@) matches Some(value) ==> value == Value::Bool(found.enabled)
            &&& json::field(envelope, "enabled"@) is None ==> found.enabled
            &&& id == "codex"@ ==> found.kind() == DriverKind::Codex
            &&& id == "claudeAgent"@ ==> found.kind() == DriverKind::Claude
            &&& {
                let config = match json::field(envelope, "config"@) {
                    Some(Value::Object(fields)) => fields,
                    _ => Seq::empty(),
                };
                let bare = AgentSettings {
                    enabled: found.enabled,
                    binary_path: found.kind().command(),
                    home_path: ""@,
                    launch_args: ""@,
                    custom_models: Seq::<Text>::empty(),
                };
                match found.config {
                    InstanceConfig::Claude { binary_path, home_path, launch_args, custom_models } => model::agent(
                        DriverKind::Claude,
                        bare,
                        config,
                    ) matches Ok(agent) && agent.binary_path == binary_path && agent.home_path == home_path
                        && agent.launch_args == launch_args && agent.custom_models == custom_models,
                    InstanceConfig::Codex { binary_path, home_path, launch_args, custom_models } => model::agent(
                        DriverKind::Codex,
                        bare,
                        config,
                    ) matches Ok(agent) && agent.binary_path == binary_path && agent.home_path == home_path
                        && agent.launch_args == launch_args && agent.custom_models == custom_models,
                    InstanceConfig::OpenCode { binary_path, server_url, server_password, custom_models } => {
                        &&& json::field(config, "binaryPath"@) matches Some(value) ==> (value matches Value::Text(given)
                            && binary_path == text::trimmed(given))
                        &&& json::field(config, "binaryPath"@) is None ==> binary_path == "opencode"@
                        &&& json::field(config, "serverUrl"@) matches Some(value) ==> (value matches Value::Text(given)
                            && server_url == text::trimmed(given))
                        &&& json::field(config, "serverUrl"@) is None ==> server_url == ""@
                        &&& json::field(config, "serverPassword"@) matches Some(value) ==> (value matches Value::Text(
                            given,
                        ) && server_password == text::trimmed(given))
                        &&& json::field(config, "serverPassword"@) is None ==> server_password == ""@
                        &&& json::field(config, "customModels"@) matches Some(value) ==> (value matches Value::Array(
                            given,
                        ) && holds_models(custom_models, given))
                        &&& json::field(config, "customModels"@) is None ==> custom_models.len() == 0
                        &&& server_url.len() > 0 ==> model::is_web_url(server_url)
                    },
                }
            }
            &&& json::field(envelope, "config"@) matches Some(value) ==> value is Object
        },
{
    reveal_strlit("codex");
    reveal_strlit("claudeAgent");
    assert("codex"@.len() != "claudeAgent"@.len());
    let config = match json::field(envelope, "config"@) {
        Some(Value::Object(fields)) => fields,
        _ => Seq::empty(),
    };
    if let Some(Value::Array(given)) = json::field(config, "customModels"@) {
        a_list_of_models_is_read_name_by_name(given);
    }
    assert(model::envelope_config(id, envelope) matches Ok(read) ==> read == config);
}

/// An instance is refused where its id is no slug, its envelope no group, or its
/// name or its driver missing.
pub proof fn an_instance_needs_a_name_and_a_driver(id: Text, value: Value)
    ensures
        !model::slug(id) ==> model::instance(id, value) is Err,
        !(value is Object) ==> model::instance(id, value) is Err,
        value matches Value::Object(envelope) ==> {
            &&& text::trimmed(model::text_in(envelope, "displayName"@)).len() == 0 ==> model::instance(id, value) is Err
            &&& DriverKind::reading(text::trimmed(model::text_in(envelope, "driver"@))) is None ==> model::instance(
                id,
                value,
            ) is Err
        },
{
}

/// Only a web address is one: of its scheme, nothing but the two of the web will do.
pub proof fn a_web_address_is_of_the_web(url: crate::web::UrlParts<Text>)
    ensures
        model::is_web(Some(url)) <==> url.scheme == "http"@ || url.scheme == "https"@,
        !model::is_web(None),
{
}

/// The instances after a group of them was given: those that it describes, and the
/// default ones that it does not. One that it describes is as described, but for a
/// password that it leaves out, which is kept from an agent of the same driver.
pub proof fn given_instances_replace_all_but_the_defaults(
    settings: SettingsModel,
    provided: Seq<(Text, Value)>,
    id: Text,
)
    requires
        forall|i: int, j: int| 0 <= i < j < provided.len() ==> (#[trigger] provided[i]).0 != (#[trigger] provided[j]).0,
    ensures
        model::setting(settings, "providerInstances"@, Value::Object(provided)) matches Ok(next) ==> {
            let described = exists|k: int| 0 <= k < provided.len() && (#[trigger] provided[k]).0 == id;
            let before = settings.provider_instances;
            let after = next.provider_instances;
            &&& next == (SettingsOf { provider_instances: after, ..settings })
            &&& after.dom().contains(id) <==> described || ((id == "codex"@ || id == "claudeAgent"@) && before.dom().contains(
                id,
            ))
            &&& !described && after.dom().contains(id) ==> after[id] == before[id]
            &&& described ==> {
                let k = choose|k: int| 0 <= k < provided.len() && (#[trigger] provided[k]).0 == id;
                let told = model::instance(id, provided[k].1)->Ok_0;
                &&& after[id].display_name == told.display_name
                &&& after[id].enabled == told.enabled
                &&& !(told.config is OpenCode) ==> after[id] == told
                &&& !before.dom().contains(id) || !(before[id].config is OpenCode) ==> after[id] == told
                &&& !model::password_is_omitted(provided, id) ==> after[id] == told
                &&& told.config is OpenCode && before.dom().contains(id) && before[id].config is OpenCode
                    && model::password_is_omitted(provided, id) ==> {
                    &&& after[id].config is OpenCode
                    &&& after[id].config->server_password == before[id].config->server_password
                    &&& after[id].config->OpenCode_binary_path == told.config->OpenCode_binary_path
                    &&& after[id].config->server_url == told.config->server_url
                    &&& after[id].config->OpenCode_custom_models == told.config->OpenCode_custom_models
                }
            }
        },
{
    laws::setting_names();
    if model::provider_instances(provided) is Ok {
        laws::what_a_group_of_instances_describes(provided);
    }
}

/// A password is left out where the group gives no configuration that has one.
pub proof fn a_password_is_left_out_where_none_is_given(provided: Seq<(Text, Value)>, id: Text)
    ensures
        !model::password_is_omitted(provided, id) <==> (json::field(provided, id) matches Some(Value::Object(envelope))
            && json::field(envelope, "config"@) matches Some(Value::Object(config)) && json::field(
            config,
            "serverPassword"@,
        ) is Some),
{
}

/// Which instances moved between two tables: those that are listed and picked, in
/// their order.
pub proof fn what_is_chosen_was_picked(ids: Seq<Text>, picked: spec_fn(Text) -> bool, id: Text)
    ensures
        settings::chosen(ids, picked).contains(id) <==> ids.contains(id) && picked(id),
        settings::chosen(ids, picked).len() <= ids.len(),
    decreases ids.len(),
{
    if ids.len() > 0 {
        let rest = ids.drop_last();
        what_is_chosen_was_picked(rest, picked, id);
        if rest.contains(id) {
            let i = choose|i: int| 0 <= i < rest.len() && rest[i] == id;
            assert(ids[i] == id);
        }
        if ids.contains(id) && id != ids.last() {
            let i = choose|i: int| 0 <= i < ids.len() && ids[i] == id;
            assert(rest[i] == id);
        }
        let before = settings::chosen(rest, picked);
        if picked(ids.last()) {
            let after = before.push(ids.last());
            if before.contains(id) {
                let i = choose|i: int| 0 <= i < before.len() && before[i] == id;
                assert(after[i] == id);
            }
            if id == ids.last() {
                assert(after.last() == id);
            }
            if after.contains(id) && id != ids.last() {
                let i = choose|i: int| 0 <= i < after.len() && after[i] == id;
                assert(before[i] == id);
            }
        }
        if id == ids.last() {
            assert(ids.last() == ids[ids.len() - 1]);
        }
    }
}

// ---------------------------------------------------------------------------
// The file
// ---------------------------------------------------------------------------

/// Each field of the file is a patch of its own over what those before it made: one
/// that is refused changes nothing and is complained of, one that is taken is not.
pub proof fn each_field_of_the_file_counts_for_itself(defaults: SettingsModel, stored: Seq<(Text, Value)>, n: nat)
    requires
        n < stored.len(),
    ensures
        ({
            let reached = model::read_so_far(defaults, stored, n);
            let taken = model::applied(reached, seq![stored[n as int]]);
            &&& model::read_so_far(defaults, stored, 0) == defaults
            &&& taken matches Ok(next) ==> model::read_so_far(defaults, stored, n + 1) == next
                && model::complaints_so_far(defaults, stored, n + 1) == model::complaints_so_far(defaults, stored, n)
            &&& taken matches Err(refused) ==> model::read_so_far(defaults, stored, n + 1) == reached
                && model::complaints_so_far(defaults, stored, n + 1) == model::complaints_so_far(defaults, stored, n).push(
                refused,
            )
        }),
{
    let reached = model::read_so_far(defaults, stored, n);
    let (name, value) = stored[n as int];
    assert(seq![stored[n as int]] =~= seq![(name, value)]);
    let told = model::complaints_so_far(defaults, stored, n);
    let one = model::complaint(reached, name, value);
    if model::applied(reached, seq![(name, value)]) is Ok {
        assert(told + one =~= told);
    } else {
        assert(told + one =~= told.push(one[0]));
    }
}

/// What the log is told of the file: nothing where there is none, that it could not
/// be read or is no document of settings, or each complaint, with what became of the
/// setting. Whatever is wrong with the file as a whole leaves the defaults.
pub proof fn the_log_is_told_of_the_file(defaults: SettingsModel, why: Text, fields: Seq<(Text, Value)>, i: int)
    ensures
        model::logged(defaults, Found::Missing).len() == 0,
        model::in_force(defaults, Found::Missing) == defaults,
        model::in_force(defaults, Found::Unreadable(why)) == defaults,
        model::in_force(defaults, Found::NotJson(why)) == defaults,
        model::in_force(defaults, Found::Document(Value::Text(why))) == defaults,
        model::in_force(defaults, Found::Document(Value::Object(fields))) == model::loaded(defaults, fields),
        model::logged(defaults, Found::Unreadable(why)).len() == 1 && model::logged(defaults, Found::Unreadable(why))[0].before
            == "it could not be read: "@ + why,
        model::logged(defaults, Found::NotJson(why)).len() == 1 && model::logged(defaults, Found::NotJson(why))[0].before
            == "it is not valid JSON: "@ + why,
        model::logged(defaults, Found::Document(Value::Text(why))).len() == 1 && model::logged(
            defaults,
            Found::Document(Value::Text(why)),
        )[0].before == "it is not a settings object."@,
        model::logged(defaults, Found::Document(Value::Object(fields))).len() == model::complaints(defaults, fields).len(),
        0 <= i < model::complaints(defaults, fields).len() ==> {
            let said = model::complaints(defaults, fields)[i];
            let told = model::logged(defaults, Found::Document(Value::Object(fields)))[i];
            told.before == said.before && told.value == said.value && told.after == said.after
                + " That setting kept its default."@
        },
{
}

/// The provider instances of the file are taken last of all, wherever they stand.
pub proof fn the_instances_of_the_file_come_last(defaults: SettingsModel, stored: Seq<(Text, Value)>)
    ensures
        ({
            let reached = model::read_so_far(defaults, stored, stored.len());
            &&& json::field(stored, "providerInstances"@) is None ==> model::loaded(defaults, stored) == reached
                && model::complaints(defaults, stored) == model::complaints_so_far(defaults, stored, stored.len())
            &&& json::field(stored, "providerInstances"@) matches Some(value) ==> {
                let taken = model::applied(reached, seq![("providerInstances"@, value)]);
                &&& taken matches Ok(next) ==> model::loaded(defaults, stored) == next
                &&& taken is Err ==> model::loaded(defaults, stored) == reached
                &&& taken matches Err(refused) ==> model::complaints(defaults, stored).last() == refused
            }
        }),
{
    let told = model::complaints_so_far(defaults, stored, stored.len());
    assert(told + Seq::<Refusal>::empty() =~= told);
}

// ---------------------------------------------------------------------------
// What is answered
// ---------------------------------------------------------------------------

/// What a client sees is what is stored, without the passwords.
pub proof fn a_client_sees_everything_but_passwords(settings: SettingsModel, ids: Seq<Text>, k: int)
    requires
        0 <= k < 10,
        k != 7,
    ensures
        model::written(settings, ids, false).len() == 10,
        model::written(settings, ids, true).len() == 10,
        model::written(settings, ids, false)[k] == model::written(settings, ids, true)[k],
        model::written(settings, ids, false)[7].0 == "providerInstances"@,
{
}

/// An instance is shown to a client as it is stored, but for its password.
pub proof fn an_instance_is_shown_without_its_password(instance: InstanceModel)
    ensures
        ({
            let shown = model::written_instance(instance, false);
            let stored = model::written_instance(instance, true);
            &&& !(instance.config is OpenCode) ==> shown == stored
            &&& shown is Object && stored is Object
            &&& shown->Object_0.len() == 4
            &&& shown->Object_0[0].0 == "config"@
            &&& shown->Object_0.drop_first() == stored->Object_0.drop_first()
            &&& shown->Object_0[2] == ("driver"@, Value::Text(instance.kind().word()))
            &&& shown->Object_0[3] == ("enabled"@, Value::Bool(instance.enabled))
            &&& shown->Object_0[1] == ("displayName"@, Value::Text(instance.display_name))
            &&& instance.config matches InstanceConfig::OpenCode { binary_path, server_url, server_password, custom_models }
                ==> {
                &&& shown->Object_0[0].1 == Value::Object(
                    seq![
                        ("binaryPath"@, Value::Text(binary_path)),
                        ("customModels"@, model::written_list(custom_models)),
                        ("serverUrl"@, Value::Text(server_url)),
                    ],
                )
                &&& stored->Object_0[0].1 == Value::Object(
                    seq![
                        ("binaryPath"@, Value::Text(binary_path)),
                        ("customModels"@, model::written_list(custom_models)),
                        ("serverPassword"@, Value::Text(server_password)),
                        ("serverUrl"@, Value::Text(server_url)),
                    ],
                )
            }
        }),
{
    let shown = model::written_instance(instance, false);
    let stored = model::written_instance(instance, true);
    assert(shown->Object_0.drop_first() =~= stored->Object_0.drop_first());
}

/// A refusal says what went wrong, while doing what, and about which file.
pub proof fn a_refused_change_says_which_file(path: Text, operation: settings::Operation, detail: Text)
    ensures
        ({
            let told = settings::refusal(path, operation, detail);
            &&& told is Object
            &&& json::field(told->Object_0, "_tag"@) == Some(Value::Text("ServerSettingsError"@))
            &&& json::field(told->Object_0, "cause"@) == Some(Value::Text(detail))
            &&& json::field(told->Object_0, "operation"@) == Some(
                Value::Text(
                    match operation {
                        settings::Operation::Normalize => "normalize"@,
                        settings::Operation::Write => "write-file"@,
                    },
                ),
            )
            &&& json::field(told->Object_0, "settingsPath"@) == Some(Value::Text(path))
        }),
{
    let fields = settings::refusal(path, operation, detail)->Object_0;
    reveal_strlit("_tag");
    reveal_strlit("cause");
    reveal_strlit("operation");
    reveal_strlit("settingsPath");
    assert("_tag"@.len() == 4 && "cause"@.len() == 5 && "operation"@.len() == 9 && "settingsPath"@.len() == 12);
    json::first_field(fields, "_tag"@, 0);
    json::first_field(fields, "cause"@, 1);
    json::first_field(fields, "operation"@, 2);
    json::first_field(fields, "settingsPath"@, 3);
}

/// A change is asked for by a patch that is a group.
pub proof fn a_change_is_asked_for_by_its_patch(fields: Seq<(Text, Value)>, payload: Value)
    ensures
        json::field(fields, "patch"@) matches Some(Value::Object(patch)) ==> settings::patch_in(Value::Object(fields)) == Ok::<
            Seq<(Text, Value)>,
            Text,
        >(patch),
        json::field(fields, "patch"@) is None ==> settings::patch_in(Value::Object(fields)) == Err::<
            Seq<(Text, Value)>,
            Text,
        >("This call needs a patch of the settings to change; none was given."@),
        json::field(fields, "patch"@) is Some && !(json::field(fields, "patch"@)->0 is Object) ==> settings::patch_in(
            Value::Object(fields),
        ) == Err::<Seq<(Text, Value)>, Text>("The patch has to be a group of settings."@),
        !(payload is Object) ==> settings::patch_in(payload) is Err,
{
}

/// What the drivers are called, by their own words.
pub proof fn a_driver_goes_by_its_name(driver: DriverKind)
    ensures
        DriverKind::Claude.word() == "claudeAgent"@,
        DriverKind::Codex.word() == "codex"@,
        DriverKind::OpenCode.word() == "opencode"@,
        DriverKind::Claude.command() + "Agent"@ == DriverKind::Claude.word(),
        DriverKind::Codex.command() == "codex"@,
        DriverKind::OpenCode.command() == "opencode"@,
        DriverKind::OpenCode.label() == "OpenCode"@,
        DriverKind::Codex.label() == "Codex"@,
        DriverKind::Claude.label().len() == DriverKind::Claude.command().len(),
        DriverKind::Claude.label().skip(1) == DriverKind::Claude.command().skip(1),
        model::default_driver(driver.word()) == (if driver == DriverKind::OpenCode { None } else { Some(driver) }),
{
    provider::driver_kind_reads_back(driver);
    reveal_strlit("claudeAgent");
    reveal_strlit("codex");
    reveal_strlit("opencode");
    reveal_strlit("Agent");
    reveal_strlit("Codex");
    let word = "claudeAgent"@;
    assert(word.subrange(6, 11) =~= "Agent"@);
    assert(DriverKind::Claude.command() =~= word.take(6));
    assert(DriverKind::Claude.command() + "Agent"@ =~= word);
    assert("codex"@.len() == 5 && "opencode"@.len() == 8);
    assert("codex"@[4] == 'x' && "Agent"@[4] == 't');
    assert("opencode"@[7] == 'e');
    assert(!"Agent"@.is_suffix_of("codex"@)) by {
        assert("codex"@.subrange(0, 5)[4] == 'x');
    }
    assert(!"Agent"@.is_suffix_of("opencode"@)) by {
        assert("opencode"@.subrange(3, 8)[4] == 'e');
    }
    assert(DriverKind::Codex.label() =~= "Codex"@);
    assert(DriverKind::Claude.label().skip(1) =~= DriverKind::Claude.command().skip(1));
}

/// What a client is shown is the settings without the passwords, and what is stored is
/// the settings with them.
pub proof fn only_the_file_holds_passwords(current: Settings, shown: Json, stored: Json)
    requires
        current.provider_instances.wf(),
        call_ensures(settings::public_value, (&current,), shown),
        call_ensures(settings::stored_value, (&current,), stored),
    ensures
        shown@ == Value::Object(model::written(current@, settings::ids_of(current.provider_instances@), false)),
        stored@ == Value::Object(model::written(current@, settings::ids_of(current.provider_instances@), true)),
        settings::shown_to_clients(current) == shown@,
{
}

} // verus!
