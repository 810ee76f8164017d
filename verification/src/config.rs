//! What the server is configured with.
//!
//! The types are generic in what holds a text, a list of texts, a table and a
//! stored value, so that a configuration and its model in a contract are one
//! shape.

use crate::json::{Json, Value};
use crate::keyed;
use crate::keyed::Keyed;
use crate::provider::DriverKind;
use crate::text;
use vstd::prelude::*;

verus! {

/// The text of a model.
pub type Text = Seq<char>;

/// How an agent that is started from a binary of its own is configured.
#[derive(Debug, PartialEq, Eq)]
pub struct AgentSettings<S, L> {
    pub enabled: bool,
    pub binary_path: S,
    pub home_path: S,
    pub launch_args: S,
    pub custom_models: L,
}

/// How the agent of the first driver is started.
pub type ClaudeSettings = AgentSettings<String, Vec<String>>;

/// How the Codex agent is started.
pub type CodexSettings = AgentSettings<String, Vec<String>>;

/// The model of how an agent is started.
pub type AgentModel = AgentSettings<Text, Seq<Text>>;

impl View for AgentSettings<String, Vec<String>> {
    type V = AgentModel;

    open spec fn view(&self) -> AgentModel {
        AgentSettings {
            enabled: self.enabled,
            binary_path: self.binary_path@,
            home_path: self.home_path@,
            launch_args: self.launch_args@,
            custom_models: text::views(self.custom_models@),
        }
    }
}

/// How an OpenCode agent is started or reached.
#[derive(Debug, PartialEq, Eq)]
pub struct OpenCodeSettings {
    pub enabled: bool,
    pub binary_path: String,
    pub server_url: String,
    pub server_password: String,
    pub custom_models: Vec<String>,
}

/// The part of a provider instance that belongs to its driver.
#[derive(Debug, PartialEq, Eq)]
pub enum InstanceConfig<S, L> {
    Claude { binary_path: S, home_path: S, launch_args: S, custom_models: L },
    Codex { binary_path: S, home_path: S, launch_args: S, custom_models: L },
    OpenCode { binary_path: S, server_url: S, server_password: S, custom_models: L },
}

/// A provider instance: what it is called, whether it is on, and how its driver
/// is configured.
#[derive(Debug, PartialEq, Eq)]
pub struct Instance<S, L> {
    pub display_name: S,
    pub enabled: bool,
    pub config: InstanceConfig<S, L>,
}

/// The model of a provider instance.
pub type InstanceModel = Instance<Text, Seq<Text>>;

impl<S, L> Instance<S, L> {
    /// Which driver the instance belongs to.
    pub open spec fn kind(self) -> DriverKind {
        match self.config {
            InstanceConfig::Claude { .. } => DriverKind::Claude,
            InstanceConfig::Codex { .. } => DriverKind::Codex,
            InstanceConfig::OpenCode { .. } => DriverKind::OpenCode,
        }
    }
}

impl View for InstanceConfig<String, Vec<String>> {
    type V = InstanceConfig<Text, Seq<Text>>;

    open spec fn view(&self) -> InstanceConfig<Text, Seq<Text>> {
        match self {
            InstanceConfig::Claude { binary_path, home_path, launch_args, custom_models } => InstanceConfig::Claude {
                binary_path: binary_path@,
                home_path: home_path@,
                launch_args: launch_args@,
                custom_models: text::views(custom_models@),
            },
            InstanceConfig::Codex { binary_path, home_path, launch_args, custom_models } => InstanceConfig::Codex {
                binary_path: binary_path@,
                home_path: home_path@,
                launch_args: launch_args@,
                custom_models: text::views(custom_models@),
            },
            InstanceConfig::OpenCode { binary_path, server_url, server_password, custom_models } =>
                InstanceConfig::OpenCode {
                    binary_path: binary_path@,
                    server_url: server_url@,
                    server_password: server_password@,
                    custom_models: text::views(custom_models@),
                },
        }
    }
}

impl View for Instance<String, Vec<String>> {
    type V = InstanceModel;

    open spec fn view(&self) -> InstanceModel {
        Instance { display_name: self.display_name@, enabled: self.enabled, config: self.config@ }
    }
}

/// Where what the server observes of itself is sent.
#[derive(Debug, PartialEq, Eq)]
pub struct Observability<S> {
    pub otlp_traces_url: S,
    pub otlp_metrics_url: S,
}

/// The two agents that are configured by driver.
#[derive(Debug, PartialEq, Eq)]
pub struct Providers<A> {
    pub claude_agent: A,
    pub codex: A,
}

/// Where a new thread works.
#[derive(Debug, Clone, Copy, PartialEq, Eq, Structural)]
pub enum ThreadEnvMode {
    /// In the project's own folder.
    Local,
}

/// Everything the developer can configure.
#[derive(Debug)]
pub struct SettingsOf<S, A, M, J> {
    pub enable_assistant_streaming: bool,
    pub enable_provider_update_checks: bool,
    pub new_worktrees_start_from_origin: bool,
    pub add_project_base_directory: S,
    /// In milliseconds.
    pub automatic_git_fetch_interval: u64,
    pub default_thread_env_mode: ThreadEnvMode,
    pub observability: Observability<S>,
    pub providers: Providers<A>,
    pub provider_instances: M,
    pub text_generation_model_selection: J,
}

/// The provider instances, by id.
pub type Instances = Keyed<Instance<String, Vec<String>>>;

/// The settings in force.
pub type Settings = SettingsOf<String, AgentSettings<String, Vec<String>>, Instances, Json>;

/// The model of the settings.
pub type SettingsModel = SettingsOf<Text, AgentModel, Map<Text, InstanceModel>, Value>;

/// The provider instances of a table, by id.
pub open spec fn instances_of(entries: Seq<(Text, Instance<String, Vec<String>>)>) -> Map<Text, InstanceModel> {
    Map::new(
        |id: Text| keyed::has(entries, id),
        |id: Text| keyed::find(entries, id)->Some_0@,
    )
}

impl View for SettingsOf<String, AgentSettings<String, Vec<String>>, Keyed<Instance<String, Vec<String>>>, Json> {
    type V = SettingsModel;

    open spec fn view(&self) -> SettingsModel {
        SettingsOf {
            enable_assistant_streaming: self.enable_assistant_streaming,
            enable_provider_update_checks: self.enable_provider_update_checks,
            new_worktrees_start_from_origin: self.new_worktrees_start_from_origin,
            add_project_base_directory: self.add_project_base_directory@,
            automatic_git_fetch_interval: self.automatic_git_fetch_interval,
            default_thread_env_mode: self.default_thread_env_mode,
            observability: Observability {
                otlp_traces_url: self.observability.otlp_traces_url@,
                otlp_metrics_url: self.observability.otlp_metrics_url@,
            },
            providers: Providers { claude_agent: self.providers.claude_agent@, codex: self.providers.codex@ },
            provider_instances: instances_of(self.provider_instances@),
            text_generation_model_selection: self.text_generation_model_selection@,
        }
    }
}

/// An instance is of the driver that its configuration is of.
pub proof fn an_instance_is_of_its_configurations_driver<S, L>(instance: Instance<S, L>)
    ensures
        instance.kind() is Claude <==> instance.config is Claude,
        instance.kind() is Codex <==> instance.config is Codex,
        instance.kind() is OpenCode <==> instance.config is OpenCode,
{
}

} // verus!
