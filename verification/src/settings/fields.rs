//! The names of the settings, as they are written in a patch and in the file.

use crate::text;
use vstd::prelude::*;

verus! {

/// A setting.
#[derive(Debug, Clone, Copy, PartialEq, Eq, Structural)]
pub enum Field {
    AddProjectBaseDirectory,
    AutomaticGitFetchInterval,
    DefaultThreadEnvMode,
    EnableAssistantStreaming,
    EnableProviderUpdateChecks,
    NewWorktreesStartFromOrigin,
    Observability,
    ProviderInstances,
    Providers,
    TextGenerationModelSelection,
}

impl Field {
    /// How it is written.
    pub open spec fn word(self) -> Seq<char> {
        match self {
            Field::AddProjectBaseDirectory => "addProjectBaseDirectory"@,
            Field::AutomaticGitFetchInterval => "automaticGitFetchInterval"@,
            Field::DefaultThreadEnvMode => "defaultThreadEnvMode"@,
            Field::EnableAssistantStreaming => "enableAssistantStreaming"@,
            Field::EnableProviderUpdateChecks => "enableProviderUpdateChecks"@,
            Field::NewWorktreesStartFromOrigin => "newWorktreesStartFromOrigin"@,
            Field::Observability => "observability"@,
            Field::ProviderInstances => "providerInstances"@,
            Field::Providers => "providers"@,
            Field::TextGenerationModelSelection => "textGenerationModelSelection"@,
        }
    }

    /// What a word names.
    pub open spec fn reading(word: Seq<char>) -> Option<Self> {
        if word == "addProjectBaseDirectory"@ {
            Some(Field::AddProjectBaseDirectory)
        } else if word == "automaticGitFetchInterval"@ {
            Some(Field::AutomaticGitFetchInterval)
        } else if word == "defaultThreadEnvMode"@ {
            Some(Field::DefaultThreadEnvMode)
        } else if word == "enableAssistantStreaming"@ {
            Some(Field::EnableAssistantStreaming)
        } else if word == "enableProviderUpdateChecks"@ {
            Some(Field::EnableProviderUpdateChecks)
        } else if word == "newWorktreesStartFromOrigin"@ {
            Some(Field::NewWorktreesStartFromOrigin)
        } else if word == "observability"@ {
            Some(Field::Observability)
        } else if word == "providerInstances"@ {
            Some(Field::ProviderInstances)
        } else if word == "providers"@ {
            Some(Field::Providers)
        } else if word == "textGenerationModelSelection"@ {
            Some(Field::TextGenerationModelSelection)
        } else {
            None
        }
    }

    /// How it is written.
    pub fn as_str(self) -> (out: &'static str)
        ensures
            out@ == self.word(),
    {
        match self {
            Field::AddProjectBaseDirectory => "addProjectBaseDirectory",
            Field::AutomaticGitFetchInterval => "automaticGitFetchInterval",
            Field::DefaultThreadEnvMode => "defaultThreadEnvMode",
            Field::EnableAssistantStreaming => "enableAssistantStreaming",
            Field::EnableProviderUpdateChecks => "enableProviderUpdateChecks",
            Field::NewWorktreesStartFromOrigin => "newWorktreesStartFromOrigin",
            Field::Observability => "observability",
            Field::ProviderInstances => "providerInstances",
            Field::Providers => "providers",
            Field::TextGenerationModelSelection => "textGenerationModelSelection",
        }
    }

    /// What a word names.
    pub fn named(word: &str) -> (out: Option<Self>)
        ensures
            out == Self::reading(word@),
    {
        if text::same(word, "addProjectBaseDirectory") {
            Some(Field::AddProjectBaseDirectory)
        } else if text::same(word, "automaticGitFetchInterval") {
            Some(Field::AutomaticGitFetchInterval)
        } else if text::same(word, "defaultThreadEnvMode") {
            Some(Field::DefaultThreadEnvMode)
        } else if text::same(word, "enableAssistantStreaming") {
            Some(Field::EnableAssistantStreaming)
        } else if text::same(word, "enableProviderUpdateChecks") {
            Some(Field::EnableProviderUpdateChecks)
        } else if text::same(word, "newWorktreesStartFromOrigin") {
            Some(Field::NewWorktreesStartFromOrigin)
        } else if text::same(word, "observability") {
            Some(Field::Observability)
        } else if text::same(word, "providerInstances") {
            Some(Field::ProviderInstances)
        } else if text::same(word, "providers") {
            Some(Field::Providers)
        } else if text::same(word, "textGenerationModelSelection") {
            Some(Field::TextGenerationModelSelection)
        } else {
            None
        }
    }
}

/// Every setting is read back from its word.
pub proof fn field_reads_back(x: Field)
    ensures
        Field::reading(x.word()) == Some(x),
{
    reveal_strlit("addProjectBaseDirectory");
    reveal_strlit("automaticGitFetchInterval");
    reveal_strlit("defaultThreadEnvMode");
    reveal_strlit("enableAssistantStreaming");
    reveal_strlit("enableProviderUpdateChecks");
    reveal_strlit("newWorktreesStartFromOrigin");
    reveal_strlit("observability");
    reveal_strlit("providerInstances");
    reveal_strlit("providers");
    reveal_strlit("textGenerationModelSelection");
    assert("addProjectBaseDirectory"@.len() == 23);
    assert("automaticGitFetchInterval"@.len() == 25);
    assert("defaultThreadEnvMode"@.len() == 20);
    assert("enableAssistantStreaming"@.len() == 24);
    assert("enableProviderUpdateChecks"@.len() == 26);
    assert("newWorktreesStartFromOrigin"@.len() == 27);
    assert("observability"@.len() == 13);
    assert("providerInstances"@.len() == 17);
    assert("providers"@.len() == 9);
    assert("textGenerationModelSelection"@.len() == 28);
}

/// A setting of `observability`.
#[derive(Debug, Clone, Copy, PartialEq, Eq, Structural)]
pub enum ObservabilityField {
    OtlpMetricsUrl,
    OtlpTracesUrl,
}

impl ObservabilityField {
    /// How it is written.
    pub open spec fn word(self) -> Seq<char> {
        match self {
            ObservabilityField::OtlpMetricsUrl => "otlpMetricsUrl"@,
            ObservabilityField::OtlpTracesUrl => "otlpTracesUrl"@,
        }
    }

    /// What a word names.
    pub open spec fn reading(word: Seq<char>) -> Option<Self> {
        if word == "otlpMetricsUrl"@ {
            Some(ObservabilityField::OtlpMetricsUrl)
        } else if word == "otlpTracesUrl"@ {
            Some(ObservabilityField::OtlpTracesUrl)
        } else {
            None
        }
    }

    /// How it is written.
    pub fn as_str(self) -> (out: &'static str)
        ensures
            out@ == self.word(),
    {
        match self {
            ObservabilityField::OtlpMetricsUrl => "otlpMetricsUrl",
            ObservabilityField::OtlpTracesUrl => "otlpTracesUrl",
        }
    }

    /// What a word names.
    pub fn named(word: &str) -> (out: Option<Self>)
        ensures
            out == Self::reading(word@),
    {
        if text::same(word, "otlpMetricsUrl") {
            Some(ObservabilityField::OtlpMetricsUrl)
        } else if text::same(word, "otlpTracesUrl") {
            Some(ObservabilityField::OtlpTracesUrl)
        } else {
            None
        }
    }
}

/// Every setting of `observability` is read back from its word.
pub proof fn observability_field_reads_back(x: ObservabilityField)
    ensures
        ObservabilityField::reading(x.word()) == Some(x),
{
    reveal_strlit("otlpMetricsUrl");
    reveal_strlit("otlpTracesUrl");
    assert("otlpMetricsUrl"@.len() == 14);
    assert("otlpTracesUrl"@.len() == 13);
}

/// A driver that `providers` can name.
#[derive(Debug, Clone, Copy, PartialEq, Eq, Structural)]
pub enum ProviderField {
    ClaudeAgent,
    Codex,
    Cursor,
    Grok,
    OpenCode,
}

impl ProviderField {
    /// How it is written.
    pub open spec fn word(self) -> Seq<char> {
        match self {
            ProviderField::ClaudeAgent => "claudeAgent"@,
            ProviderField::Codex => "codex"@,
            ProviderField::Cursor => "cursor"@,
            ProviderField::Grok => "grok"@,
            ProviderField::OpenCode => "opencode"@,
        }
    }

    /// What a word names.
    pub open spec fn reading(word: Seq<char>) -> Option<Self> {
        if word == "claudeAgent"@ {
            Some(ProviderField::ClaudeAgent)
        } else if word == "codex"@ {
            Some(ProviderField::Codex)
        } else if word == "cursor"@ {
            Some(ProviderField::Cursor)
        } else if word == "grok"@ {
            Some(ProviderField::Grok)
        } else if word == "opencode"@ {
            Some(ProviderField::OpenCode)
        } else {
            None
        }
    }

    /// How it is written.
    pub fn as_str(self) -> (out: &'static str)
        ensures
            out@ == self.word(),
    {
        match self {
            ProviderField::ClaudeAgent => "claudeAgent",
            ProviderField::Codex => "codex",
            ProviderField::Cursor => "cursor",
            ProviderField::Grok => "grok",
            ProviderField::OpenCode => "opencode",
        }
    }

    /// What a word names.
    pub fn named(word: &str) -> (out: Option<Self>)
        ensures
            out == Self::reading(word@),
    {
        if text::same(word, "claudeAgent") {
            Some(ProviderField::ClaudeAgent)
        } else if text::same(word, "codex") {
            Some(ProviderField::Codex)
        } else if text::same(word, "cursor") {
            Some(ProviderField::Cursor)
        } else if text::same(word, "grok") {
            Some(ProviderField::Grok)
        } else if text::same(word, "opencode") {
            Some(ProviderField::OpenCode)
        } else {
            None
        }
    }
}

/// Every driver that `providers` can name is read back from its word.
pub proof fn provider_field_reads_back(x: ProviderField)
    ensures
        ProviderField::reading(x.word()) == Some(x),
{
    reveal_strlit("claudeAgent");
    reveal_strlit("codex");
    reveal_strlit("cursor");
    reveal_strlit("grok");
    reveal_strlit("opencode");
    assert("claudeAgent"@.len() == 11);
    assert("codex"@.len() == 5);
    assert("cursor"@.len() == 6);
    assert("grok"@.len() == 4);
    assert("opencode"@.len() == 8);
}

/// A setting of an agent that is started from a binary.
#[derive(Debug, Clone, Copy, PartialEq, Eq, Structural)]
pub enum AgentField {
    BinaryPath,
    CustomModels,
    Enabled,
    HomePath,
    LaunchArgs,
    ShadowHomePath,
}

impl AgentField {
    /// How it is written.
    pub open spec fn word(self) -> Seq<char> {
        match self {
            AgentField::BinaryPath => "binaryPath"@,
            AgentField::CustomModels => "customModels"@,
            AgentField::Enabled => "enabled"@,
            AgentField::HomePath => "homePath"@,
            AgentField::LaunchArgs => "launchArgs"@,
            AgentField::ShadowHomePath => "shadowHomePath"@,
        }
    }

    /// What a word names.
    pub open spec fn reading(word: Seq<char>) -> Option<Self> {
        if word == "binaryPath"@ {
            Some(AgentField::BinaryPath)
        } else if word == "customModels"@ {
            Some(AgentField::CustomModels)
        } else if word == "enabled"@ {
            Some(AgentField::Enabled)
        } else if word == "homePath"@ {
            Some(AgentField::HomePath)
        } else if word == "launchArgs"@ {
            Some(AgentField::LaunchArgs)
        } else if word == "shadowHomePath"@ {
            Some(AgentField::ShadowHomePath)
        } else {
            None
        }
    }

    /// How it is written.
    pub fn as_str(self) -> (out: &'static str)
        ensures
            out@ == self.word(),
    {
        match self {
            AgentField::BinaryPath => "binaryPath",
            AgentField::CustomModels => "customModels",
            AgentField::Enabled => "enabled",
            AgentField::HomePath => "homePath",
            AgentField::LaunchArgs => "launchArgs",
            AgentField::ShadowHomePath => "shadowHomePath",
        }
    }

    /// What a word names.
    pub fn named(word: &str) -> (out: Option<Self>)
        ensures
            out == Self::reading(word@),
    {
        if text::same(word, "binaryPath") {
            Some(AgentField::BinaryPath)
        } else if text::same(word, "customModels") {
            Some(AgentField::CustomModels)
        } else if text::same(word, "enabled") {
            Some(AgentField::Enabled)
        } else if text::same(word, "homePath") {
            Some(AgentField::HomePath)
        } else if text::same(word, "launchArgs") {
            Some(AgentField::LaunchArgs)
        } else if text::same(word, "shadowHomePath") {
            Some(AgentField::ShadowHomePath)
        } else {
            None
        }
    }
}

/// Every setting of such an agent is read back from its word.
pub proof fn agent_field_reads_back(x: AgentField)
    ensures
        AgentField::reading(x.word()) == Some(x),
{
    reveal_strlit("binaryPath");
    reveal_strlit("customModels");
    reveal_strlit("enabled");
    reveal_strlit("homePath");
    reveal_strlit("launchArgs");
    reveal_strlit("shadowHomePath");
    assert("binaryPath"@[0] != "launchArgs"@[0]);
    assert("binaryPath"@.len() == 10);
    assert("customModels"@.len() == 12);
    assert("enabled"@.len() == 7);
    assert("homePath"@.len() == 8);
    assert("launchArgs"@.len() == 10);
    assert("shadowHomePath"@.len() == 14);
}

/// A part of a provider instance.
#[derive(Debug, Clone, Copy, PartialEq, Eq, Structural)]
pub enum EnvelopeField {
    Config,
    DisplayName,
    Driver,
    Enabled,
}

impl EnvelopeField {
    /// How it is written.
    pub open spec fn word(self) -> Seq<char> {
        match self {
            EnvelopeField::Config => "config"@,
            EnvelopeField::DisplayName => "displayName"@,
            EnvelopeField::Driver => "driver"@,
            EnvelopeField::Enabled => "enabled"@,
        }
    }

    /// What a word names.
    pub open spec fn reading(word: Seq<char>) -> Option<Self> {
        if word == "config"@ {
            Some(EnvelopeField::Config)
        } else if word == "displayName"@ {
            Some(EnvelopeField::DisplayName)
        } else if word == "driver"@ {
            Some(EnvelopeField::Driver)
        } else if word == "enabled"@ {
            Some(EnvelopeField::Enabled)
        } else {
            None
        }
    }

    /// How it is written.
    pub fn as_str(self) -> (out: &'static str)
        ensures
            out@ == self.word(),
    {
        match self {
            EnvelopeField::Config => "config",
            EnvelopeField::DisplayName => "displayName",
            EnvelopeField::Driver => "driver",
            EnvelopeField::Enabled => "enabled",
        }
    }

    /// What a word names.
    pub fn named(word: &str) -> (out: Option<Self>)
        ensures
            out == Self::reading(word@),
    {
        if text::same(word, "config") {
            Some(EnvelopeField::Config)
        } else if text::same(word, "displayName") {
            Some(EnvelopeField::DisplayName)
        } else if text::same(word, "driver") {
            Some(EnvelopeField::Driver)
        } else if text::same(word, "enabled") {
            Some(EnvelopeField::Enabled)
        } else {
            None
        }
    }
}

/// Every part of a provider instance is read back from its word.
pub proof fn envelope_field_reads_back(x: EnvelopeField)
    ensures
        EnvelopeField::reading(x.word()) == Some(x),
{
    reveal_strlit("config");
    reveal_strlit("displayName");
    reveal_strlit("driver");
    reveal_strlit("enabled");
    assert("config"@[0] != "driver"@[0]);
    assert("config"@.len() == 6);
    assert("displayName"@.len() == 11);
    assert("driver"@.len() == 6);
    assert("enabled"@.len() == 7);
}

/// A setting of an OpenCode agent.
#[derive(Debug, Clone, Copy, PartialEq, Eq, Structural)]
pub enum OpenCodeField {
    BinaryPath,
    CustomModels,
    ServerPassword,
    ServerUrl,
}

impl OpenCodeField {
    /// How it is written.
    pub open spec fn word(self) -> Seq<char> {
        match self {
            OpenCodeField::BinaryPath => "binaryPath"@,
            OpenCodeField::CustomModels => "customModels"@,
            OpenCodeField::ServerPassword => "serverPassword"@,
            OpenCodeField::ServerUrl => "serverUrl"@,
        }
    }

    /// What a word names.
    pub open spec fn reading(word: Seq<char>) -> Option<Self> {
        if word == "binaryPath"@ {
            Some(OpenCodeField::BinaryPath)
        } else if word == "customModels"@ {
            Some(OpenCodeField::CustomModels)
        } else if word == "serverPassword"@ {
            Some(OpenCodeField::ServerPassword)
        } else if word == "serverUrl"@ {
            Some(OpenCodeField::ServerUrl)
        } else {
            None
        }
    }

    /// How it is written.
    pub fn as_str(self) -> (out: &'static str)
        ensures
            out@ == self.word(),
    {
        match self {
            OpenCodeField::BinaryPath => "binaryPath",
            OpenCodeField::CustomModels => "customModels",
            OpenCodeField::ServerPassword => "serverPassword",
            OpenCodeField::ServerUrl => "serverUrl",
        }
    }

    /// What a word names.
    pub fn named(word: &str) -> (out: Option<Self>)
        ensures
            out == Self::reading(word@),
    {
        if text::same(word, "binaryPath") {
            Some(OpenCodeField::BinaryPath)
        } else if text::same(word, "customModels") {
            Some(OpenCodeField::CustomModels)
        } else if text::same(word, "serverPassword") {
            Some(OpenCodeField::ServerPassword)
        } else if text::same(word, "serverUrl") {
            Some(OpenCodeField::ServerUrl)
        } else {
            None
        }
    }
}

/// Every setting of an OpenCode agent is read back from its word.
pub proof fn open_code_field_reads_back(x: OpenCodeField)
    ensures
        OpenCodeField::reading(x.word()) == Some(x),
{
    reveal_strlit("binaryPath");
    reveal_strlit("customModels");
    reveal_strlit("serverPassword");
    reveal_strlit("serverUrl");
    assert("binaryPath"@.len() == 10);
    assert("customModels"@.len() == 12);
    assert("serverPassword"@.len() == 14);
    assert("serverUrl"@.len() == 9);
}

} // verus!
