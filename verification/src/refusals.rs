//! The methods of the contract, and how one that is not implemented is refused.
//!
//! A client decodes an error against the union that the method it called
//! declares, so a refusal carries a tag that every such union has. Only a method
//! that the contract does not name is refused under a tag of the server's own.

use crate::json;
use crate::json::{Fields, Json, Value};
use crate::text;
use vstd::prelude::*;

verus! {

/// Text as the contracts see it.
pub type Text = Seq<char>;

/// The methods that the contract declares, in its own order.
#[derive(Debug, Clone, Copy, PartialEq, Eq, Structural)]
pub enum Method {
    ServerUpsertKeybinding,
    ServerRemoveKeybinding,
    ServerProbe,
    ServerGetConfig,
    ServerRefreshProviders,
    ServerUpdateProvider,
    ServerUpdateServer,
    ServerGetSettings,
    ServerUpdateSettings,
    ServerGetTraceDiagnostics,
    ServerGetProcessDiagnostics,
    ServerGetProcessResourceHistory,
    ServerSignalProcess,
    ProjectsSearchEntries,
    ProjectsListEntries,
    ProjectsReadFile,
    ProjectsWriteFile,
    ShellOpenInEditor,
    FilesystemBrowse,
    AssetsCreateUrl,
    SubscribeVcsStatus,
    VcsPull,
    VcsRefreshStatus,
    VcsListRefs,
    VcsCreateWorktree,
    VcsRemoveWorktree,
    VcsCreateRef,
    VcsSwitchRef,
    VcsInit,
    ReviewGetDiffPreview,
    TerminalOpen,
    TerminalAttach,
    TerminalWrite,
    TerminalResize,
    TerminalClear,
    TerminalRestart,
    TerminalClose,
    PreviewOpen,
    PreviewNavigate,
    PreviewResize,
    PreviewRefresh,
    PreviewClose,
    PreviewList,
    PreviewReportStatus,
    PreviewAutomationConnect,
    PreviewAutomationRespond,
    PreviewAutomationFocusHost,
    SubscribePreviewEvents,
    SubscribeDiscoveredLocalServers,
    OrchestrationDispatchCommand,
    OrchestrationGetTurnDiff,
    OrchestrationGetFullThreadDiff,
    OrchestrationReplayEvents,
    OrchestrationGetArchivedShellSnapshot,
    OrchestrationSubscribeShell,
    OrchestrationSubscribeThread,
    SubscribeTerminalEvents,
    SubscribeTerminalMetadata,
    SubscribeServerConfig,
    SubscribeServerLifecycle,
    SubscribeAuthAccess,
}

impl Method {
    /// How it is written.
    pub open spec fn word(self) -> Seq<char> {
        match self {
            Method::ServerUpsertKeybinding => "server.upsertKeybinding"@,
            Method::ServerRemoveKeybinding => "server.removeKeybinding"@,
            Method::ServerProbe => "server.probe"@,
            Method::ServerGetConfig => "server.getConfig"@,
            Method::ServerRefreshProviders => "server.refreshProviders"@,
            Method::ServerUpdateProvider => "server.updateProvider"@,
            Method::ServerUpdateServer => "server.updateServer"@,
            Method::ServerGetSettings => "server.getSettings"@,
            Method::ServerUpdateSettings => "server.updateSettings"@,
            Method::ServerGetTraceDiagnostics => "server.getTraceDiagnostics"@,
            Method::ServerGetProcessDiagnostics => "server.getProcessDiagnostics"@,
            Method::ServerGetProcessResourceHistory => "server.getProcessResourceHistory"@,
            Method::ServerSignalProcess => "server.signalProcess"@,
            Method::ProjectsSearchEntries => "projects.searchEntries"@,
            Method::ProjectsListEntries => "projects.listEntries"@,
            Method::ProjectsReadFile => "projects.readFile"@,
            Method::ProjectsWriteFile => "projects.writeFile"@,
            Method::ShellOpenInEditor => "shell.openInEditor"@,
            Method::FilesystemBrowse => "filesystem.browse"@,
            Method::AssetsCreateUrl => "assets.createUrl"@,
            Method::SubscribeVcsStatus => "subscribeVcsStatus"@,
            Method::VcsPull => "vcs.pull"@,
            Method::VcsRefreshStatus => "vcs.refreshStatus"@,
            Method::VcsListRefs => "vcs.listRefs"@,
            Method::VcsCreateWorktree => "vcs.createWorktree"@,
            Method::VcsRemoveWorktree => "vcs.removeWorktree"@,
            Method::VcsCreateRef => "vcs.createRef"@,
            Method::VcsSwitchRef => "vcs.switchRef"@,
            Method::VcsInit => "vcs.init"@,
            Method::ReviewGetDiffPreview => "review.getDiffPreview"@,
            Method::TerminalOpen => "terminal.open"@,
            Method::TerminalAttach => "terminal.attach"@,
            Method::TerminalWrite => "terminal.write"@,
            Method::TerminalResize => "terminal.resize"@,
            Method::TerminalClear => "terminal.clear"@,
            Method::TerminalRestart => "terminal.restart"@,
            Method::TerminalClose => "terminal.close"@,
            Method::PreviewOpen => "preview.open"@,
            Method::PreviewNavigate => "preview.navigate"@,
            Method::PreviewResize => "preview.resize"@,
            Method::PreviewRefresh => "preview.refresh"@,
            Method::PreviewClose => "preview.close"@,
            Method::PreviewList => "preview.list"@,
            Method::PreviewReportStatus => "preview.reportStatus"@,
            Method::PreviewAutomationConnect => "previewAutomation.connect"@,
            Method::PreviewAutomationRespond => "previewAutomation.respond"@,
            Method::PreviewAutomationFocusHost => "previewAutomation.focusHost"@,
            Method::SubscribePreviewEvents => "subscribePreviewEvents"@,
            Method::SubscribeDiscoveredLocalServers => "subscribeDiscoveredLocalServers"@,
            Method::OrchestrationDispatchCommand => "orchestration.dispatchCommand"@,
            Method::OrchestrationGetTurnDiff => "orchestration.getTurnDiff"@,
            Method::OrchestrationGetFullThreadDiff => "orchestration.getFullThreadDiff"@,
            Method::OrchestrationReplayEvents => "orchestration.replayEvents"@,
            Method::OrchestrationGetArchivedShellSnapshot => "orchestration.getArchivedShellSnapshot"@,
            Method::OrchestrationSubscribeShell => "orchestration.subscribeShell"@,
            Method::OrchestrationSubscribeThread => "orchestration.subscribeThread"@,
            Method::SubscribeTerminalEvents => "subscribeTerminalEvents"@,
            Method::SubscribeTerminalMetadata => "subscribeTerminalMetadata"@,
            Method::SubscribeServerConfig => "subscribeServerConfig"@,
            Method::SubscribeServerLifecycle => "subscribeServerLifecycle"@,
            Method::SubscribeAuthAccess => "subscribeAuthAccess"@,
        }
    }

    /// What a word names.
    pub open spec fn reading(word: Seq<char>) -> Option<Self> {
        if word == "server.upsertKeybinding"@ {
            Some(Method::ServerUpsertKeybinding)
        } else if word == "server.removeKeybinding"@ {
            Some(Method::ServerRemoveKeybinding)
        } else if word == "server.probe"@ {
            Some(Method::ServerProbe)
        } else if word == "server.getConfig"@ {
            Some(Method::ServerGetConfig)
        } else if word == "server.refreshProviders"@ {
            Some(Method::ServerRefreshProviders)
        } else if word == "server.updateProvider"@ {
            Some(Method::ServerUpdateProvider)
        } else if word == "server.updateServer"@ {
            Some(Method::ServerUpdateServer)
        } else if word == "server.getSettings"@ {
            Some(Method::ServerGetSettings)
        } else if word == "server.updateSettings"@ {
            Some(Method::ServerUpdateSettings)
        } else if word == "server.getTraceDiagnostics"@ {
            Some(Method::ServerGetTraceDiagnostics)
        } else if word == "server.getProcessDiagnostics"@ {
            Some(Method::ServerGetProcessDiagnostics)
        } else if word == "server.getProcessResourceHistory"@ {
            Some(Method::ServerGetProcessResourceHistory)
        } else if word == "server.signalProcess"@ {
            Some(Method::ServerSignalProcess)
        } else if word == "projects.searchEntries"@ {
            Some(Method::ProjectsSearchEntries)
        } else if word == "projects.listEntries"@ {
            Some(Method::ProjectsListEntries)
        } else if word == "projects.readFile"@ {
            Some(Method::ProjectsReadFile)
        } else if word == "projects.writeFile"@ {
            Some(Method::ProjectsWriteFile)
        } else if word == "shell.openInEditor"@ {
            Some(Method::ShellOpenInEditor)
        } else if word == "filesystem.browse"@ {
            Some(Method::FilesystemBrowse)
        } else if word == "assets.createUrl"@ {
            Some(Method::AssetsCreateUrl)
        } else if word == "subscribeVcsStatus"@ {
            Some(Method::SubscribeVcsStatus)
        } else if word == "vcs.pull"@ {
            Some(Method::VcsPull)
        } else if word == "vcs.refreshStatus"@ {
            Some(Method::VcsRefreshStatus)
        } else if word == "vcs.listRefs"@ {
            Some(Method::VcsListRefs)
        } else if word == "vcs.createWorktree"@ {
            Some(Method::VcsCreateWorktree)
        } else if word == "vcs.removeWorktree"@ {
            Some(Method::VcsRemoveWorktree)
        } else if word == "vcs.createRef"@ {
            Some(Method::VcsCreateRef)
        } else if word == "vcs.switchRef"@ {
            Some(Method::VcsSwitchRef)
        } else if word == "vcs.init"@ {
            Some(Method::VcsInit)
        } else if word == "review.getDiffPreview"@ {
            Some(Method::ReviewGetDiffPreview)
        } else if word == "terminal.open"@ {
            Some(Method::TerminalOpen)
        } else if word == "terminal.attach"@ {
            Some(Method::TerminalAttach)
        } else if word == "terminal.write"@ {
            Some(Method::TerminalWrite)
        } else if word == "terminal.resize"@ {
            Some(Method::TerminalResize)
        } else if word == "terminal.clear"@ {
            Some(Method::TerminalClear)
        } else if word == "terminal.restart"@ {
            Some(Method::TerminalRestart)
        } else if word == "terminal.close"@ {
            Some(Method::TerminalClose)
        } else if word == "preview.open"@ {
            Some(Method::PreviewOpen)
        } else if word == "preview.navigate"@ {
            Some(Method::PreviewNavigate)
        } else if word == "preview.resize"@ {
            Some(Method::PreviewResize)
        } else if word == "preview.refresh"@ {
            Some(Method::PreviewRefresh)
        } else if word == "preview.close"@ {
            Some(Method::PreviewClose)
        } else if word == "preview.list"@ {
            Some(Method::PreviewList)
        } else if word == "preview.reportStatus"@ {
            Some(Method::PreviewReportStatus)
        } else if word == "previewAutomation.connect"@ {
            Some(Method::PreviewAutomationConnect)
        } else if word == "previewAutomation.respond"@ {
            Some(Method::PreviewAutomationRespond)
        } else if word == "previewAutomation.focusHost"@ {
            Some(Method::PreviewAutomationFocusHost)
        } else if word == "subscribePreviewEvents"@ {
            Some(Method::SubscribePreviewEvents)
        } else if word == "subscribeDiscoveredLocalServers"@ {
            Some(Method::SubscribeDiscoveredLocalServers)
        } else if word == "orchestration.dispatchCommand"@ {
            Some(Method::OrchestrationDispatchCommand)
        } else if word == "orchestration.getTurnDiff"@ {
            Some(Method::OrchestrationGetTurnDiff)
        } else if word == "orchestration.getFullThreadDiff"@ {
            Some(Method::OrchestrationGetFullThreadDiff)
        } else if word == "orchestration.replayEvents"@ {
            Some(Method::OrchestrationReplayEvents)
        } else if word == "orchestration.getArchivedShellSnapshot"@ {
            Some(Method::OrchestrationGetArchivedShellSnapshot)
        } else if word == "orchestration.subscribeShell"@ {
            Some(Method::OrchestrationSubscribeShell)
        } else if word == "orchestration.subscribeThread"@ {
            Some(Method::OrchestrationSubscribeThread)
        } else if word == "subscribeTerminalEvents"@ {
            Some(Method::SubscribeTerminalEvents)
        } else if word == "subscribeTerminalMetadata"@ {
            Some(Method::SubscribeTerminalMetadata)
        } else if word == "subscribeServerConfig"@ {
            Some(Method::SubscribeServerConfig)
        } else if word == "subscribeServerLifecycle"@ {
            Some(Method::SubscribeServerLifecycle)
        } else if word == "subscribeAuthAccess"@ {
            Some(Method::SubscribeAuthAccess)
        } else {
            None
        }
    }

    /// Every method, in the contract's order.
    pub open spec fn every() -> Seq<Self> {
        seq![
            Method::ServerUpsertKeybinding,
            Method::ServerRemoveKeybinding,
            Method::ServerProbe,
            Method::ServerGetConfig,
            Method::ServerRefreshProviders,
            Method::ServerUpdateProvider,
            Method::ServerUpdateServer,
            Method::ServerGetSettings,
            Method::ServerUpdateSettings,
            Method::ServerGetTraceDiagnostics,
            Method::ServerGetProcessDiagnostics,
            Method::ServerGetProcessResourceHistory,
            Method::ServerSignalProcess,
            Method::ProjectsSearchEntries,
            Method::ProjectsListEntries,
            Method::ProjectsReadFile,
            Method::ProjectsWriteFile,
            Method::ShellOpenInEditor,
            Method::FilesystemBrowse,
            Method::AssetsCreateUrl,
            Method::SubscribeVcsStatus,
            Method::VcsPull,
            Method::VcsRefreshStatus,
            Method::VcsListRefs,
            Method::VcsCreateWorktree,
            Method::VcsRemoveWorktree,
            Method::VcsCreateRef,
            Method::VcsSwitchRef,
            Method::VcsInit,
            Method::ReviewGetDiffPreview,
            Method::TerminalOpen,
            Method::TerminalAttach,
            Method::TerminalWrite,
            Method::TerminalResize,
            Method::TerminalClear,
            Method::TerminalRestart,
            Method::TerminalClose,
            Method::PreviewOpen,
            Method::PreviewNavigate,
            Method::PreviewResize,
            Method::PreviewRefresh,
            Method::PreviewClose,
            Method::PreviewList,
            Method::PreviewReportStatus,
            Method::PreviewAutomationConnect,
            Method::PreviewAutomationRespond,
            Method::PreviewAutomationFocusHost,
            Method::SubscribePreviewEvents,
            Method::SubscribeDiscoveredLocalServers,
            Method::OrchestrationDispatchCommand,
            Method::OrchestrationGetTurnDiff,
            Method::OrchestrationGetFullThreadDiff,
            Method::OrchestrationReplayEvents,
            Method::OrchestrationGetArchivedShellSnapshot,
            Method::OrchestrationSubscribeShell,
            Method::OrchestrationSubscribeThread,
            Method::SubscribeTerminalEvents,
            Method::SubscribeTerminalMetadata,
            Method::SubscribeServerConfig,
            Method::SubscribeServerLifecycle,
            Method::SubscribeAuthAccess,
        ]
    }

    /// Every method, in the contract's order.
    pub fn all() -> (out: Vec<Self>)
        ensures
            out@ == Self::every(),
    {
        vec![
            Method::ServerUpsertKeybinding,
            Method::ServerRemoveKeybinding,
            Method::ServerProbe,
            Method::ServerGetConfig,
            Method::ServerRefreshProviders,
            Method::ServerUpdateProvider,
            Method::ServerUpdateServer,
            Method::ServerGetSettings,
            Method::ServerUpdateSettings,
            Method::ServerGetTraceDiagnostics,
            Method::ServerGetProcessDiagnostics,
            Method::ServerGetProcessResourceHistory,
            Method::ServerSignalProcess,
            Method::ProjectsSearchEntries,
            Method::ProjectsListEntries,
            Method::ProjectsReadFile,
            Method::ProjectsWriteFile,
            Method::ShellOpenInEditor,
            Method::FilesystemBrowse,
            Method::AssetsCreateUrl,
            Method::SubscribeVcsStatus,
            Method::VcsPull,
            Method::VcsRefreshStatus,
            Method::VcsListRefs,
            Method::VcsCreateWorktree,
            Method::VcsRemoveWorktree,
            Method::VcsCreateRef,
            Method::VcsSwitchRef,
            Method::VcsInit,
            Method::ReviewGetDiffPreview,
            Method::TerminalOpen,
            Method::TerminalAttach,
            Method::TerminalWrite,
            Method::TerminalResize,
            Method::TerminalClear,
            Method::TerminalRestart,
            Method::TerminalClose,
            Method::PreviewOpen,
            Method::PreviewNavigate,
            Method::PreviewResize,
            Method::PreviewRefresh,
            Method::PreviewClose,
            Method::PreviewList,
            Method::PreviewReportStatus,
            Method::PreviewAutomationConnect,
            Method::PreviewAutomationRespond,
            Method::PreviewAutomationFocusHost,
            Method::SubscribePreviewEvents,
            Method::SubscribeDiscoveredLocalServers,
            Method::OrchestrationDispatchCommand,
            Method::OrchestrationGetTurnDiff,
            Method::OrchestrationGetFullThreadDiff,
            Method::OrchestrationReplayEvents,
            Method::OrchestrationGetArchivedShellSnapshot,
            Method::OrchestrationSubscribeShell,
            Method::OrchestrationSubscribeThread,
            Method::SubscribeTerminalEvents,
            Method::SubscribeTerminalMetadata,
            Method::SubscribeServerConfig,
            Method::SubscribeServerLifecycle,
            Method::SubscribeAuthAccess,
        ]
    }

    /// How it is written.
    pub fn as_str(self) -> (out: &'static str)
        ensures
            out@ == self.word(),
    {
        match self {
            Method::ServerUpsertKeybinding => "server.upsertKeybinding",
            Method::ServerRemoveKeybinding => "server.removeKeybinding",
            Method::ServerProbe => "server.probe",
            Method::ServerGetConfig => "server.getConfig",
            Method::ServerRefreshProviders => "server.refreshProviders",
            Method::ServerUpdateProvider => "server.updateProvider",
            Method::ServerUpdateServer => "server.updateServer",
            Method::ServerGetSettings => "server.getSettings",
            Method::ServerUpdateSettings => "server.updateSettings",
            Method::ServerGetTraceDiagnostics => "server.getTraceDiagnostics",
            Method::ServerGetProcessDiagnostics => "server.getProcessDiagnostics",
            Method::ServerGetProcessResourceHistory => "server.getProcessResourceHistory",
            Method::ServerSignalProcess => "server.signalProcess",
            Method::ProjectsSearchEntries => "projects.searchEntries",
            Method::ProjectsListEntries => "projects.listEntries",
            Method::ProjectsReadFile => "projects.readFile",
            Method::ProjectsWriteFile => "projects.writeFile",
            Method::ShellOpenInEditor => "shell.openInEditor",
            Method::FilesystemBrowse => "filesystem.browse",
            Method::AssetsCreateUrl => "assets.createUrl",
            Method::SubscribeVcsStatus => "subscribeVcsStatus",
            Method::VcsPull => "vcs.pull",
            Method::VcsRefreshStatus => "vcs.refreshStatus",
            Method::VcsListRefs => "vcs.listRefs",
            Method::VcsCreateWorktree => "vcs.createWorktree",
            Method::VcsRemoveWorktree => "vcs.removeWorktree",
            Method::VcsCreateRef => "vcs.createRef",
            Method::VcsSwitchRef => "vcs.switchRef",
            Method::VcsInit => "vcs.init",
            Method::ReviewGetDiffPreview => "review.getDiffPreview",
            Method::TerminalOpen => "terminal.open",
            Method::TerminalAttach => "terminal.attach",
            Method::TerminalWrite => "terminal.write",
            Method::TerminalResize => "terminal.resize",
            Method::TerminalClear => "terminal.clear",
            Method::TerminalRestart => "terminal.restart",
            Method::TerminalClose => "terminal.close",
            Method::PreviewOpen => "preview.open",
            Method::PreviewNavigate => "preview.navigate",
            Method::PreviewResize => "preview.resize",
            Method::PreviewRefresh => "preview.refresh",
            Method::PreviewClose => "preview.close",
            Method::PreviewList => "preview.list",
            Method::PreviewReportStatus => "preview.reportStatus",
            Method::PreviewAutomationConnect => "previewAutomation.connect",
            Method::PreviewAutomationRespond => "previewAutomation.respond",
            Method::PreviewAutomationFocusHost => "previewAutomation.focusHost",
            Method::SubscribePreviewEvents => "subscribePreviewEvents",
            Method::SubscribeDiscoveredLocalServers => "subscribeDiscoveredLocalServers",
            Method::OrchestrationDispatchCommand => "orchestration.dispatchCommand",
            Method::OrchestrationGetTurnDiff => "orchestration.getTurnDiff",
            Method::OrchestrationGetFullThreadDiff => "orchestration.getFullThreadDiff",
            Method::OrchestrationReplayEvents => "orchestration.replayEvents",
            Method::OrchestrationGetArchivedShellSnapshot => "orchestration.getArchivedShellSnapshot",
            Method::OrchestrationSubscribeShell => "orchestration.subscribeShell",
            Method::OrchestrationSubscribeThread => "orchestration.subscribeThread",
            Method::SubscribeTerminalEvents => "subscribeTerminalEvents",
            Method::SubscribeTerminalMetadata => "subscribeTerminalMetadata",
            Method::SubscribeServerConfig => "subscribeServerConfig",
            Method::SubscribeServerLifecycle => "subscribeServerLifecycle",
            Method::SubscribeAuthAccess => "subscribeAuthAccess",
        }
    }

    /// What a word names.
    pub fn named(word: &str) -> (out: Option<Self>)
        ensures
            out == Self::reading(word@),
    {
        if text::same(word, "server.upsertKeybinding") {
            Some(Method::ServerUpsertKeybinding)
        } else if text::same(word, "server.removeKeybinding") {
            Some(Method::ServerRemoveKeybinding)
        } else if text::same(word, "server.probe") {
            Some(Method::ServerProbe)
        } else if text::same(word, "server.getConfig") {
            Some(Method::ServerGetConfig)
        } else if text::same(word, "server.refreshProviders") {
            Some(Method::ServerRefreshProviders)
        } else if text::same(word, "server.updateProvider") {
            Some(Method::ServerUpdateProvider)
        } else if text::same(word, "server.updateServer") {
            Some(Method::ServerUpdateServer)
        } else if text::same(word, "server.getSettings") {
            Some(Method::ServerGetSettings)
        } else if text::same(word, "server.updateSettings") {
            Some(Method::ServerUpdateSettings)
        } else if text::same(word, "server.getTraceDiagnostics") {
            Some(Method::ServerGetTraceDiagnostics)
        } else if text::same(word, "server.getProcessDiagnostics") {
            Some(Method::ServerGetProcessDiagnostics)
        } else if text::same(word, "server.getProcessResourceHistory") {
            Some(Method::ServerGetProcessResourceHistory)
        } else if text::same(word, "server.signalProcess") {
            Some(Method::ServerSignalProcess)
        } else if text::same(word, "projects.searchEntries") {
            Some(Method::ProjectsSearchEntries)
        } else if text::same(word, "projects.listEntries") {
            Some(Method::ProjectsListEntries)
        } else if text::same(word, "projects.readFile") {
            Some(Method::ProjectsReadFile)
        } else if text::same(word, "projects.writeFile") {
            Some(Method::ProjectsWriteFile)
        } else if text::same(word, "shell.openInEditor") {
            Some(Method::ShellOpenInEditor)
        } else if text::same(word, "filesystem.browse") {
            Some(Method::FilesystemBrowse)
        } else if text::same(word, "assets.createUrl") {
            Some(Method::AssetsCreateUrl)
        } else if text::same(word, "subscribeVcsStatus") {
            Some(Method::SubscribeVcsStatus)
        } else if text::same(word, "vcs.pull") {
            Some(Method::VcsPull)
        } else if text::same(word, "vcs.refreshStatus") {
            Some(Method::VcsRefreshStatus)
        } else if text::same(word, "vcs.listRefs") {
            Some(Method::VcsListRefs)
        } else if text::same(word, "vcs.createWorktree") {
            Some(Method::VcsCreateWorktree)
        } else if text::same(word, "vcs.removeWorktree") {
            Some(Method::VcsRemoveWorktree)
        } else if text::same(word, "vcs.createRef") {
            Some(Method::VcsCreateRef)
        } else if text::same(word, "vcs.switchRef") {
            Some(Method::VcsSwitchRef)
        } else if text::same(word, "vcs.init") {
            Some(Method::VcsInit)
        } else if text::same(word, "review.getDiffPreview") {
            Some(Method::ReviewGetDiffPreview)
        } else if text::same(word, "terminal.open") {
            Some(Method::TerminalOpen)
        } else if text::same(word, "terminal.attach") {
            Some(Method::TerminalAttach)
        } else if text::same(word, "terminal.write") {
            Some(Method::TerminalWrite)
        } else if text::same(word, "terminal.resize") {
            Some(Method::TerminalResize)
        } else if text::same(word, "terminal.clear") {
            Some(Method::TerminalClear)
        } else if text::same(word, "terminal.restart") {
            Some(Method::TerminalRestart)
        } else if text::same(word, "terminal.close") {
            Some(Method::TerminalClose)
        } else if text::same(word, "preview.open") {
            Some(Method::PreviewOpen)
        } else if text::same(word, "preview.navigate") {
            Some(Method::PreviewNavigate)
        } else if text::same(word, "preview.resize") {
            Some(Method::PreviewResize)
        } else if text::same(word, "preview.refresh") {
            Some(Method::PreviewRefresh)
        } else if text::same(word, "preview.close") {
            Some(Method::PreviewClose)
        } else if text::same(word, "preview.list") {
            Some(Method::PreviewList)
        } else if text::same(word, "preview.reportStatus") {
            Some(Method::PreviewReportStatus)
        } else if text::same(word, "previewAutomation.connect") {
            Some(Method::PreviewAutomationConnect)
        } else if text::same(word, "previewAutomation.respond") {
            Some(Method::PreviewAutomationRespond)
        } else if text::same(word, "previewAutomation.focusHost") {
            Some(Method::PreviewAutomationFocusHost)
        } else if text::same(word, "subscribePreviewEvents") {
            Some(Method::SubscribePreviewEvents)
        } else if text::same(word, "subscribeDiscoveredLocalServers") {
            Some(Method::SubscribeDiscoveredLocalServers)
        } else if text::same(word, "orchestration.dispatchCommand") {
            Some(Method::OrchestrationDispatchCommand)
        } else if text::same(word, "orchestration.getTurnDiff") {
            Some(Method::OrchestrationGetTurnDiff)
        } else if text::same(word, "orchestration.getFullThreadDiff") {
            Some(Method::OrchestrationGetFullThreadDiff)
        } else if text::same(word, "orchestration.replayEvents") {
            Some(Method::OrchestrationReplayEvents)
        } else if text::same(word, "orchestration.getArchivedShellSnapshot") {
            Some(Method::OrchestrationGetArchivedShellSnapshot)
        } else if text::same(word, "orchestration.subscribeShell") {
            Some(Method::OrchestrationSubscribeShell)
        } else if text::same(word, "orchestration.subscribeThread") {
            Some(Method::OrchestrationSubscribeThread)
        } else if text::same(word, "subscribeTerminalEvents") {
            Some(Method::SubscribeTerminalEvents)
        } else if text::same(word, "subscribeTerminalMetadata") {
            Some(Method::SubscribeTerminalMetadata)
        } else if text::same(word, "subscribeServerConfig") {
            Some(Method::SubscribeServerConfig)
        } else if text::same(word, "subscribeServerLifecycle") {
            Some(Method::SubscribeServerLifecycle)
        } else if text::same(word, "subscribeAuthAccess") {
            Some(Method::SubscribeAuthAccess)
        } else {
            None
        }
    }
}

/// Every method is read back from its word.
pub proof fn method_reads_back(x: Method)
    ensures
        Method::reading(x.word()) == Some(x),
{
    reveal_strlit("server.upsertKeybinding");
    reveal_strlit("server.removeKeybinding");
    reveal_strlit("server.probe");
    reveal_strlit("server.getConfig");
    reveal_strlit("server.refreshProviders");
    reveal_strlit("server.updateProvider");
    reveal_strlit("server.updateServer");
    reveal_strlit("server.getSettings");
    reveal_strlit("server.updateSettings");
    reveal_strlit("server.getTraceDiagnostics");
    reveal_strlit("server.getProcessDiagnostics");
    reveal_strlit("server.getProcessResourceHistory");
    reveal_strlit("server.signalProcess");
    reveal_strlit("projects.searchEntries");
    reveal_strlit("projects.listEntries");
    reveal_strlit("projects.readFile");
    reveal_strlit("projects.writeFile");
    reveal_strlit("shell.openInEditor");
    reveal_strlit("filesystem.browse");
    reveal_strlit("assets.createUrl");
    reveal_strlit("subscribeVcsStatus");
    reveal_strlit("vcs.pull");
    reveal_strlit("vcs.refreshStatus");
    reveal_strlit("vcs.listRefs");
    reveal_strlit("vcs.createWorktree");
    reveal_strlit("vcs.removeWorktree");
    reveal_strlit("vcs.createRef");
    reveal_strlit("vcs.switchRef");
    reveal_strlit("vcs.init");
    reveal_strlit("review.getDiffPreview");
    reveal_strlit("terminal.open");
    reveal_strlit("terminal.attach");
    reveal_strlit("terminal.write");
    reveal_strlit("terminal.resize");
    reveal_strlit("terminal.clear");
    reveal_strlit("terminal.restart");
    reveal_strlit("terminal.close");
    reveal_strlit("preview.open");
    reveal_strlit("preview.navigate");
    reveal_strlit("preview.resize");
    reveal_strlit("preview.refresh");
    reveal_strlit("preview.close");
    reveal_strlit("preview.list");
    reveal_strlit("preview.reportStatus");
    reveal_strlit("previewAutomation.connect");
    reveal_strlit("previewAutomation.respond");
    reveal_strlit("previewAutomation.focusHost");
    reveal_strlit("subscribePreviewEvents");
    reveal_strlit("subscribeDiscoveredLocalServers");
    reveal_strlit("orchestration.dispatchCommand");
    reveal_strlit("orchestration.getTurnDiff");
    reveal_strlit("orchestration.getFullThreadDiff");
    reveal_strlit("orchestration.replayEvents");
    reveal_strlit("orchestration.getArchivedShellSnapshot");
    reveal_strlit("orchestration.subscribeShell");
    reveal_strlit("orchestration.subscribeThread");
    reveal_strlit("subscribeTerminalEvents");
    reveal_strlit("subscribeTerminalMetadata");
    reveal_strlit("subscribeServerConfig");
    reveal_strlit("subscribeServerLifecycle");
    reveal_strlit("subscribeAuthAccess");
    assert("server.upsertKeybinding"@[7] != "server.removeKeybinding"@[7]);
    assert("server.upsertKeybinding"@[7] != "server.refreshProviders"@[7]);
    assert("server.upsertKeybinding"@[1] != "subscribeTerminalEvents"@[1]);
    assert("server.removeKeybinding"@[9] != "server.refreshProviders"@[9]);
    assert("server.removeKeybinding"@[1] != "subscribeTerminalEvents"@[1]);
    assert("server.probe"@[0] != "vcs.listRefs"@[0]);
    assert("server.probe"@[0] != "preview.open"@[0]);
    assert("server.probe"@[0] != "preview.list"@[0]);
    assert("server.getConfig"@[0] != "assets.createUrl"@[0]);
    assert("server.getConfig"@[0] != "terminal.restart"@[0]);
    assert("server.getConfig"@[0] != "preview.navigate"@[0]);
    assert("server.refreshProviders"@[1] != "subscribeTerminalEvents"@[1]);
    assert("server.updateProvider"@[13] != "server.updateSettings"@[13]);
    assert("server.updateProvider"@[0] != "review.getDiffPreview"@[0]);
    assert("server.updateProvider"@[1] != "subscribeServerConfig"@[1]);
    assert("server.updateServer"@[1] != "subscribeAuthAccess"@[1]);
    assert("server.getSettings"@[0] != "projects.writeFile"@[0]);
    assert("server.getSettings"@[1] != "shell.openInEditor"@[1]);
    assert("server.getSettings"@[1] != "subscribeVcsStatus"@[1]);
    assert("server.getSettings"@[0] != "vcs.createWorktree"@[0]);
    assert("server.getSettings"@[0] != "vcs.removeWorktree"@[0]);
    assert("server.updateSettings"@[0] != "review.getDiffPreview"@[0]);
    assert("server.updateSettings"@[1] != "subscribeServerConfig"@[1]);
    assert("server.getTraceDiagnostics"@[0] != "orchestration.replayEvents"@[0]);
    assert("server.getProcessDiagnostics"@[0] != "orchestration.subscribeShell"@[0]);
    assert("server.signalProcess"@[0] != "projects.listEntries"@[0]);
    assert("server.signalProcess"@[0] != "preview.reportStatus"@[0]);
    assert("projects.searchEntries"@[0] != "subscribePreviewEvents"@[0]);
    assert("projects.listEntries"@[2] != "preview.reportStatus"@[2]);
    assert("projects.readFile"@[0] != "filesystem.browse"@[0]);
    assert("projects.readFile"@[0] != "vcs.refreshStatus"@[0]);
    assert("projects.writeFile"@[0] != "shell.openInEditor"@[0]);
    assert("projects.writeFile"@[0] != "subscribeVcsStatus"@[0]);
    assert("projects.writeFile"@[0] != "vcs.createWorktree"@[0]);
    assert("projects.writeFile"@[0] != "vcs.removeWorktree"@[0]);
    assert("shell.openInEditor"@[1] != "subscribeVcsStatus"@[1]);
    assert("shell.openInEditor"@[0] != "vcs.createWorktree"@[0]);
    assert("shell.openInEditor"@[0] != "vcs.removeWorktree"@[0]);
    assert("filesystem.browse"@[0] != "vcs.refreshStatus"@[0]);
    assert("assets.createUrl"@[0] != "terminal.restart"@[0]);
    assert("assets.createUrl"@[0] != "preview.navigate"@[0]);
    assert("subscribeVcsStatus"@[0] != "vcs.createWorktree"@[0]);
    assert("subscribeVcsStatus"@[0] != "vcs.removeWorktree"@[0]);
    assert("vcs.pull"@[4] != "vcs.init"@[4]);
    assert("vcs.listRefs"@[0] != "preview.open"@[0]);
    assert("vcs.listRefs"@[0] != "preview.list"@[0]);
    assert("vcs.createWorktree"@[4] != "vcs.removeWorktree"@[4]);
    assert("vcs.createRef"@[4] != "vcs.switchRef"@[4]);
    assert("vcs.createRef"@[0] != "terminal.open"@[0]);
    assert("vcs.createRef"@[0] != "preview.close"@[0]);
    assert("vcs.switchRef"@[0] != "terminal.open"@[0]);
    assert("vcs.switchRef"@[0] != "preview.close"@[0]);
    assert("review.getDiffPreview"@[0] != "subscribeServerConfig"@[0]);
    assert("terminal.open"@[0] != "preview.close"@[0]);
    assert("terminal.attach"@[9] != "terminal.resize"@[9]);
    assert("terminal.attach"@[0] != "preview.refresh"@[0]);
    assert("terminal.write"@[9] != "terminal.clear"@[9]);
    assert("terminal.write"@[9] != "terminal.close"@[9]);
    assert("terminal.write"@[0] != "preview.resize"@[0]);
    assert("terminal.resize"@[0] != "preview.refresh"@[0]);
    assert("terminal.clear"@[11] != "terminal.close"@[11]);
    assert("terminal.clear"@[0] != "preview.resize"@[0]);
    assert("terminal.restart"@[0] != "preview.navigate"@[0]);
    assert("terminal.close"@[0] != "preview.resize"@[0]);
    assert("preview.open"@[8] != "preview.list"@[8]);
    assert("previewAutomation.connect"@[18] != "previewAutomation.respond"@[18]);
    assert("previewAutomation.connect"@[0] != "orchestration.getTurnDiff"@[0]);
    assert("previewAutomation.connect"@[0] != "subscribeTerminalMetadata"@[0]);
    assert("previewAutomation.respond"@[0] != "orchestration.getTurnDiff"@[0]);
    assert("previewAutomation.respond"@[0] != "subscribeTerminalMetadata"@[0]);
    assert("subscribeDiscoveredLocalServers"@[0] != "orchestration.getFullThreadDiff"@[0]);
    assert("orchestration.dispatchCommand"@[14] != "orchestration.subscribeThread"@[14]);
    assert("orchestration.getTurnDiff"@[0] != "subscribeTerminalMetadata"@[0]);
    assert("server.upsertKeybinding"@.len() == 23);
    assert("server.removeKeybinding"@.len() == 23);
    assert("server.probe"@.len() == 12);
    assert("server.getConfig"@.len() == 16);
    assert("server.refreshProviders"@.len() == 23);
    assert("server.updateProvider"@.len() == 21);
    assert("server.updateServer"@.len() == 19);
    assert("server.getSettings"@.len() == 18);
    assert("server.updateSettings"@.len() == 21);
    assert("server.getTraceDiagnostics"@.len() == 26);
    assert("server.getProcessDiagnostics"@.len() == 28);
    assert("server.getProcessResourceHistory"@.len() == 32);
    assert("server.signalProcess"@.len() == 20);
    assert("projects.searchEntries"@.len() == 22);
    assert("projects.listEntries"@.len() == 20);
    assert("projects.readFile"@.len() == 17);
    assert("projects.writeFile"@.len() == 18);
    assert("shell.openInEditor"@.len() == 18);
    assert("filesystem.browse"@.len() == 17);
    assert("assets.createUrl"@.len() == 16);
    assert("subscribeVcsStatus"@.len() == 18);
    assert("vcs.pull"@.len() == 8);
    assert("vcs.refreshStatus"@.len() == 17);
    assert("vcs.listRefs"@.len() == 12);
    assert("vcs.createWorktree"@.len() == 18);
    assert("vcs.removeWorktree"@.len() == 18);
    assert("vcs.createRef"@.len() == 13);
    assert("vcs.switchRef"@.len() == 13);
    assert("vcs.init"@.len() == 8);
    assert("review.getDiffPreview"@.len() == 21);
    assert("terminal.open"@.len() == 13);
    assert("terminal.attach"@.len() == 15);
    assert("terminal.write"@.len() == 14);
    assert("terminal.resize"@.len() == 15);
    assert("terminal.clear"@.len() == 14);
    assert("terminal.restart"@.len() == 16);
    assert("terminal.close"@.len() == 14);
    assert("preview.open"@.len() == 12);
    assert("preview.navigate"@.len() == 16);
    assert("preview.resize"@.len() == 14);
    assert("preview.refresh"@.len() == 15);
    assert("preview.close"@.len() == 13);
    assert("preview.list"@.len() == 12);
    assert("preview.reportStatus"@.len() == 20);
    assert("previewAutomation.connect"@.len() == 25);
    assert("previewAutomation.respond"@.len() == 25);
    assert("previewAutomation.focusHost"@.len() == 27);
    assert("subscribePreviewEvents"@.len() == 22);
    assert("subscribeDiscoveredLocalServers"@.len() == 31);
    assert("orchestration.dispatchCommand"@.len() == 29);
    assert("orchestration.getTurnDiff"@.len() == 25);
    assert("orchestration.getFullThreadDiff"@.len() == 31);
    assert("orchestration.replayEvents"@.len() == 26);
    assert("orchestration.getArchivedShellSnapshot"@.len() == 38);
    assert("orchestration.subscribeShell"@.len() == 28);
    assert("orchestration.subscribeThread"@.len() == 29);
    assert("subscribeTerminalEvents"@.len() == 23);
    assert("subscribeTerminalMetadata"@.len() == 25);
    assert("subscribeServerConfig"@.len() == 21);
    assert("subscribeServerLifecycle"@.len() == 24);
    assert("subscribeAuthAccess"@.len() == 19);
}

/// Every method is listed, and under its own name.
pub proof fn every_method_is_listed(x: Method)
    ensures
        Method::every().contains(x),
        Method::every().len() == 61,
{
    let every = Method::every();
    assert(every[0] == Method::ServerUpsertKeybinding);
    assert(every[1] == Method::ServerRemoveKeybinding);
    assert(every[2] == Method::ServerProbe);
    assert(every[3] == Method::ServerGetConfig);
    assert(every[4] == Method::ServerRefreshProviders);
    assert(every[5] == Method::ServerUpdateProvider);
    assert(every[6] == Method::ServerUpdateServer);
    assert(every[7] == Method::ServerGetSettings);
    assert(every[8] == Method::ServerUpdateSettings);
    assert(every[9] == Method::ServerGetTraceDiagnostics);
    assert(every[10] == Method::ServerGetProcessDiagnostics);
    assert(every[11] == Method::ServerGetProcessResourceHistory);
    assert(every[12] == Method::ServerSignalProcess);
    assert(every[13] == Method::ProjectsSearchEntries);
    assert(every[14] == Method::ProjectsListEntries);
    assert(every[15] == Method::ProjectsReadFile);
    assert(every[16] == Method::ProjectsWriteFile);
    assert(every[17] == Method::ShellOpenInEditor);
    assert(every[18] == Method::FilesystemBrowse);
    assert(every[19] == Method::AssetsCreateUrl);
    assert(every[20] == Method::SubscribeVcsStatus);
    assert(every[21] == Method::VcsPull);
    assert(every[22] == Method::VcsRefreshStatus);
    assert(every[23] == Method::VcsListRefs);
    assert(every[24] == Method::VcsCreateWorktree);
    assert(every[25] == Method::VcsRemoveWorktree);
    assert(every[26] == Method::VcsCreateRef);
    assert(every[27] == Method::VcsSwitchRef);
    assert(every[28] == Method::VcsInit);
    assert(every[29] == Method::ReviewGetDiffPreview);
    assert(every[30] == Method::TerminalOpen);
    assert(every[31] == Method::TerminalAttach);
    assert(every[32] == Method::TerminalWrite);
    assert(every[33] == Method::TerminalResize);
    assert(every[34] == Method::TerminalClear);
    assert(every[35] == Method::TerminalRestart);
    assert(every[36] == Method::TerminalClose);
    assert(every[37] == Method::PreviewOpen);
    assert(every[38] == Method::PreviewNavigate);
    assert(every[39] == Method::PreviewResize);
    assert(every[40] == Method::PreviewRefresh);
    assert(every[41] == Method::PreviewClose);
    assert(every[42] == Method::PreviewList);
    assert(every[43] == Method::PreviewReportStatus);
    assert(every[44] == Method::PreviewAutomationConnect);
    assert(every[45] == Method::PreviewAutomationRespond);
    assert(every[46] == Method::PreviewAutomationFocusHost);
    assert(every[47] == Method::SubscribePreviewEvents);
    assert(every[48] == Method::SubscribeDiscoveredLocalServers);
    assert(every[49] == Method::OrchestrationDispatchCommand);
    assert(every[50] == Method::OrchestrationGetTurnDiff);
    assert(every[51] == Method::OrchestrationGetFullThreadDiff);
    assert(every[52] == Method::OrchestrationReplayEvents);
    assert(every[53] == Method::OrchestrationGetArchivedShellSnapshot);
    assert(every[54] == Method::OrchestrationSubscribeShell);
    assert(every[55] == Method::OrchestrationSubscribeThread);
    assert(every[56] == Method::SubscribeTerminalEvents);
    assert(every[57] == Method::SubscribeTerminalMetadata);
    assert(every[58] == Method::SubscribeServerConfig);
    assert(every[59] == Method::SubscribeServerLifecycle);
    assert(every[60] == Method::SubscribeAuthAccess);
}

/// No two methods share a name.
pub proof fn method_names_are_distinct(x: Method, y: Method)
    ensures
        x.word() == y.word() <==> x == y,
{
    method_reads_back(x);
    method_reads_back(y);
}

/// The tag that a refusal carries.
#[derive(Debug, Clone, Copy, PartialEq, Eq, Structural)]
pub enum Tag {
    /// In the union of every method that the contract declares.
    EnvironmentAuthorization,
}

impl Tag {
    /// How it is written.
    pub open spec fn word(self) -> Text {
        match self {
            Tag::EnvironmentAuthorization => "EnvironmentAuthorizationError"@,
        }
    }

    /// How it is written.
    pub fn as_str(self) -> (out: &'static str)
        ensures
            out@ == self.word(),
    {
        match self {
            Tag::EnvironmentAuthorization => "EnvironmentAuthorizationError",
        }
    }
}

/// The tag that a refusal of a method has to carry, where the contract names the
/// method.
pub open spec fn declared(method: Text) -> Option<Tag> {
    match Method::reading(method) {
        Some(_) => Some(Tag::EnvironmentAuthorization),
        None => None,
    }
}

/// The tag that a refusal of a method has to carry, where the contract names the
/// method.
pub fn declared_error_tag(method: &str) -> (out: Option<Tag>)
    ensures
        out == declared(method@),
{
    match Method::named(method) {
        Some(_) => Some(Tag::EnvironmentAuthorization),
        None => None,
    }
}

/// The error that answers a method which is not implemented.
pub open spec fn refused(method: Text) -> Value {
    let message = Value::Text("Method not implemented by this server: "@ + method);
    match declared(method) {
        Some(tag) => Value::Object(
            seq![
                ("_tag"@, Value::Text(tag.word())),
                ("message"@, message),
                ("requiredScope"@, Value::Text("orchestration:read"@)),
            ],
        ),
        None => Value::Object(
            seq![
                ("_tag"@, Value::Text("ServerMethodNotImplementedError"@)),
                ("message"@, message),
                ("method"@, Value::Text(method)),
            ],
        ),
    }
}

/// The error that answers a method which is not implemented.
pub fn refusal(method: &str) -> (out: Json)
    ensures
        out@ == refused(method@),
{
    let message = Json::Text(text::glue("Method not implemented by this server: ", method));
    let fields: Fields = match declared_error_tag(method) {
        Some(tag) => vec![
            json::entry("_tag", Json::text(tag.as_str())),
            json::entry("message", message),
            json::entry("requiredScope", Json::text("orchestration:read")),
        ],
        None => vec![
            json::entry("_tag", Json::text("ServerMethodNotImplementedError")),
            json::entry("message", message),
            json::entry("method", Json::text(method)),
        ],
    };
    proof {
        assert(json::fields_view(fields@) =~= refused(method@)->Object_0);
    }
    Json::object(fields)
}

/// Every method of the contract is refused under a tag that its union has, and no
/// other method is.
pub proof fn a_refusal_is_legible(method: Text)
    ensures
        json::field(refused(method)->Object_0, "_tag"@) == Some(
            Value::Text(
                if exists|x: Method| #[trigger] x.word() == method {
                    "EnvironmentAuthorizationError"@
                } else {
                    "ServerMethodNotImplementedError"@
                },
            ),
        ),
{
    json::first_field(refused(method)->Object_0, "_tag"@, 0);
    if exists|x: Method| #[trigger] x.word() == method {
        let x = choose|x: Method| #[trigger] x.word() == method;
        method_reads_back(x);
    }
    if let Some(x) = Method::reading(method) {
        assert(x.word() == method);
    }
}

/// A method goes by its own name, and no other name is read as one.
pub proof fn a_method_goes_by_its_name(x: Method, word: Text)
    ensures
        x.word() == match x {
            Method::ServerUpsertKeybinding => "server.upsertKeybinding"@,
            Method::ServerRemoveKeybinding => "server.removeKeybinding"@,
            Method::ServerProbe => "server.probe"@,
            Method::ServerGetConfig => "server.getConfig"@,
            Method::ServerRefreshProviders => "server.refreshProviders"@,
            Method::ServerUpdateProvider => "server.updateProvider"@,
            Method::ServerUpdateServer => "server.updateServer"@,
            Method::ServerGetSettings => "server.getSettings"@,
            Method::ServerUpdateSettings => "server.updateSettings"@,
            Method::ServerGetTraceDiagnostics => "server.getTraceDiagnostics"@,
            Method::ServerGetProcessDiagnostics => "server.getProcessDiagnostics"@,
            Method::ServerGetProcessResourceHistory => "server.getProcessResourceHistory"@,
            Method::ServerSignalProcess => "server.signalProcess"@,
            Method::ProjectsSearchEntries => "projects.searchEntries"@,
            Method::ProjectsListEntries => "projects.listEntries"@,
            Method::ProjectsReadFile => "projects.readFile"@,
            Method::ProjectsWriteFile => "projects.writeFile"@,
            Method::ShellOpenInEditor => "shell.openInEditor"@,
            Method::FilesystemBrowse => "filesystem.browse"@,
            Method::AssetsCreateUrl => "assets.createUrl"@,
            Method::SubscribeVcsStatus => "subscribeVcsStatus"@,
            Method::VcsPull => "vcs.pull"@,
            Method::VcsRefreshStatus => "vcs.refreshStatus"@,
            Method::VcsListRefs => "vcs.listRefs"@,
            Method::VcsCreateWorktree => "vcs.createWorktree"@,
            Method::VcsRemoveWorktree => "vcs.removeWorktree"@,
            Method::VcsCreateRef => "vcs.createRef"@,
            Method::VcsSwitchRef => "vcs.switchRef"@,
            Method::VcsInit => "vcs.init"@,
            Method::ReviewGetDiffPreview => "review.getDiffPreview"@,
            Method::TerminalOpen => "terminal.open"@,
            Method::TerminalAttach => "terminal.attach"@,
            Method::TerminalWrite => "terminal.write"@,
            Method::TerminalResize => "terminal.resize"@,
            Method::TerminalClear => "terminal.clear"@,
            Method::TerminalRestart => "terminal.restart"@,
            Method::TerminalClose => "terminal.close"@,
            Method::PreviewOpen => "preview.open"@,
            Method::PreviewNavigate => "preview.navigate"@,
            Method::PreviewResize => "preview.resize"@,
            Method::PreviewRefresh => "preview.refresh"@,
            Method::PreviewClose => "preview.close"@,
            Method::PreviewList => "preview.list"@,
            Method::PreviewReportStatus => "preview.reportStatus"@,
            Method::PreviewAutomationConnect => "previewAutomation.connect"@,
            Method::PreviewAutomationRespond => "previewAutomation.respond"@,
            Method::PreviewAutomationFocusHost => "previewAutomation.focusHost"@,
            Method::SubscribePreviewEvents => "subscribePreviewEvents"@,
            Method::SubscribeDiscoveredLocalServers => "subscribeDiscoveredLocalServers"@,
            Method::OrchestrationDispatchCommand => "orchestration.dispatchCommand"@,
            Method::OrchestrationGetTurnDiff => "orchestration.getTurnDiff"@,
            Method::OrchestrationGetFullThreadDiff => "orchestration.getFullThreadDiff"@,
            Method::OrchestrationReplayEvents => "orchestration.replayEvents"@,
            Method::OrchestrationGetArchivedShellSnapshot => "orchestration.getArchivedShellSnapshot"@,
            Method::OrchestrationSubscribeShell => "orchestration.subscribeShell"@,
            Method::OrchestrationSubscribeThread => "orchestration.subscribeThread"@,
            Method::SubscribeTerminalEvents => "subscribeTerminalEvents"@,
            Method::SubscribeTerminalMetadata => "subscribeTerminalMetadata"@,
            Method::SubscribeServerConfig => "subscribeServerConfig"@,
            Method::SubscribeServerLifecycle => "subscribeServerLifecycle"@,
            Method::SubscribeAuthAccess => "subscribeAuthAccess"@,
        },
        Method::reading(word) matches Some(found) ==> found.word() == word,
        Method::reading(word) is None ==> word != x.word(),
{
    method_reads_back(x);
}

/// A refused method is told by its name; one that is known is refused as something
/// that asks for the right to read, and one that is not as a method that is not here.
pub proof fn a_refused_method_is_told_by_its_name(method: Text, known: Method)
    ensures
        json::holds(refused(method), "message"@, Value::Text("Method not implemented by this server: "@ + method)),
        Method::reading(method) is Some ==> json::holds(
            refused(method),
            "_tag"@,
            Value::Text("EnvironmentAuthorizationError"@),
        ) && json::holds(refused(method), "requiredScope"@, Value::Text("orchestration:read"@)),
        Method::reading(method) is None ==> json::holds(
            refused(method),
            "_tag"@,
            Value::Text("ServerMethodNotImplementedError"@),
        ) && json::holds(refused(method), "method"@, Value::Text(method)),
        refused(method)->Object_0.len() == 3,
        declared(method) is Some <==> Method::reading(method) is Some,
        declared(known.word()) is Some,
{
    method_reads_back(known);
    let fields = refused(method)->Object_0;
    assert(fields[0].0 == "_tag"@ && fields[1].0 == "message"@);
    assert(fields[2].0 == "requiredScope"@ || fields[2].0 == "method"@);
}

} // verus!
