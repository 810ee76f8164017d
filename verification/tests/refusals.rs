//! The methods of the contract, and what one that is not implemented is answered.

use laplus::json::Json;
use laplus::refusals::declared_error_tag;
use laplus::refusals::refusal;
use laplus::refusals::Method;
use std::collections::BTreeSet;

/// What a value has under a name.
fn at<'a>(value: &'a Json, name: &str) -> Option<&'a Json> {
    value.as_object().and_then(|fields| fields.iter().find(|field| field.0 == name)).map(|field| &field.1)
}

fn text_at<'a>(value: &'a Json, name: &str) -> &'a str {
    at(value, name).and_then(|value| value.as_text()).expect("a text")
}

/// The methods that the contract declares, each with a tag of its union.
const CONTRACT: [(&str, &str); 61] = [
    ("server.upsertKeybinding", "EnvironmentAuthorizationError"),
    ("server.removeKeybinding", "EnvironmentAuthorizationError"),
    ("server.probe", "EnvironmentAuthorizationError"),
    ("server.getConfig", "EnvironmentAuthorizationError"),
    ("server.refreshProviders", "EnvironmentAuthorizationError"),
    ("server.updateProvider", "EnvironmentAuthorizationError"),
    ("server.updateServer", "EnvironmentAuthorizationError"),
    ("server.getSettings", "EnvironmentAuthorizationError"),
    ("server.updateSettings", "EnvironmentAuthorizationError"),
    ("server.getTraceDiagnostics", "EnvironmentAuthorizationError"),
    ("server.getProcessDiagnostics", "EnvironmentAuthorizationError"),
    ("server.getProcessResourceHistory", "EnvironmentAuthorizationError"),
    ("server.signalProcess", "EnvironmentAuthorizationError"),
    ("projects.searchEntries", "EnvironmentAuthorizationError"),
    ("projects.listEntries", "EnvironmentAuthorizationError"),
    ("projects.readFile", "EnvironmentAuthorizationError"),
    ("projects.writeFile", "EnvironmentAuthorizationError"),
    ("shell.openInEditor", "EnvironmentAuthorizationError"),
    ("filesystem.browse", "EnvironmentAuthorizationError"),
    ("assets.createUrl", "EnvironmentAuthorizationError"),
    ("subscribeVcsStatus", "EnvironmentAuthorizationError"),
    ("vcs.pull", "EnvironmentAuthorizationError"),
    ("vcs.refreshStatus", "EnvironmentAuthorizationError"),
    ("vcs.listRefs", "EnvironmentAuthorizationError"),
    ("vcs.createWorktree", "EnvironmentAuthorizationError"),
    ("vcs.removeWorktree", "EnvironmentAuthorizationError"),
    ("vcs.createRef", "EnvironmentAuthorizationError"),
    ("vcs.switchRef", "EnvironmentAuthorizationError"),
    ("vcs.init", "EnvironmentAuthorizationError"),
    ("review.getDiffPreview", "EnvironmentAuthorizationError"),
    ("terminal.open", "EnvironmentAuthorizationError"),
    ("terminal.attach", "EnvironmentAuthorizationError"),
    ("terminal.write", "EnvironmentAuthorizationError"),
    ("terminal.resize", "EnvironmentAuthorizationError"),
    ("terminal.clear", "EnvironmentAuthorizationError"),
    ("terminal.restart", "EnvironmentAuthorizationError"),
    ("terminal.close", "EnvironmentAuthorizationError"),
    ("preview.open", "EnvironmentAuthorizationError"),
    ("preview.navigate", "EnvironmentAuthorizationError"),
    ("preview.resize", "EnvironmentAuthorizationError"),
    ("preview.refresh", "EnvironmentAuthorizationError"),
    ("preview.close", "EnvironmentAuthorizationError"),
    ("preview.list", "EnvironmentAuthorizationError"),
    ("preview.reportStatus", "EnvironmentAuthorizationError"),
    ("previewAutomation.connect", "EnvironmentAuthorizationError"),
    ("previewAutomation.respond", "EnvironmentAuthorizationError"),
    ("previewAutomation.focusHost", "EnvironmentAuthorizationError"),
    ("subscribePreviewEvents", "EnvironmentAuthorizationError"),
    ("subscribeDiscoveredLocalServers", "EnvironmentAuthorizationError"),
    ("orchestration.dispatchCommand", "EnvironmentAuthorizationError"),
    ("orchestration.getTurnDiff", "EnvironmentAuthorizationError"),
    ("orchestration.getFullThreadDiff", "EnvironmentAuthorizationError"),
    ("orchestration.replayEvents", "EnvironmentAuthorizationError"),
    ("orchestration.getArchivedShellSnapshot", "EnvironmentAuthorizationError"),
    ("orchestration.subscribeShell", "EnvironmentAuthorizationError"),
    ("orchestration.subscribeThread", "EnvironmentAuthorizationError"),
    ("subscribeTerminalEvents", "EnvironmentAuthorizationError"),
    ("subscribeTerminalMetadata", "EnvironmentAuthorizationError"),
    ("subscribeServerConfig", "EnvironmentAuthorizationError"),
    ("subscribeServerLifecycle", "EnvironmentAuthorizationError"),
    ("subscribeAuthAccess", "EnvironmentAuthorizationError"),
];

#[test]
fn the_table_is_the_contract() {
    let all = Method::all();
    let ours: BTreeSet<&str> = all.iter().map(|method| method.as_str()).collect();
    assert_eq!(ours.len(), all.len(), "a method is listed twice");

    let theirs: BTreeSet<&str> = CONTRACT.iter().map(|(method, _)| *method).collect();
    assert_eq!(ours, theirs, "the table and the contract name different methods");

    for (method, tag) in CONTRACT {
        assert_eq!(declared_error_tag(method).map(|tag| tag.as_str()), Some(tag), "{method}");
    }
}

#[test]
fn every_refusal_carries_a_tag_the_methods_union_declares() {
    for (method, tag) in CONTRACT {
        let error = refusal(method);
        assert_eq!(text_at(&error, "_tag"), tag, "{method}");
        assert!(
            text_at(&error, "message").contains(method),
            "{method}: a refusal that does not say what was refused: {error:?}"
        );
    }
}

#[test]
fn the_pages_that_showed_a_decoder_error_are_answered() {
    for method in [
        "server.getProcessDiagnostics",
        "server.getProcessResourceHistory",
        "server.getTraceDiagnostics",
    ] {
        let error = refusal(method);
        assert_eq!(text_at(&error, "_tag"), "EnvironmentAuthorizationError", "{method}");
        assert_eq!(text_at(&error, "requiredScope"), "orchestration:read", "{method}");
        assert_eq!(
            text_at(&error, "message"),
            format!("Method not implemented by this server: {method}"),
            "{method}"
        );
    }
}

#[test]
fn a_tag_the_contract_does_not_name_is_still_not_implemented() {
    let error = refusal("no.such.method");
    assert_eq!(text_at(&error, "_tag"), "ServerMethodNotImplementedError");
    assert_eq!(text_at(&error, "method"), "no.such.method");
    assert_eq!(text_at(&error, "message"), "Method not implemented by this server: no.such.method");
    assert_eq!(declared_error_tag("no.such.method"), None);
}

#[test]
fn a_method_is_read_back_from_its_name() {
    for method in Method::all() {
        assert_eq!(Method::named(method.as_str()), Some(method));
    }
    assert_eq!(Method::named("server.getconfig"), None);
}
