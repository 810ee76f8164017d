//! The preview of what changed.

use laplus::json::Json;
use laplus::review::hashed_source;
use laplus::review::to_hex;
use laplus::review::Action;
use laplus::review::DiffPreview;
use laplus::review::Event;
use laplus::review::Failure;
use laplus::review::Inside;
use laplus::review::Patch;
use laplus::review::Patches;
use laplus::review::Preview;
use laplus::review::Previewing;
use laplus::review::GET_DIFF_PREVIEW;

/// What a value has under a name.
fn at<'a>(value: &'a Json, name: &str) -> Option<&'a Json> {
    value.as_object().and_then(|fields| fields.iter().find(|field| field.0 == name)).map(|field| &field.1)
}

fn text_at<'a>(value: &'a Json, name: &str) -> &'a str {
    at(value, name).and_then(|value| value.as_text()).expect("a text")
}

fn call(cwd: &str, base: Option<&str>) -> DiffPreview<String> {
    DiffPreview { cwd: cwd.to_owned(), base_ref: base.map(str::to_owned), ignore_whitespace: Some(true) }
}

fn patch(diff: &str) -> Patch<String> {
    Patch { diff: diff.to_owned(), truncated: false }
}

#[test]
fn a_preview_is_read_from_its_payload() {
    let read = DiffPreview::read(&call(" /project ", Some(" main "))).expect("a call");
    assert_eq!(read, call("/project", Some("main")));
    for (cwd, base) in [("  ", None), ("/project", Some("  ")), ("/project", Some("--output=/etc/passwd"))] {
        let refused = DiffPreview::read(&call(cwd, base)).expect_err("a refusal");
        assert_eq!(text_at(&refused, "_tag"), "GitCommandError");
        assert_eq!(text_at(&refused, "operation"), GET_DIFF_PREVIEW);
    }
}

#[test]
fn a_patch_is_named_by_its_hash() {
    assert_eq!(to_hex(&vec![0x00, 0x0f, 0xa5, 0xff]), "000fa5ff");
    let source = hashed_source("branch", "Against main", &Some("main".to_owned()), &None, &patch("+a"), "00ff");
    assert_eq!(text_at(&source, "id"), "branch");
    assert_eq!(text_at(&source, "diffHash"), "00ff");
    assert_eq!(at(&source, "headRef"), Some(&Json::Null));

    let preview = Preview {
        cwd: "/project".to_owned(),
        patches: Some(Patches {
            working: patch("abc"),
            branch: patch(""),
            base: Some("main".to_owned()),
            branch_name: Some("feature".to_owned()),
        }),
    };
    let value = preview.to_value("2026-07-01T00:00:00Z");
    assert_eq!(text_at(&value, "cwd"), "/project");
    assert_eq!(text_at(&value, "generatedAt"), "2026-07-01T00:00:00Z");
    let sources = at(&value, "sources").and_then(|sources| sources.as_array()).expect("sources");
    assert_eq!(sources.len(), 2);
    assert_eq!(
        text_at(&sources[0], "diffHash"),
        "ba7816bf8f01cfea414140de5dae2223b00361a396177a9cb410ff61f20015ad"
    );
    assert_eq!(
        text_at(&sources[1], "diffHash"),
        "e3b0c44298fc1c149afbf4c8996fb92427ae41e4649b934ca495991b7852b855"
    );
    assert_eq!(text_at(&sources[1], "title"), "Against main");
}

/// Answers what a preview asks until it is over.
fn run(base: Option<&str>, answer: impl Fn(&Action<String, String>) -> Event<String, String>) -> (
    Vec<String>,
    Result<Preview<String>, Failure<String, String>>,
) {
    let (mut previewing, mut action) = Previewing::begin(call("/project", base));
    let mut asked = Vec::new();
    loop {
        asked.push(format!("{action:?}"));
        let event = match action {
            Action::Done(end) => return (asked, end),
            ref other => answer(other),
        };
        action = previewing.step(event);
    }
}

fn usual(action: &Action<String, String>) -> Event<String, String> {
    match action {
        Action::CheckFolder(folder) => Event::Folder(Ok(folder.clone())),
        Action::AskInside => Event::Inside(Inside::Said("true".to_owned())),
        Action::DiffWorkingTree { .. } => Event::Patched(Ok(patch("working"))),
        Action::AskBranch => Event::Named(Some("feature".to_owned())),
        Action::AskPresent(_) => Event::Present(true),
        Action::AskRemote => Event::Named(Some("origin".to_owned())),
        Action::AskDefault(_) => Event::Named(Some("main".to_owned())),
        Action::Resolve(_) => Event::Said(Ok("abc123\n".to_owned())),
        Action::AskMergeBase(_) => Event::Said(Ok("def456\n".to_owned())),
        Action::DiffFrom { .. } => Event::Patched(Ok(patch("branch"))),
        Action::Done(_) => panic!("already over"),
    }
}

#[test]
fn a_repository_is_compared_with_its_base() {
    let (asked, end) = run(Some("main"), usual);
    let preview = end.expect("a preview");
    let patches = preview.patches.expect("patches");
    assert_eq!(patches.working, patch("working"));
    assert_eq!(patches.branch, patch("branch"));
    assert_eq!(patches.base.as_deref(), Some("main"));
    assert_eq!(patches.branch_name.as_deref(), Some("feature"));
    assert!(asked.iter().any(|step| step.contains("Resolve(\"main")), "{asked:?}");
    assert!(asked.iter().any(|step| step.starts_with("DiffFrom") && step.contains("def456")), "{asked:?}");
}

#[test]
fn outside_a_repository_there_is_nothing_to_compare() {
    let (_, end) = run(None, |action| match action {
        Action::AskInside => Event::Inside(Inside::NotARepository),
        other => usual(other),
    });
    assert_eq!(end, Ok(Preview { cwd: "/project".to_owned(), patches: None }));

    let (_, end) = run(None, |action| match action {
        Action::CheckFolder(_) => Event::Folder(Err("no such folder".to_owned())),
        other => usual(other),
    });
    assert_eq!(end, Err(Failure::Folder("no such folder".to_owned())));

    let (_, end) = run(None, |action| match action {
        Action::DiffWorkingTree { .. } => Event::Patched(Err("timed out".to_owned())),
        other => usual(other),
    });
    assert_eq!(end, Err(Failure::Git("timed out".to_owned())));
}

#[test]
fn the_base_is_the_default_branch_of_the_remote_where_it_is_there() {
    let (_, end) = run(None, usual);
    let patches = end.expect("a preview").patches.expect("patches");
    assert_eq!(patches.base.as_deref(), Some("origin/main"));

    let (_, end) = run(None, |action| match action {
        Action::AskPresent(name) => Event::Present(name != "origin/main"),
        other => usual(other),
    });
    let patches = end.expect("a preview").patches.expect("patches");
    assert_eq!(patches.base.as_deref(), Some("main"));
    assert_eq!(patches.branch, patch("branch"));

    let (_, end) = run(None, |action| match action {
        Action::AskPresent(name) => Event::Present(name == "HEAD"),
        other => usual(other),
    });
    let patches = end.expect("a preview").patches.expect("patches");
    assert_eq!(patches.base, None);
    assert_eq!(patches.branch, patch(""));
}

#[test]
fn a_repository_without_a_commit_is_compared_with_nothing() {
    let (asked, end) = run(Some("main"), |action| match action {
        Action::AskPresent(_) => Event::Present(false),
        other => usual(other),
    });
    let preview = end.expect("a preview");
    let value = preview.to_value("now");
    let sources = at(&value, "sources").and_then(|sources| sources.as_array()).expect("sources");
    assert_eq!(text_at(&sources[1], "title"), "Against main");
    assert_eq!(text_at(&sources[1], "baseRef"), "main");
    assert!(!asked.iter().any(|step| step.starts_with("Resolve") || step.starts_with("DiffFrom")), "{asked:?}");
}

#[test]
fn a_base_that_does_not_resolve_is_gits_refusal() {
    let (asked, end) = run(Some("nowhere"), |action| match action {
        Action::Resolve(_) => Event::Said(Err("unknown revision".to_owned())),
        other => usual(other),
    });
    assert_eq!(end, Err(Failure::Git("unknown revision".to_owned())));
    assert!(asked.iter().any(|step| step.contains("nowhere^{commit}")), "{asked:?}");
}
