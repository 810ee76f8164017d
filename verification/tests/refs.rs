//! Branches: their names, the listing and what a switch or a creation runs.

use laplus::json::Json;
use laplus::keyed::Keyed;
use laplus::refs::listing::begun;
use laplus::refs::listing::for_each_ref;
use laplus::refs::listing::may_be_cut;
use laplus::refs::listing::named_branch;
use laplus::refs::listing::read_found;
use laplus::refs::listing::remotes;
use laplus::refs::listing::select;
use laplus::refs::listing::worktrees;
use laplus::refs::listing::Asked;
use laplus::refs::listing::Bearings;
use laplus::refs::listing::Begun;
use laplus::refs::listing::Kind;
use laplus::refs::listing::ListRefs;
use laplus::refs::listing::Listing;
use laplus::refs::listing::Ref;
use laplus::refs::listing::MAX_LIMIT;
use laplus::refs::names::check_name;
use laplus::refs::names::LONGEST_NAME;
use laplus::refs::names::LONGEST_PART;
use laplus::refs::CreateRef;
use laplus::refs::Init;
use laplus::refs::Made;
use laplus::refs::SwitchRef;
use laplus::refs::CREATE_REF;
use laplus::refs::INIT;
use laplus::refs::SWITCH_REF;

/// A JSON document, as the library holds one.
fn json(document: &str) -> Json {
    read(&serde_json::from_str(document).expect("a document"))
}

fn read(value: &serde_json::Value) -> Json {
    match value {
        serde_json::Value::Null => Json::Null,
        serde_json::Value::Bool(b) => Json::Bool(*b),
        serde_json::Value::Number(n) => match n.as_u64() {
            Some(n) => Json::Whole(n),
            None => Json::Number(n.to_string()),
        },
        serde_json::Value::String(s) => Json::Text(s.clone()),
        serde_json::Value::Array(items) => Json::Array(items.iter().map(read).collect()),
        serde_json::Value::Object(fields) => {
            let mut fields: Vec<(String, Json)> =
                fields.iter().map(|(name, value)| (name.clone(), read(value))).collect();
            fields.sort_by(|a, b| a.0.cmp(&b.0));
            Json::Object(fields)
        }
    }
}

/// What a value has under a name.
fn at<'a>(value: &'a Json, name: &str) -> Option<&'a Json> {
    value.as_object().and_then(|fields| fields.iter().find(|field| field.0 == name)).map(|field| &field.1)
}

fn text_at<'a>(value: &'a Json, name: &str) -> &'a str {
    at(value, name).and_then(|value| value.as_text()).expect("a text")
}

#[test]
fn ordinary_branch_names_are_accepted() {
    for name in ["main", "feature/branches", "fix-21", "release/2026.07", "user/hoangvu12/spike", "v1.2.3"] {
        assert_eq!(check_name(name).as_deref(), Ok(name), "{name}");
    }

    assert_eq!(check_name("  main  ").as_deref(), Ok("main"));
}

#[test]
fn a_name_git_would_refuse_is_refused_before_git_sees_it() {
    for (name, expected) in [
        ("", "none was given"),
        ("   ", "none was given"),
        ("my branch", "space"),
        ("feature~1", "'~'"),
        ("feature^", "'^'"),
        ("feature:x", "':'"),
        ("what?", "'?'"),
        ("glob*", "'*'"),
        ("range[1]", "'['"),
        ("back\\slash", "'\\'"),
        ("-delete-everything", "start with '-'"),
        ("@", "'@' on its own"),
        ("main@{yesterday}", "'@{'"),
        ("a..b", "'..'"),
        ("/leading", "'/'"),
        ("trailing/", "'/'"),
        ("double//slash", "'/'"),
        ("ends.", "end with '.'"),
        (".hidden", "start with '.'"),
        ("feature/.hidden", "start with '.'"),
        ("feature.lock", "'.lock'"),
        ("feature/x.lock", "'.lock'"),
        ("with\ttab", "control character"),
    ] {
        let why = check_name(name).expect_err(&format!("{name:?} should be refused"));
        assert!(
            why.contains(expected),
            "{name:?} was refused with {why:?}, which does not mention {expected:?}"
        );
    }
}

#[test]
fn only_ascii_control_characters_are_refused() {
    for name in ["a\u{80}b", "a\u{85}b", "a\u{9f}b", "a\u{2028}b"] {
        assert_eq!(check_name(name).as_deref(), Ok(name), "{name:?}");
    }
    for name in ["a\u{0}b", "a\u{1f}b", "a\u{7f}b"] {
        let why = check_name(name).expect_err("a refusal");
        assert!(why.contains("control character"), "{name:?} was refused with {why:?}");
    }
}

#[test]
fn a_name_is_bounded_per_part_and_then_as_a_whole() {
    let part = "b".repeat(LONGEST_PART as usize);
    assert!(check_name(&part).is_ok(), "a part exactly at the limit");
    assert!(check_name(&format!("{part}b"))
        .expect_err("a part past the limit")
        .contains(&LONGEST_PART.to_string()));

    let deep = format!("{part}/{part}/{part}");
    assert!(deep.len() > LONGEST_PART as usize);
    assert!(check_name(&deep).is_ok(), "{} characters", deep.len());

    let absurd = "b/".repeat(LONGEST_NAME as usize);
    assert!(check_name(&absurd)
        .expect_err("past the backstop")
        .contains(&LONGEST_NAME.to_string()));
}

#[test]
fn a_name_is_measured_in_bytes() {
    let part = "é".repeat(127);
    assert!(check_name(&part).is_ok());
    assert!(check_name(&format!("{part}é")).is_err());
}

#[test]
fn checking_a_checked_name_changes_nothing() {
    for name in ["  main  ", "feature/x", " v1 "] {
        let once = check_name(name).expect("a name");
        assert_eq!(check_name(&once), Ok(once.clone()));
    }
}

/// A listing that asks for nothing in particular.
fn nothing() -> Asked<String> {
    Asked { query: None, cursor: None, limit: None, ref_kind: None, include_matching_remote_refs: None }
}

fn call(asked: Asked<String>) -> ListRefs<String> {
    ListRefs::read("/project", &asked).expect("a listing")
}

#[test]
fn a_listing_with_only_a_cwd_has_defaults_for_the_rest() {
    let call = call(nothing());

    assert_eq!(call.cwd, "/project");
    assert_eq!(call.cursor, 0);
    assert_eq!(call.limit, MAX_LIMIT);
    assert_eq!(call.kind, Kind::All);
    assert_eq!(call.query, None);
    assert!(!call.include_matching_remote_refs);
}

#[test]
fn a_limit_outside_the_contracts_range_is_clamped_rather_than_refused() {
    let asked = |limit: u64| call(Asked { limit: Some(limit), ..nothing() }).limit;

    assert_eq!(asked(0), 1);
    assert_eq!(asked(25), 25);
    assert_eq!(asked(10_000), MAX_LIMIT);
}

#[test]
fn a_blank_query_is_no_query_at_all() {
    let blank = call(Asked { query: Some("   ".to_owned()), ..nothing() });
    assert_eq!(blank.query, None);

    let typed = call(Asked { query: Some(" Feat ".to_owned()), ..nothing() });
    assert_eq!(typed.query.as_deref(), Some("feat"));
}

#[test]
fn a_call_without_a_workspace_root_is_refused_before_anything_runs() {
    let error = ListRefs::read("  ", &nothing()).expect_err("a refusal");
    assert_eq!(text_at(&error, "_tag"), "GitCommandError");

    let error = CreateRef::read("  ", "x", None).expect_err("a refusal");
    assert_eq!(text_at(&error, "_tag"), "GitCommandError");

    let error = SwitchRef::read("  ", "x").expect_err("a refusal");
    assert_eq!(text_at(&error, "_tag"), "GitCommandError");

    let error = Init::read("  ", &None).expect_err("a refusal");
    assert_eq!(text_at(&error, "_tag"), "VcsRepositoryDetectionError");
    assert_eq!(text_at(&error, "operation"), INIT);
    assert!(at(&error, "message").is_none(), "{error:?}");
}

#[test]
fn an_invalid_name_is_refused_at_the_boundary() {
    for tag in [CREATE_REF, SWITCH_REF] {
        let error = if tag == CREATE_REF {
            CreateRef::read("/project", "a branch", None).expect_err("a refusal")
        } else {
            SwitchRef::read("/project", "a branch").expect_err("a refusal")
        };
        assert_eq!(text_at(&error, "_tag"), "GitCommandError", "{tag}");
        assert_eq!(text_at(&error, "operation"), tag);
        assert!(text_at(&error, "detail").contains("space"), "{error:?}");
    }
}

#[test]
fn initialising_a_kind_this_server_does_not_drive_is_refused_by_name() {
    let call = Init::read("/project", &Some("jj".to_owned())).expect("a call");
    let error = call.begin().expect_err("a refusal");

    assert_eq!(text_at(&error, "_tag"), "VcsUnsupportedOperationError");
    assert_eq!(text_at(&error, "kind"), "jj");
    assert!(text_at(&error, "detail").contains("jj"));
}

fn local(name: &str) -> Ref<String> {
    Ref { name: name.to_owned(), remote: None, current: false, default: false, worktree_path: None }
}

fn remote(remote: &str, branch: &str) -> Ref<String> {
    Ref { remote: Some(remote.to_owned()), ..local(&format!("{remote}/{branch}")) }
}

fn listing(refs: Vec<Ref<String>>) -> Listing {
    Listing { refs, is_repo: true, has_primary_remote: true }
}

#[test]
fn a_ref_serializes_to_the_contracts_shape() {
    let checked_out = Ref {
        name: "main".to_owned(),
        remote: None,
        current: true,
        default: true,
        worktree_path: Some("C:/project".to_owned()),
    };
    assert_eq!(
        checked_out.to_value(),
        json(
            r#"{
                "name": "main",
                "isRemote": false,
                "current": true,
                "isDefault": true,
                "worktreePath": "C:/project"
            }"#
        )
    );

    assert_eq!(
        remote("origin", "feature").to_value(),
        json(
            r#"{
                "name": "origin/feature",
                "isRemote": true,
                "remoteName": "origin",
                "current": false,
                "isDefault": false,
                "worktreePath": null
            }"#
        )
    );
}

#[test]
fn a_folder_that_is_not_a_repository_lists_nothing() {
    let page = call(nothing()).page(&Listing::none());

    assert_eq!(
        page,
        json(
            r#"{
                "refs": [],
                "isRepo": false,
                "hasPrimaryRemote": false,
                "nextCursor": null,
                "totalCount": 0
            }"#
        )
    );
}

fn names(page: &Json) -> Vec<&str> {
    at(page, "refs")
        .and_then(|refs| refs.as_array())
        .expect("an array of refs")
        .iter()
        .map(|entry| text_at(entry, "name"))
        .collect()
}

#[test]
fn a_listing_longer_than_a_page_says_where_the_next_one_starts() {
    let many = listing((0..5).map(|index| local(&format!("b{index}"))).collect());

    let first = call(Asked { limit: Some(2), ..nothing() }).page(&many);
    assert_eq!(names(&first), ["b0", "b1"]);
    assert_eq!(at(&first, "nextCursor"), Some(&Json::Whole(2)));
    assert_eq!(at(&first, "totalCount"), Some(&Json::Whole(5)));

    let second = call(Asked { limit: Some(2), cursor: Some(2), ..nothing() }).page(&many);
    assert_eq!(names(&second), ["b2", "b3"]);
    assert_eq!(at(&second, "nextCursor"), Some(&Json::Whole(4)));

    let last = call(Asked { limit: Some(2), cursor: Some(4), ..nothing() }).page(&many);
    assert_eq!(names(&last), ["b4"]);
    assert_eq!(at(&last, "nextCursor"), Some(&Json::Null), "there is no sixth branch");

    let past = call(Asked { limit: Some(2), cursor: Some(99), ..nothing() }).page(&many);
    assert_eq!(names(&past), [] as [&str; 0]);
    assert_eq!(at(&past, "nextCursor"), Some(&Json::Null));
}

fn kept(found: &Vec<Ref<String>>, asked: Asked<String>) -> Vec<String> {
    select(found, &call(asked)).iter().map(|entry| entry.name.clone()).collect()
}

#[test]
fn a_remote_ref_with_a_local_branch_of_its_own_name_is_folded_away() {
    let found = vec![local("main"), remote("origin", "main"), remote("origin", "nobody-has-this-locally")];

    assert_eq!(kept(&found, nothing()), ["main", "origin/nobody-has-this-locally"]);

    let all = kept(&found, Asked { include_matching_remote_refs: Some(true), ..nothing() });
    assert_eq!(all.len(), 3);
}

#[test]
fn the_ref_kind_picks_a_side() {
    let found = vec![local("main"), remote("origin", "other")];
    let kind = |kind: &str| Asked { ref_kind: Some(kind.to_owned()), ..nothing() };

    assert_eq!(kept(&found, kind("local")), ["main"]);
    assert_eq!(kept(&found, kind("remote")), ["origin/other"]);
    assert_eq!(kept(&found, kind("all")).len(), 2);
}

#[test]
fn a_query_matches_anywhere_in_the_name_and_ignores_case() {
    let found = vec![local("main"), local("feature/Branches"), local("fix-21")];

    let matching = kept(&found, Asked { query: Some("BRANCH".to_owned()), ..nothing() });
    assert_eq!(matching, ["feature/Branches"]);
}

#[test]
fn the_current_branch_leads_and_the_default_follows_it() {
    let found = vec![
        local("aardvark"),
        Ref { default: true, ..local("main") },
        local("zebra"),
        Ref { current: true, ..local("feature/branches") },
    ];

    assert_eq!(kept(&found, nothing()), ["feature/branches", "main", "aardvark", "zebra"]);
}

fn bearings() -> Bearings {
    Bearings { remotes: Vec::new(), worktrees: Keyed::new(), current: None, default: None }
}

#[test]
fn a_remote_ref_is_split_against_the_remotes_that_exist() {
    let bearings = Bearings { remotes: vec!["origin".to_owned(), "origin/mirror".to_owned()], ..bearings() };

    let plain = bearings.describe("refs/remotes/origin/feature/x").expect("a ref");
    assert_eq!(plain.remote.as_deref(), Some("origin"));
    assert_eq!(plain.name, "origin/feature/x");
    assert_eq!(plain.branch(), "feature/x");

    let nested = bearings.describe("refs/remotes/origin/mirror/main").expect("a ref");
    assert_eq!(nested.remote.as_deref(), Some("origin/mirror"));
    assert_eq!(nested.branch(), "main");
    assert_eq!(
        bearings.split_remote("origin/mirror/main"),
        Some(("origin/mirror".to_owned(), "main".to_owned())),
        "a switch to this name would make a local branch called mirror/main"
    );

    assert!(bearings.describe("refs/remotes/gone/main").is_none());
}

#[test]
fn a_local_ref_carries_what_qualifies_it() {
    let mut trees = Keyed::new();
    trees.insert("refs/heads/feature".to_owned(), "C:/project/../feature".to_owned());
    let bearings = Bearings {
        worktrees: trees,
        current: Some("main".to_owned()),
        default: Some("main".to_owned()),
        ..bearings()
    };

    let current = bearings.describe("refs/heads/main").expect("a ref");
    assert!(current.current);
    assert!(current.default);
    assert_eq!(current.worktree_path, None);

    let elsewhere = bearings.describe("refs/heads/feature").expect("a ref");
    assert!(!elsewhere.current, "a branch in another worktree is not the one we are on");
    assert_eq!(elsewhere.worktree_path.as_deref(), Some("C:/project/../feature"));
}

#[test]
fn the_branch_of_an_unborn_head_is_listed_even_though_no_ref_names_it() {
    let bearings = Bearings { current: Some("main".to_owned()), default: Some("main".to_owned()), ..bearings() };

    let unborn = bearings.unborn(&vec![]).expect("the branch HEAD names");
    assert_eq!(unborn.name, "main");
    assert!(unborn.current);
    assert!(unborn.default);

    assert!(bearings.unborn(&vec![local("main")]).is_none());
}

#[test]
fn what_git_says_is_read() {
    assert_eq!(named_branch("  main\n").as_deref(), Some("main"));
    assert_eq!(named_branch(" \n"), None);
    assert_eq!(remotes("origin\n\n upstream \n"), ["origin", "upstream"]);
    let trees = worktrees(
        "worktree /project\nHEAD abc\nbranch refs/heads/main\n\nworktree /bare\nbare\n\nworktree /other\nbranch refs/heads/x\n",
    );
    assert_eq!(trees.len(), 2);
    assert_eq!(trees.get("refs/heads/main").map(String::as_str), Some("/project"));
    assert_eq!(trees.get("refs/heads/x").map(String::as_str), Some("/other"));

    let bearings = Bearings { remotes: vec!["origin".to_owned()], ..bearings() };
    let found = read_found(&bearings, "refs/heads/main\nrefs/remotes/origin/main\nrefs/tags/v1\n");
    assert_eq!(found.iter().map(|entry| entry.name.as_str()).collect::<Vec<_>>(), ["main", "origin/main"]);

    assert_eq!(begun(true, true), Begun::Listed);
    assert_eq!(begun(false, true), Begun::NoRepository);
    assert_eq!(begun(false, false), Begun::Refused);
    assert_eq!(for_each_ref()[0], "for-each-ref");
    assert!(!may_be_cut("refs/heads/main\n"));
}

#[test]
fn a_branch_is_made_where_there_is_none() {
    let made = CreateRef::read("/project", " feature/x ", Some(false)).expect("a call");
    assert_eq!(made.name, "feature/x");
    assert!(!made.switch);
    assert_eq!(made.refname(), "refs/heads/feature/x");
    assert!(!made.disturbs());
    assert_eq!(made.arguments(false, true), Ok(vec!["branch".to_owned(), "feature/x".to_owned()]));
    assert!(made.arguments(true, true).is_err());
    assert_eq!(made.answer(), json(r#"{"refName": "feature/x"}"#));

    let switched = CreateRef::read("/project", "feature/x", Some(true)).expect("a call");
    assert!(switched.disturbs());
    assert_eq!(
        switched.arguments(false, true).expect("arguments").last().map(String::as_str),
        Some("feature/x")
    );
}

#[test]
fn a_switch_goes_to_the_branch_that_was_listed() {
    let switch = SwitchRef::read("/project", "origin/mirror/main").expect("a call");
    let known = vec!["origin".to_owned(), "origin/mirror".to_owned()];
    assert_eq!(switch.local_refname(), "refs/heads/origin/mirror/main");
    assert_eq!(switch.remote_refname(), "refs/remotes/origin/mirror/main");
    assert_eq!(switch.local_branch(&known), "main");
    assert!(switch.target(false, false, &known, false).is_err());
    assert!(switch.target(true, false, &known, false).is_ok());
    assert!(switch.target(false, true, &known, false).is_ok());
}

#[test]
fn a_repository_that_was_made_is_answered_with_nothing() {
    let call = Init::read("/project", &None).expect("a call");
    assert_eq!(call.begin(), Ok(()));
    assert_eq!(call.answer(&Made::Done), Ok(Json::Null));
}
