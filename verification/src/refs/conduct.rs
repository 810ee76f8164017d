//! What the calls about branches do for whoever makes them, told by what was asked
//! and what git was found to hold.

use crate::json;
use crate::json::Value;
use crate::refs;
use crate::refs::listing;
use crate::refs::listing::{Asked, BearingsModel, Kind, ListRefs, Ref};
use crate::refs::names;
use crate::refs::{CreateRef, Driver, Made, SwitchRef, Text};
use crate::text;
use vstd::prelude::*;

verus! {

// ---------------------------------------------------------------------------
// Refusals
// ---------------------------------------------------------------------------

/// A refusal says which call it is of, about which folder, and why.
pub proof fn a_refusal_says_which_call_it_is_of(operation: Text, cwd: Text, detail: Text)
    ensures
        ({
            let told = refs::git_error(operation, cwd, detail);
            &&& json::holds(told, "_tag"@, Value::Text("GitCommandError"@))
            &&& json::holds(told, "operation"@, Value::Text(operation))
            &&& json::holds(told, "cwd"@, Value::Text(cwd))
            &&& json::holds(told, "detail"@, Value::Text(detail))
            &&& told->Object_0.len() == 4
        }),
        ({
            let told = refs::detection_error(cwd, detail);
            &&& json::holds(told, "_tag"@, Value::Text("VcsRepositoryDetectionError"@))
            &&& json::holds(told, "operation"@, Value::Text("vcs.init"@))
            &&& json::holds(told, "cwd"@, Value::Text(cwd))
            &&& json::holds(told, "detail"@, Value::Text(detail))
            &&& told->Object_0.len() == 4
        }),
{
    let git = refs::git_error(operation, cwd, detail)->Object_0;
    assert(git[0].0 == "_tag"@ && git[1].0 == "cwd"@ && git[2].0 == "detail"@ && git[3].0 == "operation"@);
    let found = refs::detection_error(cwd, detail)->Object_0;
    assert(found[0].0 == "_tag"@ && found[1].0 == "cwd"@ && found[2].0 == "detail"@ && found[3].0 == "operation"@);
}

/// A call names a folder, and a branch whose name keeps the rules; the folder is
/// looked at first, and what is wrong with the name is what is told.
pub proof fn a_call_names_a_folder_and_a_branch(cwd: Text, name: Text, operation: Text)
    ensures
        refs::workspace_in(cwd, operation) matches Ok(folder) ==> folder == text::trimmed(cwd) && folder.len() > 0,
        text::trimmed(cwd).len() == 0 ==> refs::workspace_in(cwd, operation) == Err::<Text, Value>(
            refs::git_error(operation, ""@, "This call needs a workspace root; none was given."@),
        ),
        text::trimmed(cwd).len() > 0 ==> refs::workspace_in(cwd, operation) is Ok,
        refs::workspace_and_name_in(cwd, name, operation) matches Ok((folder, branch)) ==> {
            &&& folder == text::trimmed(cwd)
            &&& folder.len() > 0
            &&& branch == text::trimmed(name)
            &&& names::acceptable(branch)
        },
        refs::workspace_and_name_in(cwd, name, operation) is Ok <==> text::trimmed(cwd).len() > 0 && names::acceptable(
            text::trimmed(name),
        ),
        text::trimmed(cwd).len() > 0 ==> (names::checked(name) matches Err(problem) ==> refs::workspace_and_name_in(
            cwd,
            name,
            operation,
        ) == Err::<(Text, Text), Value>(refs::git_error(operation, text::trimmed(cwd), problem))),
{
    names::a_name_is_accepted_iff_it_keeps_the_rules(name);
}

// ---------------------------------------------------------------------------
// Names
// ---------------------------------------------------------------------------

/// The characters that no name holds, and the two lengths.
pub proof fn what_no_name_holds(c: char)
    ensures
        names::forbidden(c) <==> c == ' ' || c == '~' || c == '^' || c == ':' || c == '?' || c == '*' || c == '[' || c
            == '\\',
        names::control(c) <==> (c as u32) < 0x20 || c as u32 == 0x7f,
        names::LONGEST_PART == 255,
        names::LONGEST_NAME == 1_024,
{
}

proof fn the_first_is_forbidden(s: Text)
    ensures
        names::first_forbidden(s) matches Some(c) ==> names::forbidden(c) && s.contains(c),
    decreases s.len(),
{
    if s.len() > 0 {
        let rest = s.drop_first();
        the_first_is_forbidden(rest);
        assert(s[0] == s[0]);
        if names::first_forbidden(rest) is Some {
            let c = names::first_forbidden(rest)->0;
            if rest.contains(c) {
                let i = choose|i: int| 0 <= i < rest.len() && rest[i] == c;
                assert(s[i + 1] == c);
            }
        }
    }
}

/// What is wrong with a name is told by the rule that it breaks.
pub proof fn a_name_is_refused_by_the_rule_it_breaks(name: Text)
    ensures
        names::name_problem(name) matches Some(problem) ==> {
            ||| problem == "This call needs a branch name; none was given."@ && name.len() == 0
            ||| problem == "A branch name may be at most 1024 characters long."@ && name.len() > 1_024
            ||| problem == "A branch name may not contain a space."@ && name.contains(' ')
            ||| exists|c: char| #[trigger]
                name.contains(c) && names::forbidden(c) && problem == "A branch name may not contain '"@ + seq![c] + "'."@
            ||| problem == "A branch name may not contain a control character."@ && exists|i: int|
                0 <= i < name.len() && names::control(#[trigger] name[i])
            ||| problem == "A branch name may not start with '-'."@ && "-"@.is_prefix_of(name)
            ||| problem == "A branch name may not be '@' on its own."@ && name == "@"@
            ||| problem == "A branch name may not contain '@{'."@ && text::occurs(name, "@{"@)
            ||| problem == "A branch name may not contain '..'."@ && text::occurs(name, ".."@)
            ||| problem == "A branch name may not start or end with '/', or contain an empty part."@ && (
            "/"@.is_prefix_of(name) || "/"@.is_suffix_of(name) || text::occurs(name, "//"@))
            ||| problem == "A branch name may not end with '.'."@ && "."@.is_suffix_of(name)
            ||| exists|k: int| #![trigger text::split(name, "/"@)[k]]
                0 <= k < text::split(name, "/"@).len() && part_breaks(text::split(name, "/"@)[k], problem)
        },
{
    the_first_is_forbidden(name);
    a_part_breaks(text::split(name, "/"@));
}

/// Whether this is what is wrong with a part of a name.
pub open spec fn part_breaks(part: Text, problem: Text) -> bool {
    ||| problem == "No part of a branch name may start with '.'."@ && "."@.is_prefix_of(part)
    ||| problem == "No part of a branch name may end with '.lock'."@ && ".lock"@.is_suffix_of(part)
    ||| problem == "No part of a branch name may be longer than 255 characters."@ && text::bytes(part) > 255
}

proof fn a_part_breaks(parts: Seq<Text>)
    ensures
        names::parts_problem(parts) matches Some(problem) ==> exists|k: int|
            #![trigger parts[k]]
            0 <= k < parts.len() && part_breaks(parts[k], problem),
    decreases parts.len(),
{
    if parts.len() > 0 {
        let rest = parts.drop_first();
        a_part_breaks(rest);
        if names::part_problem(parts[0]) is Some {
            assert(part_breaks(parts[0], names::part_problem(parts[0])->0));
        } else if names::parts_problem(rest) is Some {
            let problem = names::parts_problem(rest)->0;
            let k = choose|k: int| #![trigger rest[k]] 0 <= k < rest.len() && part_breaks(rest[k], problem);
            assert(parts[k + 1] == rest[k]);
        }
    }
}

// ---------------------------------------------------------------------------
// Making and switching
// ---------------------------------------------------------------------------

/// A branch is made under its own name, and switched to where that was asked; one
/// that is there, or that would have nowhere to start, is refused by name.
pub proof fn a_branch_is_made_as_asked(call: CreateRef<Text>, exists: bool, committed: bool)
    ensures
        call.asking(exists, committed) is Ok <==> !exists && (call.switch || committed),
        call.asking(exists, committed) matches Ok(arguments) ==> {
            &&& call.switch ==> arguments == seq!["switch"@, "--create"@, call.name]
            &&& !call.switch ==> arguments == seq!["branch"@, call.name]
        },
        exists ==> call.asking(exists, committed) == Err::<Seq<Text>, Text>(
            "A branch named '"@ + call.name
                + "' already exists in this repository. Switch to it, or choose another name."@,
        ),
        !exists && !committed && !call.switch ==> call.asking(exists, committed) == Err::<Seq<Text>, Text>(
            "This repository has no commits yet, so there is no position to make '"@ + call.name
                + "' at. Commit something first, or switch to the new branch as it is created."@,
        ),
{
}

/// A branch that is here is switched to; one that only a remote has is switched to
/// under its own name here, which is made where it is missing and then follows the
/// remote's; any other is refused by name.
pub proof fn a_switch_goes_where_the_branch_is(
    call: SwitchRef<Text>,
    remote: bool,
    remotes: Seq<Text>,
    branch_exists: bool,
)
    ensures
        call.asking(true, remote, remotes, branch_exists) == Ok::<Seq<Text>, Text>(seq!["switch"@, call.name]),
        call.asking(false, true, remotes, true) == Ok::<Seq<Text>, Text>(seq!["switch"@, call.local_branch(remotes)]),
        call.asking(false, true, remotes, false) == Ok::<Seq<Text>, Text>(
            seq!["switch"@, "--create"@, call.local_branch(remotes), "--track"@, call.name],
        ),
        call.asking(false, false, remotes, branch_exists) == Err::<Seq<Text>, Text>(
            "There is no branch named '"@ + call.name + "' in this repository."@,
        ),
        listing::remote_of(remotes, call.name) is None ==> call.local_branch(remotes) == call.name,
        listing::remote_of(remotes, call.name) matches Some(owner) ==> owner + "/"@ + call.local_branch(remotes)
            == call.name,
{
    listing::the_remote_is_the_longest(remotes, call.name);
    if let Some(owner) = listing::remote_of(remotes, call.name) {
        reveal_strlit("/");
        let head = owner + "/"@;
        assert(call.name.subrange(0, head.len() as int) =~= head);
        assert(owner + "/"@ + call.name.skip(owner.len() as int + 1) =~= call.name);
    }
}

/// What a made or a current branch is answered by is its name.
pub proof fn a_branch_is_answered_by_its_name(name: Option<Text>)
    ensures
        name matches Some(name) ==> json::holds(refs::named_ref(Some(name)), "refName"@, Value::Text(name)),
        name is None ==> json::holds(refs::named_ref(name), "refName"@, Value::Null),
{
    let fields = refs::named_ref(name)->Object_0;
    assert(fields[0].0 == "refName"@);
}

/// A repository is made by git. Another system is refused as unsupported, whatever
/// became of it; and what went wrong is told as what it was: a place, a process that
/// did not start, or one that failed.
pub proof fn a_repository_is_made_by_git(cwd: Text, driver: Driver, made: Made<Text>, kind: Text)
    ensures
        refs::init_answer(cwd, driver, made) is Ok <==> driver != Driver::Jj && made is Done,
        driver != Driver::Jj && made is Done ==> refs::init_answer(cwd, driver, made) == Ok::<Value, Value>(Value::Null),
        refs::init_answer(cwd, Driver::Jj, made) matches Err(told) && json::holds(
            told,
            "_tag"@,
            Value::Text("VcsUnsupportedOperationError"@),
        ) && json::holds(told, "kind"@, Value::Text("jj"@)) && json::holds(told, "operation"@, Value::Text("vcs.init"@)),
        driver != Driver::Jj ==> match made {
            Made::Rejected(why) => refs::init_answer(cwd, driver, made) == Err::<Value, Value>(
                refs::detection_error(cwd, why),
            ),
            Made::NotStarted(cause) => refs::init_answer(cwd, driver, made) matches Err(told) && {
                &&& json::holds(told, "_tag"@, Value::Text("VcsProcessSpawnError"@))
                &&& json::holds(told, "cause"@, Value::Text(cause))
                &&& json::holds(told, "command"@, Value::Text("git"@))
                &&& json::holds(told, "cwd"@, Value::Text(cwd))
                &&& json::holds(told, "operation"@, Value::Text("vcs.init"@))
            },
            Made::Failed { exit_code, detail, stderr_length } => refs::init_answer(cwd, driver, made) matches Err(told) && {
                &&& json::holds(told, "_tag"@, Value::Text("VcsProcessExitError"@))
                &&& json::holds(told, "command"@, Value::Text("git"@))
                &&& json::holds(told, "cwd"@, Value::Text(cwd))
                &&& json::holds(told, "detail"@, Value::Text(detail))
                &&& exit_code matches Some(code) ==> json::holds(told, "exitCode"@, refs::signed(code))
                &&& exit_code is None ==> json::holds(told, "exitCode"@, refs::signed(-1i32 as i32))
                &&& json::holds(told, "failureKind"@, Value::Text("command-failed"@))
                &&& json::holds(told, "operation"@, Value::Text("vcs.init"@))
                &&& json::holds(told, "stderrLength"@, Value::Whole(stderr_length))
            },
            Made::Done => true,
        },
        refs::driver_named(None) == Driver::Git,
        refs::driver_named(Some(kind)) == Driver::Jj <==> kind == "jj"@,
        refs::driver_named(Some(kind)) == Driver::Unknown <==> kind == "unknown"@,
{
    reveal_strlit("jj");
    reveal_strlit("unknown");
    assert("jj"@.len() != "unknown"@.len());
    let jj = refs::unsupported_error()->Object_0;
    assert(jj[0].0 == "_tag"@ && jj[2].0 == "kind"@ && jj[3].0 == "operation"@);
    if driver != Driver::Jj {
        if let Err(told) = refs::init_answer(cwd, driver, made) {
            let fields = told->Object_0;
            if made is NotStarted {
                assert(fields[0].0 == "_tag"@ && fields[1].0 == "cause"@ && fields[2].0 == "command"@);
                assert(fields[3].0 == "cwd"@ && fields[4].0 == "operation"@);
            }
            if made is Failed {
                assert(fields[0].0 == "_tag"@ && fields[1].0 == "command"@ && fields[2].0 == "cwd"@);
                assert(fields[3].0 == "detail"@ && fields[4].0 == "exitCode"@ && fields[5].0 == "failureKind"@);
                assert(fields[6].0 == "operation"@ && fields[7].0 == "stderrLength"@);
            }
        }
    }
}

/// A number is written with its sign.
pub proof fn a_number_keeps_its_sign(n: i32)
    ensures
        n >= 0 ==> (refs::signed(n) matches Value::Whole(m) && m == n),
        n < 0 ==> (refs::signed(n) matches Value::Number(shown) && shown == "-"@ + text::decimal((-(n as int)) as nat)),
{
}

// ---------------------------------------------------------------------------
// Listing
// ---------------------------------------------------------------------------

/// A listing is of what was asked: from the cursor on, at most as many as a page
/// holds, of the kind that was named, and with what was typed in lower case.
pub proof fn a_listing_is_of_what_was_asked(cwd: Text, asked: Asked<Text>, typed: Text)
    ensures
        ({
            let call = listing::listing_call(cwd, asked, listing::lowered(asked.query));
            &&& call.cwd == cwd
            &&& asked.cursor is None ==> call.cursor == 0
            &&& asked.cursor matches Some(cursor) ==> call.cursor == cursor
            &&& 1 <= call.limit <= 200
            &&& asked.limit is None ==> call.limit == 200
            &&& asked.limit matches Some(limit) ==> (1 <= limit <= 200 ==> call.limit == limit) && (limit > 200
                ==> call.limit == 200) && (limit == 0 ==> call.limit == 1)
            &&& call.kind == Kind::Local <==> asked.ref_kind == Some("local"@)
            &&& call.kind == Kind::Remote <==> asked.ref_kind == Some("remote"@)
            &&& call.include_matching_remote_refs <==> asked.include_matching_remote_refs == Some(true)
            &&& asked.query is None ==> call.query is None
            &&& asked.query == Some(typed) ==> if text::lowercased(text::trimmed(typed)).len() > 0 {
                call.query == Some(text::lowercased(text::trimmed(typed)))
            } else {
                call.query is None
            }
        }),
{
    reveal_strlit("local");
    reveal_strlit("remote");
    assert("local"@.len() != "remote"@.len());
}

/// What git names is described as what it is: a branch of this repository under its
/// own name, a branch of a remote under the remote's and its own, and nothing else.
/// It is the current one only where it is here, and the default one by its own name.
pub proof fn a_ref_is_described_as_what_it_is(bearings: BearingsModel, name: Text)
    ensures
        bearings.describe("refs/heads/"@ + name) matches Some(found) && {
            &&& found.name == name
            &&& found.remote is None
            &&& found.branch() == name
            &&& found.current <==> bearings.current == Some(name)
            &&& found.default <==> bearings.default == Some(name)
            &&& found.worktree_path == listing::held(bearings.worktrees, "refs/heads/"@ + name)
        },
        bearings.describe("refs/remotes/"@ + name) matches Some(found) ==> {
            &&& found.name == name
            &&& found.remote is Some && bearings.remotes.contains(found.remote->0)
            &&& found.remote->0 + "/"@ + found.branch() == name
            &&& !found.current
            &&& found.default <==> bearings.default == Some(found.branch())
            &&& found.worktree_path == listing::held(bearings.worktrees, "refs/remotes/"@ + name)
        },
        bearings.describe("refs/remotes/"@ + name) is None <==> listing::remote_of(bearings.remotes, name) is None,
        !"refs/heads/"@.is_prefix_of(name) && !"refs/remotes/"@.is_prefix_of(name) ==> bearings.describe(name) is None,
{
    reveal_strlit("refs/heads/");
    reveal_strlit("refs/remotes/");
    reveal_strlit("/");
    let here = "refs/heads/"@ + name;
    let there = "refs/remotes/"@ + name;
    assert(here.subrange(0, 11) =~= "refs/heads/"@);
    assert(here.skip(11) =~= name);
    assert(there.subrange(0, 13) =~= "refs/remotes/"@);
    assert(there.skip(13) =~= name);
    assert("refs/heads/"@[5] == 'h' && there[5] == 'r');
    assert(!"refs/heads/"@.is_prefix_of(there)) by {
        if "refs/heads/"@.is_prefix_of(there) {
            assert(there.subrange(0, 11)[5] == 'r');
        }
    }
    listing::the_remote_is_the_longest(bearings.remotes, name);
    if let Some(owner) = listing::remote_of(bearings.remotes, name) {
        let head = owner + "/"@;
        assert(name.subrange(0, head.len() as int) =~= head);
        assert(owner + "/"@ + name.skip(owner.len() as int + 1) =~= name);
    }
}

/// What is held of a worktree is what the table says.
pub proof fn a_worktree_is_the_one_listed(table: Map<Text, Text>, key: Text)
    ensures
        table.dom().contains(key) ==> listing::held(table, key) == Some(table[key]),
        !table.dom().contains(key) ==> listing::held(table, key) is None,
{
}

/// A branch that has no commit yet is listed all the same, and first, where it is
/// the one that is checked out.
pub proof fn an_unborn_branch_is_listed_first(bearings: BearingsModel, said: Text)
    ensures
        ({
            let lines = text::lines(said);
            let listed = listing::found_in(bearings, lines, lines.len());
            let all = listing::found(bearings, said);
            &&& bearings.current matches Some(branch) ==> if listing::has_local(listed, branch) {
                all == listed
            } else {
                &&& all == seq![all[0]] + listed
                &&& all[0].name == branch && all[0].current && all[0].remote is None
                &&& all[0].default <==> bearings.default == Some(branch)
                &&& all[0].worktree_path == listing::held(bearings.worktrees, "refs/heads/"@ + branch)
            }
            &&& bearings.current is None ==> all == listed
        }),
{
}

/// A line of git's listing is a name and, behind the first tab, what it points at.
pub proof fn a_line_is_a_name_and_a_target(name: Text, target: Text)
    requires
        !name.contains('\t'),
    ensures
        listing::fields_of(name + seq!['\t'] + target) == (name, target),
        listing::fields_of(name) == (name, Seq::<char>::empty()),
{
    let line = name + seq!['\t'] + target;
    let tab = seq!['\t'];
    let at = name.len() as int;
    assert(line[at] == '\t');
    text::next_place_is_first(line, tab, 0);
    text::single_stands(line, '\t', at);
    let i = text::next_place(line, tab, 0)->0;
    text::single_stands(line, '\t', i);
    if i < at {
        assert(line[i] == name[i]);
        assert(name.contains('\t'));
    }
    assert(line.take(at) =~= name);
    assert(line.skip(at + 1) =~= target);
    text::next_place_is_first(name, tab, 0);
    if let Some(k) = text::next_place(name, tab, 0) {
        text::single_stands(name, '\t', k);
        assert(name.contains('\t'));
    }
}

/// Each line of git's listing is one ref, unless it points at another: the next line
/// adds what it describes, behind what was there.
pub proof fn each_line_is_one_ref(bearings: BearingsModel, lines: Seq<Text>, n: nat, name: Text, target: Text)
    requires
        n < lines.len(),
        listing::fields_of(lines[n as int]) == (name, target),
    ensures
        target.len() > 0 ==> listing::found_in(bearings, lines, n + 1) == listing::found_in(bearings, lines, n),
        target.len() == 0 ==> (bearings.describe(name) matches Some(found) ==> listing::found_in(bearings, lines, n + 1)
            == listing::found_in(bearings, lines, n).push(found)),
        target.len() == 0 && bearings.describe(name) is None ==> listing::found_in(bearings, lines, n + 1)
            == listing::found_in(bearings, lines, n),
        listing::found_in(bearings, lines, 0).len() == 0,
{
}

/// The remotes are the lines that say something, without the space around them.
pub proof fn a_remote_is_a_line_that_says_something(lines: Seq<Text>, n: nat)
    requires
        n < lines.len(),
    ensures
        listing::remotes_in(lines, 0).len() == 0,
        text::trimmed(lines[n as int]).len() > 0 ==> listing::remotes_in(lines, n + 1) == listing::remotes_in(lines, n).push(
            text::trimmed(lines[n as int]),
        ),
        text::trimmed(lines[n as int]).len() == 0 ==> listing::remotes_in(lines, n + 1) == listing::remotes_in(lines, n),
{
}

/// A branch belongs to the worktree that was named last before it.
pub proof fn a_branch_belongs_to_the_worktree_above_it(lines: Seq<Text>, n: nat, path: Text, branch: Text)
    requires
        n < lines.len(),
    ensures
        ({
            let (found, at) = listing::worktrees_in(lines, n);
            let (next, now) = listing::worktrees_in(lines, n + 1);
            &&& lines[n as int] == "worktree "@ + path ==> next == found && now == Some(text::trimmed(path))
            &&& lines[n as int] == "branch "@ + branch ==> now == at && (at matches Some(folder) ==> next == found.insert(
                text::trimmed(branch),
                folder,
            )) && (at is None ==> next == found)
            &&& !"worktree "@.is_prefix_of(lines[n as int]) && !"branch "@.is_prefix_of(lines[n as int]) ==> next == found
                && now == at
            &&& listing::worktrees_in(lines, 0).0 == Map::<Text, Text>::empty() && listing::worktrees_in(lines, 0).1 is None
        }),
{
    reveal_strlit("worktree ");
    reveal_strlit("branch ");
    let line = lines[n as int];
    if line == "worktree "@ + path {
        assert(line.subrange(0, 9) =~= "worktree "@);
        assert(line.skip(9) =~= path);
    }
    if line == "branch "@ + branch {
        assert(line.subrange(0, 7) =~= "branch "@);
        assert(line.skip(7) =~= branch);
        assert(line[0] == 'b' && "worktree "@[0] == 'w');
        if "worktree "@.is_prefix_of(line) {
            assert(line.subrange(0, 9)[0] == 'b');
        }
    }
}

/// A branch is named where git says something.
pub proof fn a_branch_is_named_where_git_says_so(said: Text)
    ensures
        listing::branch_named(said) is Some <==> text::trimmed(said).len() > 0,
        listing::branch_named(said) matches Some(name) ==> name == text::trimmed(said),
{
}

proof fn filtered<T>(s: Seq<T>, p: spec_fn(T) -> bool, x: T)
    ensures
        s.filter(p).contains(x) <==> s.contains(x) && p(x),
    decreases s.len(),
{
    reveal(Seq::filter);
    if s.len() > 0 {
        let rest = s.drop_last();
        filtered(rest, p, x);
        let kept = rest.filter(p);
        let last = s.last();
        if rest.contains(x) {
            let i = choose|i: int| 0 <= i < rest.len() && rest[i] == x;
            assert(s[i] == x);
        }
        if s.contains(x) && x != last {
            let i = choose|i: int| 0 <= i < s.len() && s[i] == x;
            assert(rest[i] == x);
        }
        if x == last {
            assert(s[s.len() - 1] == x);
        }
        if p(last) {
            let all = kept.push(last);
            if kept.contains(x) {
                let i = choose|i: int| 0 <= i < kept.len() && kept[i] == x;
                assert(all[i] == x);
            }
            if x == last {
                assert(all.last() == x);
            }
            if all.contains(x) && x != last {
                let i = choose|i: int| 0 <= i < all.len() && all[i] == x;
                assert(kept[i] == x);
            }
        }
    }
}

/// What a listing selects: what was found, of the kind that was asked for, whose
/// name holds what was typed; and of a branch that is both here and at a remote the
/// one that is here, unless both were asked for.
pub proof fn a_listing_selects_what_was_asked_for(call: ListRefs<Text>, found: Seq<Ref<Text>>, entry: Ref<Text>)
    ensures
        listing::kept(call, found).contains(entry) <==> {
            &&& found.contains(entry)
            &&& call.kind is Local ==> entry.remote is None
            &&& call.kind is Remote ==> entry.remote is Some
            &&& call.query matches Some(query) ==> text::occurs(text::lowercased(entry.name), query)
            &&& call.kind is All && !call.include_matching_remote_refs && entry.remote is Some ==> forall|i: int|
                0 <= i < found.len() && (#[trigger] found[i]).remote is None ==> found[i].name != entry.branch()
        },
{
    filtered(found, |one: Ref<Text>| listing::keeps(call, found, one), entry);
}

/// The current branch comes first, the default next, and the rest behind them.
pub proof fn the_current_branch_comes_first(call: ListRefs<Text>, found: Seq<Ref<Text>>, i: int, j: int)
    requires
        0 <= i < j < listing::selected(call, found).len(),
    ensures
        ({
            let listed = listing::selected(call, found);
            &&& listed[j].current ==> listed[i].current
            &&& listed[j].default && !listed[j].current ==> listed[i].current || listed[i].default
        }),
{
    let refs = listing::kept(call, found);
    let first = listing::of_rank(refs, 0);
    let second = listing::of_rank(refs, 1);
    let third = listing::of_rank(refs, 2);
    let listed = listing::selected(call, found);
    assert forall|k: int| 0 <= k < listed.len() implies (#[trigger] listed[k]).rank() == if k < first.len() {
        0int
    } else if k < first.len() + second.len() {
        1
    } else {
        2
    } by {
        if k < first.len() {
            assert(listed[k] == first[k]);
            assert(first.contains(first[k]));
            filtered(refs, |entry: Ref<Text>| entry.rank() == 0, first[k]);
        } else if k < first.len() + second.len() {
            let at = k - first.len();
            assert(listed[k] == second[at]);
            assert(second.contains(second[at]));
            filtered(refs, |entry: Ref<Text>| entry.rank() == 1, second[at]);
        } else {
            let at = k - first.len() - second.len();
            assert(listed[k] == third[at]);
            assert(third.contains(third[at]));
            filtered(refs, |entry: Ref<Text>| entry.rank() == 2, third[at]);
        }
    }
    assert(listed[i].rank() <= listed[j].rank());
}

/// A page shows the refs from the cursor on, how many there are in all, and where
/// the next page begins, where there is one.
pub proof fn a_page_shows_where_the_next_begins(
    refs: Seq<Ref<Text>>,
    is_repo: bool,
    has_primary_remote: bool,
    cursor: u64,
    limit: u64,
    k: int,
)
    requires
        refs.len() <= u64::MAX,
    ensures
        ({
            let shown = listing::page_value(refs, is_repo, has_primary_remote, cursor, limit);
            let page = listing::page_refs(refs, cursor, limit);
            &&& json::holds(shown, "isRepo"@, Value::Bool(is_repo))
            &&& json::holds(shown, "hasPrimaryRemote"@, Value::Bool(has_primary_remote))
            &&& json::holds(shown, "totalCount"@, Value::Whole(refs.len() as u64))
            &&& shown->Object_0[3].0 == "refs"@ && shown->Object_0[3].1 is Array && shown->Object_0[3].1->Array_0.len()
                == page.len()
            &&& 0 <= k < page.len() ==> shown->Object_0[3].1->Array_0[k] == page[k].value() && page[k] == refs[cursor + k]
            &&& cursor + limit < refs.len() ==> page.len() == limit && json::holds(
                shown,
                "nextCursor"@,
                Value::Whole((cursor + limit) as u64),
            )
            &&& cursor + limit >= refs.len() ==> json::holds(shown, "nextCursor"@, Value::Null)
            &&& cursor <= refs.len() && cursor + limit >= refs.len() ==> page.len() == refs.len() - cursor
        }),
{
    let fields = listing::page_value(refs, is_repo, has_primary_remote, cursor, limit)->Object_0;
    assert(fields[0].0 == "hasPrimaryRemote"@ && fields[1].0 == "isRepo"@ && fields[2].0 == "nextCursor"@);
    assert(fields[3].0 == "refs"@ && fields[4].0 == "totalCount"@);
}

/// A ref is shown by its name and what is known of it, and by its remote where it
/// has one.
pub proof fn a_ref_is_shown_as_it_is(entry: Ref<Text>)
    ensures
        ({
            let shown = entry.value();
            &&& json::holds(shown, "name"@, Value::Text(entry.name))
            &&& json::holds(shown, "current"@, Value::Bool(entry.current))
            &&& json::holds(shown, "isDefault"@, Value::Bool(entry.default))
            &&& json::holds(shown, "isRemote"@, Value::Bool(entry.remote is Some))
            &&& entry.remote matches Some(remote) ==> json::holds(shown, "remoteName"@, Value::Text(remote))
            &&& entry.worktree_path matches Some(path) ==> json::holds(shown, "worktreePath"@, Value::Text(path))
            &&& entry.worktree_path is None ==> json::holds(shown, "worktreePath"@, Value::Null)
            &&& shown->Object_0.len() == (if entry.remote is Some { 6int } else { 5 })
        }),
{
    let fields = entry.value()->Object_0;
    assert(fields[0].0 == "current"@ && fields[1].0 == "isDefault"@ && fields[2].0 == "isRemote"@);
    assert(fields[3].0 == "name"@);
    if entry.remote is Some {
        assert(fields[4].0 == "remoteName"@ && fields[5].0 == "worktreePath"@);
    } else {
        assert(fields[4].0 == "worktreePath"@);
    }
}

} // verus!
