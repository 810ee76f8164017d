//! Listing refs: what git said is read, and cut down to what was asked for.

use crate::json;
use crate::json::{Fields, Json, Value};
use crate::keyed;
use crate::keyed::Keyed;
use crate::text;
use vstd::prelude::*;

verus! {

/// Text as the contracts see it.
pub type Text = Seq<char>;

/// The most refs that one listing considers.
pub const MAX_REFS: usize = 10_000;

/// The most refs that one page carries, and how many it carries where nothing is
/// said.
pub const MAX_LIMIT: u64 = 200;

// ---------------------------------------------------------------------------
// One ref
// ---------------------------------------------------------------------------

/// One branch, as a picker reads it.
#[derive(Debug, PartialEq, Eq)]
pub struct Ref<S> {
    /// The short name: `main`, or `origin/main` for a remote one.
    pub name: S,
    /// The remote that it belongs to, where it is a remote ref.
    pub remote: Option<S>,
    /// Checked out here. A branch that is checked out elsewhere has a worktree
    /// path instead.
    pub current: bool,
    /// The repository's default branch, or the remote ref that tracks it.
    pub default: bool,
    /// Where it is checked out, where it is anywhere.
    pub worktree_path: Option<S>,
}

impl View for Ref<String> {
    type V = Ref<Text>;

    open spec fn view(&self) -> Ref<Text> {
        Ref {
            name: self.name@,
            remote: text::maybe(self.remote),
            current: self.current,
            default: self.default,
            worktree_path: text::maybe(self.worktree_path),
        }
    }
}

/// The views of a list of refs.
pub open spec fn refs_view(refs: Seq<Ref<String>>) -> Seq<Ref<Text>> {
    Seq::new(refs.len(), |i: int| refs[i]@)
}

impl Ref<Text> {
    /// A remote ref is named by its remote, a slash and its branch.
    pub open spec fn wf(self) -> bool {
        self.remote matches Some(remote) ==> (remote + "/"@).is_prefix_of(self.name)
    }

    /// The branch that this is a ref of.
    pub open spec fn branch(self) -> Text {
        match self.remote {
            Some(remote) => self.name.skip(remote.len() as int + 1),
            None => self.name,
        }
    }

    /// The ref as a client reads it. A local ref has no remote's name in it.
    pub open spec fn value(self) -> Value {
        let worktree_path = match self.worktree_path {
            Some(path) => Value::Text(path),
            None => Value::Null,
        };
        match self.remote {
            Some(remote) => Value::Object(
                seq![
                    ("current"@, Value::Bool(self.current)),
                    ("isDefault"@, Value::Bool(self.default)),
                    ("isRemote"@, Value::Bool(true)),
                    ("name"@, Value::Text(self.name)),
                    ("remoteName"@, Value::Text(remote)),
                    ("worktreePath"@, worktree_path),
                ],
            ),
            None => Value::Object(
                seq![
                    ("current"@, Value::Bool(self.current)),
                    ("isDefault"@, Value::Bool(self.default)),
                    ("isRemote"@, Value::Bool(false)),
                    ("name"@, Value::Text(self.name)),
                    ("worktreePath"@, worktree_path),
                ],
            ),
        }
    }

    /// Where a picker puts it: the branch that is checked out first, the default
    /// one second, the others behind them.
    pub open spec fn rank(self) -> int {
        if self.current {
            0
        } else if self.default {
            1
        } else {
            2
        }
    }
}

impl Ref<String> {
    /// The same ref again.
    pub fn copy(&self) -> (out: Ref<String>)
        ensures
            out@ == self@,
    {
        Ref {
            name: self.name.clone(),
            remote: text::copy_maybe(&self.remote),
            current: self.current,
            default: self.default,
            worktree_path: text::copy_maybe(&self.worktree_path),
        }
    }

    /// The branch that this is a ref of: `origin/main` is a ref of `main`.
    pub fn branch(&self) -> (out: String)
        requires
            self@.wf(),
        ensures
            out@ == self@.branch(),
    {
        match &self.remote {
            Some(remote) => {
                let chars = text::characters(&self.name);
                let length: usize = chars.len();
                let from: usize = text::characters(remote).len();
                proof {
                    reveal_strlit("/");
                    assert((remote@ + "/"@).len() == from + 1);
                    assert(from + 1 <= chars@.len());
                    assert(self.name@.subrange(from + 1, chars@.len() as int) =~= self.name@.skip(from + 1));
                }
                text::slice(&chars, from + 1, length)
            },
            None => self.name.clone(),
        }
    }

    /// The ref as a client reads it.
    pub fn to_value(&self) -> (out: Json)
        ensures
            out@ == self@.value(),
    {
        let worktree_path = match &self.worktree_path {
            Some(path) => Json::text(path),
            None => Json::Null,
        };
        let fields: Fields = match &self.remote {
            Some(remote) => vec![
                json::entry("current", Json::Bool(self.current)),
                json::entry("isDefault", Json::Bool(self.default)),
                json::entry("isRemote", Json::Bool(true)),
                json::entry("name", Json::text(&self.name)),
                json::entry("remoteName", Json::text(remote)),
                json::entry("worktreePath", worktree_path),
            ],
            None => vec![
                json::entry("current", Json::Bool(self.current)),
                json::entry("isDefault", Json::Bool(self.default)),
                json::entry("isRemote", Json::Bool(false)),
                json::entry("name", Json::text(&self.name)),
                json::entry("worktreePath", worktree_path),
            ],
        };
        proof {
            assert(json::fields_view(fields@) =~= self@.value()->Object_0);
        }
        Json::object(fields)
    }
}

// ---------------------------------------------------------------------------
// The call
// ---------------------------------------------------------------------------

/// Which refs a listing is about.
#[derive(Debug, Clone, Copy, PartialEq, Eq, Structural)]
pub enum Kind {
    All,
    Local,
    Remote,
}

/// A listing that was asked for.
#[derive(Debug, PartialEq, Eq)]
pub struct ListRefs<S> {
    pub cwd: S,
    /// What the developer typed into the picker, in lower case.
    pub query: Option<S>,
    pub cursor: u64,
    pub limit: u64,
    pub kind: Kind,
    /// Whether a remote ref is listed where a local branch has its name.
    pub include_matching_remote_refs: bool,
}

impl View for ListRefs<String> {
    type V = ListRefs<Text>;

    open spec fn view(&self) -> ListRefs<Text> {
        ListRefs {
            cwd: self.cwd@,
            query: text::maybe(self.query),
            cursor: self.cursor,
            limit: self.limit,
            kind: self.kind,
            include_matching_remote_refs: self.include_matching_remote_refs,
        }
    }
}

/// What a listing's payload says, beside where.
#[derive(Debug, PartialEq, Eq)]
pub struct Asked<S> {
    pub query: Option<S>,
    pub cursor: Option<u64>,
    pub limit: Option<u64>,
    pub ref_kind: Option<S>,
    pub include_matching_remote_refs: Option<bool>,
}

impl View for Asked<String> {
    type V = Asked<Text>;

    open spec fn view(&self) -> Asked<Text> {
        Asked {
            query: text::maybe(self.query),
            cursor: self.cursor,
            limit: self.limit,
            ref_kind: text::maybe(self.ref_kind),
            include_matching_remote_refs: self.include_matching_remote_refs,
        }
    }
}

/// How many refs a page carries: what was asked for, between one and the most.
pub open spec fn page_limit(limit: Option<u64>) -> u64 {
    match limit {
        Some(n) => if n < 1 {
            1
        } else if n > MAX_LIMIT {
            MAX_LIMIT
        } else {
            n
        },
        None => MAX_LIMIT,
    }
}

/// Which refs a word asks for.
pub open spec fn kind_of(word: Option<Text>) -> Kind {
    if word == Some("local"@) {
        Kind::Local
    } else if word == Some("remote"@) {
        Kind::Remote
    } else {
        Kind::All
    }
}

/// A query, unless nothing is left of it.
pub open spec fn query_of(lowered: Option<Text>) -> Option<Text> {
    match lowered {
        Some(query) if query.len() > 0 => Some(query),
        _ => None,
    }
}

/// The lower-case form of what was typed.
pub open spec fn lowered(query: Option<Text>) -> Option<Text> {
    match query {
        Some(query) => Some(text::lowercased(text::trimmed(query))),
        None => None,
    }
}

/// The listing that a payload asks for, where its query is `query` in lower case.
pub open spec fn listing_call(cwd: Text, asked: Asked<Text>, query: Option<Text>) -> ListRefs<Text> {
    ListRefs {
        cwd,
        query: query_of(query),
        cursor: match asked.cursor {
            Some(cursor) => cursor,
            None => 0,
        },
        limit: page_limit(asked.limit),
        kind: kind_of(asked.ref_kind),
        include_matching_remote_refs: asked.include_matching_remote_refs == Some(true),
    }
}

/// The listing that a payload asks for, where its query is `query` in lower case.
pub fn with_query(cwd: String, asked: &Asked<String>, query: Option<String>) -> (out: ListRefs<String>)
    ensures
        out@ == listing_call(cwd@, asked@, text::maybe(query)),
{
    let query: Option<String> = match query {
        Some(query) => if query.as_str().is_empty() {
            None
        } else {
            Some(query)
        },
        None => None,
    };
    let limit: u64 = match asked.limit {
        Some(n) => if n < 1 {
            1
        } else if n > MAX_LIMIT {
            MAX_LIMIT
        } else {
            n
        },
        None => MAX_LIMIT,
    };
    let kind = match &asked.ref_kind {
        Some(word) => if text::same(word, "local") {
            Kind::Local
        } else if text::same(word, "remote") {
            Kind::Remote
        } else {
            Kind::All
        },
        None => Kind::All,
    };
    ListRefs {
        cwd,
        query,
        cursor: match asked.cursor {
            Some(cursor) => cursor,
            None => 0,
        },
        limit,
        kind,
        include_matching_remote_refs: match asked.include_matching_remote_refs {
            Some(included) => included,
            None => false,
        },
    }
}

/// The listing that a payload asks for.
pub fn call(cwd: String, asked: &Asked<String>) -> (out: ListRefs<String>)
    ensures
        out@ == listing_call(cwd@, asked@, lowered(asked@.query)),
{
    let query: Option<String> = match &asked.query {
        Some(query) => Some(text::to_lowercase(&text::trim(query))),
        None => None,
    };
    with_query(cwd, asked, query)
}

// ---------------------------------------------------------------------------
// Reading git's output
// ---------------------------------------------------------------------------

/// What a repository knows about itself while its refs are read.
#[derive(Debug)]
pub struct Bearings {
    /// Every remote.
    pub remotes: Vec<String>,
    /// Where a branch is checked out, by full ref name.
    pub worktrees: Keyed<String>,
    pub current: Option<String>,
    pub default: Option<String>,
}

/// The model of what a repository knows about itself.
pub struct BearingsModel {
    pub remotes: Seq<Text>,
    pub worktrees: Map<Text, Text>,
    pub current: Option<Text>,
    pub default: Option<Text>,
}

/// The texts in a table, by key.
pub open spec fn texts_of(entries: Seq<(Text, String)>) -> Map<Text, Text> {
    Map::new(|key: Text| keyed::has(entries, key), |key: Text| keyed::find(entries, key)->Some_0@)
}

/// What a table of texts holds under a key.
pub open spec fn held(table: Map<Text, Text>, key: Text) -> Option<Text> {
    if table.dom().contains(key) {
        Some(table[key])
    } else {
        None
    }
}

impl View for Bearings {
    type V = BearingsModel;

    open spec fn view(&self) -> BearingsModel {
        BearingsModel {
            remotes: text::views(self.remotes@),
            worktrees: texts_of(self.worktrees@),
            current: text::maybe(self.current),
            default: text::maybe(self.default),
        }
    }
}

/// The longest of the remotes that the name begins with, followed by a slash.
pub open spec fn remote_of(remotes: Seq<Text>, name: Text) -> Option<Text>
    decreases remotes.len(),
{
    if remotes.len() == 0 {
        None
    } else {
        let earlier = remote_of(remotes.drop_last(), name);
        let remote = remotes.last();
        if (remote + "/"@).is_prefix_of(name) && (earlier matches Some(found) ==> found.len() <= remote.len()) {
            Some(remote)
        } else {
            earlier
        }
    }
}

impl BearingsModel {
    /// The remote and the branch that a remote ref's short name is made of.
    pub open spec fn split_remote(self, name: Text) -> Option<(Text, Text)> {
        match remote_of(self.remotes, name) {
            Some(remote) => Some((remote, name.skip(remote.len() as int + 1))),
            None => None,
        }
    }

    /// The ref of a full name, where it is a branch.
    pub open spec fn describe(self, refname: Text) -> Option<Ref<Text>> {
        let worktree_path = held(self.worktrees, refname);
        if "refs/heads/"@.is_prefix_of(refname) {
            let name = refname.skip("refs/heads/"@.len() as int);
            Some(
                Ref {
                    name,
                    remote: None,
                    current: self.current == Some(name),
                    default: self.default == Some(name),
                    worktree_path,
                },
            )
        } else if "refs/remotes/"@.is_prefix_of(refname) {
            let name = refname.skip("refs/remotes/"@.len() as int);
            match self.split_remote(name) {
                Some((remote, branch)) => Some(
                    Ref {
                        name,
                        remote: Some(remote),
                        current: false,
                        default: self.default == Some(branch),
                        worktree_path,
                    },
                ),
                None => None,
            }
        } else {
            None
        }
    }

    /// The branch that `HEAD` names and no ref does, where there is one.
    pub open spec fn unborn(self, found: Seq<Ref<Text>>) -> Option<Ref<Text>> {
        match self.current {
            Some(branch) if !has_local(found, branch) => Some(
                Ref {
                    name: branch,
                    remote: None,
                    current: true,
                    default: self.default == Some(branch),
                    worktree_path: held(self.worktrees, "refs/heads/"@ + branch),
                },
            ),
            _ => None,
        }
    }
}

/// Whether a local branch has this name.
pub open spec fn has_local(found: Seq<Ref<Text>>, name: Text) -> bool {
    exists|i: int| 0 <= i < found.len() && (#[trigger] found[i]).remote is None && found[i].name == name
}

/// Whether a local branch has this name.
fn is_local(found: &Vec<Ref<String>>, name: &str) -> (out: bool)
    ensures
        out == has_local(refs_view(found@), name@),
{
    let ghost seen = refs_view(found@);
    let mut i: usize = 0;
    while i < found.len()
        invariant
            i <= found@.len(),
            seen == refs_view(found@),
            forall|j: int| 0 <= j < i ==> !((#[trigger] seen[j]).remote is None && seen[j].name == name@),
        decreases found@.len() - i,
    {
        assert(seen[i as int] == found@[i as int]@);
        if found[i].remote.is_none() && text::same(&found[i].name, name) {
            return true;
        }
        i += 1;
    }
    false
}

impl Bearings {
    /// The worktrees are a table.
    pub open spec fn wf(&self) -> bool {
        self.worktrees.wf()
    }

    /// Where a branch is checked out.
    fn worktree_of(&self, refname: &str) -> (out: Option<String>)
        requires
            self.wf(),
        ensures
            text::maybe(out) == held(self@.worktrees, refname@),
    {
        match self.worktrees.get(refname) {
            Some(path) => Some(path.clone()),
            None => None,
        }
    }

    /// Whether this is the default branch.
    fn is_default(&self, name: &str) -> (out: bool)
        ensures
            out == (self@.default == Some(name@)),
    {
        match &self.default {
            Some(default) => text::same(default, name),
            None => false,
        }
    }

    /// The remote and the branch that a remote ref's short name is made of.
    ///
    /// Not everything before the first slash: a remote may be called
    /// `origin/mirror` and a branch `feature/x`, so the longest remote that the
    /// name begins with wins.
    pub fn split_remote(&self, name: &str) -> (out: Option<(String, String)>)
        ensures
            match out {
                Some((remote, branch)) => self@.split_remote(name@) == Some((remote@, branch@)),
                None => self@.split_remote(name@) is None,
            },
    {
        split_at_remote(&self.remotes, name)
    }

    /// The ref of a full name, where it is a branch.
    pub fn describe(&self, refname: &str) -> (out: Option<Ref<String>>)
        requires
            self.wf(),
        ensures
            match out {
                Some(found) => self@.describe(refname@) == Some(found@) && found@.wf(),
                None => self@.describe(refname@) is None,
            },
    {
        let worktree_path = self.worktree_of(refname);
        if let Some(name) = text::strip_prefix(refname, "refs/heads/") {
            let current: bool = match &self.current {
                Some(current) => text::same(current, &name),
                None => false,
            };
            let default: bool = self.is_default(&name);
            return Some(Ref { name, remote: None, current, default, worktree_path });
        }
        let name = match text::strip_prefix(refname, "refs/remotes/") {
            Some(name) => name,
            None => {
                return None;
            },
        };
        match self.split_remote(&name) {
            Some((remote, branch)) => {
                proof {
                    the_remote_is_the_longest(self@.remotes, name@);
                }
                let default: bool = self.is_default(&branch);
                Some(Ref { name, remote: Some(remote), current: false, default, worktree_path })
            },
            None => None,
        }
    }

    /// The branch that `HEAD` names and no ref does, where there is one: that of a
    /// repository without a commit.
    pub fn unborn(&self, found: &Vec<Ref<String>>) -> (out: Option<Ref<String>>)
        requires
            self.wf(),
        ensures
            match out {
                Some(unborn) => self@.unborn(refs_view(found@)) == Some(unborn@) && unborn@.wf(),
                None => self@.unborn(refs_view(found@)) is None,
            },
    {
        match &self.current {
            None => None,
            Some(branch) => {
                if is_local(found, branch) {
                    return None;
                }
                Some(
                    Ref {
                        name: branch.clone(),
                        remote: None,
                        current: true,
                        default: self.is_default(branch),
                        worktree_path: self.worktree_of(&text::glue("refs/heads/", branch)),
                    },
                )
            },
        }
    }
}

/// The remote and the branch that a remote ref's short name is made of.
pub fn split_at_remote(remotes: &Vec<String>, name: &str) -> (out: Option<(String, String)>)
    ensures
        match out {
            Some((remote, branch)) => remote_of(text::views(remotes@), name@) == Some(remote@) && branch@
                == name@.skip(remote@.len() as int + 1),
            None => remote_of(text::views(remotes@), name@) is None,
        },
{
    let ghost all = text::views(remotes@);
    let mut best: Option<usize> = None;
    let mut i: usize = 0;
    proof {
        assert(all.take(0) =~= Seq::<Text>::empty());
    }
    while i < remotes.len()
        invariant
            i <= remotes@.len(),
            all == text::views(remotes@),
            match best {
                Some(k) => k < i && remote_of(all.take(i as int), name@) == Some(all[k as int]),
                None => remote_of(all.take(i as int), name@) is None,
            },
        decreases remotes@.len() - i,
    {
        proof {
            assert(all.take(i + 1).drop_last() =~= all.take(i as int));
            assert(all.take(i + 1).last() == remotes@[i as int]@);
        }
        if text::starts_with(name, &text::glue(&remotes[i], "/")) {
            let longer: bool = match best {
                Some(k) => text::characters(&remotes[k]).len() <= text::characters(&remotes[i]).len(),
                None => true,
            };
            if longer {
                best = Some(i);
            }
        }
        i += 1;
    }
    proof {
        assert(all.take(i as int) =~= all);
    }
    match best {
        Some(k) => {
            let chars = text::characters(name);
            let length: usize = chars.len();
            let from: usize = text::characters(&remotes[k]).len();
            proof {
                the_remote_is_the_longest(all, name@);
                reveal_strlit("/");
                assert((remotes@[k as int]@ + "/"@).len() == from + 1);
                assert(from + 1 <= chars@.len());
                assert(name@.subrange(from + 1, chars@.len() as int) =~= name@.skip(from + 1));
            }
            Some((remotes[k].clone(), text::slice(&chars, from + 1, length)))
        },
        None => None,
    }
}

/// The longest remote wins: what a name is split at is a remote of the repository
/// that the name begins with, and none that it begins with is longer. A name that
/// begins with no remote is split at none.
pub proof fn the_remote_is_the_longest(remotes: Seq<Text>, name: Text)
    ensures
        match remote_of(remotes, name) {
            Some(remote) => {
                &&& remotes.contains(remote)
                &&& (remote + "/"@).is_prefix_of(name)
                &&& forall|k: int|
                    0 <= k < remotes.len() && (#[trigger] remotes[k] + "/"@).is_prefix_of(name) ==> remotes[k].len()
                        <= remote.len()
            },
            None => forall|k: int|
                0 <= k < remotes.len() ==> !(#[trigger] remotes[k] + "/"@).is_prefix_of(name),
        },
    decreases remotes.len(),
{
    if remotes.len() > 0 {
        let rest = remotes.drop_last();
        the_remote_is_the_longest(rest, name);
        assert forall|k: int| 0 <= k < remotes.len() - 1 implies rest[k] == #[trigger] remotes[k] by {}
        if let Some(remote) = remote_of(remotes, name) {
            if remote_of(rest, name) == Some(remote) && rest.contains(remote) {
                let k = choose|k: int| 0 <= k < rest.len() && rest[k] == remote;
                assert(remotes[k] == remote);
            }
            if remotes.last() == remote {
                assert(remotes[remotes.len() - 1] == remote);
            }
        }
    }
}

/// The branch that `git symbolic-ref` named, or none on a detached `HEAD`.
pub open spec fn branch_named(said: Text) -> Option<Text> {
    if text::trimmed(said).len() > 0 {
        Some(text::trimmed(said))
    } else {
        None
    }
}

/// The branch that `git symbolic-ref` named, or none on a detached `HEAD`.
pub fn named_branch(said: &str) -> (out: Option<String>)
    ensures
        text::maybe(out) == branch_named(said@),
{
    let named = text::trim(said);
    if named.as_str().is_empty() {
        None
    } else {
        Some(named)
    }
}

/// The remotes among the first `n` lines that `git remote` said.
pub open spec fn remotes_in(lines: Seq<Text>, n: nat) -> Seq<Text>
    decreases n,
{
    if n == 0 {
        Seq::empty()
    } else {
        let earlier = remotes_in(lines, (n - 1) as nat);
        let name = text::trimmed(lines[n - 1]);
        if name.len() > 0 {
            earlier.push(name)
        } else {
            earlier
        }
    }
}

/// The remotes that `git remote` said.
pub fn remotes(said: &str) -> (out: Vec<String>)
    ensures
        text::views(out@) == remotes_in(text::lines(said@), text::lines(said@).len()),
{
    let lines = text::lines_of(said);
    let ghost all = text::views(lines@);
    let mut out: Vec<String> = Vec::new();
    let mut i: usize = 0;
    proof {
        assert(text::views(out@) =~= Seq::<Text>::empty());
    }
    while i < lines.len()
        invariant
            i <= lines@.len(),
            all == text::views(lines@),
            text::views(out@) == remotes_in(all, i as nat),
        decreases lines@.len() - i,
    {
        let ghost before = text::views(out@);
        let name = text::trim(&lines[i]);
        if !name.as_str().is_empty() {
            out.push(name);
            proof {
                assert(text::views(out@) =~= before.push(name@));
            }
        }
        i += 1;
    }
    out
}

/// Which branches the first `n` lines of `git worktree list --porcelain` say are
/// checked out where, and the path that was said last.
pub open spec fn worktrees_in(lines: Seq<Text>, n: nat) -> (Map<Text, Text>, Option<Text>)
    decreases n,
{
    if n == 0 {
        (Map::empty(), None)
    } else {
        let (found, at) = worktrees_in(lines, (n - 1) as nat);
        let line = lines[n - 1];
        if "worktree "@.is_prefix_of(line) {
            (found, Some(text::trimmed(line.skip("worktree "@.len() as int))))
        } else if "branch "@.is_prefix_of(line) {
            match at {
                Some(path) => (found.insert(text::trimmed(line.skip("branch "@.len() as int)), path), at),
                None => (found, at),
            }
        } else {
            (found, at)
        }
    }
}

/// Which branch is checked out where, as `git worktree list --porcelain` says.
pub fn worktrees(said: &str) -> (out: Keyed<String>)
    ensures
        out.wf(),
        texts_of(out@) == worktrees_in(text::lines(said@), text::lines(said@).len()).0,
{
    let lines = text::lines_of(said);
    let ghost all = text::views(lines@);
    let mut out: Keyed<String> = Keyed::new();
    let mut at: Option<String> = None;
    let mut i: usize = 0;
    proof {
        assert(texts_of(out@) =~= Map::<Text, Text>::empty());
    }
    while i < lines.len()
        invariant
            i <= lines@.len(),
            out.wf(),
            all == text::views(lines@),
            (texts_of(out@), text::maybe(at)) == worktrees_in(all, i as nat),
        decreases lines@.len() - i,
    {
        assert(all[i as int] == lines@[i as int]@);
        if let Some(path) = text::strip_prefix(&lines[i], "worktree ") {
            at = Some(text::trim(&path));
        } else if let Some(refname) = text::strip_prefix(&lines[i], "branch ") {
            if let Some(path) = &at {
                let ghost before = out@;
                let key = text::trim(&refname);
                let ghost name = key@;
                let value = path.clone();
                out.insert(key, value);
                proof {
                    inserting_a_text(before, out@, name, value);
                }
            }
        }
        i += 1;
    }
    out
}

/// Putting a text into the table puts it into the model.
proof fn inserting_a_text(before: Seq<(Text, String)>, after: Seq<(Text, String)>, key: Text, value: String)
    requires
        keyed::find(after, key) == Some(value),
        forall|other: Text| other != key ==> #[trigger] keyed::find(after, other) == keyed::find(before, other),
    ensures
        texts_of(after) == texts_of(before).insert(key, value@),
{
    let a = texts_of(after);
    let b = texts_of(before).insert(key, value@);
    assert forall|other: Text| #[trigger] a.dom().contains(other) == b.dom().contains(other) by {
        if other != key {
            assert(keyed::find(after, other) == keyed::find(before, other));
        }
    }
    assert(a.dom() =~= b.dom());
    assert forall|other: Text| a.dom().contains(other) implies #[trigger] a[other] == b[other] by {
        if other != key {
            assert(keyed::find(after, other) == keyed::find(before, other));
        }
    }
    assert(a =~= b);
}

/// The name and the target of a line of `git for-each-ref`: what stands before and
/// behind its first tab.
pub open spec fn fields_of(line: Text) -> (Text, Text) {
    match text::next_place(line, seq!['\t'], 0) {
        Some(at) => (line.take(at), line.skip(at + 1)),
        None => (line, Seq::empty()),
    }
}

/// The branches that the first `n` lines of `git for-each-ref` say. A pointer to
/// another ref is no branch.
pub open spec fn found_in(bearings: BearingsModel, lines: Seq<Text>, n: nat) -> Seq<Ref<Text>>
    decreases n,
{
    if n == 0 {
        Seq::empty()
    } else {
        let earlier = found_in(bearings, lines, (n - 1) as nat);
        let (refname, target) = fields_of(lines[n - 1]);
        if target.len() > 0 {
            earlier
        } else {
            match bearings.describe(refname) {
                Some(found) => earlier.push(found),
                None => earlier,
            }
        }
    }
}

/// The name in a line of `git for-each-ref`, unless the line is a pointer.
fn plain_refname(line: &str) -> (out: Option<String>)
    ensures
        text::maybe(out) == if fields_of(line@).1.len() > 0 {
            None
        } else {
            Some(fields_of(line@).0)
        },
{
    let chars = text::characters(line);
    let length: usize = chars.len();
    let mut i: usize = 0;
    proof {
        text::next_place_is_first(line@, seq!['\t'], 0);
    }
    while i < length
        invariant
            chars@ == line@,
            length == chars@.len(),
            i <= length,
            forall|j: int| 0 <= j < i ==> #[trigger] line@[j] != '\t',
        decreases length - i,
    {
        if chars[i] == '\t' {
            let name = text::slice(&chars, 0, i);
            proof {
                text::next_place_is_first(line@, seq!['\t'], 0);
                text::single_stands(line@, '\t', i as int);
                let at = text::next_place(line@, seq!['\t'], 0)->Some_0;
                text::single_stands(line@, '\t', at);
                assert(at == i);
                assert(line@.subrange(0, i as int) =~= line@.take(i as int));
            }
            if i + 1 < length {
                return None;
            }
            return Some(name);
        }
        i += 1;
    }
    proof {
        text::next_place_is_first(line@, seq!['\t'], 0);
        if let Some(at) = text::next_place(line@, seq!['\t'], 0) {
            text::single_stands(line@, '\t', at);
        }
    }
    Some(line.to_owned())
}

/// Every ref of a list is named as a ref is.
pub open spec fn all_wf(found: Seq<Ref<Text>>) -> bool {
    forall|i: int| 0 <= i < found.len() ==> (#[trigger] found[i]).wf()
}

/// The branches that `git for-each-ref` said, and the unborn one before them.
pub open spec fn found(bearings: BearingsModel, said: Text) -> Seq<Ref<Text>> {
    let listed = found_in(bearings, text::lines(said), text::lines(said).len());
    match bearings.unborn(listed) {
        Some(unborn) => seq![unborn] + listed,
        None => listed,
    }
}

/// The branches that `git for-each-ref` said, and the unborn one before them.
pub fn read_found(bearings: &Bearings, said: &str) -> (out: Vec<Ref<String>>)
    requires
        bearings.wf(),
    ensures
        refs_view(out@) == found(bearings@, said@),
        all_wf(refs_view(out@)),
{
    let lines = text::lines_of(said);
    let ghost all = text::views(lines@);
    let mut out: Vec<Ref<String>> = Vec::new();
    let mut i: usize = 0;
    proof {
        assert(refs_view(out@) =~= Seq::<Ref<Text>>::empty());
    }
    while i < lines.len()
        invariant
            i <= lines@.len(),
            bearings.wf(),
            all == text::views(lines@),
            refs_view(out@) == found_in(bearings@, all, i as nat),
            all_wf(refs_view(out@)),
        decreases lines@.len() - i,
    {
        assert(all[i as int] == lines@[i as int]@);
        let ghost before = refs_view(out@);
        if let Some(refname) = plain_refname(&lines[i]) {
            if let Some(entry) = bearings.describe(&refname) {
                out.push(entry);
                proof {
                    assert(refs_view(out@) =~= before.push(entry@));
                }
            }
        }
        i += 1;
    }
    let ghost listed = refs_view(out@);
    if let Some(unborn) = bearings.unborn(&out) {
        out.insert(0, unborn);
        proof {
            assert(refs_view(out@) =~= seq![unborn@] + listed);
        }
    }
    out
}

// ---------------------------------------------------------------------------
// Selecting
// ---------------------------------------------------------------------------

/// Whether a listing of this kind has a ref in it.
pub open spec fn of_kind(kind: Kind, entry: Ref<Text>) -> bool {
    match kind {
        Kind::All => true,
        Kind::Local => entry.remote is None,
        Kind::Remote => entry.remote is Some,
    }
}

/// Whether a remote ref says nothing, because a local branch has its name. That is
/// about a pair of rows, so only a listing of both sides leaves it out.
pub open spec fn folded_away(call: ListRefs<Text>, found: Seq<Ref<Text>>, entry: Ref<Text>) -> bool {
    &&& call.kind == Kind::All
    &&& !call.include_matching_remote_refs
    &&& entry.remote is Some
    &&& has_local(found, entry.branch())
}

/// Whether a name, in lower case, answers a query.
pub open spec fn answers(lowered: Text, query: Option<Text>) -> bool {
    match query {
        Some(query) => text::occurs(lowered, query),
        None => true,
    }
}

/// Whether a name, in lower case, answers a query.
pub fn matches_query(lowered: &str, query: &Option<String>) -> (out: bool)
    ensures
        out == answers(lowered@, text::maybe(*query)),
{
    match query {
        Some(query) => text::contains(lowered, query),
        None => true,
    }
}

/// Whether a listing keeps a ref.
pub open spec fn keeps(call: ListRefs<Text>, found: Seq<Ref<Text>>, entry: Ref<Text>) -> bool {
    &&& of_kind(call.kind, entry)
    &&& !folded_away(call, found, entry)
    &&& answers(text::lowercased(entry.name), call.query)
}

/// The refs that a listing keeps, in git's order.
pub open spec fn kept(call: ListRefs<Text>, found: Seq<Ref<Text>>) -> Seq<Ref<Text>> {
    found.filter(|entry: Ref<Text>| keeps(call, found, entry))
}

/// The refs of one rank, in their order.
pub open spec fn of_rank(refs: Seq<Ref<Text>>, rank: int) -> Seq<Ref<Text>> {
    refs.filter(|entry: Ref<Text>| entry.rank() == rank)
}

/// The refs that a listing keeps, in a picker's order: the branch that is checked
/// out, the default one, and the others as git ordered them.
pub open spec fn selected(call: ListRefs<Text>, found: Seq<Ref<Text>>) -> Seq<Ref<Text>> {
    let refs = kept(call, found);
    of_rank(refs, 0) + of_rank(refs, 1) + of_rank(refs, 2)
}

/// Whether a listing keeps a ref.
fn keep(call: &ListRefs<String>, found: &Vec<Ref<String>>, entry: &Ref<String>) -> (out: bool)
    requires
        entry@.wf(),
    ensures
        out == keeps(call@, refs_view(found@), entry@),
{
    let wanted: bool = match call.kind {
        Kind::All => true,
        Kind::Local => entry.remote.is_none(),
        Kind::Remote => entry.remote.is_some(),
    };
    if !wanted {
        return false;
    }
    if call.kind == Kind::All && !call.include_matching_remote_refs && entry.remote.is_some() && is_local(
        found,
        &entry.branch(),
    ) {
        return false;
    }
    matches_query(&text::to_lowercase(&entry.name), &call.query)
}

/// The refs that a listing keeps, in a picker's order.
pub fn select(found: &Vec<Ref<String>>, call: &ListRefs<String>) -> (out: Vec<Ref<String>>)
    requires
        all_wf(refs_view(found@)),
    ensures
        refs_view(out@) == selected(call@, refs_view(found@)),
{
    let ghost all = refs_view(found@);
    let ghost keeping = |entry: Ref<Text>| keeps(call@, all, entry);
    let ghost is0 = |entry: Ref<Text>| entry.rank() == 0;
    let ghost is1 = |entry: Ref<Text>| entry.rank() == 1;
    let ghost is2 = |entry: Ref<Text>| entry.rank() == 2;
    let mut first: Vec<Ref<String>> = Vec::new();
    let mut second: Vec<Ref<String>> = Vec::new();
    let mut third: Vec<Ref<String>> = Vec::new();
    let mut i: usize = 0;
    proof {
        reveal(Seq::filter);
        assert(all.take(0) =~= Seq::<Ref<Text>>::empty());
        let none = all.take(0).filter(keeping);
        assert(none =~= Seq::<Ref<Text>>::empty());
        assert(refs_view(first@) =~= none.filter(is0));
        assert(refs_view(second@) =~= none.filter(is1));
        assert(refs_view(third@) =~= none.filter(is2));
    }
    while i < found.len()
        invariant
            i <= found@.len(),
            all == refs_view(found@),
            all_wf(all),
            keeping == (|entry: Ref<Text>| keeps(call@, all, entry)),
            is0 == (|entry: Ref<Text>| entry.rank() == 0),
            is1 == (|entry: Ref<Text>| entry.rank() == 1),
            is2 == (|entry: Ref<Text>| entry.rank() == 2),
            refs_view(first@) == all.take(i as int).filter(keeping).filter(is0),
            refs_view(second@) == all.take(i as int).filter(keeping).filter(is1),
            refs_view(third@) == all.take(i as int).filter(keeping).filter(is2),
        decreases found@.len() - i,
    {
        let ghost a = refs_view(first@);
        let ghost b = refs_view(second@);
        let ghost c = refs_view(third@);
        let ghost before = all.take(i as int).filter(keeping);
        let ghost entry = found@[i as int]@;
        proof {
            reveal(Seq::filter);
            assert(all[i as int] == entry);
            assert(all.take(i + 1).drop_last() =~= all.take(i as int));
            assert(all.take(i + 1).last() == entry);
            assert(before.push(entry).drop_last() =~= before);
        }
        if keep(call, found, &found[i]) {
            assert(all.take(i + 1).filter(keeping) == before.push(entry));
            let copied = found[i].copy();
            if found[i].current {
                first.push(copied);
                proof {
                    assert(refs_view(first@) =~= a.push(entry));
                }
            } else if found[i].default {
                second.push(copied);
                proof {
                    assert(refs_view(second@) =~= b.push(entry));
                }
            } else {
                third.push(copied);
                proof {
                    assert(refs_view(third@) =~= c.push(entry));
                }
            }
        } else {
            assert(all.take(i + 1).filter(keeping) == before);
        }
        i += 1;
    }
    proof {
        assert(all.take(i as int) =~= all);
    }
    let ghost a = refs_view(first@);
    let ghost b = refs_view(second@);
    let ghost c = refs_view(third@);
    let mut out: Vec<Ref<String>> = first;
    out.append(&mut second);
    out.append(&mut third);
    proof {
        assert(refs_view(out@) =~= a + b + c);
    }
    out
}

// ---------------------------------------------------------------------------
// Pages
// ---------------------------------------------------------------------------

/// Every ref that a listing found, before it is cut into pages.
#[derive(Debug, PartialEq, Eq)]
pub struct Listing {
    pub refs: Vec<Ref<String>>,
    pub is_repo: bool,
    pub has_primary_remote: bool,
}

/// How the listing of a folder begins, once `git for-each-ref` has run.
#[derive(Debug, Clone, Copy, PartialEq, Eq, Structural)]
pub enum Begun {
    /// It listed refs.
    Listed,
    /// The folder is no repository: a listing without refs, not a failure.
    NoRepository,
    /// git refused.
    Refused,
}

/// How the listing of a folder begins.
pub fn begun(succeeded: bool, is_not_a_repository: bool) -> (out: Begun)
    ensures
        out == if succeeded {
            Begun::Listed
        } else if is_not_a_repository {
            Begun::NoRepository
        } else {
            Begun::Refused
        },
{
    if succeeded {
        Begun::Listed
    } else if is_not_a_repository {
        Begun::NoRepository
    } else {
        Begun::Refused
    }
}

impl Listing {
    /// The listing of a folder that is no repository.
    pub fn none() -> (out: Listing)
        ensures
            out.refs@.len() == 0,
            !out.is_repo,
            !out.has_primary_remote,
    {
        Listing { refs: Vec::new(), is_repo: false, has_primary_remote: false }
    }

    /// The listing of a repository, from what `git for-each-ref` said of it.
    pub fn of_repository(
        bearings: &Bearings,
        said: &str,
        has_primary_remote: bool,
        call: &ListRefs<String>,
    ) -> (out: Listing)
        requires
            bearings.wf(),
        ensures
            refs_view(out.refs@) == selected(call@, found(bearings@, said@)),
            out.is_repo,
            out.has_primary_remote == has_primary_remote,
    {
        let found = read_found(bearings, said);
        Listing { refs: select(&found, call), is_repo: true, has_primary_remote }
    }
}

/// Whether a listing said as many refs as one considers, so that some may be
/// missing.
pub fn may_be_cut(said: &str) -> (out: bool)
    ensures
        out == (text::lines(said@).len() >= MAX_REFS),
{
    text::lines_of(said).len() >= MAX_REFS
}

/// What `git for-each-ref` is run with: most recently committed first, ties broken
/// by name, which is a total order.
pub fn for_each_ref() -> (out: Vec<String>)
    ensures
        text::views(out@) == seq![
            "for-each-ref"@,
            "--format=%(refname)%09%(symref)"@,
            "--sort=refname"@,
            "--sort=-committerdate"@,
            "--count=10000"@,
            "refs/heads"@,
            "refs/remotes"@,
        ],
{
    let out: Vec<String> = vec![
        "for-each-ref".to_owned(),
        "--format=%(refname)%09%(symref)".to_owned(),
        "--sort=refname".to_owned(),
        "--sort=-committerdate".to_owned(),
        "--count=10000".to_owned(),
        "refs/heads".to_owned(),
        "refs/remotes".to_owned(),
    ];
    proof {
        assert(text::views(out@) =~= seq![
            "for-each-ref"@,
            "--format=%(refname)%09%(symref)"@,
            "--sort=refname"@,
            "--sort=-committerdate"@,
            "--count=10000"@,
            "refs/heads"@,
            "refs/remotes"@,
        ]);
    }
    out
}

/// Where a page begins: at the cursor, or at the end of a list that has shrunk.
pub open spec fn page_start(cursor: u64, total: nat) -> nat {
    if cursor <= total {
        cursor as nat
    } else {
        total
    }
}

/// Where a page ends.
pub open spec fn page_end(cursor: u64, limit: u64, total: nat) -> nat {
    if page_start(cursor, total) + limit <= total {
        page_start(cursor, total) + limit as nat
    } else {
        total
    }
}

/// Where the next page begins, where there is one.
pub open spec fn next_cursor(cursor: u64, limit: u64, total: nat) -> Option<nat> {
    if page_end(cursor, limit, total) < total {
        Some(page_end(cursor, limit, total))
    } else {
        None
    }
}

/// The refs of a page.
pub open spec fn page_refs(refs: Seq<Ref<Text>>, cursor: u64, limit: u64) -> Seq<Ref<Text>> {
    refs.subrange(page_start(cursor, refs.len()) as int, page_end(cursor, limit, refs.len()) as int)
}

/// A page as a client reads it.
pub open spec fn page_value(
    refs: Seq<Ref<Text>>,
    is_repo: bool,
    has_primary_remote: bool,
    cursor: u64,
    limit: u64,
) -> Value {
    let page = page_refs(refs, cursor, limit);
    Value::Object(
        seq![
            ("hasPrimaryRemote"@, Value::Bool(has_primary_remote)),
            ("isRepo"@, Value::Bool(is_repo)),
            (
                "nextCursor"@,
                match next_cursor(cursor, limit, refs.len()) {
                    Some(at) => Value::Whole(at as u64),
                    None => Value::Null,
                },
            ),
            ("refs"@, Value::Array(Seq::new(page.len(), |i: int| page[i].value()))),
            ("totalCount"@, Value::Whole(refs.len() as u64)),
        ],
    )
}

impl ListRefs<String> {
    /// The page of a listing that was asked for. The total is that of the whole
    /// list.
    pub fn page(&self, listing: &Listing) -> (out: Json)
        ensures
            out@ == page_value(
                refs_view(listing.refs@),
                listing.is_repo,
                listing.has_primary_remote,
                self.cursor,
                self.limit,
            ),
    {
        let ghost all = refs_view(listing.refs@);
        let total: u64 = listing.refs.len() as u64;
        let start: u64 = if self.cursor <= total {
            self.cursor
        } else {
            total
        };
        let end: u64 = if self.limit <= total - start {
            start + self.limit
        } else {
            total
        };
        let ghost page = page_refs(all, self.cursor, self.limit);
        let mut rows: Vec<Json> = Vec::new();
        let mut i: usize = start as usize;
        while i < end as usize
            invariant
                start <= i <= end,
                end <= listing.refs@.len(),
                total == listing.refs@.len(),
                total == listing.refs.len(),
                all == refs_view(listing.refs@),
                page == all.subrange(start as int, end as int),
                rows@.len() == i - start,
                forall|j: int| 0 <= j < rows@.len() ==> (#[trigger] rows@[j])@ == page[j].value(),
            decreases end - i,
        {
            proof {
                assert(page[i - start] == listing.refs@[i as int]@);
            }
            rows.push(listing.refs[i].to_value());
            i += 1;
        }
        proof {
            assert(json::items_view(rows@) =~= Seq::new(page.len(), |i: int| page[i].value()));
        }
        let next = if end < total {
            Json::Whole(end)
        } else {
            Json::Null
        };
        let fields: Fields = vec![
            json::entry("hasPrimaryRemote", Json::Bool(listing.has_primary_remote)),
            json::entry("isRepo", Json::Bool(listing.is_repo)),
            json::entry("nextCursor", next),
            json::entry("refs", Json::array(rows)),
            json::entry("totalCount", Json::Whole(total)),
        ];
        proof {
            assert(json::fields_view(fields@) =~= page_value(
                all,
                listing.is_repo,
                listing.has_primary_remote,
                self.cursor,
                self.limit,
            )->Object_0);
        }
        Json::object(fields)
    }
}

// ---------------------------------------------------------------------------
// Laws
// ---------------------------------------------------------------------------

/// Pages neither repeat nor skip a row: what came before a page and the page are
/// what comes before the next one, and the last page is followed by nothing.
pub proof fn pages_follow_each_other(refs: Seq<Ref<Text>>, cursor: u64, limit: u64)
    requires
        cursor <= refs.len(),
    ensures
        match next_cursor(cursor, limit, refs.len()) {
            Some(next) => refs.take(cursor as int) + page_refs(refs, cursor, limit) == refs.take(next as int),
            None => refs.take(cursor as int) + page_refs(refs, cursor, limit) == refs,
        },
        limit > 0 ==> (next_cursor(cursor, limit, refs.len()) matches Some(next) ==> next > cursor),
{
    let before = refs.take(cursor as int);
    let page = page_refs(refs, cursor, limit);
    match next_cursor(cursor, limit, refs.len()) {
        Some(next) => {
            assert(before + page =~= refs.take(next as int));
        },
        None => {
            assert(before + page =~= refs);
        },
    }
}

/// A cursor past the end is an empty page and no failure.
pub proof fn a_page_past_the_end_is_empty(refs: Seq<Ref<Text>>, cursor: u64, limit: u64)
    requires
        cursor >= refs.len(),
    ensures
        page_refs(refs, cursor, limit).len() == 0,
        next_cursor(cursor, limit, refs.len()) is None,
{
}

/// Ordering a listing loses nothing and invents nothing: what a picker shows is
/// what the listing keeps, each row as often.
pub proof fn selecting_is_a_permutation(call: ListRefs<Text>, found: Seq<Ref<Text>>)
    ensures
        selected(call, found).to_multiset() == kept(call, found).to_multiset(),
        selected(call, found).len() == kept(call, found).len(),
{
    let refs = kept(call, found);
    ranks_are_a_permutation(refs);
    vstd::seq_lib::lemma_multiset_commutative(of_rank(refs, 0) + of_rank(refs, 1), of_rank(refs, 2));
    vstd::seq_lib::lemma_multiset_commutative(of_rank(refs, 0), of_rank(refs, 1));
    selected(call, found).to_multiset_ensures();
    refs.to_multiset_ensures();
}

proof fn ranks_are_a_permutation(refs: Seq<Ref<Text>>)
    ensures
        of_rank(refs, 0).to_multiset().add(of_rank(refs, 1).to_multiset()).add(of_rank(refs, 2).to_multiset())
            == refs.to_multiset(),
    decreases refs.len(),
{
    reveal(Seq::filter);
    if refs.len() == 0 {
        assert(of_rank(refs, 0) =~= refs);
        assert(of_rank(refs, 1) =~= refs);
        assert(of_rank(refs, 2) =~= refs);
        refs.to_multiset_ensures();
        assert(refs.to_multiset().len() == 0);
        assert(refs.to_multiset() =~= vstd::multiset::Multiset::empty());
    } else {
        let rest = refs.drop_last();
        let last = refs.last();
        ranks_are_a_permutation(rest);
        assert(refs =~= rest.push(last));
        rest.to_multiset_ensures();
        assert(refs.to_multiset() == rest.to_multiset().insert(last));
        of_rank(rest, 0).to_multiset_ensures();
        of_rank(rest, 1).to_multiset_ensures();
        of_rank(rest, 2).to_multiset_ensures();
        if last.rank() == 0 {
            assert(of_rank(refs, 0) == of_rank(rest, 0).push(last));
        } else if last.rank() == 1 {
            assert(of_rank(refs, 1) == of_rank(rest, 1).push(last));
        } else {
            assert(of_rank(refs, 2) == of_rank(rest, 2).push(last));
        }
        assert(of_rank(refs, 0).to_multiset().add(of_rank(refs, 1).to_multiset()).add(
            of_rank(refs, 2).to_multiset(),
        ) =~= refs.to_multiset());
    }
}

} // verus!
