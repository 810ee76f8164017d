//! The live previews of the working tree and of a branch's changes.
//!
//! git does the work. What is decided here is what it is asked in turn, and what
//! the previews are made of.

use crate::json;
use crate::json::{Fields, Json, Value};
use crate::refs;
use crate::text;
use vstd::prelude::*;

verus! {

/// Text as the contracts see it.
pub type Text = Seq<char>;

/// The method.
pub const GET_DIFF_PREVIEW: &'static str = "review.getDiffPreview";

// ---------------------------------------------------------------------------
// The call
// ---------------------------------------------------------------------------

/// A preview that was asked for.
#[derive(Debug, PartialEq, Eq)]
pub struct DiffPreview<S> {
    pub cwd: S,
    pub base_ref: Option<S>,
    pub ignore_whitespace: Option<bool>,
}

impl View for DiffPreview<String> {
    type V = DiffPreview<Text>;

    open spec fn view(&self) -> DiffPreview<Text> {
        DiffPreview {
            cwd: self.cwd@,
            base_ref: text::maybe(self.base_ref),
            ignore_whitespace: self.ignore_whitespace,
        }
    }
}

/// The preview that a payload asks for, or why it asks for none. A base is a
/// revision: neither empty nor an option of git's.
pub open spec fn asked(payload: DiffPreview<Text>) -> Result<DiffPreview<Text>, Value> {
    let cwd = text::trimmed(payload.cwd);
    if cwd.len() == 0 {
        Err(
            refs::git_error(
                "review.getDiffPreview"@,
                payload.cwd,
                "This call needs a workspace root; none was given."@,
            ),
        )
    } else {
        match payload.base_ref {
            Some(base) => if text::trimmed(base).len() == 0 || "-"@.is_prefix_of(text::trimmed(base)) {
                Err(
                    refs::git_error(
                        "review.getDiffPreview"@,
                        cwd,
                        "The comparison base must name a Git revision, not an empty value or an option."@,
                    ),
                )
            } else {
                Ok(
                    DiffPreview {
                        cwd,
                        base_ref: Some(text::trimmed(base)),
                        ignore_whitespace: payload.ignore_whitespace,
                    },
                )
            },
            None => Ok(DiffPreview { cwd, base_ref: None, ignore_whitespace: payload.ignore_whitespace }),
        }
    }
}

impl DiffPreview<String> {
    /// The preview that a payload asks for, or why it asks for none.
    pub fn read(payload: &DiffPreview<String>) -> (out: Result<DiffPreview<String>, Json>)
        ensures
            match out {
                Ok(call) => asked(payload@) == Ok::<DiffPreview<Text>, Value>(call@),
                Err(refused) => asked(payload@) == Err::<DiffPreview<Text>, Value>(refused@),
            },
    {
        let cwd = text::trim(&payload.cwd);
        if cwd.as_str().is_empty() {
            return Err(
                refs::unusable(
                    GET_DIFF_PREVIEW,
                    &payload.cwd,
                    "This call needs a workspace root; none was given.",
                ),
            );
        }
        let base_ref: Option<String> = match &payload.base_ref {
            Some(base) => {
                let base = text::trim(base);
                if base.as_str().is_empty() || text::starts_with(&base, "-") {
                    return Err(
                        refs::unusable(
                            GET_DIFF_PREVIEW,
                            &cwd,
                            "The comparison base must name a Git revision, not an empty value or an option.",
                        ),
                    );
                }
                Some(base)
            },
            None => None,
        };
        Ok(DiffPreview { cwd, base_ref, ignore_whitespace: payload.ignore_whitespace })
    }
}

// ---------------------------------------------------------------------------
// Sources
// ---------------------------------------------------------------------------

/// A patch, and whether some of it was left out.
#[derive(Debug, PartialEq, Eq)]
pub struct Patch<S> {
    pub diff: S,
    pub truncated: bool,
}

impl View for Patch<String> {
    type V = Patch<Text>;

    open spec fn view(&self) -> Patch<Text> {
        Patch { diff: self.diff@, truncated: self.truncated }
    }
}

/// The SHA-256 digest of a text's UTF-8 bytes.
pub uninterp spec fn sha256(text: Seq<char>) -> Seq<u8>;

/// `sha2::Sha256::digest` of a text's bytes. Claimed: the digest depends on the
/// text alone and has 32 bytes. Which digest a text has is not stated.
#[verifier::external_body]
fn digest(text: &str) -> (out: Vec<u8>)
    ensures
        out@ == sha256(text@),
        out@.len() == 32,
{
    <sha2::Sha256 as sha2::Digest>::digest(text.as_bytes()).to_vec()
}

/// A digit of a hexadecimal number.
pub open spec fn hex_digit(n: int) -> char {
    if n < 10 {
        (('0' as u32) + n) as char
    } else {
        (('a' as u32) + (n - 10)) as char
    }
}

/// Bytes in hexadecimal, two digits for each.
pub open spec fn hex(bytes: Seq<u8>) -> Text {
    Seq::new(
        2 * bytes.len(),
        |i: int|
            if i % 2 == 0 {
                hex_digit(bytes[i / 2] as int / 16)
            } else {
                hex_digit(bytes[i / 2] as int % 16)
            },
    )
}

/// A digit of a hexadecimal number.
fn hex_character(n: u8) -> (out: char)
    requires
        n < 16,
    ensures
        out == hex_digit(n as int),
{
    if n < 10 {
        (48 + n) as char
    } else {
        (97 + (n - 10)) as char
    }
}

/// Bytes in hexadecimal, two digits for each.
pub fn to_hex(bytes: &Vec<u8>) -> (out: String)
    ensures
        out@ == hex(bytes@),
{
    let mut out = String::new();
    let mut i: usize = 0;
    proof {
        assert(out@ =~= hex(bytes@.take(0)));
    }
    while i < bytes.len()
        invariant
            i <= bytes@.len(),
            out@ == hex(bytes@.take(i as int)),
        decreases bytes@.len() - i,
    {
        let byte: u8 = bytes[i];
        let ghost before = out@;
        out.push(hex_character(byte / 16));
        out.push(hex_character(byte % 16));
        proof {
            let now = hex(bytes@.take(i + 1));
            assert(now.len() == before.len() + 2);
            assert forall|k: int| 0 <= k < before.len() implies now[k] == before[k] by {
                assert(bytes@.take(i + 1)[k / 2] == bytes@.take(i as int)[k / 2]);
            }
            assert(out@ =~= now);
        }
        i += 1;
    }
    proof {
        assert(bytes@.take(i as int) =~= bytes@);
    }
    out
}

/// One source of a preview, where its patch has this hash.
pub open spec fn source_value(
    kind: Text,
    title: Text,
    base: Option<Text>,
    head: Option<Text>,
    patch: Patch<Text>,
    hash: Text,
) -> Value {
    Value::Object(
        seq![
            ("baseRef"@, json::or_null(base)),
            ("diff"@, Value::Text(patch.diff)),
            ("diffHash"@, Value::Text(hash)),
            ("headRef"@, json::or_null(head)),
            ("id"@, Value::Text(kind)),
            ("kind"@, Value::Text(kind)),
            ("title"@, Value::Text(title)),
            ("truncated"@, Value::Bool(patch.truncated)),
        ],
    )
}

/// One source of a preview, where its patch has this hash.
pub fn hashed_source(
    kind: &str,
    title: &str,
    base: &Option<String>,
    head: &Option<String>,
    patch: &Patch<String>,
    hash: &str,
) -> (out: Json)
    ensures
        out@ == source_value(kind@, title@, text::maybe(*base), text::maybe(*head), patch@, hash@),
{
    let fields: Fields = vec![
        json::entry("baseRef", Json::maybe(base)),
        json::entry("diff", Json::text(&patch.diff)),
        json::entry("diffHash", Json::text(hash)),
        json::entry("headRef", Json::maybe(head)),
        json::entry("id", Json::text(kind)),
        json::entry("kind", Json::text(kind)),
        json::entry("title", Json::text(title)),
        json::entry("truncated", Json::Bool(patch.truncated)),
    ];
    proof {
        assert(json::fields_view(fields@) =~= source_value(
            kind@,
            title@,
            text::maybe(*base),
            text::maybe(*head),
            patch@,
            hash@,
        )->Object_0);
    }
    Json::object(fields)
}

/// One source of a preview.
fn source(
    kind: &str,
    title: &str,
    base: &Option<String>,
    head: &Option<String>,
    patch: &Patch<String>,
) -> (out: Json)
    ensures
        out@ == source_value(
            kind@,
            title@,
            text::maybe(*base),
            text::maybe(*head),
            patch@,
            hex(sha256(patch@.diff)),
        ),
{
    hashed_source(kind, title, base, head, patch, &to_hex(&digest(&patch.diff)))
}

/// A preview as a client reads it.
pub open spec fn result_value(cwd: Text, generated_at: Text, sources: Seq<Value>) -> Value {
    Value::Object(
        seq![
            ("cwd"@, Value::Text(cwd)),
            ("generatedAt"@, Value::Text(generated_at)),
            ("sources"@, Value::Array(sources)),
        ],
    )
}

/// The two sources of a preview.
pub open spec fn sources_of(preview: Preview<Text>) -> Seq<Value> {
    match preview.patches {
        None => Seq::empty(),
        Some(patches) => seq![
            source_value(
                "working-tree"@,
                "Working tree"@,
                Some("HEAD"@),
                None,
                patches.working,
                hex(sha256(patches.working.diff)),
            ),
            source_value(
                "branch-range"@,
                match patches.base {
                    Some(base) => "Against "@ + base,
                    None => "Against base branch"@,
                },
                patches.base,
                Some(
                    match patches.branch_name {
                        Some(name) => name,
                        None => "HEAD"@,
                    },
                ),
                patches.branch,
                hex(sha256(patches.branch.diff)),
            ),
        ],
    }
}

/// What a preview found: nothing outside a repository, and two patches inside one.
#[derive(Debug, PartialEq, Eq)]
pub struct Preview<S> {
    pub cwd: S,
    pub patches: Option<Patches<S>>,
}

/// The two patches of a preview, and what they are against.
#[derive(Debug, PartialEq, Eq)]
pub struct Patches<S> {
    pub working: Patch<S>,
    pub branch: Patch<S>,
    pub base: Option<S>,
    pub branch_name: Option<S>,
}

impl View for Patches<String> {
    type V = Patches<Text>;

    open spec fn view(&self) -> Patches<Text> {
        Patches {
            working: self.working@,
            branch: self.branch@,
            base: text::maybe(self.base),
            branch_name: text::maybe(self.branch_name),
        }
    }
}

impl View for Preview<String> {
    type V = Preview<Text>;

    open spec fn view(&self) -> Preview<Text> {
        Preview {
            cwd: self.cwd@,
            patches: match self.patches {
                Some(patches) => Some(patches@),
                None => None,
            },
        }
    }
}

impl Preview<String> {
    /// The preview as a client reads it, made at this time.
    pub fn to_value(&self, generated_at: &str) -> (out: Json)
        ensures
            out@ == result_value(self.cwd@, generated_at@, sources_of(self@)),
    {
        let sources: Vec<Json> = match &self.patches {
            None => Vec::new(),
            Some(patches) => {
                let title = match &patches.base {
                    Some(base) => text::glue("Against ", base),
                    None => "Against base branch".to_owned(),
                };
                let head: Option<String> = match &patches.branch_name {
                    Some(name) => Some(name.clone()),
                    None => Some("HEAD".to_owned()),
                };
                let against: Option<String> = Some("HEAD".to_owned());
                vec![
                    source("working-tree", "Working tree", &against, &None, &patches.working),
                    source("branch-range", &title, &patches.base, &head, &patches.branch),
                ]
            },
        };
        proof {
            assert(json::items_view(sources@) =~= sources_of(self@));
        }
        let fields: Fields = vec![
            json::entry("cwd", Json::text(&self.cwd)),
            json::entry("generatedAt", Json::text(generated_at)),
            json::entry("sources", Json::array(sources)),
        ];
        proof {
            assert(json::fields_view(fields@) =~= result_value(
                self.cwd@,
                generated_at@,
                sources_of(self@),
            )->Object_0);
        }
        Json::object(fields)
    }
}

/// A base that a call may name: a revision, which is neither empty nor an option
/// of git's, so that client text never reaches git as one.
pub proof fn a_base_is_no_option(payload: DiffPreview<Text>)
    ensures
        asked(payload) matches Ok(call) ==> (call.base_ref matches Some(base) ==> base.len() > 0 && !"-"@.is_prefix_of(
            base,
        )),
{
}

// ---------------------------------------------------------------------------
// Making a preview
// ---------------------------------------------------------------------------

/// What to ask next, or the preview. `E` is how git's own failures come.
#[derive(Debug, PartialEq, Eq)]
pub enum Action<S, E> {
    /// Check the folder: [`Event::Folder`].
    CheckFolder(S),
    /// `git rev-parse --is-inside-work-tree`: [`Event::Inside`].
    AskInside,
    /// The patch of the working tree: [`Event::Patched`].
    DiffWorkingTree { ignore_whitespace: bool },
    /// The branch that is checked out: [`Event::Named`].
    AskBranch,
    /// Whether this revision is there: [`Event::Present`].
    AskPresent(S),
    /// The primary remote: [`Event::Named`].
    AskRemote,
    /// The default branch, given the primary remote: [`Event::Named`].
    AskDefault(Option<S>),
    /// `git rev-parse --verify --end-of-options` of this: [`Event::Said`].
    Resolve(S),
    /// `git merge-base` of this and `HEAD`: [`Event::Said`].
    AskMergeBase(S),
    /// The patch from this tree to `HEAD`: [`Event::Patched`].
    DiffFrom { tree: S, ignore_whitespace: bool },
    /// Nothing more.
    Done(Result<Preview<S>, Failure<S, E>>),
}

/// Why there is no preview.
#[derive(Debug, PartialEq, Eq)]
pub enum Failure<S, E> {
    /// The folder is none that can be used.
    Folder(S),
    /// git failed.
    Git(E),
}

/// What came of what was asked.
#[derive(Debug, PartialEq, Eq)]
pub enum Event<S, E> {
    /// The folder as it is shown, or why it cannot be used.
    Folder(Result<S, S>),
    Inside(Inside<S, E>),
    Patched(Result<Patch<S>, E>),
    Named(Option<S>),
    Present(bool),
    Said(Result<S, E>),
}

/// What git said of whether a folder is inside a working tree.
#[derive(Debug, PartialEq, Eq)]
pub enum Inside<S, E> {
    Said(S),
    NotARepository,
    Failed(E),
}

/// What is being asked.
#[derive(Debug, Clone, Copy, PartialEq, Eq, Structural)]
pub enum Stage {
    Folder,
    Inside,
    WorkingTree,
    Branch,
    Head,
    Remote,
    Default,
    RemotePresent,
    DefaultPresent,
    Resolve,
    MergeBase,
    BranchPatch,
    Over,
}

/// A preview on its way.
#[derive(Debug, PartialEq, Eq)]
pub struct Previewing<S> {
    pub call: DiffPreview<S>,
    pub stage: Stage,
    pub folder: S,
    pub working: Patch<S>,
    pub branch: Option<S>,
    pub remote: Option<S>,
    pub default: S,
    pub base: Option<S>,
}

impl View for Previewing<String> {
    type V = Previewing<Text>;

    open spec fn view(&self) -> Previewing<Text> {
        Previewing {
            call: self.call@,
            stage: self.stage,
            folder: self.folder@,
            working: self.working@,
            branch: text::maybe(self.branch),
            remote: text::maybe(self.remote),
            default: self.default@,
            base: text::maybe(self.base),
        }
    }
}

/// The views of events and actions.
pub open spec fn event_view<E>(event: Event<String, E>) -> Event<Text, E> {
    match event {
        Event::Folder(Ok(shown)) => Event::Folder(Ok(shown@)),
        Event::Folder(Err(why)) => Event::Folder(Err(why@)),
        Event::Inside(Inside::Said(said)) => Event::Inside(Inside::Said(said@)),
        Event::Inside(Inside::NotARepository) => Event::Inside(Inside::NotARepository),
        Event::Inside(Inside::Failed(why)) => Event::Inside(Inside::Failed(why)),
        Event::Patched(Ok(patch)) => Event::Patched(Ok(patch@)),
        Event::Patched(Err(why)) => Event::Patched(Err(why)),
        Event::Named(name) => Event::Named(text::maybe(name)),
        Event::Present(present) => Event::Present(present),
        Event::Said(Ok(said)) => Event::Said(Ok(said@)),
        Event::Said(Err(why)) => Event::Said(Err(why)),
    }
}

/// The view of an action.
pub open spec fn action_view<E>(action: Action<String, E>) -> Action<Text, E> {
    match action {
        Action::CheckFolder(cwd) => Action::CheckFolder(cwd@),
        Action::AskInside => Action::AskInside,
        Action::DiffWorkingTree { ignore_whitespace } => Action::DiffWorkingTree { ignore_whitespace },
        Action::AskBranch => Action::AskBranch,
        Action::AskPresent(name) => Action::AskPresent(name@),
        Action::AskRemote => Action::AskRemote,
        Action::AskDefault(remote) => Action::AskDefault(text::maybe(remote)),
        Action::Resolve(revision) => Action::Resolve(revision@),
        Action::AskMergeBase(revision) => Action::AskMergeBase(revision@),
        Action::DiffFrom { tree, ignore_whitespace } => Action::DiffFrom { tree: tree@, ignore_whitespace },
        Action::Done(Ok(preview)) => Action::Done(Ok(preview@)),
        Action::Done(Err(Failure::Folder(why))) => Action::Done(Err(Failure::Folder(why@))),
        Action::Done(Err(Failure::Git(why))) => Action::Done(Err(Failure::Git(why))),
    }
}

impl Previewing<Text> {
    /// Whether this is what was asked for.
    pub open spec fn expects<E>(self, event: Event<Text, E>) -> bool {
        match self.stage {
            Stage::Folder => event is Folder,
            Stage::Inside => event is Inside,
            Stage::WorkingTree | Stage::BranchPatch => event is Patched,
            Stage::Branch | Stage::Remote | Stage::Default => event is Named,
            Stage::Head | Stage::RemotePresent | Stage::DefaultPresent => event is Present,
            Stage::Resolve | Stage::MergeBase => event is Said,
            Stage::Over => false,
        }
    }

    /// The preview of a folder outside a repository.
    pub open spec fn empty<E>(self) -> (Self, Action<Text, E>) {
        (
            Previewing { stage: Stage::Over, ..self },
            Action::Done(Ok(Preview { cwd: self.folder, patches: None })),
        )
    }

    /// The preview with this patch of the branch.
    pub open spec fn complete<E>(self, patch: Patch<Text>) -> (Self, Action<Text, E>) {
        (
            Previewing { stage: Stage::Over, ..self },
            Action::Done(
                Ok(
                    Preview {
                        cwd: self.folder,
                        patches: Some(
                            Patches {
                                working: self.working,
                                branch: patch,
                                base: self.base,
                                branch_name: self.branch,
                            },
                        ),
                    },
                ),
            ),
        )
    }

    /// No preview.
    pub open spec fn failed<E>(self, why: Failure<Text, E>) -> (Self, Action<Text, E>) {
        (Previewing { stage: Stage::Over, ..self }, Action::Done(Err(why)))
    }

    /// Whether white space is left out of account.
    pub open spec fn ignores(self) -> bool {
        self.call.ignore_whitespace == Some(true)
    }

    /// The base is resolved to an object before anything is compared with it.
    pub open spec fn against<E>(self, base: Text) -> (Self, Action<Text, E>) {
        (
            Previewing { stage: Stage::Resolve, base: Some(base), ..self },
            Action::Resolve(base + "^{commit}"@),
        )
    }

    /// There is nothing to compare the branch with.
    pub open spec fn against_nothing<E>(self, base: Option<Text>) -> (Self, Action<Text, E>) {
        (Previewing { base, ..self }).complete(Patch { diff: ""@, truncated: false })
    }

    /// What comes next.
    pub open spec fn step<E>(self, event: Event<Text, E>) -> (Self, Action<Text, E>) {
        match event {
            Event::Folder(Ok(shown)) => (
                Previewing { stage: Stage::Inside, folder: shown, ..self },
                Action::AskInside,
            ),
            Event::Folder(Err(why)) => self.failed(Failure::Folder(why)),
            Event::Inside(Inside::Said(said)) => if text::trimmed(said) == "true"@ {
                (
                    Previewing { stage: Stage::WorkingTree, ..self },
                    Action::DiffWorkingTree { ignore_whitespace: self.ignores() },
                )
            } else {
                self.empty()
            },
            Event::Inside(Inside::NotARepository) => self.empty(),
            Event::Inside(Inside::Failed(why)) => self.failed(Failure::Git(why)),
            Event::Patched(Err(why)) => self.failed(Failure::Git(why)),
            Event::Patched(Ok(patch)) => if self.stage == Stage::WorkingTree {
                (Previewing { stage: Stage::Branch, working: patch, ..self }, Action::AskBranch)
            } else {
                self.complete(patch)
            },
            Event::Named(name) => match self.stage {
                Stage::Branch => (
                    Previewing {
                        stage: Stage::Head,
                        branch: match name {
                            Some(name) => Some(text::trimmed(name)),
                            None => None,
                        },
                        ..self
                    },
                    Action::AskPresent("HEAD"@),
                ),
                Stage::Remote => (
                    Previewing { stage: Stage::Default, remote: name, ..self },
                    Action::AskDefault(name),
                ),
                _ => match name {
                    None => self.against_nothing(None),
                    Some(default) => match self.remote {
                        Some(remote) => (
                            Previewing { stage: Stage::RemotePresent, default, ..self },
                            Action::AskPresent(remote + "/"@ + default),
                        ),
                        None => (
                            Previewing { stage: Stage::DefaultPresent, default, ..self },
                            Action::AskPresent(default),
                        ),
                    },
                },
            },
            Event::Present(present) => match self.stage {
                Stage::Head => match self.call.base_ref {
                    Some(base) => if present {
                        self.against(base)
                    } else {
                        self.against_nothing(Some(base))
                    },
                    None => if present {
                        (Previewing { stage: Stage::Remote, ..self }, Action::AskRemote)
                    } else {
                        self.against_nothing(None)
                    },
                },
                Stage::RemotePresent => match self.remote {
                    Some(remote) if present => self.against(remote + "/"@ + self.default),
                    _ => (
                        Previewing { stage: Stage::DefaultPresent, ..self },
                        Action::AskPresent(self.default),
                    ),
                },
                _ => if present {
                    self.against(self.default)
                } else {
                    self.against_nothing(None)
                },
            },
            Event::Said(Err(why)) => self.failed(Failure::Git(why)),
            Event::Said(Ok(said)) => if self.stage == Stage::Resolve {
                (
                    Previewing { stage: Stage::MergeBase, ..self },
                    Action::AskMergeBase(text::trimmed(said)),
                )
            } else {
                (
                    Previewing { stage: Stage::BranchPatch, ..self },
                    Action::DiffFrom { tree: text::trimmed(said), ignore_whitespace: self.ignores() },
                )
            },
        }
    }
}

impl Previewing<String> {
    /// A preview that was asked for, and what to ask first.
    pub fn begin<E>(call: DiffPreview<String>) -> (out: (Previewing<String>, Action<String, E>))
        ensures
            out.0@.call == call@,
            out.0@.stage == Stage::Folder,
            action_view(out.1) == Action::<Text, E>::CheckFolder(call@.cwd),
    {
        let cwd = call.cwd.clone();
        let previewing = Previewing {
            call,
            stage: Stage::Folder,
            folder: String::new(),
            working: Patch { diff: String::new(), truncated: false },
            branch: None,
            remote: None,
            default: String::new(),
            base: None,
        };
        (previewing, Action::CheckFolder(cwd))
    }

    /// The base is resolved to an object before anything is compared with it.
    fn against<E>(&mut self, base: String) -> (out: Action<String, E>)
        ensures
            (final(self)@, action_view(out)) == old(self)@.against::<E>(base@),
    {
        let revision = text::glue(&base, "^{commit}");
        self.stage = Stage::Resolve;
        self.base = Some(base);
        Action::Resolve(revision)
    }

    /// The preview with this patch of the branch.
    fn complete<E>(&mut self, patch: Patch<String>) -> (out: Action<String, E>)
        ensures
            (final(self)@, action_view(out)) == old(self)@.complete::<E>(patch@),
    {
        self.stage = Stage::Over;
        Action::Done(
            Ok(
                Preview {
                    cwd: self.folder.clone(),
                    patches: Some(
                        Patches {
                            working: Patch {
                                diff: self.working.diff.clone(),
                                truncated: self.working.truncated,
                            },
                            branch: patch,
                            base: text::copy_maybe(&self.base),
                            branch_name: text::copy_maybe(&self.branch),
                        },
                    ),
                },
            ),
        )
    }

    /// There is nothing to compare the branch with.
    fn against_nothing<E>(&mut self, base: Option<String>) -> (out: Action<String, E>)
        ensures
            (final(self)@, action_view(out)) == old(self)@.against_nothing::<E>(text::maybe(base)),
    {
        self.base = base;
        self.complete(Patch { diff: "".to_owned(), truncated: false })
    }

    /// The preview of a folder outside a repository.
    fn empty<E>(&mut self) -> (out: Action<String, E>)
        ensures
            (final(self)@, action_view(out)) == old(self)@.empty::<E>(),
    {
        self.stage = Stage::Over;
        Action::Done(Ok(Preview { cwd: self.folder.clone(), patches: None }))
    }

    /// No preview.
    fn failed<E>(&mut self, why: E) -> (out: Action<String, E>)
        ensures
            (final(self)@, action_view(out)) == old(self)@.failed::<E>(Failure::Git(why)),
    {
        self.stage = Stage::Over;
        Action::Done(Err(Failure::Git(why)))
    }

    /// Whether white space is left out of account.
    fn ignores(&self) -> (out: bool)
        ensures
            out == self@.ignores(),
    {
        match self.call.ignore_whitespace {
            Some(ignore) => ignore,
            None => false,
        }
    }

    /// A name came back.
    fn named<E>(&mut self, name: Option<String>) -> (out: Action<String, E>)
        requires
            old(self)@.expects(Event::<Text, E>::Named(text::maybe(name))),
        ensures
            (final(self)@, action_view(out)) == old(self)@.step::<E>(Event::Named(text::maybe(name))),
    {
        match self.stage {
            Stage::Branch => {
                self.stage = Stage::Head;
                self.branch = match &name {
                    Some(name) => Some(text::trim(name)),
                    None => None,
                };
                Action::AskPresent("HEAD".to_owned())
            },
            Stage::Remote => {
                self.stage = Stage::Default;
                self.remote = text::copy_maybe(&name);
                Action::AskDefault(name)
            },
            _ => match name {
                None => self.against_nothing(None),
                Some(default) => {
                    let asked = match &self.remote {
                        Some(remote) => text::glue3(remote, "/", &default),
                        None => default.clone(),
                    };
                    self.stage = if self.remote.is_some() {
                        Stage::RemotePresent
                    } else {
                        Stage::DefaultPresent
                    };
                    self.default = default;
                    Action::AskPresent(asked)
                },
            },
        }
    }

    /// Whether a revision is there came back.
    fn present<E>(&mut self, present: bool) -> (out: Action<String, E>)
        requires
            old(self)@.expects(Event::<Text, E>::Present(present)),
        ensures
            (final(self)@, action_view(out)) == old(self)@.step::<E>(Event::Present(present)),
    {
        match self.stage {
            Stage::Head => {
                let base = text::copy_maybe(&self.call.base_ref);
                match base {
                    Some(base) => if present {
                        self.against(base)
                    } else {
                        self.against_nothing(Some(base))
                    },
                    None => if present {
                        self.stage = Stage::Remote;
                        Action::AskRemote
                    } else {
                        self.against_nothing(None)
                    },
                }
            },
            Stage::RemotePresent => {
                let remote = text::copy_maybe(&self.remote);
                match remote {
                    Some(remote) if present => {
                        let base = text::glue3(&remote, "/", &self.default);
                        self.against(base)
                    },
                    _ => {
                        self.stage = Stage::DefaultPresent;
                        Action::AskPresent(self.default.clone())
                    },
                }
            },
            _ => if present {
                let base = self.default.clone();
                self.against(base)
            } else {
                self.against_nothing(None)
            },
        }
    }

    /// What comes next.
    pub fn step<E>(&mut self, event: Event<String, E>) -> (out: Action<String, E>)
        requires
            old(self)@.expects(event_view(event)),
        ensures
            (final(self)@, action_view(out)) == old(self)@.step(event_view(event)),
    {
        match event {
            Event::Folder(Ok(shown)) => {
                self.stage = Stage::Inside;
                self.folder = shown;
                Action::AskInside
            },
            Event::Folder(Err(why)) => {
                self.stage = Stage::Over;
                Action::Done(Err(Failure::Folder(why)))
            },
            Event::Inside(Inside::Said(said)) => {
                if text::same(&text::trim(&said), "true") {
                    self.stage = Stage::WorkingTree;
                    Action::DiffWorkingTree { ignore_whitespace: self.ignores() }
                } else {
                    self.empty()
                }
            },
            Event::Inside(Inside::NotARepository) => self.empty(),
            Event::Inside(Inside::Failed(why)) => self.failed(why),
            Event::Patched(Err(why)) => self.failed(why),
            Event::Patched(Ok(patch)) => {
                if self.stage == Stage::WorkingTree {
                    self.stage = Stage::Branch;
                    self.working = patch;
                    Action::AskBranch
                } else {
                    self.complete(patch)
                }
            },
            Event::Named(name) => self.named(name),
            Event::Present(present) => self.present(present),
            Event::Said(Err(why)) => self.failed(why),
            Event::Said(Ok(said)) => {
                if self.stage == Stage::Resolve {
                    self.stage = Stage::MergeBase;
                    Action::AskMergeBase(text::trim(&said))
                } else {
                    self.stage = Stage::BranchPatch;
                    Action::DiffFrom { tree: text::trim(&said), ignore_whitespace: self.ignores() }
                }
            },
        }
    }
}

/// What git compares is what git itself resolved: a comparison is asked for only
/// once git has named the merge base, and with nothing but what it named. The text
/// of a client reaches git only to be resolved.
pub proof fn only_resolved_objects_are_compared<E>(previewing: Previewing<Text>, event: Event<Text, E>)
    requires
        previewing.expects(event),
    ensures
        previewing.step(event).1 matches Action::DiffFrom { tree, .. } ==> previewing.stage == Stage::MergeBase && (
        event matches Event::Said(Ok(said)) && tree == text::trimmed(said)),
        previewing.step(event).1 matches Action::AskMergeBase(revision) ==> previewing.stage == Stage::Resolve && (
        event matches Event::Said(Ok(said)) && revision == text::trimmed(said)),
{
}

/// A folder outside a repository is an empty preview and no failure, and git is
/// asked for no patch of it.
pub proof fn outside_a_repository_nothing_is_compared<E>(previewing: Previewing<Text>, event: Event<Text, E>)
    requires
        previewing.stage == Stage::Inside,
        previewing.expects(event),
    ensures
        previewing.step(event).1 is DiffWorkingTree <==> (event matches Event::Inside(Inside::Said(said))
            && text::trimmed(said) == "true"@),
        event == Event::<Text, E>::Inside(Inside::NotARepository) ==> previewing.step(event).1 == Action::<
            Text,
            E,
        >::Done(Ok(Preview { cwd: previewing.folder, patches: None })),
{
}

/// How far a preview has come.
pub open spec fn rank(stage: Stage) -> int {
    match stage {
        Stage::Folder => 0,
        Stage::Inside => 1,
        Stage::WorkingTree => 2,
        Stage::Branch => 3,
        Stage::Head => 4,
        Stage::Remote => 5,
        Stage::Default => 6,
        Stage::RemotePresent => 7,
        Stage::DefaultPresent => 8,
        Stage::Resolve => 9,
        Stage::MergeBase => 10,
        Stage::BranchPatch => 11,
        Stage::Over => 12,
    }
}

/// A preview ends: every answer brings it further, and it is over exactly where it
/// is handed out.
pub proof fn a_preview_ends<E>(previewing: Previewing<Text>, event: Event<Text, E>)
    requires
        previewing.expects(event),
    ensures
        rank(previewing.step(event).0.stage) > rank(previewing.stage),
        previewing.step(event).0.stage == Stage::Over <==> previewing.step(event).1 is Done,
{
}

/// Whatever patch is asked of git is asked for as the call says: changes of white
/// space are left out exactly where it says so, and no step changes the call.
pub proof fn a_patch_is_asked_for_as_the_call_says<E>(previewing: Previewing<Text>, event: Event<Text, E>)
    requires
        previewing.expects(event),
    ensures
        previewing.step(event).1 matches Action::DiffWorkingTree { ignore_whitespace } ==> (ignore_whitespace
            <==> previewing.call.ignore_whitespace == Some(true)),
        previewing.step(event).1 matches Action::DiffFrom { ignore_whitespace, .. } ==> (ignore_whitespace
            <==> previewing.call.ignore_whitespace == Some(true)),
        previewing.step(event).0.call == previewing.call,
{
}

/// A call is read for what it asks: its folder and its base without the space around
/// them, and whether white space counts just as it was given.
pub proof fn a_call_is_read_for_what_it_asks(payload: DiffPreview<Text>)
    ensures
        asked(payload) matches Ok(call) ==> {
            &&& call.cwd == text::trimmed(payload.cwd) && call.cwd.len() > 0
            &&& call.ignore_whitespace == payload.ignore_whitespace
            &&& payload.base_ref is None ==> call.base_ref is None
            &&& payload.base_ref matches Some(base) ==> call.base_ref == Some(text::trimmed(base))
        },
        asked(payload) is Err <==> text::trimmed(payload.cwd).len() == 0 || (payload.base_ref matches Some(base) && (
        text::trimmed(base).len() == 0 || "-"@.is_prefix_of(text::trimmed(base)))),
        asked(payload) matches Err(refused) ==> refused == refs::git_error(
            GET_DIFF_PREVIEW@,
            if text::trimmed(payload.cwd).len() == 0 { payload.cwd } else { text::trimmed(payload.cwd) },
            if text::trimmed(payload.cwd).len() == 0 {
                "This call needs a workspace root; none was given."@
            } else {
                "The comparison base must name a Git revision, not an empty value or an option."@
            },
        ),
{
}

/// A base that is named is the one compared with: it is resolved to a commit, the
/// changes are those since its merge base, and both patches and both names end up in
/// the preview.
pub proof fn a_named_base_is_the_one_compared_with<E>(
    previewing: Previewing<Text>,
    base: Text,
    working: Patch<Text>,
    branch: Text,
    commit: Text,
    merge_base: Text,
    patch: Patch<Text>,
)
    requires
        previewing.stage == Stage::WorkingTree,
        previewing.call.base_ref == Some(base),
    ensures
        ({
            let diffed = previewing.step::<E>(Event::Patched(Ok(working)));
            let named = diffed.0.step::<E>(Event::Named(Some(branch)));
            let present = named.0.step::<E>(Event::Present(true));
            let absent = named.0.step::<E>(Event::Present(false));
            let resolved = present.0.step::<E>(Event::Said(Ok(commit)));
            let merged = resolved.0.step::<E>(Event::Said(Ok(merge_base)));
            let done = merged.0.step::<E>(Event::Patched(Ok(patch)));
            &&& diffed.1 is AskBranch
            &&& named.1 == Action::<Text, E>::AskPresent("HEAD"@)
            &&& present.1 == Action::<Text, E>::Resolve(base + "^{commit}"@)
            &&& resolved.1 == Action::<Text, E>::AskMergeBase(text::trimmed(commit))
            &&& merged.1 matches Action::DiffFrom { tree, .. } && tree == text::trimmed(merge_base)
            &&& done.1 == Action::<Text, E>::Done(
                Ok(
                    Preview {
                        cwd: previewing.folder,
                        patches: Some(
                            Patches { working, branch: patch, base: Some(base), branch_name: Some(text::trimmed(branch)) },
                        ),
                    },
                ),
            )
            &&& absent.1 == Action::<Text, E>::Done(
                Ok(
                    Preview {
                        cwd: previewing.folder,
                        patches: Some(
                            Patches {
                                working,
                                branch: Patch { diff: Seq::empty(), truncated: false },
                                base: Some(base),
                                branch_name: Some(text::trimmed(branch)),
                            },
                        ),
                    },
                ),
            )
        }),
{
    reveal_strlit("");
    assert(""@ =~= Seq::<char>::empty());
}

/// Without a base, the one compared with is the default branch: as the remote has
/// it where that is there, and otherwise as it is here. Without either, without a
/// commit and without a default, nothing is compared.
pub proof fn without_a_base_it_is_the_default_branch<E>(
    previewing: Previewing<Text>,
    remote: Text,
    default: Text,
)
    requires
        previewing.stage == Stage::Head,
        previewing.call.base_ref is None,
    ensures
        ({
            let headless = previewing.step::<E>(Event::Present(false));
            let asked = previewing.step::<E>(Event::Present(true));
            let named = asked.0.step::<E>(Event::Named(Some(remote)));
            let unnamed = asked.0.step::<E>(Event::Named(None));
            let known = named.0.step::<E>(Event::Named(Some(default)));
            let unknown = named.0.step::<E>(Event::Named(None));
            let fetched = known.0.step::<E>(Event::Present(true));
            let untracked = known.0.step::<E>(Event::Present(false));
            let local = unnamed.0.step::<E>(Event::Named(Some(default)));
            let here = untracked.0.step::<E>(Event::Present(true));
            let nowhere = untracked.0.step::<E>(Event::Present(false));
            &&& asked.1 is AskRemote
            &&& named.1 == Action::<Text, E>::AskDefault(Some(remote))
            &&& unnamed.1 == Action::<Text, E>::AskDefault(None)
            &&& known.1 == Action::<Text, E>::AskPresent(remote + "/"@ + default)
            &&& fetched.1 == Action::<Text, E>::Resolve(remote + "/"@ + default + "^{commit}"@)
            &&& fetched.0.base == Some(remote + "/"@ + default)
            &&& untracked.1 == Action::<Text, E>::AskPresent(default)
            &&& here.1 == Action::<Text, E>::Resolve(default + "^{commit}"@)
            &&& here.0.base == Some(default)
            &&& local.1 == Action::<Text, E>::AskPresent(default)
            &&& local.0.step::<E>(Event::Present(true)).0.base == Some(default)
            &&& local.0.step::<E>(Event::Present(true)).1 == Action::<Text, E>::Resolve(default + "^{commit}"@)
            &&& headless.1 matches Action::Done(Ok(preview)) && preview.patches is Some && preview.patches->0.base is None
                && preview.patches->0.branch.diff.len() == 0 && !preview.patches->0.branch.truncated
                && preview.patches->0.working == previewing.working && preview.patches->0.branch_name == previewing.branch
            &&& unknown.1 matches Action::Done(Ok(preview)) && preview.patches is Some && preview.patches->0.base is None
                && preview.patches->0.branch.diff.len() == 0
            &&& nowhere.1 matches Action::Done(Ok(preview)) && preview.patches is Some && preview.patches->0.base is None
                && preview.patches->0.branch.diff.len() == 0
        }),
{
    reveal_strlit("");
}

/// The folder is the one that was shown, and a folder that is none, or a git that
/// fails, is answered in its own words.
pub proof fn a_preview_fails_in_its_own_words<E>(previewing: Previewing<Text>, event: Event<Text, E>)
    requires
        previewing.expects(event),
    ensures
        event matches Event::Folder(Ok(shown)) ==> previewing.step(event).0.folder == shown && previewing.step(event).1
            == Action::<Text, E>::AskInside,
        !(event is Folder) ==> previewing.step(event).0.folder == previewing.folder,
        event matches Event::Folder(Err(why)) ==> previewing.step(event).1 == Action::<Text, E>::Done(
            Err(Failure::Folder(why)),
        ),
        event matches Event::Inside(Inside::Failed(why)) ==> previewing.step(event).1 == Action::<Text, E>::Done(
            Err(Failure::Git(why)),
        ),
        event matches Event::Patched(Err(why)) ==> previewing.step(event).1 == Action::<Text, E>::Done(
            Err(Failure::Git(why)),
        ),
        event matches Event::Said(Err(why)) ==> previewing.step(event).1 == Action::<Text, E>::Done(
            Err(Failure::Git(why)),
        ),
        event matches Event::Inside(Inside::Said(said)) ==> text::trimmed(said) != "true"@ ==> previewing.step(event).1
            == Action::<Text, E>::Done(Ok(Preview { cwd: previewing.folder, patches: None })),
        previewing.step(event).1 matches Action::Done(Err(why)) ==> event matches Event::Folder(Err(_)) || event matches
            Event::Inside(Inside::Failed(_)) || event matches Event::Patched(Err(_)) || event matches Event::Said(Err(_)),
{
}

/// What is shown of a patch is that patch: its text, whether it was cut, and a hash
/// of its own text, between the two names that it was made for.
pub proof fn a_source_shows_its_own_patch(
    kind: Text,
    title: Text,
    base: Option<Text>,
    head: Option<Text>,
    patch: Patch<Text>,
    hash: Text,
)
    ensures
        ({
            let shown = source_value(kind, title, base, head, patch, hash);
            &&& json::holds(shown, "diff"@, Value::Text(patch.diff))
            &&& json::holds(shown, "truncated"@, Value::Bool(patch.truncated))
            &&& json::holds(shown, "diffHash"@, Value::Text(hash))
            &&& json::holds(shown, "id"@, Value::Text(kind))
            &&& json::holds(shown, "kind"@, Value::Text(kind))
            &&& json::holds(shown, "title"@, Value::Text(title))
            &&& base matches Some(base) ==> json::holds(shown, "baseRef"@, Value::Text(base))
            &&& base is None ==> json::holds(shown, "baseRef"@, Value::Null)
            &&& head matches Some(head) ==> json::holds(shown, "headRef"@, Value::Text(head))
            &&& head is None ==> json::holds(shown, "headRef"@, Value::Null)
            &&& shown->Object_0.len() == 8
        }),
{
    let fields = source_value(kind, title, base, head, patch, hash)->Object_0;
    assert(fields[0] == fields[0] && fields[1] == ("diff"@, Value::Text(patch.diff)));
    assert(fields[2].0 == "diffHash"@ && fields[3].0 == "headRef"@ && fields[4].0 == "id"@ && fields[5].0 == "kind"@);
    assert(fields[6].0 == "title"@ && fields[7].0 == "truncated"@ && fields[0].0 == "baseRef"@);
}

/// A preview shows the working tree against `HEAD` and the branch against its base,
/// in that order, each by its own patch; where there is no repository it shows
/// nothing.
pub proof fn a_preview_shows_both_patches(preview: Preview<Text>, generated_at: Text)
    ensures
        ({
            let sources = sources_of(preview);
            let shown = result_value(preview.cwd, generated_at, sources);
            &&& json::holds(shown, "cwd"@, Value::Text(preview.cwd))
            &&& json::holds(shown, "generatedAt"@, Value::Text(generated_at))
            &&& json::holds(shown, "sources"@, Value::Array(sources))
            &&& preview.patches is None ==> sources.len() == 0
            &&& preview.patches matches Some(patches) ==> {
                &&& sources.len() == 2
                &&& json::holds(sources[0], "kind"@, Value::Text("working-tree"@))
                &&& json::holds(sources[0], "title"@, Value::Text("Working tree"@))
                &&& json::holds(sources[0], "diff"@, Value::Text(patches.working.diff))
                &&& json::holds(sources[0], "truncated"@, Value::Bool(patches.working.truncated))
                &&& json::holds(sources[0], "baseRef"@, Value::Text("HEAD"@))
                &&& json::holds(sources[0], "headRef"@, Value::Null)
                &&& json::holds(sources[0], "diffHash"@, Value::Text(hex(sha256(patches.working.diff))))
                &&& json::holds(sources[1], "kind"@, Value::Text("branch-range"@))
                &&& json::holds(sources[1], "diff"@, Value::Text(patches.branch.diff))
                &&& json::holds(sources[1], "truncated"@, Value::Bool(patches.branch.truncated))
                &&& json::holds(sources[1], "diffHash"@, Value::Text(hex(sha256(patches.branch.diff))))
                &&& patches.base matches Some(base) ==> json::holds(sources[1], "title"@, Value::Text("Against "@ + base))
                    && json::holds(sources[1], "baseRef"@, Value::Text(base))
                &&& patches.base is None ==> json::holds(sources[1], "title"@, Value::Text("Against base branch"@)) && json::holds(
                    sources[1],
                    "baseRef"@,
                    Value::Null,
                )
                &&& patches.branch_name matches Some(name) ==> json::holds(sources[1], "headRef"@, Value::Text(name))
                &&& patches.branch_name is None ==> json::holds(sources[1], "headRef"@, Value::Text("HEAD"@))
            }
        }),
{
    let sources = sources_of(preview);
    let fields = result_value(preview.cwd, generated_at, sources)->Object_0;
    assert(fields[0].0 == "cwd"@ && fields[1].0 == "generatedAt"@ && fields[2].0 == "sources"@);
    if let Some(patches) = preview.patches {
        a_source_shows_its_own_patch(
            "working-tree"@,
            "Working tree"@,
            Some("HEAD"@),
            None,
            patches.working,
            hex(sha256(patches.working.diff)),
        );
        a_source_shows_its_own_patch(
            "branch-range"@,
            match patches.base {
                Some(base) => "Against "@ + base,
                None => "Against base branch"@,
            },
            patches.base,
            Some(
                match patches.branch_name {
                    Some(name) => name,
                    None => "HEAD"@,
                },
            ),
            patches.branch,
            hex(sha256(patches.branch.diff)),
        );
    }
}

/// What a hexadecimal digit stands for.
pub open spec fn digit_value(c: char) -> int {
    if '0' <= c <= '9' {
        c as u32 - '0' as u32
    } else {
        10 + (c as u32 - 'a' as u32)
    }
}

/// Hexadecimal loses nothing: two digits stand for each byte, in small letters.
pub proof fn hexadecimal_is_read_back(bytes: Seq<u8>, i: int)
    requires
        0 <= i < bytes.len(),
    ensures
        hex(bytes).len() == 2 * bytes.len(),
        digit_value(hex(bytes)[2 * i]) * 16 + digit_value(hex(bytes)[2 * i + 1]) == bytes[i],
        ('0' <= hex(bytes)[2 * i] <= '9') || ('a' <= hex(bytes)[2 * i] <= 'f'),
        ('0' <= hex(bytes)[2 * i + 1] <= '9') || ('a' <= hex(bytes)[2 * i + 1] <= 'f'),
{
    assert((2 * i) / 2 == i && (2 * i) % 2 == 0);
    assert((2 * i + 1) / 2 == i && (2 * i + 1) % 2 == 1);
    let high = bytes[i] as int / 16;
    let low = bytes[i] as int % 16;
    assert(0 <= high < 16 && 0 <= low < 16);
    assert(hex(bytes)[2 * i] == hex_digit(high));
    assert(hex(bytes)[2 * i + 1] == hex_digit(low));
}

} // verus!
