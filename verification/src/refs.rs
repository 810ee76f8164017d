//! Refs: the branches a project has, the one it is on, and the repository it does
//! not have yet.
//!
//! git does the work. What is decided here is what it is asked, and what its
//! answers mean.

pub mod conduct;
pub mod listing;
pub mod names;

pub use crate::refs::listing::{Asked, Bearings, Kind, ListRefs, Listing, Ref};

use crate::json;
use crate::json::{Fields, Json, Value};
use crate::text;
use vstd::prelude::*;

verus! {

/// Text as the contracts see it.
pub type Text = Seq<char>;

/// The branch picker.
pub const LIST_REFS: &'static str = "vcs.listRefs";

/// Starting work on a branch that does not exist yet.
pub const CREATE_REF: &'static str = "vcs.createRef";

/// Moving the working tree to another branch.
pub const SWITCH_REF: &'static str = "vcs.switchRef";

/// Making a repository in a project that has none.
pub const INIT: &'static str = "vcs.init";

// ---------------------------------------------------------------------------
// Refusals
// ---------------------------------------------------------------------------

/// The error that the calls which run git are refused with.
pub open spec fn git_error(operation: Text, cwd: Text, detail: Text) -> Value {
    Value::Object(
        seq![
            ("_tag"@, Value::Text("GitCommandError"@)),
            ("cwd"@, Value::Text(cwd)),
            ("detail"@, Value::Text(detail)),
            ("operation"@, Value::Text(operation)),
        ],
    )
}

/// The error that the calls which run git are refused with.
pub fn unusable(operation: &str, cwd: &str, detail: &str) -> (out: Json)
    ensures
        out@ == git_error(operation@, cwd@, detail@),
{
    let fields: Fields = vec![
        json::entry("_tag", Json::text("GitCommandError")),
        json::entry("cwd", Json::text(cwd)),
        json::entry("detail", Json::text(detail)),
        json::entry("operation", Json::text(operation)),
    ];
    proof {
        assert(json::fields_view(fields@) =~= git_error(operation@, cwd@, detail@)->Object_0);
    }
    Json::object(fields)
}

/// The folder that a call is about, or the method's own refusal where none is
/// named.
pub open spec fn workspace_in(raw: Text, operation: Text) -> Result<Text, Value> {
    if text::trimmed(raw).len() == 0 {
        Err(git_error(operation, ""@, "This call needs a workspace root; none was given."@))
    } else {
        Ok(text::trimmed(raw))
    }
}

/// The folder that a call is about, or the method's own refusal where none is
/// named.
pub(crate) fn workspace(raw: &str, operation: &str) -> (out: Result<String, Json>)
    ensures
        match out {
            Ok(cwd) => workspace_in(raw@, operation@) == Ok::<Text, Value>(cwd@),
            Err(refused) => workspace_in(raw@, operation@) == Err::<Text, Value>(refused@),
        },
{
    let cwd = text::trim(raw);
    if cwd.as_str().is_empty() {
        Err(unusable(operation, "", "This call needs a workspace root; none was given."))
    } else {
        Ok(cwd)
    }
}

/// The folder and the branch name that a call is about. The name is looked at
/// behind the folder, so that a refusal of the name can say which folder.
pub open spec fn workspace_and_name_in(cwd: Text, name: Text, operation: Text) -> Result<(Text, Text), Value> {
    match workspace_in(cwd, operation) {
        Err(refused) => Err(refused),
        Ok(cwd) => match names::checked(name) {
            Err(problem) => Err(git_error(operation, cwd, problem)),
            Ok(name) => Ok((cwd, name)),
        },
    }
}

/// The folder and the branch name that a call is about.
fn workspace_and_name(cwd: &str, name: &str, operation: &str) -> (out: Result<(String, String), Json>)
    ensures
        match out {
            Ok((folder, branch)) => workspace_and_name_in(cwd@, name@, operation@) == Ok::<(Text, Text), Value>(
                (folder@, branch@),
            ),
            Err(refused) => workspace_and_name_in(cwd@, name@, operation@) == Err::<(Text, Text), Value>(refused@),
        },
{
    let cwd = workspace(cwd, operation)?;
    match names::check_name(name) {
        Ok(name) => Ok((cwd, name)),
        Err(problem) => Err(unusable(operation, &cwd, &problem)),
    }
}

// ---------------------------------------------------------------------------
// Listing
// ---------------------------------------------------------------------------

impl ListRefs<String> {
    /// The listing that a payload asks for, or why it asks for none.
    pub fn read(cwd: &str, asked: &Asked<String>) -> (out: Result<ListRefs<String>, Json>)
        ensures
            match (workspace_in(cwd@, "vcs.listRefs"@), out) {
                (Ok(folder), Ok(call)) => call@ == listing::listing_call(
                    folder,
                    asked@,
                    listing::lowered(asked@.query),
                ),
                (Err(refusal), Err(refused)) => refused@ == refusal,
                _ => false,
            },
    {
        let cwd = workspace(cwd, LIST_REFS)?;
        Ok(listing::call(cwd, asked))
    }
}

// ---------------------------------------------------------------------------
// Creating
// ---------------------------------------------------------------------------

/// A branch that is to be made. Its name is one that git takes.
#[derive(Debug, PartialEq, Eq)]
pub struct CreateRef<S> {
    pub cwd: S,
    pub name: S,
    pub switch: bool,
}

impl View for CreateRef<String> {
    type V = CreateRef<Text>;

    open spec fn view(&self) -> CreateRef<Text> {
        CreateRef { cwd: self.cwd@, name: self.name@, switch: self.switch }
    }
}

impl CreateRef<Text> {
    /// What git is asked to make the branch, or why it cannot be made.
    pub open spec fn asking(self, exists: bool, committed: bool) -> Result<Seq<Text>, Text> {
        if exists {
            Err(
                "A branch named '"@ + self.name
                    + "' already exists in this repository. Switch to it, or choose another name."@,
            )
        } else if !self.switch && !committed {
            Err(
                "This repository has no commits yet, so there is no position to make '"@ + self.name
                    + "' at. Commit something first, or switch to the new branch as it is created."@,
            )
        } else if self.switch {
            Ok(seq!["switch"@, "--create"@, self.name])
        } else {
            Ok(seq!["branch"@, self.name])
        }
    }
}

impl CreateRef<String> {
    /// The branch that a payload asks for, or why it asks for none.
    pub fn read(cwd: &str, ref_name: &str, switch_ref: Option<bool>) -> (out: Result<CreateRef<String>, Json>)
        ensures
            match (workspace_and_name_in(cwd@, ref_name@, "vcs.createRef"@), out) {
                (Ok((folder, name)), Ok(call)) => (call@ == CreateRef {
                    cwd: folder,
                    name,
                    switch: switch_ref == Some(true),
                }),
                (Err(refusal), Err(refused)) => refused@ == refusal,
                _ => false,
            },
    {
        let (cwd, name) = workspace_and_name(cwd, ref_name, CREATE_REF)?;
        let switch: bool = match switch_ref {
            Some(switch) => switch,
            None => false,
        };
        Ok(CreateRef { cwd, name, switch })
    }

    /// The full name of the branch, to be looked for before it is made.
    pub fn refname(&self) -> (out: String)
        ensures
            out@ == "refs/heads/"@ + self.name@,
    {
        text::glue("refs/heads/", &self.name)
    }

    /// What git is asked to make the branch, or why it cannot be made. `committed`
    /// is only looked at where the working tree stays where it is.
    pub fn arguments(&self, exists: bool, committed: bool) -> (out: Result<Vec<String>, String>)
        ensures
            match out {
                Ok(arguments) => self@.asking(exists, committed) == Ok::<Seq<Text>, Text>(
                    text::views(arguments@),
                ),
                Err(why) => self@.asking(exists, committed) == Err::<Seq<Text>, Text>(why@),
            },
    {
        if exists {
            return Err(
                text::glue3(
                    "A branch named '",
                    &self.name,
                    "' already exists in this repository. Switch to it, or choose another name.",
                ),
            );
        }
        if !self.switch && !committed {
            return Err(
                text::glue3(
                    "This repository has no commits yet, so there is no position to make '",
                    &self.name,
                    "' at. Commit something first, or switch to the new branch as it is created.",
                ),
            );
        }
        let out: Vec<String> = if self.switch {
            vec!["switch".to_owned(), "--create".to_owned(), self.name.clone()]
        } else {
            vec!["branch".to_owned(), self.name.clone()]
        };
        proof {
            if self.switch {
                assert(text::views(out@) =~= seq!["switch"@, "--create"@, self.name@]);
            } else {
                assert(text::views(out@) =~= seq!["branch"@, self.name@]);
            }
        }
        Ok(out)
    }

    /// Whether making the branch changes what a status says: only a switch does.
    pub fn disturbs(&self) -> (out: bool)
        ensures
            out == self.switch,
    {
        self.switch
    }

    /// The answer, once the branch is made.
    pub fn answer(&self) -> (out: Json)
        ensures
            out@ == named_ref(Some(self.name@)),
    {
        ref_value(&Some(self.name.clone()))
    }
}

/// The answer that names the ref a working tree is on, or that it is on none.
pub open spec fn named_ref(name: Option<Text>) -> Value {
    Value::Object(
        seq![
            (
                "refName"@,
                match name {
                    Some(name) => Value::Text(name),
                    None => Value::Null,
                },
            ),
        ],
    )
}

/// The answer that names the ref a working tree is on, or that it is on none.
pub fn ref_value(name: &Option<String>) -> (out: Json)
    ensures
        out@ == named_ref(text::maybe(*name)),
{
    let value = match name {
        Some(name) => Json::text(name),
        None => Json::Null,
    };
    let fields: Fields = vec![json::entry("refName", value)];
    proof {
        assert(json::fields_view(fields@) =~= named_ref(text::maybe(*name))->Object_0);
    }
    Json::object(fields)
}

// ---------------------------------------------------------------------------
// Switching
// ---------------------------------------------------------------------------

/// A branch that a working tree is to be moved to.
#[derive(Debug, PartialEq, Eq)]
pub struct SwitchRef<S> {
    pub cwd: S,
    pub name: S,
}

impl View for SwitchRef<String> {
    type V = SwitchRef<Text>;

    open spec fn view(&self) -> SwitchRef<Text> {
        SwitchRef { cwd: self.cwd@, name: self.name@ }
    }
}

impl SwitchRef<Text> {
    /// The local branch that a remote ref of this name is switched to. A name under
    /// no remote is taken whole.
    pub open spec fn local_branch(self, remotes: Seq<Text>) -> Text {
        match listing::remote_of(remotes, self.name) {
            Some(remote) => self.name.skip(remote.len() as int + 1),
            None => self.name,
        }
    }

    /// What git is asked to get onto the ref: the branch of this name; the local
    /// branch of a remote ref, where there is one; or a new branch that tracks it.
    pub open spec fn asking(self, local: bool, remote: bool, remotes: Seq<Text>, branch_exists: bool) -> Result<
        Seq<Text>,
        Text,
    > {
        if local {
            Ok(seq!["switch"@, self.name])
        } else if remote {
            if branch_exists {
                Ok(seq!["switch"@, self.local_branch(remotes)])
            } else {
                Ok(seq!["switch"@, "--create"@, self.local_branch(remotes), "--track"@, self.name])
            }
        } else {
            Err("There is no branch named '"@ + self.name + "' in this repository."@)
        }
    }
}

impl SwitchRef<String> {
    /// The switch that a payload asks for, or why it asks for none.
    pub fn read(cwd: &str, ref_name: &str) -> (out: Result<SwitchRef<String>, Json>)
        ensures
            match (workspace_and_name_in(cwd@, ref_name@, "vcs.switchRef"@), out) {
                (Ok((folder, name)), Ok(call)) => (call@ == SwitchRef { cwd: folder, name }),
                (Err(refusal), Err(refused)) => refused@ == refusal,
                _ => false,
            },
    {
        let (cwd, name) = workspace_and_name(cwd, ref_name, SWITCH_REF)?;
        Ok(SwitchRef { cwd, name })
    }

    /// The full name of the local branch.
    pub fn local_refname(&self) -> (out: String)
        ensures
            out@ == "refs/heads/"@ + self.name@,
    {
        text::glue("refs/heads/", &self.name)
    }

    /// The full name of the remote ref.
    pub fn remote_refname(&self) -> (out: String)
        ensures
            out@ == "refs/remotes/"@ + self.name@,
    {
        text::glue("refs/remotes/", &self.name)
    }

    /// The local branch that a remote ref of this name is switched to.
    pub fn local_branch(&self, remotes: &Vec<String>) -> (out: String)
        ensures
            out@ == self@.local_branch(text::views(remotes@)),
    {
        match listing::split_at_remote(remotes, &self.name) {
            Some((_, branch)) => branch,
            None => self.name.clone(),
        }
    }

    /// What git is asked to get onto the ref. `local` and `remote` say whether the
    /// refs of [`SwitchRef::local_refname`] and [`SwitchRef::remote_refname`] are
    /// there, and `branch_exists` whether [`SwitchRef::local_branch`] is.
    pub fn target(&self, local: bool, remote: bool, remotes: &Vec<String>, branch_exists: bool) -> (out: Result<
        Vec<String>,
        String,
    >)
        ensures
            match out {
                Ok(arguments) => self@.asking(local, remote, text::views(remotes@), branch_exists) == Ok::<
                    Seq<Text>,
                    Text,
                >(text::views(arguments@)),
                Err(why) => self@.asking(local, remote, text::views(remotes@), branch_exists) == Err::<
                    Seq<Text>,
                    Text,
                >(why@),
            },
    {
        if local {
            let out: Vec<String> = vec!["switch".to_owned(), self.name.clone()];
            proof {
                assert(text::views(out@) =~= seq!["switch"@, self.name@]);
            }
            return Ok(out);
        }
        if remote {
            let branch = self.local_branch(remotes);
            let ghost wanted = branch@;
            if branch_exists {
                let out: Vec<String> = vec!["switch".to_owned(), branch];
                proof {
                    assert(text::views(out@) =~= seq!["switch"@, wanted]);
                }
                return Ok(out);
            }
            let out: Vec<String> = vec![
                "switch".to_owned(),
                "--create".to_owned(),
                branch,
                "--track".to_owned(),
                self.name.clone(),
            ];
            proof {
                assert(text::views(out@) =~= seq!["switch"@, "--create"@, wanted, "--track"@, self.name@]);
            }
            return Ok(out);
        }
        Err(text::glue3("There is no branch named '", &self.name, "' in this repository."))
    }
}

/// A name that a listing shows for a remote ref is switched to as the branch that
/// the listing says it is of, where the two are asked of the same remotes.
pub proof fn a_listed_ref_is_switched_to_its_branch(
    bearings: listing::BearingsModel,
    refname: Text,
    cwd: Text,
)
    ensures
        bearings.describe(refname) matches Some(found) ==> found.remote is Some ==> (SwitchRef {
            cwd,
            name: found.name,
        }).local_branch(bearings.remotes) == found.branch(),
{
}

// ---------------------------------------------------------------------------
// Initialising
// ---------------------------------------------------------------------------

/// Which version control system a call is about.
#[derive(Debug, Clone, Copy, PartialEq, Eq, Structural)]
pub enum Driver {
    Git,
    /// Known to the contract, and not driven here.
    Jj,
    /// A client that could not tell. Read as git.
    Unknown,
}

/// Which version control system a word names.
pub open spec fn driver_named(kind: Option<Text>) -> Driver {
    if kind == Some("jj"@) {
        Driver::Jj
    } else if kind == Some("unknown"@) {
        Driver::Unknown
    } else {
        Driver::Git
    }
}

/// A repository that is to be made.
#[derive(Debug, PartialEq, Eq)]
pub struct Init<S> {
    pub cwd: S,
    pub driver: Driver,
}

impl View for Init<String> {
    type V = Init<Text>;

    open spec fn view(&self) -> Init<Text> {
        Init { cwd: self.cwd@, driver: self.driver }
    }
}

/// What came of making a repository.
#[derive(Debug, PartialEq, Eq)]
pub enum Made<S> {
    /// The folder is none that can be used.
    Rejected(S),
    /// git could not be started.
    NotStarted(S),
    /// git ran and said no.
    Failed { exit_code: Option<i32>, detail: S, stderr_length: u64 },
    Done,
}

/// The error about a place rather than about a process.
pub open spec fn detection_error(cwd: Text, detail: Text) -> Value {
    Value::Object(
        seq![
            ("_tag"@, Value::Text("VcsRepositoryDetectionError"@)),
            ("cwd"@, Value::Text(cwd)),
            ("detail"@, Value::Text(detail)),
            ("operation"@, Value::Text("vcs.init"@)),
        ],
    )
}

/// The error about a place rather than about a process.
pub fn detection_failed(cwd: &str, detail: &str) -> (out: Json)
    ensures
        out@ == detection_error(cwd@, detail@),
{
    let fields: Fields = vec![
        json::entry("_tag", Json::text("VcsRepositoryDetectionError")),
        json::entry("cwd", Json::text(cwd)),
        json::entry("detail", Json::text(detail)),
        json::entry("operation", Json::text(INIT)),
    ];
    proof {
        assert(json::fields_view(fields@) =~= detection_error(cwd@, detail@)->Object_0);
    }
    Json::object(fields)
}

/// The refusal of a system that is not driven here.
pub open spec fn unsupported_error() -> Value {
    Value::Object(
        seq![
            ("_tag"@, Value::Text("VcsUnsupportedOperationError"@)),
            (
                "detail"@,
                Value::Text(
                    "This server drives git and nothing else. A jj repository has to be created outside it."@,
                ),
            ),
            ("kind"@, Value::Text("jj"@)),
            ("operation"@, Value::Text("vcs.init"@)),
        ],
    )
}

/// A number as it is written, with a sign where it is negative.
pub open spec fn signed(n: i32) -> Value {
    if n >= 0 {
        Value::Whole(n as u64)
    } else {
        Value::Number("-"@ + text::decimal((-(n as int)) as nat))
    }
}

/// A number as it is written, with a sign where it is negative.
fn signed_value(n: i32) -> (out: Json)
    ensures
        out@ == signed(n),
{
    if n >= 0 {
        Json::Whole(n as u64)
    } else {
        let magnitude: i64 = -(n as i64);
        Json::Number(text::glue("-", &text::decimal_text(magnitude as u64)))
    }
}

/// What making a repository is answered with.
pub open spec fn init_answer(cwd: Text, driver: Driver, made: Made<Text>) -> Result<Value, Value> {
    if driver == Driver::Jj {
        Err(unsupported_error())
    } else {
        match made {
            Made::Rejected(why) => Err(detection_error(cwd, why)),
            Made::NotStarted(cause) => Err(
                Value::Object(
                    seq![
                        ("_tag"@, Value::Text("VcsProcessSpawnError"@)),
                        ("cause"@, Value::Text(cause)),
                        ("command"@, Value::Text("git"@)),
                        ("cwd"@, Value::Text(cwd)),
                        ("operation"@, Value::Text("vcs.init"@)),
                    ],
                ),
            ),
            Made::Failed { exit_code, detail, stderr_length } => Err(
                Value::Object(
                    seq![
                        ("_tag"@, Value::Text("VcsProcessExitError"@)),
                        ("command"@, Value::Text("git"@)),
                        ("cwd"@, Value::Text(cwd)),
                        ("detail"@, Value::Text(detail)),
                        (
                            "exitCode"@,
                            signed(
                                match exit_code {
                                    Some(code) => code,
                                    None => -1i32 as i32,
                                },
                            ),
                        ),
                        ("failureKind"@, Value::Text("command-failed"@)),
                        ("operation"@, Value::Text("vcs.init"@)),
                        ("stderrLength"@, Value::Whole(stderr_length)),
                    ],
                ),
            ),
            Made::Done => Ok(Value::Null),
        }
    }
}

impl View for Made<String> {
    type V = Made<Text>;

    open spec fn view(&self) -> Made<Text> {
        match self {
            Made::Rejected(why) => Made::Rejected(why@),
            Made::NotStarted(cause) => Made::NotStarted(cause@),
            Made::Failed { exit_code, detail, stderr_length } => Made::Failed {
                exit_code: *exit_code,
                detail: detail@,
                stderr_length: *stderr_length,
            },
            Made::Done => Made::Done,
        }
    }
}

impl Init<String> {
    /// The repository that a payload asks for, or why it asks for none.
    pub fn read(cwd: &str, kind: &Option<String>) -> (out: Result<Init<String>, Json>)
        ensures
            match out {
                Ok(call) => text::trimmed(cwd@).len() > 0 && call.cwd@ == text::trimmed(cwd@) && call.driver
                    == driver_named(text::maybe(*kind)),
                Err(refused) => text::trimmed(cwd@).len() == 0 && refused@ == detection_error(
                    ""@,
                    "This call needs a workspace root; none was given."@,
                ),
            },
    {
        let cwd = text::trim(cwd);
        if cwd.as_str().is_empty() {
            return Err(detection_failed("", "This call needs a workspace root; none was given."));
        }
        let driver = match kind {
            Some(kind) => if text::same(kind, "jj") {
                Driver::Jj
            } else if text::same(kind, "unknown") {
                Driver::Unknown
            } else {
                Driver::Git
            },
            None => Driver::Git,
        };
        Ok(Init { cwd, driver })
    }

    /// Whether git is to be asked at all, or the refusal of a system that is not
    /// driven here.
    pub fn begin(&self) -> (out: Result<(), Json>)
        ensures
            match out {
                Ok(_) => self.driver != Driver::Jj,
                Err(refused) => self.driver == Driver::Jj && refused@ == unsupported_error(),
            },
    {
        if self.driver != Driver::Jj {
            return Ok(());
        }
        let fields: Fields = vec![
            json::entry("_tag", Json::text("VcsUnsupportedOperationError")),
            json::entry(
                "detail",
                Json::text(
                    "This server drives git and nothing else. A jj repository has to be created outside it.",
                ),
            ),
            json::entry("kind", Json::text("jj")),
            json::entry("operation", Json::text(INIT)),
        ];
        proof {
            assert(json::fields_view(fields@) =~= unsupported_error()->Object_0);
        }
        Err(Json::object(fields))
    }

    /// What making the repository is answered with.
    pub fn answer(&self, made: &Made<String>) -> (out: Result<Json, Json>)
        ensures
            match (init_answer(self.cwd@, self.driver, made@), out) {
                (Ok(value), Ok(answer)) => answer@ == value,
                (Err(refusal), Err(refused)) => refused@ == refusal,
                _ => false,
            },
    {
        match self.begin() {
            Ok(_) => {},
            Err(refused) => {
                return Err(refused);
            },
        }
        let ghost wanted = init_answer(self.cwd@, self.driver, made@);
        match made {
            Made::Rejected(why) => Err(detection_failed(&self.cwd, why)),
            Made::NotStarted(cause) => {
                let fields: Fields = vec![
                    json::entry("_tag", Json::text("VcsProcessSpawnError")),
                    json::entry("cause", Json::text(cause)),
                    json::entry("command", Json::text("git")),
                    json::entry("cwd", Json::text(&self.cwd)),
                    json::entry("operation", Json::text(INIT)),
                ];
                proof {
                    assert(json::fields_view(fields@) =~= wanted->Err_0->Object_0);
                }
                Err(Json::object(fields))
            },
            Made::Failed { exit_code, detail, stderr_length } => {
                let code: i32 = match exit_code {
                    Some(code) => *code,
                    None => -1i32,
                };
                let fields: Fields = vec![
                    json::entry("_tag", Json::text("VcsProcessExitError")),
                    json::entry("command", Json::text("git")),
                    json::entry("cwd", Json::text(&self.cwd)),
                    json::entry("detail", Json::text(detail)),
                    json::entry("exitCode", signed_value(code)),
                    json::entry("failureKind", Json::text("command-failed")),
                    json::entry("operation", Json::text(INIT)),
                    json::entry("stderrLength", Json::Whole(*stderr_length)),
                ];
                proof {
                    assert(json::fields_view(fields@) =~= wanted->Err_0->Object_0);
                }
                Err(Json::object(fields))
            },
            Made::Done => Ok(Json::Null),
        }
    }
}

} // verus!
