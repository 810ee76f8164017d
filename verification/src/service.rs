//! Running the server in the background, so that a machine reached over a remote
//! shell keeps one after the session closes.
//!
//! What the unit says is decided in [`unit`]. What is decided here is where it
//! points, and in which order a machine is changed and put back.

pub mod activation;
pub mod unit;

pub use crate::service::unit::{escape, quote, render, started_the_same_way, Plan};

use crate::text;
use vstd::prelude::*;

verus! {

/// Text as the contracts see it.
pub type Text = Seq<char>;

/// What the unit file is called.
pub const UNIT: &'static str = "laplus.service";

/// What `service` was asked to do.
#[derive(Debug, Clone, Copy, PartialEq, Eq, Structural)]
pub enum Verb {
    /// Write the unit and start it, or bring an old one up to date.
    Install,
    Status,
    Uninstall,
}

impl Verb {
    /// What a word asks for.
    pub open spec fn reading(word: Text) -> Option<Verb> {
        if word == "install"@ || word == "update"@ || word == "repair"@ {
            Some(Verb::Install)
        } else if word == "status"@ {
            Some(Verb::Status)
        } else if word == "uninstall"@ || word == "remove"@ {
            Some(Verb::Uninstall)
        } else {
            None
        }
    }

    /// What a word asks for.
    pub fn parse(word: &str) -> (out: Result<Verb, String>)
        ensures
            match out {
                Ok(verb) => Verb::reading(word@) == Some(verb),
                Err(why) => Verb::reading(word@) is None && why@ == "unrecognised service command "@ + word@
                    + " — install, status or uninstall"@,
            },
    {
        if text::same(word, "install") || text::same(word, "update") || text::same(word, "repair") {
            Ok(Verb::Install)
        } else if text::same(word, "status") {
            Ok(Verb::Status)
        } else if text::same(word, "uninstall") || text::same(word, "remove") {
            Ok(Verb::Uninstall)
        } else {
            Err(text::glue3("unrecognised service command ", word, " — install, status or uninstall"))
        }
    }
}

/// What an install or uninstall did.
#[derive(Debug, PartialEq, Eq)]
pub enum Outcome<P> {
    Installed(P),
    /// The unit already said what would be written now.
    Unchanged(P),
    Updated(P),
    Removed,
    NotInstalled,
}

/// Whether a service is installed, and whether it is the one that would be written
/// now.
#[derive(Debug, PartialEq, Eq)]
pub struct Status<S> {
    pub supported: bool,
    pub installed: bool,
    /// The unit starts the server as a new one would, and the binary that it names
    /// is still there.
    pub current: bool,
    pub unit_path: S,
    pub log_path: S,
}

impl View for Status<String> {
    type V = Status<Text>;

    open spec fn view(&self) -> Status<Text> {
        Status {
            supported: self.supported,
            installed: self.installed,
            current: self.current,
            unit_path: self.unit_path@,
            log_path: self.log_path@,
        }
    }
}

impl Status<Text> {
    /// What an operator is shown.
    pub open spec fn shown(self) -> Text {
        if !self.supported {
            "laplus service\n  status: unavailable here\n  supported on: Linux with systemd"@
        } else if !self.installed {
            "laplus service\n  status: not installed\n  next: laplus-server service install"@
        } else if self.current {
            "laplus service\n  status: installed\n  unit: "@ + self.unit_path + "\n  log: "@ + self.log_path
        } else {
            "laplus service\n  status: installed, out of date\n  unit: "@ + self.unit_path + "\n  log: "@
                + self.log_path + "\n  next: laplus-server service install, to bring it up to this binary"@
        }
    }
}

impl Status<String> {
    /// What an operator is shown.
    pub fn to_text(&self) -> (out: String)
        ensures
            out@ == self@.shown(),
    {
        if !self.supported {
            "laplus service\n  status: unavailable here\n  supported on: Linux with systemd".to_owned()
        } else if !self.installed {
            "laplus service\n  status: not installed\n  next: laplus-server service install".to_owned()
        } else if self.current {
            text::glue4(
                "laplus service\n  status: installed\n  unit: ",
                &self.unit_path,
                "\n  log: ",
                &self.log_path,
            )
        } else {
            text::glue5(
                "laplus service\n  status: installed, out of date\n  unit: ",
                &self.unit_path,
                "\n  log: ",
                &self.log_path,
                "\n  next: laplus-server service install, to bring it up to this binary",
            )
        }
    }
}

// ---------------------------------------------------------------------------
// Places
// ---------------------------------------------------------------------------

/// Whether a path is in a cache that a package manager may empty.
pub open spec fn ephemeral(path: Text) -> bool {
    ||| text::occurs(path, "/_npx/"@)
    ||| text::occurs(path, "\\_npx\\"@)
    ||| text::occurs(path, "/pnpm/dlx/"@)
    ||| text::occurs(path, "/.pnpm/dlx/"@)
    ||| text::occurs(path, "/.bun/install/cache/"@)
}

/// Whether a path is in a cache that a package manager may empty.
pub fn is_ephemeral(path: &str) -> (out: bool)
    ensures
        out == ephemeral(path@),
{
    text::contains(path, "/_npx/") || text::contains(path, "\\_npx\\") || text::contains(path, "/pnpm/dlx/")
        || text::contains(path, "/.pnpm/dlx/") || text::contains(path, "/.bun/install/cache/")
}

/// A path below a directory.
pub open spec fn below(directory: Text, name: Text) -> Text {
    if directory.len() == 0 {
        name
    } else if directory.last() == '/' {
        directory + name
    } else {
        directory + "/"@ + name
    }
}

/// A path below a directory.
pub fn join_path(directory: &str, name: &str) -> (out: String)
    ensures
        out@ == below(directory@, name@),
{
    let chars = text::characters(directory);
    if chars.len() == 0 {
        name.to_owned()
    } else if chars[chars.len() - 1] == '/' {
        text::glue(directory, name)
    } else {
        text::glue3(directory, "/", name)
    }
}

/// Where a staged copy of the binary is kept.
pub open spec fn staged_binary(data: Text) -> Text {
    below(below(data, "service"@), "laplus-server"@)
}

/// Where a staged copy of the bundle is kept.
pub open spec fn staged_ui(data: Text) -> Text {
    below(below(data, "service"@), "ui"@)
}

/// Where the unit points: at the binary and the bundle, or at the copies of them
/// where they are in a cache.
pub open spec fn destined(binary: Text, ui: Option<Text>, data: Text) -> (Text, Option<Text>) {
    if !ephemeral(binary) {
        (binary, ui)
    } else {
        (
            staged_binary(data),
            match ui {
                Some(_) => Some(staged_ui(data)),
                None => None,
            },
        )
    }
}

/// Where the unit will point, without copying anything.
pub fn destination(binary: &str, ui: &Option<String>, data: &str) -> (out: (String, Option<String>))
    ensures
        (out.0@, text::maybe(out.1)) == destined(binary@, text::maybe(*ui), data@),
{
    if !is_ephemeral(binary) {
        return (binary.to_owned(), text::copy_maybe(ui));
    }
    let directory = join_path(data, "service");
    let staged: Option<String> = match ui {
        Some(_) => Some(join_path(&directory, "ui")),
        None => None,
    };
    (join_path(&directory, "laplus-server"), staged)
}

/// The `PATH` for a unit: its entries, and each system directory that is not among
/// them.
pub open spec fn path_for(entries: Seq<Text>, missing: Seq<Text>) -> Seq<Text>
    decreases missing.len(),
{
    if missing.len() == 0 {
        entries
    } else if entries.contains(missing[0]) {
        path_for(entries, missing.drop_first())
    } else {
        path_for(entries.push(missing[0]), missing.drop_first())
    }
}

/// The entries of a `PATH` that are not empty.
pub open spec fn entries_of(path: Text) -> Seq<Text> {
    text::split(path, seq![':']).filter(|entry: Text| entry.len() > 0)
}

/// The system directories.
pub open spec fn system_directories() -> Seq<Text> {
    seq!["/usr/local/bin"@, "/usr/bin"@, "/bin"@]
}

/// The `PATH` that goes into the unit, given the one of the installing shell.
pub open spec fn unit_path_of(current: Text) -> Text {
    text::join(path_for(entries_of(current), system_directories()), seq![':'])
}

/// Puts a directory at the end of the entries, unless it is among them.
fn ensure_entry(entries: &mut Vec<String>, directory: &str)
    ensures
        text::views(final(entries)@) == if text::views(old(entries)@).contains(directory@) {
            text::views(old(entries)@)
        } else {
            text::views(old(entries)@).push(directory@)
        },
{
    let ghost before = text::views(entries@);
    let mut i: usize = 0;
    while i < entries.len()
        invariant
            *entries == *old(entries),
            before == text::views(entries@),
            before == text::views(old(entries)@),
            i <= entries@.len(),
            forall|j: int| 0 <= j < i ==> #[trigger] before[j] != directory@,
        decreases entries@.len() - i,
    {
        assert(before[i as int] == entries@[i as int]@);
        if text::same(&entries[i], directory) {
            assert(before.contains(directory@));
            return;
        }
        i += 1;
    }
    entries.push(directory.to_owned());
    proof {
        assert(!before.contains(directory@));
        assert(text::views(entries@) =~= before.push(directory@));
    }
}

/// The `PATH` that goes into the unit, given the one of the installing shell.
///
/// That shell is one in which the agent was found. The system directories are put
/// behind it, so that the service has a shell in any case.
pub fn installing_path(current: Option<&str>) -> (out: String)
    ensures
        out@ == unit_path_of(
            match current {
                Some(path) => path@,
                None => Seq::empty(),
            },
        ),
{
    proof {
        reveal_strlit(":");
        assert(":"@ =~= seq![':']);
        reveal_strlit("");
        assert(""@ =~= Seq::<char>::empty());
    }
    let path: &str = match current {
        Some(path) => path,
        None => "",
    };
    let pieces = text::split_on(path, ":");
    let ghost all = text::views(pieces@);
    let ghost filled = |entry: Text| entry.len() > 0;
    let mut entries: Vec<String> = Vec::new();
    let mut i: usize = 0;
    proof {
        reveal(Seq::filter);
        assert(all.take(0) =~= Seq::<Text>::empty());
        assert(text::views(entries@) =~= all.take(0).filter(filled));
    }
    while i < pieces.len()
        invariant
            i <= pieces@.len(),
            all == text::views(pieces@),
            filled == (|entry: Text| entry.len() > 0),
            text::views(entries@) == all.take(i as int).filter(filled),
        decreases pieces@.len() - i,
    {
        let ghost before = text::views(entries@);
        proof {
            reveal(Seq::filter);
            assert(all.take(i + 1).drop_last() =~= all.take(i as int));
            assert(all.take(i + 1).last() == pieces@[i as int]@);
        }
        if !pieces[i].as_str().is_empty() {
            entries.push(pieces[i].clone());
            proof {
                assert(text::views(entries@) =~= before.push(pieces@[i as int]@));
            }
        }
        i += 1;
    }
    proof {
        assert(all.take(i as int) =~= all);
    }
    let ghost e0 = text::views(entries@);
    ensure_entry(&mut entries, "/usr/local/bin");
    let ghost e1 = text::views(entries@);
    ensure_entry(&mut entries, "/usr/bin");
    let ghost e2 = text::views(entries@);
    ensure_entry(&mut entries, "/bin");
    proof {
        let d = system_directories();
        let d1 = d.drop_first();
        let d2 = d1.drop_first();
        assert(d1[0] == "/usr/bin"@);
        assert(d2[0] == "/bin"@);
        assert(d2.drop_first() =~= Seq::<Text>::empty());
        assert(path_for(e0, d) == path_for(e1, d1));
        assert(path_for(e1, d1) == path_for(e2, d2));
        assert(path_for(text::views(entries@), d2.drop_first()) == text::views(entries@));
    }
    text::join_with(&entries, ":")
}

/// The system directories are on the `PATH` of a unit, whatever the installing
/// shell had on its own, and everything that it had stays, in its order and first.
pub proof fn a_unit_finds_the_system_and_the_shells_own(current: Text)
    ensures
        ({
            let entries = path_for(entries_of(current), system_directories());
            &&& entries.contains("/usr/local/bin"@) && entries.contains("/usr/bin"@) && entries.contains("/bin"@)
            &&& entries_of(current).is_prefix_of(entries)
        }),
{
    let e0 = entries_of(current);
    let d = system_directories();
    let d1 = d.drop_first();
    let d2 = d1.drop_first();
    let e1 = if e0.contains(d[0]) {
        e0
    } else {
        e0.push(d[0])
    };
    let e2 = if e1.contains(d1[0]) {
        e1
    } else {
        e1.push(d1[0])
    };
    let e3 = if e2.contains(d2[0]) {
        e2
    } else {
        e2.push(d2[0])
    };
    assert(path_for(e0, d) == path_for(e1, d1));
    assert(path_for(e1, d1) == path_for(e2, d2));
    assert(path_for(e2, d2) == path_for(e3, d2.drop_first()));
    assert(path_for(e3, d2.drop_first()) == e3);
    pushing_keeps(e0, d[0]);
    pushing_keeps(e1, d1[0]);
    pushing_keeps(e2, d2[0]);
    assert(e1.contains(d[0]));
    assert(e2.contains(d1[0]));
    assert(e3.contains(d2[0]));
    assert(e3.take(e0.len() as int) =~= e0);
}

proof fn pushing_keeps(entries: Seq<Text>, entry: Text)
    ensures
        entries.push(entry).contains(entry),
        forall|other: Text| #[trigger] entries.contains(other) ==> entries.push(entry).contains(other),
{
    assert(entries.push(entry)[entries.len() as int] == entry);
    assert forall|other: Text| #[trigger] entries.contains(other) implies entries.push(entry).contains(other) by {
        let k = choose|k: int| 0 <= k < entries.len() && entries[k] == other;
        assert(entries.push(entry)[k] == other);
    }
}

/// Where systemd reads the unit from.
pub open spec fn unit_in(home: Text) -> Text {
    below(below(below(below(home, ".config"@), "systemd"@), "user"@), "laplus.service"@)
}

/// Where the log goes.
pub open spec fn log_in(data: Text) -> Text {
    below(below(data, "logs"@), "service.log"@)
}

/// Where systemd reads the unit from, and where the log goes.
pub fn locations(home: &str, data: &str) -> (out: (String, String))
    ensures
        out.0@ == unit_in(home@),
        out.1@ == log_in(data@),
{
    let config = join_path(home, ".config");
    let systemd = join_path(&config, "systemd");
    let user = join_path(&systemd, "user");
    let logs = join_path(data, "logs");
    (join_path(&user, UNIT), join_path(&logs, "service.log"))
}

/// The home directory, or why there is none.
pub open spec fn home_in(home: Option<Text>) -> Result<Text, Text> {
    match home {
        Some(home) if text::trimmed(home).len() > 0 => Ok(home),
        _ => Err("HOME is not set, so there is no user systemd directory"@),
    }
}

/// The home directory, given what the environment calls it, or why there is none.
pub fn home(variable: &Option<String>) -> (out: Result<String, String>)
    ensures
        match out {
            Ok(home) => home_in(text::maybe(*variable)) == Ok::<Text, Text>(home@),
            Err(why) => home_in(text::maybe(*variable)) == Err::<Text, Text>(why@),
        },
{
    if let Some(home) = variable {
        if !text::trim(home).as_str().is_empty() {
            return Ok(home.clone());
        }
    }
    Err("HOME is not set, so there is no user systemd directory".to_owned())
}

/// What is known of the machine that a service is planned for.
#[derive(Debug, PartialEq, Eq)]
pub struct Machine {
    pub linux: bool,
    /// What the environment calls the home directory.
    pub home: Option<String>,
    pub data: String,
    /// The `PATH` of this process.
    pub path: Option<String>,
}

impl Machine {
    /// Whether the machine can have a service at all.
    pub open spec fn can_have_one(&self) -> bool {
        self.linux && home_in(text::maybe(self.home)) is Ok
    }

    /// Whether the machine can have a service at all.
    pub fn supported(&self) -> (out: bool)
        ensures
            out == self.can_have_one(),
    {
        self.linux && home(&self.home).is_ok()
    }
}

/// The plan that this binary would install, or why it can make none.
pub open spec fn planned(
    machine: Machine,
    arguments: Seq<Text>,
    ui: Option<Text>,
    binary: Result<Text, Text>,
) -> Result<Plan<Text, Seq<Text>>, Text> {
    match home_in(text::maybe(machine.home)) {
        Err(why) => Err(why),
        Ok(home) => match binary {
            Err(failure) => Err("cannot find this binary on disk: "@ + failure),
            Ok(binary) => Ok(
                Plan {
                    binary,
                    ui,
                    arguments,
                    path: unit_path_of(
                        match machine.path {
                            Some(path) => path@,
                            None => Seq::empty(),
                        },
                    ),
                    unit_path: unit_in(home),
                    log_path: log_in(machine.data@),
                },
            ),
        },
    }
}

/// The plan that this binary would install, or why it can make none. `binary` is
/// where this process was started from.
pub fn plan(machine: &Machine, arguments: Vec<String>, ui: Option<String>, binary: Result<String, String>) -> (out: Result<
    Plan<String, Vec<String>>,
    String,
>)
    ensures
        ({
            let wanted = planned(
                *machine,
                text::views(arguments@),
                text::maybe(ui),
                match binary {
                    Ok(binary) => Ok(binary@),
                    Err(failure) => Err(failure@),
                },
            );
            match out {
                Ok(plan) => wanted == Ok::<Plan<Text, Seq<Text>>, Text>(plan@),
                Err(why) => wanted == Err::<Plan<Text, Seq<Text>>, Text>(why@),
            }
        }),
{
    let home = home(&machine.home)?;
    let binary: String = match binary {
        Ok(binary) => binary,
        Err(failure) => {
            return Err(text::glue("cannot find this binary on disk: ", &failure));
        },
    };
    let (unit_path, log_path) = locations(&home, &machine.data);
    let path: String = match &machine.path {
        Some(path) => installing_path(Some(path.as_str())),
        None => installing_path(None),
    };
    Ok(Plan { binary, ui, arguments, path, unit_path, log_path })
}

/// What is installed, given the unit that was found and whether the binary of the
/// plan is there.
pub open spec fn status_of(
    machine: Machine,
    unit: Option<Text>,
    plan: Option<Plan<Text, Seq<Text>>>,
    binary_exists: bool,
) -> Status<Text> {
    Status {
        supported: machine.can_have_one(),
        installed: machine.can_have_one() && unit is Some,
        current: machine.can_have_one() && (match (unit, plan) {
            (Some(unit), Some(plan)) => unit::alike(unit, unit::rendered(plan)) && binary_exists,
            _ => false,
        }),
        unit_path: match home_in(text::maybe(machine.home)) {
            Ok(home) => unit_in(home),
            Err(_) => "laplus.service"@,
        },
        log_path: log_in(machine.data@),
    }
}

/// What is installed, and whether it is what this binary would install.
pub fn status(
    machine: &Machine,
    unit: &Option<String>,
    plan: Option<&Plan<String, Vec<String>>>,
    binary_exists: bool,
) -> (out: Status<String>)
    ensures
        out@ == status_of(
            *machine,
            text::maybe(*unit),
            match plan {
                Some(plan) => Some(plan@),
                None => None,
            },
            binary_exists,
        ),
{
    let (unit_path, log_path) = match home(&machine.home) {
        Ok(home) => locations(&home, &machine.data),
        Err(_) => {
            let logs = join_path(&machine.data, "logs");
            (UNIT.to_owned(), join_path(&logs, "service.log"))
        },
    };
    let supported: bool = machine.supported();
    let current: bool = match (unit, plan) {
        (Some(unit), Some(plan)) => supported && started_the_same_way(unit, &render(plan)) && binary_exists,
        _ => false,
    };
    Status { supported, installed: supported && unit.is_some(), current, unit_path, log_path }
}

/// A command is told by its words: three that install, one that asks, two that remove.
pub proof fn a_command_is_told_by_its_words(word: &str, out: Result<Verb, String>)
    requires
        call_ensures(Verb::parse, (word,), out),
    ensures
        (out matches Ok(Verb::Install)) <==> word@ == "install"@ || word@ == "update"@ || word@ == "repair"@,
        (out matches Ok(Verb::Status)) <==> word@ == "status"@,
        (out matches Ok(Verb::Uninstall)) <==> word@ == "uninstall"@ || word@ == "remove"@,
        out matches Err(why) ==> why@ == "unrecognised service command "@ + word@ + " — install, status or uninstall"@,
{
    reveal_strlit("install");
    reveal_strlit("update");
    reveal_strlit("repair");
    reveal_strlit("status");
    reveal_strlit("uninstall");
    reveal_strlit("remove");
    assert("status"@[0] == 's' && "update"@[0] == 'u' && "repair"@[0] == 'r' && "remove"@[0] == 'r');
    assert("repair"@[2] == 'p' && "remove"@[2] == 'm');
    assert("install"@.len() == 7 && "uninstall"@.len() == 9 && "remove"@.len() == 6);
    assert("remove"@ != "repair"@ && "remove"@ != "update"@ && "remove"@ != "status"@);
}

/// What is said of a service is whether it can be here, whether it is, and whether it
/// is this binary's, with where its unit and its log are.
pub proof fn a_status_is_said_as_it_is(status: Status<Text>)
    ensures
        !status.supported ==> status.shown()
            == "laplus service\n  status: unavailable here\n  supported on: Linux with systemd"@,
        status.supported && !status.installed ==> status.shown()
            == "laplus service\n  status: not installed\n  next: laplus-server service install"@,
        status.supported && status.installed && status.current ==> status.shown()
            == "laplus service\n  status: installed\n  unit: "@ + status.unit_path + "\n  log: "@ + status.log_path,
        status.supported && status.installed && !status.current ==> status.shown()
            == "laplus service\n  status: installed, out of date\n  unit: "@ + status.unit_path + "\n  log: "@
            + status.log_path + "\n  next: laplus-server service install, to bring it up to this binary"@,
{
}

/// A service can be here on Linux with a home; it is installed where its unit is, and
/// current where that unit starts what would be installed and the binary is there.
pub proof fn a_status_is_of_what_is_there(
    machine: Machine,
    unit: Option<Text>,
    plan: Option<Plan<Text, Seq<Text>>>,
    binary_exists: bool,
)
    ensures
        ({
            let status = status_of(machine, unit, plan, binary_exists);
            let home = text::maybe(machine.home);
            let here = machine.linux && home is Some && text::trimmed(home->0).len() > 0;
            &&& status.supported <==> here
            &&& status.installed <==> here && unit is Some
            &&& status.current <==> here && binary_exists && unit is Some && plan is Some && unit::alike(
                unit->0,
                unit::rendered(plan->0),
            )
            &&& home is Some && text::trimmed(home->0).len() > 0 ==> status.unit_path == unit_in(home->0)
            &&& home is None || text::trimmed(home->0).len() == 0 ==> status.unit_path == "laplus.service"@
            &&& status.log_path == log_in(machine.data@)
        }),
{
}

/// A binary that a package runner keeps only for a while is told by where it lies.
pub proof fn a_passing_binary_is_told_by_where_it_lies(before: Text, after: Text, path: Text)
    ensures
        ephemeral(before + "/_npx/"@ + after),
        ephemeral(before + "\\_npx\\"@ + after),
        ephemeral(before + "/pnpm/dlx/"@ + after),
        ephemeral(before + "/.pnpm/dlx/"@ + after),
        ephemeral(before + "/.bun/install/cache/"@ + after),
        ephemeral(path) ==> text::occurs(path, "/_npx/"@) || text::occurs(path, "\\_npx\\"@) || text::occurs(
            path,
            "/pnpm/dlx/"@,
        ) || text::occurs(path, "/.pnpm/dlx/"@) || text::occurs(path, "/.bun/install/cache/"@),
{
    what_stands_within_occurs(before, "/_npx/"@, after);
    what_stands_within_occurs(before, "\\_npx\\"@, after);
    what_stands_within_occurs(before, "/pnpm/dlx/"@, after);
    what_stands_within_occurs(before, "/.pnpm/dlx/"@, after);
    what_stands_within_occurs(before, "/.bun/install/cache/"@, after);
}

proof fn what_stands_within_occurs(before: Text, within: Text, after: Text)
    ensures
        text::occurs(before + within + after, within),
{
    let whole = before + within + after;
    let at = before.len() as int;
    assert(whole.subrange(at, at + within.len()) =~= within);
    assert(text::stands_at(whole, within, at));
}

/// A name below a directory is set off from it by one slash.
pub proof fn a_name_stands_below_its_directory(directory: Text, name: Text)
    ensures
        directory.len() == 0 ==> below(directory, name) == name,
        directory.len() > 0 && directory.last() == '/' ==> below(directory, name) == directory + name,
        directory.len() > 0 && directory.last() != '/' ==> below(directory, name) == directory + "/"@ + name,
{
}

/// A binary that stays stays where it is, and its bundle too; one that passes goes,
/// with its bundle, where the service's own files lie.
pub proof fn a_binary_is_kept_where_it_stays(binary: Text, ui: Text, data: Text)
    ensures
        !ephemeral(binary) ==> destined(binary, Some(ui), data) == (binary, Some(ui)) && destined(binary, None, data) == (
            binary,
            None::<Text>,
        ),
        ephemeral(binary) ==> destined(binary, Some(ui), data) == (
            below(below(data, "service"@), "laplus-server"@),
            Some(below(below(data, "service"@), "ui"@)),
        ),
        ephemeral(binary) ==> destined(binary, None, data) == (
            below(below(data, "service"@), "laplus-server"@),
            None::<Text>,
        ),
{
}

/// A unit lies in the user's own systemd directory and a log in the data's own.
pub proof fn a_unit_lies_in_the_users_own_directory(home: Text, data: Text)
    ensures
        unit_in(home) == below(below(below(below(home, ".config"@), "systemd"@), "user"@), "laplus.service"@),
        log_in(data) == below(below(data, "logs"@), "service.log"@),
        home_in(Some(home)) is Ok <==> text::trimmed(home).len() > 0,
        home_in(Some(home)) is Ok ==> home_in(Some(home)) == Ok::<Text, Text>(home),
        home_in(None) == Err::<Text, Text>("HOME is not set, so there is no user systemd directory"@),
        text::trimmed(home).len() == 0 ==> home_in(Some(home)) == Err::<Text, Text>(
            "HOME is not set, so there is no user systemd directory"@,
        ),
{
}

/// A plan is of what was given: the binary, the bundle and the arguments, with the
/// machine's own path, unit and log. Without a home or a binary there is none.
pub proof fn a_plan_is_of_what_was_given(
    machine: Machine,
    arguments: Seq<Text>,
    ui: Option<Text>,
    binary: Text,
    failure: Text,
    home: String,
)
    requires
        machine.home == Some(home),
    ensures
        text::trimmed(home@).len() > 0 ==> (planned(machine, arguments, ui, Ok(binary)) matches Ok(plan) && {
            &&& plan.binary == binary
            &&& plan.ui == ui
            &&& plan.arguments == arguments
            &&& plan.unit_path == unit_in(home@)
            &&& plan.log_path == log_in(machine.data@)
            &&& machine.path matches Some(path) ==> plan.path == unit_path_of(path@)
            &&& machine.path is None ==> plan.path == unit_path_of(Seq::empty())
        }),
        text::trimmed(home@).len() > 0 ==> planned(machine, arguments, ui, Err(failure)) == Err::<
            Plan<Text, Seq<Text>>,
            Text,
        >("cannot find this binary on disk: "@ + failure),
        text::trimmed(home@).len() == 0 ==> planned(machine, arguments, ui, Ok(binary)) is Err,
{
}

/// A unit's path is the shell's own, entry by entry, with the system's directories
/// behind it where they are not in it.
pub proof fn a_units_path_is_the_shells_with_the_systems(current: Text, entry: Text)
    ensures
        unit_path_of(current) == text::join(path_for(entries_of(current), system_directories()), ":"@),
        path_for(entries_of(current), system_directories()).contains(entry) ==> entries_of(current).contains(entry) || entry
            == "/usr/local/bin"@ || entry == "/usr/bin"@ || entry == "/bin"@,
{
    reveal_strlit(":");
    assert(":"@ =~= seq![':']);
    let all = system_directories();
    assert(all.drop_first().drop_first().drop_first() =~= Seq::<Text>::empty());
    assert(all[0] == "/usr/local/bin"@ && all.drop_first()[0] == "/usr/bin"@ && all.drop_first().drop_first()[0] == "/bin"@);
    what_is_added_was_missing(entries_of(current), all, entry);
}

proof fn what_is_added_was_missing(entries: Seq<Text>, missing: Seq<Text>, entry: Text)
    ensures
        path_for(entries, missing).contains(entry) ==> entries.contains(entry) || missing.contains(entry),
    decreases missing.len(),
{
    if missing.len() > 0 {
        let rest = missing.drop_first();
        let next = if entries.contains(missing[0]) {
            entries
        } else {
            entries.push(missing[0])
        };
        what_is_added_was_missing(next, rest, entry);
        if path_for(entries, missing).contains(entry) {
            if rest.contains(entry) {
                let k = choose|k: int| 0 <= k < rest.len() && rest[k] == entry;
                assert(missing[k + 1] == entry);
            } else if !entries.contains(entry) {
                let k = choose|k: int| 0 <= k < next.len() && next[k] == entry;
                if k < entries.len() {
                    assert(entries[k] == entry);
                } else {
                    assert(missing[0] == entry);
                }
            }
        }
    }
}

} // verus!
