//! Staging, installing and removing the service: what is done to the machine in
//! turn, and what is put back where a step fails.

use crate::service;
use crate::service::unit;
use crate::service::unit::Plan;
use crate::service::Outcome;
use crate::text;
use vstd::prelude::*;

verus! {

/// Text as the contracts see it.
pub type Text = Seq<char>;

/// The model of a plan.
pub type PlanModel = Plan<Text, Seq<Text>>;

// ---------------------------------------------------------------------------
// Commands
// ---------------------------------------------------------------------------

/// A command that is run to change the service.
#[derive(Debug, Clone, Copy, PartialEq, Eq, Structural)]
pub enum Step {
    Reload,
    Enable,
    /// A restart rather than a start, so that a process of the old unit is not left
    /// running.
    Start,
    Restore,
    Remove,
    Stop,
    Linger,
}

impl Step {
    /// What it does.
    pub open spec fn doing(self) -> Text {
        match self {
            Step::Reload => "reloading the user units"@,
            Step::Enable => "enabling the service"@,
            Step::Start => "starting the service"@,
            Step::Restore => "restoring the service"@,
            Step::Remove => "removing the service"@,
            Step::Stop => "stopping the service"@,
            Step::Linger => "enabling lingering"@,
        }
    }

    /// The program.
    pub open spec fn running(self) -> Text {
        if self == Step::Linger {
            "loginctl"@
        } else {
            "systemctl"@
        }
    }

    /// What the program is run with.
    pub open spec fn with(self) -> Seq<Text> {
        match self {
            Step::Reload => seq!["--user"@, "daemon-reload"@],
            Step::Enable => seq!["--user"@, "enable"@, "laplus.service"@],
            Step::Start | Step::Restore => seq!["--user"@, "restart"@, "laplus.service"@],
            Step::Remove | Step::Stop => seq!["--user"@, "disable"@, "--now"@, "laplus.service"@],
            Step::Linger => seq!["enable-linger"@],
        }
    }

    /// What it does.
    pub fn words(self) -> (out: &'static str)
        ensures
            out@ == self.doing(),
    {
        match self {
            Step::Reload => "reloading the user units",
            Step::Enable => "enabling the service",
            Step::Start => "starting the service",
            Step::Restore => "restoring the service",
            Step::Remove => "removing the service",
            Step::Stop => "stopping the service",
            Step::Linger => "enabling lingering",
        }
    }

    /// The program.
    pub fn program(self) -> (out: &'static str)
        ensures
            out@ == self.running(),
    {
        if self == Step::Linger {
            "loginctl"
        } else {
            "systemctl"
        }
    }

    /// What the program is run with.
    pub fn arguments(self) -> (out: Vec<String>)
        ensures
            text::views(out@) == self.with(),
    {
        let out: Vec<String> = match self {
            Step::Reload => vec!["--user".to_owned(), "daemon-reload".to_owned()],
            Step::Enable => vec!["--user".to_owned(), "enable".to_owned(), "laplus.service".to_owned()],
            Step::Start | Step::Restore => vec![
                "--user".to_owned(),
                "restart".to_owned(),
                "laplus.service".to_owned(),
            ],
            Step::Remove | Step::Stop => vec![
                "--user".to_owned(),
                "disable".to_owned(),
                "--now".to_owned(),
                "laplus.service".to_owned(),
            ],
            Step::Linger => vec!["enable-linger".to_owned()],
        };
        proof {
            assert(text::views(out@) =~= self.with());
        }
        out
    }
}

/// What came of a command.
#[derive(Debug, PartialEq, Eq)]
pub enum Ran<S> {
    Succeeded,
    /// It could not be started.
    NotStarted(S),
    /// It failed, and complained of this.
    Failed(S),
}

impl View for Ran<String> {
    type V = Ran<Text>;

    open spec fn view(&self) -> Ran<Text> {
        match self {
            Ran::Succeeded => Ran::Succeeded,
            Ran::NotStarted(failure) => Ran::NotStarted(failure@),
            Ran::Failed(complaint) => Ran::Failed(complaint@),
        }
    }
}

/// What is said of a command that did not succeed.
pub open spec fn failure_of(step: Step, ran: Ran<Text>) -> Option<Text> {
    match ran {
        Ran::Succeeded => None,
        Ran::NotStarted(failure) => Some(
            "cannot run "@ + step.running() + " while "@ + step.doing() + (": "@ + failure),
        ),
        Ran::Failed(complaint) => if text::trimmed(complaint).len() == 0 {
            Some("failed while "@ + step.doing())
        } else {
            Some("failed while "@ + step.doing() + ": "@ + text::trimmed(complaint))
        },
    }
}

/// What is said of a command that did not succeed: which step it was, and what it
/// complained of.
pub fn failure(step: Step, ran: &Ran<String>) -> (out: Option<String>)
    ensures
        text::maybe(out) == failure_of(step, ran@),
{
    match ran {
        Ran::Succeeded => None,
        Ran::NotStarted(failure) => {
            let why = text::glue(": ", failure);
            Some(text::glue5("cannot run ", step.program(), " while ", step.words(), &why))
        },
        Ran::Failed(complaint) => {
            let complaint = text::trim(complaint);
            if complaint.as_str().is_empty() {
                Some(text::glue("failed while ", step.words()))
            } else {
                Some(text::glue4("failed while ", step.words(), ": ", &complaint))
            }
        },
    }
}

// ---------------------------------------------------------------------------
// Installing
// ---------------------------------------------------------------------------

/// What to do next.
#[derive(Debug, PartialEq, Eq)]
pub enum Action<S, P, L> {
    /// Make the directory that this path is in: [`Event::Directory`].
    MakeParent(S),
    /// Write the unit: [`Event::Wrote`].
    WriteUnit { path: S, unit: S },
    /// Run a command: [`Event::Ran`].
    Run(Step),
    /// Remove this file: [`Event::Removed`].
    RemoveFile(S),
    /// Nothing more: what was done and what could not be finished, or why nothing
    /// was.
    Done(Result<(Outcome<P>, L), S>),
}

/// What came of it.
#[derive(Debug, PartialEq, Eq)]
pub enum Event<S> {
    Directory(Directory<S>),
    Wrote(Result<(), S>),
    Ran(Ran<S>),
    Removed(Result<(), S>),
}

/// What came of making the directory that a path is in.
#[derive(Debug, PartialEq, Eq)]
pub enum Directory<S> {
    Made,
    /// The path is in none.
    Missing,
    Failed { directory: S, failure: S },
}

impl View for Event<String> {
    type V = Event<Text>;

    open spec fn view(&self) -> Event<Text> {
        match self {
            Event::Directory(Directory::Made) => Event::Directory(Directory::Made),
            Event::Directory(Directory::Missing) => Event::Directory(Directory::Missing),
            Event::Directory(Directory::Failed { directory, failure }) => Event::Directory(
                Directory::Failed { directory: directory@, failure: failure@ },
            ),
            Event::Wrote(Ok(_)) => Event::Wrote(Ok(())),
            Event::Wrote(Err(failure)) => Event::Wrote(Err(failure@)),
            Event::Ran(ran) => Event::Ran(ran@),
            Event::Removed(Ok(_)) => Event::Removed(Ok(())),
            Event::Removed(Err(failure)) => Event::Removed(Err(failure@)),
        }
    }
}

/// The action of a running installation.
pub type Doing = Action<String, Plan<String, Vec<String>>, Vec<String>>;

/// The model of an action.
pub type DoingModel = Action<Text, PlanModel, Seq<Text>>;

/// The model of an outcome.
pub open spec fn outcome_view(outcome: Outcome<Plan<String, Vec<String>>>) -> Outcome<PlanModel> {
    match outcome {
        Outcome::Installed(plan) => Outcome::Installed(plan@),
        Outcome::Unchanged(plan) => Outcome::Unchanged(plan@),
        Outcome::Updated(plan) => Outcome::Updated(plan@),
        Outcome::Removed => Outcome::Removed,
        Outcome::NotInstalled => Outcome::NotInstalled,
    }
}

/// The model of an action.
pub open spec fn doing_view(action: Doing) -> DoingModel {
    match action {
        Action::MakeParent(path) => Action::MakeParent(path@),
        Action::WriteUnit { path, unit } => Action::WriteUnit { path: path@, unit: unit@ },
        Action::Run(step) => Action::Run(step),
        Action::RemoveFile(path) => Action::RemoveFile(path@),
        Action::Done(Ok((outcome, warnings))) => Action::Done(
            Ok((outcome_view(outcome), text::views(warnings@))),
        ),
        Action::Done(Err(why)) => Action::Done(Err(why@)),
    }
}

/// Where an installation is.
#[derive(Debug, Clone, Copy, PartialEq, Eq, Structural)]
pub enum Stage {
    LogDirectory,
    UnitDirectory,
    Writing,
    Reloading,
    Enabling,
    Starting,
    Lingering,
    /// Putting back the unit that was there.
    Rewriting,
    RewrittenReloading,
    Restoring,
    /// Taking away a unit where none was.
    Removing,
    RemovingUnit,
    RemovedReloading,
    Over,
}

/// An installation on its way.
#[derive(Debug, PartialEq, Eq)]
pub struct Installing<S, P> {
    pub plan: P,
    /// The unit that was there.
    pub existing: Option<S>,
    pub stage: Stage,
    /// Why the service could not be activated.
    pub failure: S,
}

/// The model of an installation on its way.
pub type InstallingModel = Installing<Text, PlanModel>;

impl View for Installing<String, Plan<String, Vec<String>>> {
    type V = InstallingModel;

    open spec fn view(&self) -> InstallingModel {
        Installing {
            plan: self.plan@,
            existing: text::maybe(self.existing),
            stage: self.stage,
            failure: self.failure@,
        }
    }
}

/// What is said of lingering that could not be turned on.
pub open spec fn lingering_warning(failure: Text) -> Text {
    failure
        + " — the service is running, but it will stop when you log out. Run `sudo loginctl enable-linger $USER` to fix that."@
}

/// How an installation begins: not at all where the machine cannot have a service
/// or the unit and the binary are what they should be.
pub open spec fn install_begins(
    plan: PlanModel,
    supported: bool,
    existing: Option<Text>,
    binary_exists: bool,
) -> DoingModel {
    if !supported {
        Action::Done(Err("the background service needs Linux with systemd; nothing was changed"@))
    } else if existing == Some(unit::rendered(plan)) && binary_exists {
        Action::Done(Ok((Outcome::Unchanged(plan), Seq::empty())))
    } else {
        Action::MakeParent(plan.log_path)
    }
}

impl InstallingModel {
    /// Whether this is what was asked for.
    pub open spec fn expects(self, event: Event<Text>) -> bool {
        match self.stage {
            Stage::LogDirectory | Stage::UnitDirectory => event is Directory,
            Stage::Writing | Stage::Rewriting => event is Wrote,
            Stage::RemovingUnit => event is Removed,
            Stage::Over => false,
            _ => event is Ran,
        }
    }

    /// Nothing more.
    pub open spec fn done(self, result: Result<(Outcome<PlanModel>, Seq<Text>), Text>) -> (Self, DoingModel) {
        (Installing { stage: Stage::Over, ..self }, Action::Done(result))
    }

    /// The installation succeeded, with these warnings.
    pub open spec fn installed(self, warnings: Seq<Text>) -> (Self, DoingModel) {
        self.done(
            Ok(
                (
                    if self.existing is Some {
                        Outcome::Updated(self.plan)
                    } else {
                        Outcome::Installed(self.plan)
                    },
                    warnings,
                ),
            ),
        )
    }

    /// Puts back what was there.
    pub open spec fn undo(self, failure: Text) -> (Self, DoingModel) {
        match self.existing {
            Some(previous) => (
                Installing { stage: Stage::Rewriting, failure, ..self },
                Action::WriteUnit { path: self.plan.unit_path, unit: previous },
            ),
            None => (Installing { stage: Stage::Removing, failure, ..self }, Action::Run(Step::Remove)),
        }
    }

    /// What follows a command.
    pub open spec fn after(self, ran: Ran<Text>) -> (Self, DoingModel) {
        match self.stage {
            Stage::Reloading => match failure_of(Step::Reload, ran) {
                Some(failure) => self.undo(failure),
                None => (Installing { stage: Stage::Enabling, ..self }, Action::Run(Step::Enable)),
            },
            Stage::Enabling => match failure_of(Step::Enable, ran) {
                Some(failure) => self.undo(failure),
                None => (Installing { stage: Stage::Starting, ..self }, Action::Run(Step::Start)),
            },
            Stage::Starting => match failure_of(Step::Start, ran) {
                Some(failure) => self.undo(failure),
                None => (Installing { stage: Stage::Lingering, ..self }, Action::Run(Step::Linger)),
            },
            Stage::Lingering => match failure_of(Step::Linger, ran) {
                Some(failure) => self.installed(seq![lingering_warning(failure)]),
                None => self.installed(Seq::empty()),
            },
            Stage::RewrittenReloading => (
                Installing { stage: Stage::Restoring, ..self },
                Action::Run(Step::Restore),
            ),
            Stage::Removing => (
                Installing { stage: Stage::RemovingUnit, ..self },
                Action::RemoveFile(self.plan.unit_path),
            ),
            _ => self.done(Err(self.failure)),
        }
    }

    /// What comes next.
    pub open spec fn step(self, event: Event<Text>) -> (Self, DoingModel) {
        match event {
            Event::Directory(Directory::Failed { directory, failure }) => self.done(
                Err("cannot make "@ + directory + ": "@ + failure),
            ),
            Event::Directory(made) => if self.stage == Stage::LogDirectory {
                (Installing { stage: Stage::UnitDirectory, ..self }, Action::MakeParent(self.plan.unit_path))
            } else if made == Directory::<Text>::Missing {
                self.done(Err("the unit path has no parent"@))
            } else {
                (
                    Installing { stage: Stage::Writing, ..self },
                    Action::WriteUnit { path: self.plan.unit_path, unit: unit::rendered(self.plan) },
                )
            },
            Event::Wrote(wrote) => if self.stage == Stage::Writing {
                match wrote {
                    Ok(_) => (Installing { stage: Stage::Reloading, ..self }, Action::Run(Step::Reload)),
                    Err(failure) => self.done(
                        Err("cannot write "@ + self.plan.unit_path + ": "@ + failure),
                    ),
                }
            } else {
                (Installing { stage: Stage::RewrittenReloading, ..self }, Action::Run(Step::Reload))
            },
            Event::Ran(ran) => self.after(ran),
            Event::Removed(_) => (
                Installing { stage: Stage::RemovedReloading, ..self },
                Action::Run(Step::Reload),
            ),
        }
    }
}

/// An installation that runs.
pub type Installation = Installing<String, Plan<String, Vec<String>>>;

impl Installing<String, Plan<String, Vec<String>>> {
    /// Begins an installation, given what was found.
    pub fn begin(
        plan: &Plan<String, Vec<String>>,
        supported: bool,
        existing: Option<String>,
        binary_exists: bool,
    ) -> (out: (Installation, Doing))
        ensures
            doing_view(out.1) == install_begins(plan@, supported, text::maybe(existing), binary_exists),
            out.0@.plan == plan@,
            out.0@.existing == text::maybe(existing),
            out.0@.stage == if out.1 is Done {
                Stage::Over
            } else {
                Stage::LogDirectory
            },
    {
        let unchanged: bool = binary_exists && match &existing {
            Some(existing) => text::same(existing, &unit::render(plan)),
            None => false,
        };
        let action: Doing = if !supported {
            Action::Done(Err("the background service needs Linux with systemd; nothing was changed".to_owned()))
        } else if unchanged {
            let none: Vec<String> = Vec::new();
            proof {
                assert(text::views(none@) =~= Seq::<Text>::empty());
            }
            Action::Done(Ok((Outcome::Unchanged(plan.copy()), none)))
        } else {
            Action::MakeParent(plan.log_path.clone())
        };
        let stage = if !supported || unchanged {
            Stage::Over
        } else {
            Stage::LogDirectory
        };
        (Installing { plan: plan.copy(), existing, stage, failure: String::new() }, action)
    }

    /// No service.
    fn refuse(&mut self, why: String) -> (out: Doing)
        ensures
            (final(self)@, doing_view(out)) == old(self)@.done(Err(why@)),
    {
        self.stage = Stage::Over;
        Action::Done(Err(why))
    }

    /// The installation succeeded, with these warnings.
    fn installed(&mut self, warnings: Vec<String>) -> (out: Doing)
        ensures
            (final(self)@, doing_view(out)) == old(self)@.installed(text::views(warnings@)),
    {
        self.stage = Stage::Over;
        let outcome = if self.existing.is_some() {
            Outcome::Updated(self.plan.copy())
        } else {
            Outcome::Installed(self.plan.copy())
        };
        Action::Done(Ok((outcome, warnings)))
    }

    /// Puts back what was there.
    fn undo(&mut self, failure: String) -> (out: Doing)
        ensures
            (final(self)@, doing_view(out)) == old(self)@.undo(failure@),
    {
        self.failure = failure;
        let previous = text::copy_maybe(&self.existing);
        match previous {
            Some(previous) => {
                self.stage = Stage::Rewriting;
                Action::WriteUnit { path: self.plan.unit_path.clone(), unit: previous }
            },
            None => {
                self.stage = Stage::Removing;
                Action::Run(Step::Remove)
            },
        }
    }

    /// What follows a step of the activation.
    fn activated(&mut self, step: Step, ran: &Ran<String>, stage: Stage, next: Step) -> (out: Doing)
        ensures
            (final(self)@, doing_view(out)) == match failure_of(step, ran@) {
                Some(failure) => old(self)@.undo(failure),
                None => (
                    Installing { stage, ..old(self)@ },
                    Action::<Text, PlanModel, Seq<Text>>::Run(next),
                ),
            },
    {
        match failure(step, ran) {
            Some(failure) => self.undo(failure),
            None => {
                self.stage = stage;
                Action::Run(next)
            },
        }
    }

    /// What follows a command.
    fn after(&mut self, ran: &Ran<String>) -> (out: Doing)
        ensures
            (final(self)@, doing_view(out)) == old(self)@.after(ran@),
    {
        match self.stage {
            Stage::Reloading => self.activated(Step::Reload, ran, Stage::Enabling, Step::Enable),
            Stage::Enabling => self.activated(Step::Enable, ran, Stage::Starting, Step::Start),
            Stage::Starting => self.activated(Step::Start, ran, Stage::Lingering, Step::Linger),
            Stage::Lingering => {
                let mut warnings: Vec<String> = Vec::new();
                if let Some(failure) = failure(Step::Linger, ran) {
                    let warning = text::glue(
                        &failure,
                        " — the service is running, but it will stop when you log out. Run `sudo loginctl enable-linger $USER` to fix that.",
                    );
                    warnings.push(warning);
                    proof {
                        assert(text::views(warnings@) =~= seq![lingering_warning(failure@)]);
                    }
                } else {
                    proof {
                        assert(text::views(warnings@) =~= Seq::<Text>::empty());
                    }
                }
                self.installed(warnings)
            },
            Stage::RewrittenReloading => {
                self.stage = Stage::Restoring;
                Action::Run(Step::Restore)
            },
            Stage::Removing => {
                self.stage = Stage::RemovingUnit;
                Action::RemoveFile(self.plan.unit_path.clone())
            },
            _ => {
                let why = self.failure.clone();
                self.refuse(why)
            },
        }
    }

    /// What comes next.
    pub fn step(&mut self, event: &Event<String>) -> (out: Doing)
        requires
            old(self)@.expects(event@),
        ensures
            (final(self)@, doing_view(out)) == old(self)@.step(event@),
    {
        match event {
            Event::Directory(Directory::Failed { directory, failure }) => self.refuse(
                text::glue4("cannot make ", directory, ": ", failure),
            ),
            Event::Directory(made) => {
                if self.stage == Stage::LogDirectory {
                    self.stage = Stage::UnitDirectory;
                    return Action::MakeParent(self.plan.unit_path.clone());
                }
                if let Directory::Missing = made {
                    return self.refuse("the unit path has no parent".to_owned());
                }
                self.stage = Stage::Writing;
                Action::WriteUnit { path: self.plan.unit_path.clone(), unit: unit::render(&self.plan) }
            },
            Event::Wrote(wrote) => {
                if self.stage == Stage::Writing {
                    match wrote {
                        Ok(_) => {
                            self.stage = Stage::Reloading;
                            Action::Run(Step::Reload)
                        },
                        Err(failure) => {
                            let why = text::glue4("cannot write ", &self.plan.unit_path, ": ", failure);
                            self.refuse(why)
                        },
                    }
                } else {
                    self.stage = Stage::RewrittenReloading;
                    Action::Run(Step::Reload)
                }
            },
            Event::Ran(ran) => self.after(ran),
            Event::Removed(_) => {
                self.stage = Stage::RemovedReloading;
                Action::Run(Step::Reload)
            },
        }
    }
}

// ---------------------------------------------------------------------------
// Laws of an installation
// ---------------------------------------------------------------------------

/// A machine that cannot have a service is not touched, nor is one whose service is
/// what it should be.
pub proof fn nothing_is_changed_without_need(
    plan: PlanModel,
    supported: bool,
    existing: Option<Text>,
    binary_exists: bool,
)
    ensures
        install_begins(plan, supported, existing, binary_exists) is Done <==> (!supported || (existing == Some(
            unit::rendered(plan),
        ) && binary_exists)),
{
}

/// A service that could not be activated is put back: the first thing done is to
/// write the unit that was there, or to take the service away where none was.
pub proof fn a_failed_activation_is_undone(m: InstallingModel, ran: Ran<Text>, step: Step)
    requires
        m.stage == Stage::Reloading && step == Step::Reload || m.stage == Stage::Enabling && step == Step::Enable
            || m.stage == Stage::Starting && step == Step::Start,
        ran != Ran::<Text>::Succeeded,
    ensures
        ({
            let (next, action) = m.step(Event::Ran(ran));
            &&& Some(next.failure) == failure_of(step, ran)
            &&& match m.existing {
                Some(previous) => action == (Action::<Text, PlanModel, Seq<Text>>::WriteUnit {
                    path: m.plan.unit_path,
                    unit: previous,
                }),
                None => action == Action::<Text, PlanModel, Seq<Text>>::Run(Step::Remove),
            }
        }),
{
}

/// Undoing goes through: whatever comes of each of its steps, a service that was
/// there is reloaded and restarted, one that was not is removed with its unit, and
/// what is said in the end is why the activation failed.
pub proof fn undoing_goes_through(m: InstallingModel, a: Event<Text>, b: Event<Text>, c: Event<Text>)
    requires
        m.stage == Stage::Rewriting || m.stage == Stage::Removing,
        m.expects(a),
        m.step(a).0.expects(b),
        m.step(a).0.step(b).0.expects(c),
    ensures
        m.stage == Stage::Rewriting ==> m.step(a).1 == Action::<Text, PlanModel, Seq<Text>>::Run(Step::Reload)
            && m.step(a).0.step(b).1 == Action::<Text, PlanModel, Seq<Text>>::Run(Step::Restore),
        m.stage == Stage::Removing ==> m.step(a).1 == Action::<Text, PlanModel, Seq<Text>>::RemoveFile(
            m.plan.unit_path,
        ) && m.step(a).0.step(b).1 == Action::<Text, PlanModel, Seq<Text>>::Run(Step::Reload),
        m.step(a).0.step(b).0.step(c).1 == Action::<Text, PlanModel, Seq<Text>>::Done(Err(m.failure)),
{
}

/// Lingering that cannot be turned on is a warning and no failure: the service is
/// installed, and what could not be finished is said.
pub proof fn lingering_is_no_failure(m: InstallingModel, ran: Ran<Text>)
    requires
        m.stage == Stage::Lingering,
    ensures
        m.step(Event::Ran(ran)).1 matches Action::Done(Ok((outcome, warnings))) && outcome == (if m.existing is Some {
            Outcome::Updated(m.plan)
        } else {
            Outcome::Installed(m.plan)
        }) && (warnings.len() == 0 <==> ran == Ran::<Text>::Succeeded),
{
}

// ---------------------------------------------------------------------------
// Removing
// ---------------------------------------------------------------------------

/// Where a removal is.
#[derive(Debug, Clone, Copy, PartialEq, Eq, Structural)]
pub enum RemovalStage {
    Stopping,
    Removing,
    Reloading,
    Over,
}

/// A removal on its way. Copies of the binary and the bundle are left alone: what
/// was asked for is that the server no longer starts by itself.
#[derive(Debug, PartialEq, Eq)]
pub struct Uninstalling<S> {
    pub unit_path: S,
    pub stage: RemovalStage,
}

impl View for Uninstalling<String> {
    type V = Uninstalling<Text>;

    open spec fn view(&self) -> Uninstalling<Text> {
        Uninstalling { unit_path: self.unit_path@, stage: self.stage }
    }
}

/// What a removal ends with.
pub type Removed = Result<(Outcome<PlanModel>, Seq<Text>), Text>;

impl Uninstalling<Text> {
    /// Whether this is what was asked for.
    pub open spec fn expects(self, event: Event<Text>) -> bool {
        match self.stage {
            RemovalStage::Stopping | RemovalStage::Reloading => event is Ran,
            RemovalStage::Removing => event is Removed,
            RemovalStage::Over => false,
        }
    }

    /// Nothing more.
    pub open spec fn done(self, result: Removed) -> (Self, DoingModel) {
        (Uninstalling { stage: RemovalStage::Over, ..self }, Action::Done(result))
    }

    /// What comes next.
    pub open spec fn step(self, event: Event<Text>) -> (Self, DoingModel) {
        match event {
            Event::Ran(ran) => if self.stage == RemovalStage::Stopping {
                match failure_of(Step::Stop, ran) {
                    Some(failure) => self.done(Err(failure)),
                    None => (
                        Uninstalling { stage: RemovalStage::Removing, ..self },
                        Action::RemoveFile(self.unit_path),
                    ),
                }
            } else {
                match failure_of(Step::Reload, ran) {
                    Some(failure) => self.done(Err(failure)),
                    None => self.done(Ok((Outcome::Removed, Seq::empty()))),
                }
            },
            Event::Removed(Err(failure)) => self.done(
                Err("cannot remove "@ + self.unit_path + ": "@ + failure),
            ),
            _ => (Uninstalling { stage: RemovalStage::Reloading, ..self }, Action::Run(Step::Reload)),
        }
    }
}

/// How a removal begins.
pub open spec fn uninstall_begins(supported: bool, exists: bool) -> DoingModel {
    if !supported {
        Action::Done(Err("the background service needs Linux with systemd"@))
    } else if !exists {
        Action::Done(Ok((Outcome::NotInstalled, Seq::empty())))
    } else {
        Action::Run(Step::Stop)
    }
}

impl Uninstalling<String> {
    /// Begins a removal, given whether the unit is there.
    pub fn begin(supported: bool, unit_path: String, exists: bool) -> (out: (Uninstalling<String>, Doing))
        ensures
            doing_view(out.1) == uninstall_begins(supported, exists),
            out.0@.unit_path == unit_path@,
            out.0@.stage == if out.1 is Done {
                RemovalStage::Over
            } else {
                RemovalStage::Stopping
            },
    {
        let none: Vec<String> = Vec::new();
        proof {
            assert(text::views(none@) =~= Seq::<Text>::empty());
        }
        let action: Doing = if !supported {
            Action::Done(Err("the background service needs Linux with systemd".to_owned()))
        } else if !exists {
            Action::Done(Ok((Outcome::NotInstalled, none)))
        } else {
            Action::Run(Step::Stop)
        };
        let stage = if !supported || !exists {
            RemovalStage::Over
        } else {
            RemovalStage::Stopping
        };
        (Uninstalling { unit_path, stage }, action)
    }

    /// What comes next.
    pub fn step(&mut self, event: &Event<String>) -> (out: Doing)
        requires
            old(self)@.expects(event@),
        ensures
            (final(self)@, doing_view(out)) == old(self)@.step(event@),
    {
        match event {
            Event::Ran(ran) => {
                if self.stage == RemovalStage::Stopping {
                    match failure(Step::Stop, ran) {
                        Some(failure) => {
                            self.stage = RemovalStage::Over;
                            Action::Done(Err(failure))
                        },
                        None => {
                            self.stage = RemovalStage::Removing;
                            Action::RemoveFile(self.unit_path.clone())
                        },
                    }
                } else {
                    self.stage = RemovalStage::Over;
                    match failure(Step::Reload, ran) {
                        Some(failure) => Action::Done(Err(failure)),
                        None => {
                            let none: Vec<String> = Vec::new();
                            proof {
                                assert(text::views(none@) =~= Seq::<Text>::empty());
                            }
                            Action::Done(Ok((Outcome::Removed, none)))
                        },
                    }
                }
            },
            Event::Removed(Err(failure)) => {
                self.stage = RemovalStage::Over;
                Action::Done(Err(text::glue4("cannot remove ", &self.unit_path, ": ", failure)))
            },
            _ => {
                self.stage = RemovalStage::Reloading;
                Action::Run(Step::Reload)
            },
        }
    }
}

/// A unit is deleted only once its service was stopped.
pub proof fn a_unit_is_deleted_only_once_stopped(m: Uninstalling<Text>, event: Event<Text>)
    requires
        m.expects(event),
    ensures
        m.step(event).1 is RemoveFile ==> m.stage == RemovalStage::Stopping && event == Event::<Text>::Ran(
            Ran::Succeeded,
        ),
{
}

// ---------------------------------------------------------------------------
// Staging
// ---------------------------------------------------------------------------

/// What to do next to keep a copy of the binary and the bundle.
#[derive(Debug, PartialEq, Eq)]
pub enum Copying<S> {
    MakeDirectory(S),
    /// Whatever comes of it: a running binary cannot be copied over.
    RemoveFile(S),
    CopyFile { from: S, to: S },
    MakeExecutable(S),
    /// Whatever comes of it.
    RemoveTree(S),
    CopyTree { from: S, to: S },
    /// Where the binary and the bundle are, or why they are not.
    Done(Result<(S, Option<S>), S>),
}

/// The model of what to do next.
pub open spec fn copying_view(action: Copying<String>) -> Copying<Text> {
    match action {
        Copying::MakeDirectory(path) => Copying::MakeDirectory(path@),
        Copying::RemoveFile(path) => Copying::RemoveFile(path@),
        Copying::CopyFile { from, to } => Copying::CopyFile { from: from@, to: to@ },
        Copying::MakeExecutable(path) => Copying::MakeExecutable(path@),
        Copying::RemoveTree(path) => Copying::RemoveTree(path@),
        Copying::CopyTree { from, to } => Copying::CopyTree { from: from@, to: to@ },
        Copying::Done(Ok((binary, ui))) => Copying::Done(Ok((binary@, text::maybe(ui)))),
        Copying::Done(Err(why)) => Copying::Done(Err(why@)),
    }
}

/// Where staging is.
#[derive(Debug, Clone, Copy, PartialEq, Eq, Structural)]
pub enum CopyStage {
    Directory,
    OldBinary,
    Binary,
    Executable,
    OldBundle,
    Bundle,
    Over,
}

/// Staging on its way.
#[derive(Debug, PartialEq, Eq)]
pub struct Staging<S> {
    pub binary: S,
    pub ui: Option<S>,
    pub data: S,
    pub stage: CopyStage,
}

impl View for Staging<String> {
    type V = Staging<Text>;

    open spec fn view(&self) -> Staging<Text> {
        Staging { binary: self.binary@, ui: text::maybe(self.ui), data: self.data@, stage: self.stage }
    }
}

/// How staging begins: not at all with a binary that stays where it is.
pub open spec fn staging_begins(binary: Text, ui: Option<Text>, data: Text) -> Copying<Text> {
    if service::ephemeral(binary) {
        Copying::MakeDirectory(service::below(data, "service"@))
    } else {
        Copying::Done(Ok((binary, ui)))
    }
}

impl Staging<Text> {
    /// Nothing more.
    pub open spec fn done(self, result: Result<(Text, Option<Text>), Text>) -> (Self, Copying<Text>) {
        (Staging { stage: CopyStage::Over, ..self }, Copying::Done(result))
    }

    /// What comes next, given what came of the last action.
    pub open spec fn step(self, did: Result<(), Text>) -> (Self, Copying<Text>) {
        let to = service::staged_binary(self.data);
        match self.stage {
            CopyStage::Directory => match did {
                Err(failure) => self.done(
                    Err("cannot make "@ + service::below(self.data, "service"@) + ": "@ + failure),
                ),
                Ok(_) => (Staging { stage: CopyStage::OldBinary, ..self }, Copying::RemoveFile(to)),
            },
            CopyStage::OldBinary => (
                Staging { stage: CopyStage::Binary, ..self },
                Copying::CopyFile { from: self.binary, to },
            ),
            CopyStage::Binary => match did {
                Err(failure) => self.done(Err("cannot copy "@ + self.binary + " to "@ + to + (": "@ + failure))),
                Ok(_) => (Staging { stage: CopyStage::Executable, ..self }, Copying::MakeExecutable(to)),
            },
            CopyStage::Executable => match did {
                Err(why) => self.done(Err(why)),
                Ok(_) => match self.ui {
                    None => self.done(Ok((to, None))),
                    Some(_) => (
                        Staging { stage: CopyStage::OldBundle, ..self },
                        Copying::RemoveTree(service::staged_ui(self.data)),
                    ),
                },
            },
            CopyStage::OldBundle => match self.ui {
                Some(ui) => (
                    Staging { stage: CopyStage::Bundle, ..self },
                    Copying::CopyTree { from: ui, to: service::staged_ui(self.data) },
                ),
                None => self.done(Ok((to, None))),
            },
            _ => match did {
                Err(why) => self.done(Err(why)),
                Ok(_) => self.done(Ok((to, Some(service::staged_ui(self.data))))),
            },
        }
    }
}

impl Staging<String> {
    /// Begins staging.
    pub fn begin(binary: String, ui: Option<String>, data: String) -> (out: (Staging<String>, Copying<String>))
        ensures
            copying_view(out.1) == staging_begins(binary@, text::maybe(ui), data@),
            out.0@ == (Staging {
                binary: binary@,
                ui: text::maybe(ui),
                data: data@,
                stage: if service::ephemeral(binary@) {
                    CopyStage::Directory
                } else {
                    CopyStage::Over
                },
            }),
    {
        if service::is_ephemeral(&binary) {
            let directory = service::join_path(&data, "service");
            (Staging { binary, ui, data, stage: CopyStage::Directory }, Copying::MakeDirectory(directory))
        } else {
            let stays = (binary.clone(), text::copy_maybe(&ui));
            (Staging { binary, ui, data, stage: CopyStage::Over }, Copying::Done(Ok(stays)))
        }
    }

    /// What comes next, given what came of the last action.
    pub fn step(&mut self, did: &Result<(), String>) -> (out: Copying<String>)
        requires
            old(self).stage != CopyStage::Over,
        ensures
            (final(self)@, copying_view(out)) == old(self)@.step(
                match did {
                    Ok(_) => Ok(()),
                    Err(why) => Err(why@),
                },
            ),
    {
        let directory = service::join_path(&self.data, "service");
        let to = service::join_path(&directory, "laplus-server");
        let bundle = service::join_path(&directory, "ui");
        match self.stage {
            CopyStage::Directory => match did {
                Err(failure) => {
                    self.stage = CopyStage::Over;
                    Copying::Done(Err(text::glue4("cannot make ", &directory, ": ", failure)))
                },
                Ok(_) => {
                    self.stage = CopyStage::OldBinary;
                    Copying::RemoveFile(to)
                },
            },
            CopyStage::OldBinary => {
                self.stage = CopyStage::Binary;
                Copying::CopyFile { from: self.binary.clone(), to }
            },
            CopyStage::Binary => match did {
                Err(failure) => {
                    self.stage = CopyStage::Over;
                    let why = text::glue(": ", failure);
                    Copying::Done(Err(text::glue5("cannot copy ", &self.binary, " to ", &to, &why)))
                },
                Ok(_) => {
                    self.stage = CopyStage::Executable;
                    Copying::MakeExecutable(to)
                },
            },
            CopyStage::Executable => match did {
                Err(why) => {
                    self.stage = CopyStage::Over;
                    Copying::Done(Err(why.clone()))
                },
                Ok(_) => {
                    if self.ui.is_some() {
                        self.stage = CopyStage::OldBundle;
                        Copying::RemoveTree(bundle)
                    } else {
                        self.stage = CopyStage::Over;
                        Copying::Done(Ok((to, None)))
                    }
                },
            },
            CopyStage::OldBundle => {
                let ui = text::copy_maybe(&self.ui);
                match ui {
                    Some(ui) => {
                        self.stage = CopyStage::Bundle;
                        Copying::CopyTree { from: ui, to: bundle }
                    },
                    None => {
                        self.stage = CopyStage::Over;
                        Copying::Done(Ok((to, None)))
                    },
                }
            },
            _ => {
                self.stage = CopyStage::Over;
                match did {
                    Err(why) => Copying::Done(Err(why.clone())),
                    Ok(_) => Copying::Done(Ok((to, Some(bundle)))),
                }
            },
        }
    }
}

/// Staging at a stage that it can be at.
pub open spec fn stage_is_sound(m: Staging<Text>) -> bool {
    &&& m.stage != CopyStage::Over ==> service::ephemeral(m.binary)
    &&& m.stage == CopyStage::OldBundle || m.stage == CopyStage::Bundle ==> m.ui is Some
}

/// What is predicted is what staging does: where staging succeeds, the binary and
/// the bundle are where [`service::destination`] says they will be.
pub proof fn the_predicted_destination_is_the_one_staging_uses(m: Staging<Text>, did: Result<(), Text>)
    requires
        stage_is_sound(m),
        m.stage != CopyStage::Over,
    ensures
        stage_is_sound(m.step(did).0),
        m.step(did).1 matches Copying::Done(Ok(placed)) ==> placed == service::destined(m.binary, m.ui, m.data),
        m.step(did).0.binary == m.binary && m.step(did).0.ui == m.ui && m.step(did).0.data == m.data,
{
}

/// The same holds where there is nothing to stage.
pub proof fn a_stable_binary_stays_where_it_is(binary: Text, ui: Option<Text>, data: Text)
    ensures
        staging_begins(binary, ui, data) matches Copying::Done(Ok(placed)) ==> placed == service::destined(
            binary,
            ui,
            data,
        ) && placed == (binary, ui),
{
}

// ---------------------------------------------------------------------------
// What is run, and in which order
// ---------------------------------------------------------------------------

/// Each step runs its own command, and is told by what it does.
pub proof fn a_step_runs_its_own_command(step: Step)
    ensures
        step.running() == (if step is Linger {
            "loginctl"@
        } else {
            "systemctl"@
        }),
        step is Reload ==> step.with() == seq!["--user"@, "daemon-reload"@] && step.doing() == "reloading the user units"@,
        step is Enable ==> step.with() == seq!["--user"@, "enable"@, "laplus.service"@] && step.doing()
            == "enabling the service"@,
        step is Start ==> step.with() == seq!["--user"@, "restart"@, "laplus.service"@] && step.doing()
            == "starting the service"@,
        step is Restore ==> step.with() == seq!["--user"@, "restart"@, "laplus.service"@] && step.doing()
            == "restoring the service"@,
        step is Remove ==> step.with() == seq!["--user"@, "disable"@, "--now"@, "laplus.service"@] && step.doing()
            == "removing the service"@,
        step is Stop ==> step.with() == seq!["--user"@, "disable"@, "--now"@, "laplus.service"@] && step.doing()
            == "stopping the service"@,
        step is Linger ==> step.with() == seq!["enable-linger"@] && step.doing() == "enabling lingering"@,
{
}

/// A command that did not start and one that failed are told apart, each with what was
/// being done and what was said of it.
pub proof fn a_failed_command_says_what_it_was_doing(step: Step, said: Text)
    ensures
        failure_of(step, Ran::Succeeded) is None,
        failure_of(step, Ran::NotStarted(said)) == Some(
            "cannot run "@ + step.running() + " while "@ + step.doing() + (": "@ + said),
        ),
        text::trimmed(said).len() == 0 ==> failure_of(step, Ran::Failed(said)) == Some("failed while "@ + step.doing()),
        text::trimmed(said).len() > 0 ==> failure_of(step, Ran::Failed(said)) == Some(
            "failed while "@ + step.doing() + ": "@ + text::trimmed(said),
        ),
{
}

/// An installation makes its directories, writes the unit that is planned, and then
/// reloads, enables, starts and lets it linger, in this order.
pub proof fn an_installation_goes_in_its_order(m: InstallingModel, failure: Text, directory: Text)
    ensures
        install_begins(m.plan, false, m.existing, true) == Action::<Text, PlanModel, Seq<Text>>::Done(
            Err("the background service needs Linux with systemd; nothing was changed"@),
        ),
        install_begins(m.plan, true, Some(unit::rendered(m.plan)), true) == Action::<Text, PlanModel, Seq<Text>>::Done(
            Ok((Outcome::Unchanged(m.plan), Seq::empty())),
        ),
        m.existing != Some(unit::rendered(m.plan)) ==> install_begins(m.plan, true, m.existing, true) == Action::<
            Text,
            PlanModel,
            Seq<Text>,
        >::MakeParent(m.plan.log_path),
        install_begins(m.plan, true, m.existing, false) == Action::<Text, PlanModel, Seq<Text>>::MakeParent(m.plan.log_path),
        m.stage is LogDirectory ==> ({
            let (n, action) = m.step(Event::Directory(Directory::Made));
            n.stage is UnitDirectory && action == Action::<Text, PlanModel, Seq<Text>>::MakeParent(m.plan.unit_path)
        }),
        m.stage is LogDirectory ==> m.step(Event::Directory(Directory::Missing)) == m.step(
            Event::Directory(Directory::Made),
        ),
        m.stage is UnitDirectory ==> ({
            let (n, action) = m.step(Event::Directory(Directory::Made));
            n.stage is Writing && action == (Action::<Text, PlanModel, Seq<Text>>::WriteUnit {
                path: m.plan.unit_path,
                unit: unit::rendered(m.plan),
            })
        }),
        m.stage is UnitDirectory ==> m.step(Event::Directory(Directory::Missing)).1 == Action::<Text, PlanModel, Seq<Text>>::Done(
            Err("the unit path has no parent"@),
        ),
        m.step(Event::Directory(Directory::Failed { directory, failure })).1 == Action::<Text, PlanModel, Seq<Text>>::Done(
            Err("cannot make "@ + directory + ": "@ + failure),
        ),
        m.stage is Writing ==> ({
            let (n, action) = m.step(Event::Wrote(Ok(())));
            n.stage is Reloading && action == Action::<Text, PlanModel, Seq<Text>>::Run(Step::Reload)
        }),
        m.stage is Writing ==> m.step(Event::Wrote(Err(failure))).1 == Action::<Text, PlanModel, Seq<Text>>::Done(
            Err("cannot write "@ + m.plan.unit_path + ": "@ + failure),
        ),
        m.stage is Reloading ==> m.step(Event::Ran(Ran::Succeeded)).1 == Action::<Text, PlanModel, Seq<Text>>::Run(
            Step::Enable,
        ),
        m.stage is Enabling ==> m.step(Event::Ran(Ran::Succeeded)).1 == Action::<Text, PlanModel, Seq<Text>>::Run(
            Step::Start,
        ),
        m.stage is Starting ==> m.step(Event::Ran(Ran::Succeeded)).1 == Action::<Text, PlanModel, Seq<Text>>::Run(
            Step::Linger,
        ),
        m.stage is Reloading ==> m.step(Event::Ran(Ran::Succeeded)).0.stage is Enabling,
        m.stage is Enabling ==> m.step(Event::Ran(Ran::Succeeded)).0.stage is Starting,
        m.stage is Starting ==> m.step(Event::Ran(Ran::Succeeded)).0.stage is Lingering,
{
}

/// An installation that is through says whether there was one before, and warns where
/// it will not outlive the login, with what was said of that.
pub proof fn an_installation_says_what_it_did(m: InstallingModel, said: Text)
    requires
        m.stage is Lingering,
    ensures
        ({
            let outcome = if m.existing is Some {
                Outcome::Updated(m.plan)
            } else {
                Outcome::Installed(m.plan)
            };
            let warned = m.step(Event::Ran(Ran::NotStarted(said))).1;
            &&& m.step(Event::Ran(Ran::Succeeded)).1 == Action::<Text, PlanModel, Seq<Text>>::Done(
                Ok((outcome, Seq::empty())),
            )
            &&& warned == Action::<Text, PlanModel, Seq<Text>>::Done(
                Ok(
                    (
                        outcome,
                        seq![
                            "cannot run "@ + "loginctl"@ + " while "@ + "enabling lingering"@ + (": "@ + said)
                                + " — the service is running, but it will stop when you log out. Run `sudo loginctl enable-linger $USER` to fix that."@,
                        ],
                    ),
                ),
            )
        }),
{
}

/// A removal stops the service, removes its own unit and reloads, and what fails on
/// the way ends it.
pub proof fn a_removal_goes_in_its_order(m: Uninstalling<Text>, failure: Text, ran: Ran<Text>)
    ensures
        uninstall_begins(false, true) == Action::<Text, PlanModel, Seq<Text>>::Done(
            Err("the background service needs Linux with systemd"@),
        ),
        uninstall_begins(true, false) == Action::<Text, PlanModel, Seq<Text>>::Done(
            Ok((Outcome::NotInstalled, Seq::empty())),
        ),
        uninstall_begins(true, true) == Action::<Text, PlanModel, Seq<Text>>::Run(Step::Stop),
        m.stage is Stopping ==> ({
            let (n, action) = m.step(Event::Ran(Ran::Succeeded));
            n.stage is Removing && action == Action::<Text, PlanModel, Seq<Text>>::RemoveFile(m.unit_path)
        }),
        m.stage is Stopping && !(ran is Succeeded) ==> m.step(Event::Ran(ran)).1 == Action::<Text, PlanModel, Seq<Text>>::Done(
            Err(failure_of(Step::Stop, ran)->0),
        ),
        m.stage is Removing ==> ({
            let (n, action) = m.step(Event::Removed(Ok(())));
            n.stage is Reloading && action == Action::<Text, PlanModel, Seq<Text>>::Run(Step::Reload)
        }),
        m.stage is Removing ==> m.step(Event::Removed(Err(failure))).1 == Action::<Text, PlanModel, Seq<Text>>::Done(
            Err("cannot remove "@ + m.unit_path + ": "@ + failure),
        ),
        m.stage is Reloading ==> m.step(Event::Ran(Ran::Succeeded)).1 == Action::<Text, PlanModel, Seq<Text>>::Done(
            Ok((Outcome::Removed, Seq::empty())),
        ),
        m.stage is Reloading && !(ran is Succeeded) ==> m.step(Event::Ran(ran)).1 == Action::<Text, PlanModel, Seq<Text>>::Done(
            Err(failure_of(Step::Reload, ran)->0),
        ),
{
}

/// A binary that passes is copied from where it is to where it will stay, made
/// executable, and followed by its bundle; what fails on the way is told with what was
/// to be done.
pub proof fn a_binary_is_copied_to_where_it_stays(m: Staging<Text>, failure: Text, did: Result<(), Text>)
    ensures
        ({
            let folder = service::below(m.data, "service"@);
            let to = service::below(folder, "laplus-server"@);
            let bundle = service::below(folder, "ui"@);
            &&& service::ephemeral(m.binary) ==> staging_begins(m.binary, m.ui, m.data) == Copying::<Text>::MakeDirectory(
                folder,
            )
            &&& m.stage is Directory ==> m.step(Ok(())).1 == Copying::<Text>::RemoveFile(to) && m.step(Ok(())).0.stage
                is OldBinary
            &&& m.stage is Directory ==> m.step(Err(failure)).1 == Copying::<Text>::Done(
                Err("cannot make "@ + folder + ": "@ + failure),
            )
            &&& m.stage is OldBinary ==> m.step(did).1 == (Copying::<Text>::CopyFile { from: m.binary, to }) && m.step(
                did,
            ).0.stage is Binary
            &&& m.stage is Binary ==> m.step(Ok(())).1 == Copying::<Text>::MakeExecutable(to) && m.step(Ok(())).0.stage
                is Executable
            &&& m.stage is Binary ==> m.step(Err(failure)).1 == Copying::<Text>::Done(
                Err("cannot copy "@ + m.binary + " to "@ + to + (": "@ + failure)),
            )
            &&& m.stage is Executable && m.ui is None ==> m.step(Ok(())).1 == Copying::<Text>::Done(Ok((to, None)))
            &&& m.stage is Executable && m.ui is Some ==> m.step(Ok(())).1 == Copying::<Text>::RemoveTree(bundle)
                && m.step(Ok(())).0.stage is OldBundle
            &&& m.stage is Executable ==> m.step(Err(failure)).1 == Copying::<Text>::Done(Err(failure))
            &&& m.stage is OldBundle ==> (m.ui matches Some(ui) ==> m.step(did).1 == (Copying::<Text>::CopyTree {
                from: ui,
                to: bundle,
            }) && m.step(did).0.stage is Bundle)
            &&& m.stage is Bundle ==> m.step(Ok(())).1 == Copying::<Text>::Done(Ok((to, Some(bundle))))
            &&& m.stage is Bundle ==> m.step(Err(failure)).1 == Copying::<Text>::Done(Err(failure))
        }),
{
}

} // verus!
