//! The run itself: a fixed course of steps, each attempted only after all
//! before it succeeded, and ended by the first that fails.
//!
//! A [`Pipeline`] performs nothing. It names the action that is due, takes
//! the outcome that a driver reports for it, and goes on from there.

use vstd::prelude::*;
use crate::backend::{create_environment_of, install_of, upgrade_of, Backend};
use crate::editor::{open_of, probe_of, Editor};
use crate::modules::ModuleSet;
use crate::runner::{check, verdict, Invocation, InvocationView, RunError, Status};
use crate::text::join;

verus! {

/// One step of a run.
#[derive(Debug, Clone, Copy, PartialEq, Eq, Structural)]
pub enum Step {
    /// Make sure that nothing stands where the project is to be.
    Preflight,
    /// Create the project directory.
    CreateDirectory,
    /// Make the project a git repository.
    InitVcs,
    /// Tell git to ignore the virtual environment.
    IgnoreEnvironment,
    /// Create the virtual environment.
    CreateEnvironment,
    /// Bring the installer of the environment up to date.
    UpgradeInstaller,
    /// Install the packages.
    InstallModules,
    /// Write the starter file.
    WriteStarterFile,
    /// Find out whether the editor is installed.
    CheckEditor(Editor),
    /// Open the project in the editor.
    LaunchEditor(Editor),
}

/// Why a run failed.
#[derive(Debug, Clone, Copy, PartialEq, Eq, Structural)]
pub enum BootstrapError {
    /// Something stands where the project is to be.
    AlreadyExists,
    /// The program of this step could not be found or started.
    Launch { step: Step },
    /// The program of this step ran and reported failure.
    Exit { step: Step, code: Option<i32> },
    /// The filesystem refused what this step asked of it.
    Io { step: Step },
    /// The launcher of this editor is missing, or does not work.
    EditorNotInstalled { editor: Editor },
}

/// What a driver reports of the action it was asked to perform.
#[derive(Debug, Clone, Copy, PartialEq, Eq, Structural)]
pub enum Outcome {
    /// The path is free, the directory was created, the file was written, or
    /// the program was started.
    Completed,
    /// An entry stands at the path.
    Occupied,
    /// The filesystem refused.
    IoFailed,
    /// The program was run, and this became of it.
    Ran(Status),
}

/// What a driver is asked to perform.
#[derive(Debug, Clone, PartialEq, Eq)]
pub enum Action {
    /// Report whether an entry stands at `path`, whatever its kind.
    Probe { path: String },
    /// Create the directory `path`.
    CreateDirectory { path: String },
    /// Run the program and wait until it ends. Its standard streams are those
    /// of the driver.
    Run { command: Invocation },
    /// Start the program and do not wait for it.
    Launch { command: Invocation },
    /// Create the file `path` with exactly `contents`.
    WriteFile { path: String, contents: String },
}

/// The mathematical content of an [`Action`].
pub ghost enum ActionView {
    Probe { path: Seq<char> },
    CreateDirectory { path: Seq<char> },
    Run { command: InvocationView },
    Launch { command: InvocationView },
    WriteFile { path: Seq<char>, contents: Seq<char> },
}

impl View for Action {
    type V = ActionView;

    open spec fn view(&self) -> ActionView {
        match self {
            Action::Probe { path } => ActionView::Probe { path: path@ },
            Action::CreateDirectory { path } => ActionView::CreateDirectory { path: path@ },
            Action::Run { command } => ActionView::Run { command: command@ },
            Action::Launch { command } => ActionView::Launch { command: command@ },
            Action::WriteFile { path, contents } => ActionView::WriteFile {
                path: path@,
                contents: contents@,
            },
        }
    }
}

/// What one run is to do, resolved once before its first step.
#[derive(Debug)]
pub struct Plan {
    /// The name of the project, which is also the path of its directory.
    pub project: String,
    /// The packages to install.
    pub modules: ModuleSet,
    /// The backend, the same for every step.
    pub backend: Backend,
    /// The editor to open at the end, if any.
    pub editor: Option<Editor>,
}

/// The mathematical content of a [`Plan`].
pub ghost struct PlanView {
    pub project: Seq<char>,
    pub modules: Seq<Seq<char>>,
    pub backend: Backend,
    pub editor: Option<Editor>,
}

impl View for Plan {
    type V = PlanView;

    open spec fn view(&self) -> PlanView {
        PlanView {
            project: self.project@,
            modules: self.modules@,
            backend: self.backend,
            editor: self.editor,
        }
    }
}

/// How far a run has come.
#[derive(Debug, Clone, Copy, PartialEq, Eq, Structural)]
pub enum Progress {
    /// This step is due.
    Next(Step),
    /// The run has ended with this error.
    Failed(BootstrapError),
    /// Every step has succeeded.
    Finished,
}

/// The file that tells git what to ignore in `project`.
pub open spec fn ignore_path(project: Seq<char>) -> Seq<char> {
    project + "/.gitignore"@
}

/// The starter file of `project`.
pub open spec fn starter_path(project: Seq<char>) -> Seq<char> {
    project + "/main.py"@
}

/// The invocation that makes `project` a git repository.
pub open spec fn init_vcs_of(project: Seq<char>) -> InvocationView {
    InvocationView { program: "git"@, args: seq!["init"@, project] }
}

/// The action of each step.
pub open spec fn action_of(plan: PlanView, step: Step) -> ActionView {
    match step {
        Step::Preflight => ActionView::Probe { path: plan.project },
        Step::CreateDirectory => ActionView::CreateDirectory { path: plan.project },
        Step::InitVcs => ActionView::Run { command: init_vcs_of(plan.project) },
        Step::IgnoreEnvironment => ActionView::WriteFile {
            path: ignore_path(plan.project),
            contents: ".venv\n"@,
        },
        Step::CreateEnvironment => ActionView::Run {
            command: create_environment_of(plan.backend, plan.project),
        },
        Step::UpgradeInstaller => ActionView::Run {
            command: upgrade_of(plan.backend, plan.project),
        },
        Step::InstallModules => ActionView::Run {
            command: install_of(plan.backend, plan.project, plan.modules),
        },
        Step::WriteStarterFile => ActionView::WriteFile {
            path: starter_path(plan.project),
            contents: "print('Hello, World!')"@,
        },
        Step::CheckEditor(editor) => ActionView::Run { command: probe_of(editor) },
        Step::LaunchEditor(editor) => ActionView::Launch {
            command: open_of(editor, plan.project),
        },
    }
}

/// The step that comes after `step` has succeeded, if any. The installation
/// is left out when there is nothing to install, and the two editor steps
/// when no editor was chosen.
pub open spec fn follows(plan: PlanView, step: Step) -> Option<Step> {
    match step {
        Step::Preflight => Some(Step::CreateDirectory),
        Step::CreateDirectory => Some(Step::InitVcs),
        Step::InitVcs => Some(Step::IgnoreEnvironment),
        Step::IgnoreEnvironment => Some(Step::CreateEnvironment),
        Step::CreateEnvironment => Some(Step::UpgradeInstaller),
        Step::UpgradeInstaller => if plan.modules.len() > 0 {
            Some(Step::InstallModules)
        } else {
            Some(Step::WriteStarterFile)
        },
        Step::InstallModules => Some(Step::WriteStarterFile),
        Step::WriteStarterFile => match plan.editor {
            Some(editor) => Some(Step::CheckEditor(editor)),
            None => None,
        },
        Step::CheckEditor(editor) => Some(Step::LaunchEditor(editor)),
        Step::LaunchEditor(_) => None,
    }
}

/// The error that an outcome means for the step it is reported for, or none
/// if the step succeeded.
///
/// A program succeeds when it exits with code zero. The check of the editor
/// fails in one way only, whether the launcher is missing or reports failure.
/// The editor itself only has to start: the run does not wait for it, and
/// what it exits with is of no account.
pub open spec fn failure_of(step: Step, outcome: Outcome) -> Option<BootstrapError> {
    match outcome {
        Outcome::Completed => None,
        Outcome::Occupied => Some(BootstrapError::AlreadyExists),
        Outcome::IoFailed => Some(BootstrapError::Io { step }),
        Outcome::Ran(status) => match step {
            Step::CheckEditor(editor) => match verdict(status) {
                Ok(_) => None,
                Err(_) => Some(BootstrapError::EditorNotInstalled { editor }),
            },
            Step::LaunchEditor(_) => match status {
                Status::NotStarted => Some(BootstrapError::Launch { step }),
                _ => None,
            },
            _ => match verdict(status) {
                Ok(_) => None,
                Err(RunError::Launch) => Some(BootstrapError::Launch { step }),
                Err(RunError::Exit(code)) => Some(BootstrapError::Exit { step, code }),
            },
        },
    }
}

/// How a run goes on when `outcome` is reported. A run that has ended stays
/// as it is.
pub open spec fn advanced(plan: PlanView, progress: Progress, outcome: Outcome) -> Progress {
    match progress {
        Progress::Next(step) => match failure_of(step, outcome) {
            Some(error) => Progress::Failed(error),
            None => match follows(plan, step) {
                Some(next) => Progress::Next(next),
                None => Progress::Finished,
            },
        },
        _ => progress,
    }
}

/// How far a run has come once a driver has reported `outcomes`, in this
/// order, from its start.
pub open spec fn progress_after(plan: PlanView, outcomes: Seq<Outcome>) -> Progress
    decreases outcomes.len(),
{
    if outcomes.len() == 0 {
        Progress::Next(Step::Preflight)
    } else {
        advanced(plan, progress_after(plan, outcomes.drop_last()), outcomes.last())
    }
}

/// The steps that were attempted while a driver reported `outcomes`: the
/// step that was due at each report, as long as the run had not ended.
pub open spec fn attempted(plan: PlanView, outcomes: Seq<Outcome>) -> Seq<Step>
    decreases outcomes.len(),
{
    if outcomes.len() == 0 {
        Seq::empty()
    } else {
        let before = attempted(plan, outcomes.drop_last());
        match progress_after(plan, outcomes.drop_last()) {
            Progress::Next(step) => before.push(step),
            _ => before,
        }
    }
}

/// Whether `step` is one that a run of `plan` can come to.
pub open spec fn belongs(plan: PlanView, step: Step) -> bool {
    match step {
        Step::InstallModules => plan.modules.len() > 0,
        Step::CheckEditor(editor) => plan.editor == Some(editor),
        Step::LaunchEditor(editor) => plan.editor == Some(editor),
        _ => true,
    }
}

/// Judges the outcome that a driver reports for `step`.
pub fn judge(step: Step, outcome: Outcome) -> (failure: Option<BootstrapError>)
    ensures
        failure == failure_of(step, outcome),
{
    match outcome {
        Outcome::Completed => None,
        Outcome::Occupied => Some(BootstrapError::AlreadyExists),
        Outcome::IoFailed => Some(BootstrapError::Io { step }),
        Outcome::Ran(status) => match step {
            Step::CheckEditor(editor) => match check(status) {
                Ok(_) => None,
                Err(_) => Some(BootstrapError::EditorNotInstalled { editor }),
            },
            Step::LaunchEditor(_) => match status {
                Status::NotStarted => Some(BootstrapError::Launch { step }),
                _ => None,
            },
            _ => match check(status) {
                Ok(_) => None,
                Err(RunError::Launch) => Some(BootstrapError::Launch { step }),
                Err(RunError::Exit(code)) => Some(BootstrapError::Exit { step, code }),
            },
        },
    }
}

impl Plan {
    /// The step that comes after `step` has succeeded, if any.
    pub fn next_step(&self, step: Step) -> (next: Option<Step>)
        ensures
            next == follows(self@, step),
    {
        match step {
            Step::Preflight => Some(Step::CreateDirectory),
            Step::CreateDirectory => Some(Step::InitVcs),
            Step::InitVcs => Some(Step::IgnoreEnvironment),
            Step::IgnoreEnvironment => Some(Step::CreateEnvironment),
            Step::CreateEnvironment => Some(Step::UpgradeInstaller),
            Step::UpgradeInstaller => if self.modules.is_empty() {
                Some(Step::WriteStarterFile)
            } else {
                Some(Step::InstallModules)
            },
            Step::InstallModules => Some(Step::WriteStarterFile),
            Step::WriteStarterFile => match self.editor {
                Some(editor) => Some(Step::CheckEditor(editor)),
                None => None,
            },
            Step::CheckEditor(editor) => Some(Step::LaunchEditor(editor)),
            Step::LaunchEditor(_) => None,
        }
    }

    /// How the run goes on from `progress` when `outcome` is reported.
    pub fn advance(&self, progress: Progress, outcome: Outcome) -> (next: Progress)
        ensures
            next == advanced(self@, progress, outcome),
    {
        match progress {
            Progress::Next(step) => match judge(step, outcome) {
                Some(error) => Progress::Failed(error),
                None => match self.next_step(step) {
                    Some(next) => Progress::Next(next),
                    None => Progress::Finished,
                },
            },
            _ => progress,
        }
    }

    /// The action of `step`. There is none for the installation when there is
    /// nothing to install: the installer is never run without a package.
    pub fn action(&self, step: Step) -> (action: Option<Action>)
        ensures
            match action {
                Some(due) => due@ == action_of(self@, step) && !(step == Step::InstallModules
                    && self@.modules.len() == 0),
                None => step == Step::InstallModules && self@.modules.len() == 0,
            },
    {
        let project = self.project.as_str();
        let action = match step {
            Step::Preflight => Action::Probe { path: String::from_str(project) },
            Step::CreateDirectory => Action::CreateDirectory { path: String::from_str(project) },
            Step::InitVcs => {
                let mut args: Vec<String> = Vec::new();
                args.push(String::from_str("init"));
                args.push(String::from_str(project));
                let command = Invocation { program: String::from_str("git"), args };
                assert(command@.args =~= init_vcs_of(project@).args);
                Action::Run { command }
            },
            Step::IgnoreEnvironment => Action::WriteFile {
                path: join(project, "/.gitignore"),
                contents: String::from_str(".venv\n"),
            },
            Step::CreateEnvironment => Action::Run {
                command: self.backend.create_environment(project),
            },
            Step::UpgradeInstaller => Action::Run {
                command: self.backend.upgrade_installer(project),
            },
            Step::InstallModules => match self.backend.install(project, self.modules.names()) {
                Some(command) => Action::Run { command },
                None => {
                    return None;
                },
            },
            Step::WriteStarterFile => Action::WriteFile {
                path: join(project, "/main.py"),
                contents: String::from_str("print('Hello, World!')"),
            },
            Step::CheckEditor(editor) => Action::Run { command: editor.probe() },
            Step::LaunchEditor(editor) => Action::Launch { command: editor.open(project) },
        };
        Some(action)
    }
}

/// Every step that a run comes to belongs to its plan.
pub proof fn lemma_due_step_belongs(plan: PlanView, outcomes: Seq<Outcome>)
    ensures
        progress_after(plan, outcomes) matches Progress::Next(step) ==> belongs(plan, step),
    decreases outcomes.len(),
{
    if outcomes.len() > 0 {
        lemma_due_step_belongs(plan, outcomes.drop_last());
    }
}

/// Where a run stands, and the outcomes that brought it there.
struct Standing {
    progress: Progress,
    history: Ghost<Seq<Outcome>>,
}

/// One run of a plan, from its first step to its end.
pub struct Pipeline {
    plan: Plan,
    standing: Standing,
}

/// The mathematical content of a [`Pipeline`]: its plan, and the outcomes
/// reported to it so far.
pub ghost struct PipelineView {
    pub plan: PlanView,
    pub history: Seq<Outcome>,
}

impl View for Pipeline {
    type V = PipelineView;

    closed spec fn view(&self) -> PipelineView {
        PipelineView { plan: self.plan@, history: self.standing.history@ }
    }
}

impl Pipeline {
    #[verifier::type_invariant]
    spec fn consistent(&self) -> bool {
        self.standing.progress == progress_after(self.plan@, self.standing.history@)
    }

    /// A run of `plan` of which nothing has been done yet.
    pub fn new(plan: Plan) -> (pipeline: Pipeline)
        ensures
            pipeline@.plan == plan@,
            pipeline@.history == Seq::<Outcome>::empty(),
    {
        Pipeline {
            plan,
            standing: Standing {
                progress: Progress::Next(Step::Preflight),
                history: Ghost(Seq::empty()),
            },
        }
    }

    /// The plan of this run.
    pub fn plan(&self) -> (plan: &Plan)
        ensures
            plan@ == self@.plan,
    {
        &self.plan
    }

    /// How far the run has come.
    pub fn progress(&self) -> (progress: Progress)
        ensures
            progress == progress_after(self@.plan, self@.history),
    {
        proof {
            use_type_invariant(self);
        }
        self.standing.progress
    }

    /// The action that is due: that of the step that is due, and none once
    /// the run has ended.
    pub fn pending(&self) -> (action: Option<Action>)
        ensures
            match progress_after(self@.plan, self@.history) {
                Progress::Next(step) => action is Some && action->0@ == action_of(
                    self@.plan,
                    step,
                ),
                _ => action is None,
            },
    {
        proof {
            use_type_invariant(self);
            lemma_due_step_belongs(self.plan@, self.standing.history@);
        }
        match self.standing.progress {
            Progress::Next(step) => self.plan.action(step),
            _ => None,
        }
    }

    /// Takes the outcome that the driver reports for the action that was
    /// due. A report to a run that has ended changes nothing but the history.
    pub fn record(&mut self, outcome: Outcome)
        ensures
            final(self)@.plan == old(self)@.plan,
            final(self)@.history == old(self)@.history.push(outcome),
    {
        proof {
            use_type_invariant(&*self);
            assert(self.standing.history@.push(outcome).drop_last() =~= self.standing.history@);
        }
        let progress = self.plan.advance(self.standing.progress, outcome);
        self.standing = Standing {
            progress,
            history: Ghost(self.standing.history@.push(outcome)),
        };
    }

    /// How the run has ended: `None` while a step is due.
    pub fn result(&self) -> (result: Option<Result<(), BootstrapError>>)
        ensures
            result == match progress_after(self@.plan, self@.history) {
                Progress::Next(_) => None::<Result<(), BootstrapError>>,
                Progress::Failed(error) => Some(Err::<(), BootstrapError>(error)),
                Progress::Finished => Some(Ok::<(), BootstrapError>(())),
            },
    {
        proof {
            use_type_invariant(self);
        }
        match self.standing.progress {
            Progress::Next(_) => None,
            Progress::Failed(error) => Some(Err(error)),
            Progress::Finished => Some(Ok(())),
        }
    }
}

} // verus!
