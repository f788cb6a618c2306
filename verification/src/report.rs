//! What a failed run tells its user.

use vstd::prelude::*;
use crate::backend::{environment_path, flag_of};
use crate::editor::{name_of, Editor};
use crate::pipeline::{BootstrapError, Plan, PlanView, Step};
use crate::text::join;

verus! {

/// The operation of `step`, named as the thing that failed. For the creation
/// of the virtual environment the name holds the backend and the path that
/// were tried.
pub open spec fn operation_of(plan: PlanView, step: Step) -> Seq<char> {
    match step {
        Step::Preflight => "Failed to inspect the project path"@,
        Step::CreateDirectory => "Failed to create project directory"@,
        Step::InitVcs => "Failed to initialize git"@,
        Step::IgnoreEnvironment => "Failed to create .gitignore file"@,
        Step::CreateEnvironment => "Failed to create virtual environment with "@ + flag_of(
            plan.backend,
        ) + " in "@ + environment_path(plan.project),
        Step::UpgradeInstaller => "Failed to upgrade pip"@,
        Step::InstallModules => "Failed to install modules"@,
        Step::WriteStarterFile => "Failed to create main.py"@,
        Step::CheckEditor(_) => "Failed to check IDE"@,
        Step::LaunchEditor(_) => "Failed to open IDE"@,
    }
}

/// The one message of a failed run.
pub open spec fn message_of(plan: PlanView, error: BootstrapError) -> Seq<char> {
    match error {
        BootstrapError::AlreadyExists => "Project already exists"@,
        BootstrapError::EditorNotInstalled { editor } => "IDE not installed: "@ + name_of(editor),
        BootstrapError::Launch { step } => operation_of(plan, step)
            + ": the program could not be started"@,
        BootstrapError::Exit { step, code } => operation_of(plan, step)
            + ": the program reported failure"@,
        BootstrapError::Io { step } => operation_of(plan, step),
    }
}

/// What the user is told once `step` has succeeded, for the steps that are
/// worth a line.
pub open spec fn notice_of(plan: PlanView, step: Step) -> Option<Seq<char>> {
    match step {
        Step::IgnoreEnvironment => Some("Git repository initialized in "@ + plan.project),
        Step::CreateEnvironment => Some(
            "Virtual environment created in "@ + environment_path(plan.project),
        ),
        Step::CheckEditor(editor) => Some("Opening project in "@ + name_of(editor)),
        _ => None,
    }
}

/// The exit code of the process: zero for a run that finished, one for a run
/// that failed.
pub open spec fn exit_code_of(result: Result<(), BootstrapError>) -> i32 {
    match result {
        Ok(_) => 0,
        Err(_) => 1,
    }
}

/// The exit code with which the process is to end.
pub fn exit_code(result: Result<(), BootstrapError>) -> (code: i32)
    ensures
        code == exit_code_of(result),
{
    match result {
        Ok(_) => 0,
        Err(_) => 1,
    }
}

impl Plan {
    /// What to tell the user once `step` has succeeded, if anything.
    pub fn notice(&self, step: Step) -> (text: Option<String>)
        ensures
            match text {
                Some(line) => notice_of(self@, step) == Some(line@),
                None => notice_of(self@, step) is None,
            },
    {
        match step {
            Step::IgnoreEnvironment => Some(
                join("Git repository initialized in ", self.project.as_str()),
            ),
            Step::CreateEnvironment => {
                let mut line = join("Virtual environment created in ", self.project.as_str());
                line.append("/.venv");
                assert(line@ =~= "Virtual environment created in "@ + environment_path(
                    self@.project,
                ));
                Some(line)
            },
            Step::CheckEditor(editor) => Some(join("Opening project in ", editor.name())),
            _ => None,
        }
    }

    /// Names the operation of `step` as the thing that failed.
    pub fn operation(&self, step: Step) -> (text: String)
        ensures
            text@ == operation_of(self@, step),
    {
        match step {
            Step::Preflight => String::from_str("Failed to inspect the project path"),
            Step::CreateDirectory => String::from_str("Failed to create project directory"),
            Step::InitVcs => String::from_str("Failed to initialize git"),
            Step::IgnoreEnvironment => String::from_str("Failed to create .gitignore file"),
            Step::CreateEnvironment => {
                let mut text = join(
                    "Failed to create virtual environment with ",
                    self.backend.flag(),
                );
                text.append(" in ");
                text.append(self.project.as_str());
                text.append("/.venv");
                assert(text@ =~= operation_of(self@, step));
                text
            },
            Step::UpgradeInstaller => String::from_str("Failed to upgrade pip"),
            Step::InstallModules => String::from_str("Failed to install modules"),
            Step::WriteStarterFile => String::from_str("Failed to create main.py"),
            Step::CheckEditor(_) => String::from_str("Failed to check IDE"),
            Step::LaunchEditor(_) => String::from_str("Failed to open IDE"),
        }
    }

    /// The message of a run of this plan that failed with `error`.
    pub fn describe(&self, error: BootstrapError) -> (message: String)
        ensures
            message@ == message_of(self@, error),
    {
        match error {
            BootstrapError::AlreadyExists => String::from_str("Project already exists"),
            BootstrapError::EditorNotInstalled { editor } => join(
                "IDE not installed: ",
                editor.name(),
            ),
            BootstrapError::Launch { step } => {
                let mut message = self.operation(step);
                message.append(": the program could not be started");
                message
            },
            BootstrapError::Exit { step, code } => {
                let mut message = self.operation(step);
                message.append(": the program reported failure");
                message
            },
            BootstrapError::Io { step } => self.operation(step),
        }
    }
}

/// Whether `part` stands somewhere in `whole`.
pub open spec fn mentions(whole: Seq<char>, part: Seq<char>) -> bool {
    exists|from: int|
        0 <= from && from + part.len() <= whole.len() && #[trigger] whole.subrange(
            from,
            from + part.len(),
        ) == part
}

/// Whatever way the creation of the virtual environment fails, the message
/// names the backend and the path that were tried.
pub proof fn law_environment_failure_names_backend_and_path(
    plan: PlanView,
    error: BootstrapError,
)
    requires
        error == (BootstrapError::Launch { step: Step::CreateEnvironment }) || error
            == (BootstrapError::Io { step: Step::CreateEnvironment }) || exists|code: Option<i32>|
            error == (BootstrapError::Exit { step: Step::CreateEnvironment, code }),
    ensures
        mentions(message_of(plan, error), flag_of(plan.backend)),
        mentions(message_of(plan, error), environment_path(plan.project)),
{
    let message = message_of(plan, error);
    let head = "Failed to create virtual environment with "@;
    let flag = flag_of(plan.backend);
    let path = environment_path(plan.project);
    let at_flag = head.len() as int;
    let at_path = (head + flag + " in "@).len() as int;
    assert(message.subrange(at_flag, at_flag + flag.len()) =~= flag);
    assert(message.subrange(at_path, at_path + path.len()) =~= path);
}

/// The message for a missing editor names the editor.
pub proof fn law_missing_editor_is_named(plan: PlanView, editor: Editor)
    ensures
        mentions(message_of(plan, BootstrapError::EditorNotInstalled { editor }), name_of(editor)),
{
    let message = message_of(plan, BootstrapError::EditorNotInstalled { editor });
    let at = "IDE not installed: "@.len() as int;
    assert(message.subrange(at, at + name_of(editor).len()) =~= name_of(editor));
}

/// The exit code is zero for a run that finished, and for no other.
pub proof fn law_exit_code_tells_success(result: Result<(), BootstrapError>)
    ensures
        exit_code_of(result) == 0 <==> result is Ok,
{
}

} // verus!
