use pyide::backend::Backend;
use pyide::editor::Editor;
use pyide::modules::ModuleSet;
use pyide::pipeline::{
    judge, Action, BootstrapError, Outcome, Pipeline, Plan, Progress, Step,
};
use pyide::runner::{Invocation, Status};

fn texts(items: &[&str]) -> Vec<String> {
    items.iter().map(|s| s.to_string()).collect()
}

fn plan(project: &str, modules: &[&str], backend: Backend, editor: Option<Editor>) -> Plan {
    Plan {
        project: project.to_string(),
        modules: ModuleSet::resolve(&texts(modules), None),
        backend,
        editor,
    }
}

fn run(program: &str, args: &[&str]) -> Action {
    Action::Run { command: Invocation { program: program.to_string(), args: texts(args) } }
}

fn good(action: &Action) -> Outcome {
    match action {
        Action::Run { .. } => Outcome::Ran(Status::Exited(0)),
        _ => Outcome::Completed,
    }
}

/// Drives a run: `script` answers the action at each place that it names,
/// and every other action succeeds. Returns what was asked and how it ended.
fn drive(plan: Plan, script: &[(usize, Outcome)]) -> (Vec<Action>, Result<(), BootstrapError>) {
    let mut pipeline = Pipeline::new(plan);
    let mut asked: Vec<Action> = Vec::new();
    loop {
        match pipeline.pending() {
            Some(action) => {
                let place = asked.len();
                let outcome = script
                    .iter()
                    .find(|(at, _)| *at == place)
                    .map(|(_, outcome)| *outcome)
                    .unwrap_or(good(&action));
                asked.push(action);
                pipeline.record(outcome);
            }
            None => break,
        }
        assert!(asked.len() <= 10);
    }
    (asked, pipeline.result().unwrap())
}

fn plain_actions(project: &str) -> Vec<Action> {
    vec![
        Action::Probe { path: project.to_string() },
        Action::CreateDirectory { path: project.to_string() },
        run("git", &["init", project]),
        Action::WriteFile {
            path: format!("{}/.gitignore", project),
            contents: ".venv\n".to_string(),
        },
        run("uv", &["venv", &format!("{}/.venv", project)]),
        run(
            "uv",
            &["pip", "--directory", &format!("{}/.venv", project), "install", "--upgrade", "pip"],
        ),
        Action::WriteFile {
            path: format!("{}/main.py", project),
            contents: "print('Hello, World!')".to_string(),
        },
    ]
}

#[test]
fn existing_project_fails_before_any_command() {
    let (asked, result) = drive(plan("demo", &["numpy"], Backend::Uv, Some(Editor::Zed)), &[(
        0,
        Outcome::Occupied,
    )]);
    assert_eq!(result, Err(BootstrapError::AlreadyExists));
    assert_eq!(asked, vec![Action::Probe { path: "demo".to_string() }]);
}

#[test]
fn plain_run_creates_environment_and_starter_file() {
    let (asked, result) = drive(plan("demo", &[], Backend::Uv, None), &[]);
    assert_eq!(result, Ok(()));
    assert_eq!(asked, plain_actions("demo"));
}

#[test]
fn plain_run_with_pip() {
    let (asked, result) = drive(plan("demo", &[], Backend::Pip, None), &[]);
    assert_eq!(result, Ok(()));
    assert_eq!(
        asked,
        vec![
            Action::Probe { path: "demo".to_string() },
            Action::CreateDirectory { path: "demo".to_string() },
            run("git", &["init", "demo"]),
            Action::WriteFile {
                path: "demo/.gitignore".to_string(),
                contents: ".venv\n".to_string(),
            },
            run("python3", &["-m", "venv", "demo/.venv"]),
            run("demo/.venv/bin/pip3", &["install", "--upgrade", "pip"]),
            Action::WriteFile {
                path: "demo/main.py".to_string(),
                contents: "print('Hello, World!')".to_string(),
            },
        ]
    );
}

#[test]
fn full_run_installs_once_and_opens_the_editor() {
    let (asked, result) =
        drive(plan("demo", &["numpy", "pandas"], Backend::Pip, Some(Editor::Vscode)), &[]);
    assert_eq!(result, Ok(()));
    assert_eq!(asked.len(), 10);
    assert_eq!(asked[6], run("demo/.venv/bin/pip3", &["install", "numpy", "pandas"]));
    assert_eq!(
        asked[7],
        Action::WriteFile {
            path: "demo/main.py".to_string(),
            contents: "print('Hello, World!')".to_string(),
        }
    );
    assert_eq!(asked[8], run("code", &["--version"]));
    assert_eq!(
        asked[9],
        Action::Launch {
            command: Invocation { program: "code".to_string(), args: texts(&["-n", "demo"]) },
        }
    );
}

#[test]
fn missing_editor_fails_after_everything_else_was_done() {
    let (asked, result) =
        drive(plan("demo", &[], Backend::Uv, Some(Editor::Pycharm)), &[(
            7,
            Outcome::Ran(Status::NotStarted),
        )]);
    assert_eq!(result, Err(BootstrapError::EditorNotInstalled { editor: Editor::Pycharm }));
    let mut expected = plain_actions("demo");
    expected.push(run("charm", &["--version"]));
    assert_eq!(asked, expected);
}

#[test]
fn editor_whose_launcher_reports_failure_counts_as_not_installed() {
    let (asked, result) = drive(plan("demo", &["a"], Backend::Uv, Some(Editor::Zed)), &[(
        8,
        Outcome::Ran(Status::Exited(2)),
    )]);
    assert_eq!(result, Err(BootstrapError::EditorNotInstalled { editor: Editor::Zed }));
    assert_eq!(asked.len(), 9);
    assert_eq!(asked[8], run("zeditor", &["--version"]));
}

#[test]
fn failed_installation_stops_before_the_starter_file() {
    let (asked, result) = drive(plan("demo", &["nope"], Backend::Uv, Some(Editor::Vscode)), &[(
        6,
        Outcome::Ran(Status::Exited(1)),
    )]);
    assert_eq!(
        result,
        Err(BootstrapError::Exit { step: Step::InstallModules, code: Some(1) })
    );
    assert_eq!(asked.len(), 7);
    assert_eq!(
        asked[6],
        run("uv", &["pip", "--directory", "demo/.venv", "install", "nope"])
    );
    for action in &asked {
        assert!(!matches!(action, Action::Launch { .. }));
        if let Action::WriteFile { path, .. } = action {
            assert_ne!(path, "demo/main.py");
        }
    }
}

#[test]
fn every_step_can_end_the_run() {
    let full = plan("demo", &["a"], Backend::Uv, Some(Editor::Zed));
    let (all, _) = drive(full, &[]);
    assert_eq!(all.len(), 10);
    for at in 0..10 {
        let failing = match all[at] {
            Action::Run { .. } | Action::Launch { .. } => Outcome::Ran(Status::NotStarted),
            _ => Outcome::IoFailed,
        };
        let (asked, result) =
            drive(plan("demo", &["a"], Backend::Uv, Some(Editor::Zed)), &[(at, failing)]);
        assert!(result.is_err());
        assert_eq!(asked.len(), at + 1);
        assert_eq!(asked[..], all[..at + 1]);
    }
}

#[test]
fn reports_after_the_end_change_nothing() {
    let mut pipeline = Pipeline::new(plan("demo", &[], Backend::Uv, None));
    pipeline.record(Outcome::Completed);
    pipeline.record(Outcome::IoFailed);
    let failed = Progress::Failed(BootstrapError::Io { step: Step::CreateDirectory });
    assert_eq!(pipeline.progress(), failed);
    pipeline.record(Outcome::Completed);
    pipeline.record(Outcome::Ran(Status::Exited(0)));
    pipeline.record(Outcome::Occupied);
    assert_eq!(pipeline.progress(), failed);
    assert_eq!(pipeline.pending(), None);
    assert_eq!(
        pipeline.result(),
        Some(Err(BootstrapError::Io { step: Step::CreateDirectory }))
    );

    let (_, done) = drive(plan("demo", &[], Backend::Uv, None), &[]);
    assert_eq!(done, Ok(()));
    let mut finished = Pipeline::new(plan("demo", &[], Backend::Uv, None));
    for _ in 0..7 {
        let action = finished.pending().unwrap();
        finished.record(good(&action));
    }
    assert_eq!(finished.progress(), Progress::Finished);
    finished.record(Outcome::IoFailed);
    assert_eq!(finished.progress(), Progress::Finished);
    assert_eq!(finished.result(), Some(Ok(())));
}

#[test]
fn new_run_starts_with_the_preflight() {
    let pipeline = Pipeline::new(plan("demo", &["a"], Backend::Pip, None));
    assert_eq!(pipeline.progress(), Progress::Next(Step::Preflight));
    assert_eq!(pipeline.result(), None);
    assert_eq!(pipeline.pending(), Some(Action::Probe { path: "demo".to_string() }));
    assert_eq!(pipeline.plan().project, "demo");
    assert_eq!(pipeline.plan().backend, Backend::Pip);
}

#[test]
fn steps_follow_in_their_order() {
    let full = plan("demo", &["a"], Backend::Uv, Some(Editor::Zed));
    assert_eq!(full.next_step(Step::Preflight), Some(Step::CreateDirectory));
    assert_eq!(full.next_step(Step::CreateDirectory), Some(Step::InitVcs));
    assert_eq!(full.next_step(Step::InitVcs), Some(Step::IgnoreEnvironment));
    assert_eq!(full.next_step(Step::IgnoreEnvironment), Some(Step::CreateEnvironment));
    assert_eq!(full.next_step(Step::CreateEnvironment), Some(Step::UpgradeInstaller));
    assert_eq!(full.next_step(Step::UpgradeInstaller), Some(Step::InstallModules));
    assert_eq!(full.next_step(Step::InstallModules), Some(Step::WriteStarterFile));
    assert_eq!(full.next_step(Step::WriteStarterFile), Some(Step::CheckEditor(Editor::Zed)));
    assert_eq!(
        full.next_step(Step::CheckEditor(Editor::Zed)),
        Some(Step::LaunchEditor(Editor::Zed))
    );
    assert_eq!(full.next_step(Step::LaunchEditor(Editor::Zed)), None);

    let bare = plan("demo", &[], Backend::Uv, None);
    assert_eq!(bare.next_step(Step::UpgradeInstaller), Some(Step::WriteStarterFile));
    assert_eq!(bare.next_step(Step::WriteStarterFile), None);
}

#[test]
fn no_action_installs_nothing() {
    let bare = plan("demo", &[], Backend::Uv, None);
    assert_eq!(bare.action(Step::InstallModules), None);
    let one = plan("demo", &["a"], Backend::Uv, None);
    assert_eq!(
        one.action(Step::InstallModules),
        Some(run("uv", &["pip", "--directory", "demo/.venv", "install", "a"]))
    );
}

#[test]
fn advance_takes_one_step_at_a_time() {
    let bare = plan("demo", &[], Backend::Uv, None);
    assert_eq!(
        bare.advance(Progress::Next(Step::Preflight), Outcome::Completed),
        Progress::Next(Step::CreateDirectory)
    );
    assert_eq!(
        bare.advance(Progress::Next(Step::WriteStarterFile), Outcome::Completed),
        Progress::Finished
    );
    assert_eq!(
        bare.advance(Progress::Next(Step::WriteStarterFile), Outcome::IoFailed),
        Progress::Failed(BootstrapError::Io { step: Step::WriteStarterFile })
    );
    assert_eq!(bare.advance(Progress::Finished, Outcome::IoFailed), Progress::Finished);
    let failed = Progress::Failed(BootstrapError::AlreadyExists);
    assert_eq!(bare.advance(failed, Outcome::Completed), failed);
}

#[test]
fn outcomes_are_judged_by_step() {
    let step = Step::CreateEnvironment;
    assert_eq!(judge(step, Outcome::Completed), None);
    assert_eq!(judge(step, Outcome::Ran(Status::Exited(0))), None);
    assert_eq!(judge(step, Outcome::Occupied), Some(BootstrapError::AlreadyExists));
    assert_eq!(judge(step, Outcome::IoFailed), Some(BootstrapError::Io { step }));
    assert_eq!(
        judge(step, Outcome::Ran(Status::NotStarted)),
        Some(BootstrapError::Launch { step })
    );
    assert_eq!(
        judge(step, Outcome::Ran(Status::Exited(3))),
        Some(BootstrapError::Exit { step, code: Some(3) })
    );
    assert_eq!(
        judge(step, Outcome::Ran(Status::Killed)),
        Some(BootstrapError::Exit { step, code: None })
    );
}

#[test]
fn editor_check_fails_in_one_way_only() {
    let step = Step::CheckEditor(Editor::Vscode);
    let missing = Some(BootstrapError::EditorNotInstalled { editor: Editor::Vscode });
    assert_eq!(judge(step, Outcome::Ran(Status::NotStarted)), missing);
    assert_eq!(judge(step, Outcome::Ran(Status::Exited(1))), missing);
    assert_eq!(judge(step, Outcome::Ran(Status::Killed)), missing);
    assert_eq!(judge(step, Outcome::Ran(Status::Exited(0))), None);
}

#[test]
fn editor_launch_only_has_to_start() {
    let step = Step::LaunchEditor(Editor::Zed);
    assert_eq!(
        judge(step, Outcome::Ran(Status::NotStarted)),
        Some(BootstrapError::Launch { step })
    );
    assert_eq!(judge(step, Outcome::Completed), None);
    assert_eq!(judge(step, Outcome::Ran(Status::Exited(0))), None);
    assert_eq!(judge(step, Outcome::Ran(Status::Exited(1))), None);
    assert_eq!(judge(step, Outcome::Ran(Status::Killed)), None);
}

#[test]
fn failed_directory_creation_is_an_io_error() {
    let (asked, result) = drive(plan("", &[], Backend::Uv, None), &[(1, Outcome::IoFailed)]);
    assert_eq!(result, Err(BootstrapError::Io { step: Step::CreateDirectory }));
    assert_eq!(asked.len(), 2);
}

#[test]
fn failed_environment_creation_stops_the_run() {
    let (asked, result) = drive(plan("demo", &["a"], Backend::Pip, None), &[(
        4,
        Outcome::Ran(Status::Exited(1)),
    )]);
    assert_eq!(
        result,
        Err(BootstrapError::Exit { step: Step::CreateEnvironment, code: Some(1) })
    );
    assert_eq!(asked.len(), 5);
}

#[test]
fn missing_git_is_a_launch_error() {
    let (asked, result) = drive(plan("demo", &[], Backend::Uv, None), &[(
        2,
        Outcome::Ran(Status::NotStarted),
    )]);
    assert_eq!(result, Err(BootstrapError::Launch { step: Step::InitVcs }));
    assert_eq!(asked.len(), 3);
}
