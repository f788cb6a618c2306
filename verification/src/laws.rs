//! What holds of every run, whatever a driver reports.

use vstd::prelude::*;
use crate::backend::Backend;
use crate::editor::Editor;
use crate::pipeline::{
    action_of, attempted, belongs, failure_of, follows, lemma_due_step_belongs, progress_after,
    starter_path, ActionView, BootstrapError, Outcome, PlanView, Progress, Step,
};
use crate::runner::{verdict, Status};

verus! {

/// The steps of a run of `plan` in which nothing fails, in their order.
pub open spec fn course(plan: PlanView) -> Seq<Step> {
    let first = seq![
        Step::Preflight,
        Step::CreateDirectory,
        Step::InitVcs,
        Step::IgnoreEnvironment,
        Step::CreateEnvironment,
        Step::UpgradeInstaller,
    ];
    let install = if plan.modules.len() > 0 {
        seq![Step::InstallModules]
    } else {
        Seq::empty()
    };
    let editor = match plan.editor {
        Some(editor) => seq![Step::CheckEditor(editor), Step::LaunchEditor(editor)],
        None => Seq::empty(),
    };
    first + install + seq![Step::WriteStarterFile] + editor
}

/// The place of a step in the fixed order of all steps.
pub open spec fn rank(step: Step) -> nat {
    match step {
        Step::Preflight => 0,
        Step::CreateDirectory => 1,
        Step::InitVcs => 2,
        Step::IgnoreEnvironment => 3,
        Step::CreateEnvironment => 4,
        Step::UpgradeInstaller => 5,
        Step::InstallModules => 6,
        Step::WriteStarterFile => 7,
        Step::CheckEditor(_) => 8,
        Step::LaunchEditor(_) => 9,
    }
}

/// Whether the first `count` outcomes are each a success of the step of the
/// course that stands at the same place.
pub open spec fn unfailing(plan: PlanView, outcomes: Seq<Outcome>, count: int) -> bool {
    &&& 0 <= count <= outcomes.len()
    &&& count <= course(plan).len()
    &&& forall|i: int| 0 <= i < count ==> failure_of(#[trigger] course(plan)[i], outcomes[i]) is None
}

/// The course starts with the preflight, each of its steps is followed by the
/// next, and nothing follows its last.
proof fn lemma_course_links(plan: PlanView, at: int)
    requires
        0 <= at < course(plan).len(),
    ensures
        course(plan)[0] == Step::Preflight,
        follows(plan, course(plan)[at]) == if at + 1 < course(plan).len() {
            Some(course(plan)[at + 1])
        } else {
            None
        },
        at + 1 < course(plan).len() ==> rank(course(plan)[at]) < rank(course(plan)[at + 1]),
{
    let steps = course(plan);
    if plan.modules.len() > 0 {
        match plan.editor {
            Some(editor) => {
                assert(steps =~= seq![
                    Step::Preflight,
                    Step::CreateDirectory,
                    Step::InitVcs,
                    Step::IgnoreEnvironment,
                    Step::CreateEnvironment,
                    Step::UpgradeInstaller,
                    Step::InstallModules,
                    Step::WriteStarterFile,
                    Step::CheckEditor(editor),
                    Step::LaunchEditor(editor),
                ]);
            },
            None => {
                assert(steps =~= seq![
                    Step::Preflight,
                    Step::CreateDirectory,
                    Step::InitVcs,
                    Step::IgnoreEnvironment,
                    Step::CreateEnvironment,
                    Step::UpgradeInstaller,
                    Step::InstallModules,
                    Step::WriteStarterFile,
                ]);
            },
        }
    } else {
        match plan.editor {
            Some(editor) => {
                assert(steps =~= seq![
                    Step::Preflight,
                    Step::CreateDirectory,
                    Step::InitVcs,
                    Step::IgnoreEnvironment,
                    Step::CreateEnvironment,
                    Step::UpgradeInstaller,
                    Step::WriteStarterFile,
                    Step::CheckEditor(editor),
                    Step::LaunchEditor(editor),
                ]);
            },
            None => {
                assert(steps =~= seq![
                    Step::Preflight,
                    Step::CreateDirectory,
                    Step::InitVcs,
                    Step::IgnoreEnvironment,
                    Step::CreateEnvironment,
                    Step::UpgradeInstaller,
                    Step::WriteStarterFile,
                ]);
            },
        }
    }
}

/// A run never leaves its course. The steps attempted are the first steps of
/// the course, as many as outcomes were reported while a step was due; the
/// step that is due is the one that comes next in the course; and a run
/// finishes exactly at the end of the course.
pub proof fn law_run_keeps_to_the_course(plan: PlanView, outcomes: Seq<Outcome>)
    ensures
        attempted(plan, outcomes).len() <= outcomes.len(),
        attempted(plan, outcomes).len() <= course(plan).len(),
        attempted(plan, outcomes) == course(plan).take(attempted(plan, outcomes).len() as int),
        match progress_after(plan, outcomes) {
            Progress::Next(step) => {
                &&& attempted(plan, outcomes).len() == outcomes.len()
                &&& outcomes.len() < course(plan).len()
                &&& course(plan)[outcomes.len() as int] == step
                &&& unfailing(plan, outcomes, outcomes.len() as int)
            },
            Progress::Finished => {
                &&& attempted(plan, outcomes) == course(plan)
                &&& unfailing(plan, outcomes, course(plan).len() as int)
            },
            Progress::Failed(error) => {
                let last = attempted(plan, outcomes).len() - 1;
                &&& last >= 0
                &&& unfailing(plan, outcomes, last)
                &&& failure_of(course(plan)[last], outcomes[last]) == Some(error)
            },
        },
    decreases outcomes.len(),
{
    let steps = course(plan);
    if outcomes.len() == 0 {
        lemma_course_links(plan, 0);
        assert(attempted(plan, outcomes) =~= steps.take(0));
    } else {
        let before = outcomes.drop_last();
        let done = attempted(plan, before);
        law_run_keeps_to_the_course(plan, before);
        match progress_after(plan, before) {
            Progress::Next(step) => {
                let at = before.len() as int;
                lemma_course_links(plan, at);
                assert(done.push(step) =~= steps.take(at + 1));
                assert forall|i: int| 0 <= i < at implies failure_of(
                    #[trigger] steps[i],
                    outcomes[i],
                ) is None by {
                    assert(outcomes[i] == before[i]);
                }
                if failure_of(step, outcomes.last()) is None && at + 1 == steps.len() {
                    assert(steps.take(at + 1) =~= steps);
                }
            },
            Progress::Finished => {
                assert forall|i: int| 0 <= i < steps.len() implies failure_of(
                    #[trigger] steps[i],
                    outcomes[i],
                ) is None by {
                    assert(outcomes[i] == before[i]);
                }
            },
            Progress::Failed(error) => {
                let last = done.len() - 1;
                assert(outcomes[last] == before[last]);
                assert forall|i: int| 0 <= i < last implies failure_of(
                    #[trigger] steps[i],
                    outcomes[i],
                ) is None by {
                    assert(outcomes[i] == before[i]);
                }
            },
        }
    }
}

/// The steps attempted are those that were due, one for each report made
/// while the run had not ended: the action of each was handed to the driver
/// just before the outcome at the same place was reported.
pub proof fn law_attempted_steps_were_due(plan: PlanView, outcomes: Seq<Outcome>, at: int)
    requires
        0 <= at < attempted(plan, outcomes).len(),
    ensures
        at < outcomes.len(),
        progress_after(plan, outcomes.take(at)) == Progress::Next(attempted(plan, outcomes)[at]),
{
    law_run_keeps_to_the_course(plan, outcomes);
    let upto = outcomes.take(at);
    assert forall|i: int| 0 <= i < at implies failure_of(
        #[trigger] course(plan)[i],
        upto[i],
    ) is None by {
        assert(upto[i] == outcomes[i]);
    }
    lemma_unfailing_run_is_on_course(plan, upto, at);
}

/// Once a run has ended, further reports change neither how it ended nor
/// what was attempted: after a failure no step is attempted any more.
pub proof fn law_ended_run_stays_ended(plan: PlanView, outcomes: Seq<Outcome>, more: Seq<Outcome>)
    requires
        !(progress_after(plan, outcomes) is Next),
    ensures
        progress_after(plan, outcomes + more) == progress_after(plan, outcomes),
        attempted(plan, outcomes + more) == attempted(plan, outcomes),
    decreases more.len(),
{
    if more.len() == 0 {
        assert(outcomes + more =~= outcomes);
    } else {
        law_ended_run_stays_ended(plan, outcomes, more.drop_last());
        assert((outcomes + more).drop_last() =~= outcomes + more.drop_last());
    }
}

/// The first outcome that is a failure ends the run with the error of that
/// step: the steps before it were attempted, that step was, and none after.
pub proof fn law_first_failure_ends_the_run(plan: PlanView, outcomes: Seq<Outcome>, at: int)
    requires
        0 <= at < outcomes.len(),
        unfailing(plan, outcomes, at),
        at < course(plan).len(),
        failure_of(course(plan)[at], outcomes[at]) is Some,
    ensures
        progress_after(plan, outcomes) == Progress::Failed(
            failure_of(course(plan)[at], outcomes[at])->0,
        ),
        attempted(plan, outcomes) == course(plan).take(at + 1),
{
    let upto = outcomes.take(at);
    lemma_unfailing_run_is_on_course(plan, upto, at);
    let failed = outcomes.take(at + 1);
    assert(failed.drop_last() =~= upto);
    assert(failed.last() == outcomes[at]);
    assert(attempted(plan, failed) =~= course(plan).take(at + 1)) by {
        law_run_keeps_to_the_course(plan, upto);
    }
    law_ended_run_stays_ended(plan, failed, outcomes.skip(at + 1));
    assert(failed + outcomes.skip(at + 1) =~= outcomes);
}

/// As long as nothing fails, the step that is due is the next of the course.
proof fn lemma_unfailing_run_is_on_course(plan: PlanView, outcomes: Seq<Outcome>, count: int)
    requires
        outcomes.len() == count,
        unfailing(plan, outcomes, count),
    ensures
        progress_after(plan, outcomes) == if count < course(plan).len() {
            Progress::Next(course(plan)[count])
        } else {
            Progress::Finished
        },
    decreases count,
{
    if count == 0 {
        lemma_course_links(plan, 0);
    } else {
        let before = outcomes.drop_last();
        assert forall|i: int| 0 <= i < count - 1 implies failure_of(
            #[trigger] course(plan)[i],
            before[i],
        ) is None by {
            assert(before[i] == outcomes[i]);
        }
        lemma_unfailing_run_is_on_course(plan, before, count - 1);
        lemma_course_links(plan, count - 1);
    }
}

/// A run in which no step fails attempts the whole course and finishes.
pub proof fn law_unfailing_run_finishes(plan: PlanView, outcomes: Seq<Outcome>)
    requires
        outcomes.len() == course(plan).len(),
        unfailing(plan, outcomes, outcomes.len() as int),
    ensures
        progress_after(plan, outcomes) == Progress::Finished,
        attempted(plan, outcomes) == course(plan),
{
    lemma_unfailing_run_is_on_course(plan, outcomes, outcomes.len() as int);
    law_run_keeps_to_the_course(plan, outcomes);
}

/// The steps of a run are attempted in their fixed order, each at most once.
pub proof fn law_steps_keep_their_order(plan: PlanView, outcomes: Seq<Outcome>, i: int, j: int)
    requires
        0 <= i < j < attempted(plan, outcomes).len(),
    ensures
        rank(attempted(plan, outcomes)[i]) < rank(attempted(plan, outcomes)[j]),
{
    law_run_keeps_to_the_course(plan, outcomes);
    lemma_course_rises(plan, i, j);
}

/// The course is in the fixed order of the steps.
proof fn lemma_course_rises(plan: PlanView, i: int, j: int)
    requires
        0 <= i < j < course(plan).len(),
    ensures
        rank(course(plan)[i]) < rank(course(plan)[j]),
    decreases j - i,
{
    lemma_course_links(plan, j - 1);
    if i < j - 1 {
        lemma_course_rises(plan, i, j - 1);
    }
}

/// Where something already stands at the path of the project, the run fails
/// with [`BootstrapError::AlreadyExists`] at its first step. That step only
/// looks at the path: no program is run and nothing is written, then or
/// later.
pub proof fn law_occupied_path_is_refused(plan: PlanView, outcomes: Seq<Outcome>)
    requires
        outcomes.len() > 0,
        outcomes[0] == Outcome::Occupied,
    ensures
        progress_after(plan, outcomes) == Progress::Failed(BootstrapError::AlreadyExists),
        attempted(plan, outcomes) == seq![Step::Preflight],
        action_of(plan, Step::Preflight) == (ActionView::Probe { path: plan.project }),
{
    lemma_course_links(plan, 0);
    law_first_failure_ends_the_run(plan, outcomes, 0);
    assert(course(plan).take(1) =~= seq![Step::Preflight]);
}

/// With no package and no editor, a run in which nothing fails consists of
/// seven steps: the path is probed, the directory created, git initialised
/// and told to ignore the environment, the environment created and its
/// installer upgraded, and the starter file written with its one line. No
/// installer is run for packages, and no editor is touched.
pub proof fn law_plain_run(plan: PlanView, outcomes: Seq<Outcome>)
    requires
        plan.modules.len() == 0,
        plan.editor is None,
        outcomes.len() == 7,
        forall|i: int|
            0 <= i < 7 ==> #[trigger] outcomes[i] == Outcome::Completed || outcomes[i]
                == Outcome::Ran(Status::Exited(0)),
    ensures
        progress_after(plan, outcomes) == Progress::Finished,
        attempted(plan, outcomes) == seq![
            Step::Preflight,
            Step::CreateDirectory,
            Step::InitVcs,
            Step::IgnoreEnvironment,
            Step::CreateEnvironment,
            Step::UpgradeInstaller,
            Step::WriteStarterFile,
        ],
        action_of(plan, Step::WriteStarterFile) == (ActionView::WriteFile {
            path: starter_path(plan.project),
            contents: "print('Hello, World!')"@,
        }),
{
    let steps = seq![
        Step::Preflight,
        Step::CreateDirectory,
        Step::InitVcs,
        Step::IgnoreEnvironment,
        Step::CreateEnvironment,
        Step::UpgradeInstaller,
        Step::WriteStarterFile,
    ];
    assert(course(plan) =~= steps);
    assert forall|i: int| 0 <= i < 7 implies failure_of(
        #[trigger] course(plan)[i],
        outcomes[i],
    ) is None by {
        assert(outcomes[i] == Outcome::Completed || outcomes[i] == Outcome::Ran(
            Status::Exited(0),
        ));
    }
    law_unfailing_run_finishes(plan, outcomes);
}

/// Where the launcher of the chosen editor is missing or reports failure, the
/// run fails with [`BootstrapError::EditorNotInstalled`] for that editor, and
/// only then: every step before the check was attempted and succeeded, the
/// starter file among them, and the editor is not launched.
pub proof fn law_missing_editor_fails_last(
    plan: PlanView,
    outcomes: Seq<Outcome>,
    editor: Editor,
    status: Status,
)
    requires
        plan.editor == Some(editor),
        outcomes.len() == course(plan).len() - 1,
        unfailing(plan, outcomes, outcomes.len() - 1),
        outcomes.last() == Outcome::Ran(status),
        verdict(status) is Err,
    ensures
        progress_after(plan, outcomes) == Progress::Failed(
            BootstrapError::EditorNotInstalled { editor },
        ),
        attempted(plan, outcomes) == course(plan).drop_last(),
        attempted(plan, outcomes).last() == Step::CheckEditor(editor),
        attempted(plan, outcomes).contains(Step::WriteStarterFile),
        !attempted(plan, outcomes).contains(Step::LaunchEditor(editor)),
{
    let steps = course(plan);
    let at = outcomes.len() - 1;
    lemma_course_links(plan, at);
    lemma_course_links(plan, at - 1);
    lemma_course_links(plan, at + 1);
    assert(steps[at + 1] == Step::LaunchEditor(editor));
    assert(steps[at] == Step::CheckEditor(editor));
    assert(steps[at - 1] == Step::WriteStarterFile);
    law_first_failure_ends_the_run(plan, outcomes, at);
    assert(steps.take(at + 1) =~= steps.drop_last());
    assert(steps.drop_last()[at - 1] == Step::WriteStarterFile);
    if steps.drop_last().contains(Step::LaunchEditor(editor)) {
        let k = choose|k: int| 0 <= k < steps.drop_last().len() && steps.drop_last()[k]
            == Step::LaunchEditor(editor);
        lemma_course_rises(plan, k, at + 1);
    }
}

/// Where the installation of the packages fails, the run ends there: the
/// starter file is never written, and no editor is checked or launched.
pub proof fn law_failed_installation_ends_the_run(
    plan: PlanView,
    outcomes: Seq<Outcome>,
    at: int,
)
    requires
        0 <= at < outcomes.len(),
        progress_after(plan, outcomes.take(at)) == Progress::Next(Step::InstallModules),
        failure_of(Step::InstallModules, outcomes[at]) is Some,
    ensures
        progress_after(plan, outcomes) == Progress::Failed(
            failure_of(Step::InstallModules, outcomes[at])->0,
        ),
        attempted(plan, outcomes).last() == Step::InstallModules,
        forall|i: int|
            0 <= i < attempted(plan, outcomes).len() ==> rank(
                #[trigger] attempted(plan, outcomes)[i],
            ) <= rank(Step::InstallModules),
        !attempted(plan, outcomes).contains(Step::WriteStarterFile),
        forall|editor: Editor|
            !attempted(plan, outcomes).contains(Step::CheckEditor(editor))
                && !attempted(plan, outcomes).contains(Step::LaunchEditor(editor)),
{
    let upto = outcomes.take(at);
    law_run_keeps_to_the_course(plan, upto);
    assert forall|i: int| 0 <= i < at implies failure_of(
        #[trigger] course(plan)[i],
        outcomes[i],
    ) is None by {
        assert(upto[i] == outcomes[i]);
    }
    law_first_failure_ends_the_run(plan, outcomes, at);
    let done = attempted(plan, outcomes);
    assert(done.last() == Step::InstallModules);
    assert forall|i: int| 0 <= i < done.len() implies rank(#[trigger] done[i]) <= rank(
        Step::InstallModules,
    ) by {
        if i < at {
            lemma_course_rises(plan, i, at);
        }
    }
}

/// The program that the action of `step` runs or starts, if it does.
pub open spec fn program_of(plan: PlanView, step: Step) -> Option<Seq<char>> {
    match action_of(plan, step) {
        ActionView::Run { command } => Some(command.program),
        ActionView::Launch { command } => Some(command.program),
        _ => None,
    }
}

/// The steps of one run do not mix backends. With `Uv`, the environment is
/// created, its installer upgraded and the packages installed by `uv`; with
/// `Pip`, no step of the run runs `uv`.
pub proof fn law_steps_share_one_backend(plan: PlanView, step: Step)
    ensures
        plan.backend == Backend::Uv && (step == Step::CreateEnvironment || step
            == Step::UpgradeInstaller || step == Step::InstallModules) ==> program_of(plan, step)
            == Some("uv"@),
        plan.backend == Backend::Pip ==> program_of(plan, step) != Some("uv"@),
{
    reveal_strlit("uv");
    reveal_strlit("git");
    reveal_strlit("python3");
    reveal_strlit("/.venv/bin/pip3");
    reveal_strlit("code");
    reveal_strlit("charm");
    reveal_strlit("zeditor");
    assert("uv"@.len() == 2);
    assert("git"@.len() == 3);
    assert("python3"@.len() == 7);
    assert("/.venv/bin/pip3"@.len() == 15);
    assert("code"@.len() == 4);
    assert("charm"@.len() == 5);
    assert("zeditor"@.len() == 7);
    assert((plan.project + "/.venv/bin/pip3"@).len() >= 15);
}

/// A run touches no editor but the one that its plan chose: whenever the
/// check or the launch of an editor was attempted, that editor is the plan's.
pub proof fn law_only_the_chosen_editor_is_touched(
    plan: PlanView,
    outcomes: Seq<Outcome>,
    editor: Editor,
)
    requires
        attempted(plan, outcomes).contains(Step::CheckEditor(editor)) || attempted(
            plan,
            outcomes,
        ).contains(Step::LaunchEditor(editor)),
    ensures
        plan.editor == Some(editor),
{
    let done = attempted(plan, outcomes);
    let at = choose|at: int|
        0 <= at < done.len() && (done[at] == Step::CheckEditor(editor) || done[at]
            == Step::LaunchEditor(editor));
    law_attempted_steps_were_due(plan, outcomes, at);
    lemma_due_step_belongs(plan, outcomes.take(at));
    assert(belongs(plan, done[at]));
}

/// The installer is only ever run for packages: the installation is
/// attempted only where there is something to install.
pub proof fn law_nothing_to_install_means_no_installation(plan: PlanView, outcomes: Seq<Outcome>)
    requires
        plan.modules.len() == 0,
    ensures
        !attempted(plan, outcomes).contains(Step::InstallModules),
{
    let done = attempted(plan, outcomes);
    if done.contains(Step::InstallModules) {
        let at = choose|at: int| 0 <= at < done.len() && done[at] == Step::InstallModules;
        law_attempted_steps_were_due(plan, outcomes, at);
        lemma_due_step_belongs(plan, outcomes.take(at));
        assert(belongs(plan, done[at]));
    }
}

} // verus!
