//! The two tool families that create a virtual environment and install
//! packages into it.

use vstd::prelude::*;
use crate::runner::{Invocation, InvocationView};
use crate::text::{join, lemma_views_push, views};

verus! {

/// The tool family that is used for the whole of one run.
#[derive(Debug, Clone, Copy, PartialEq, Eq, Structural)]
pub enum Backend {
    /// `uv`, for the environment and for the packages.
    Uv,
    /// `python3 -m venv`, and the `pip3` of the environment it creates.
    Pip,
}

/// The backend of a run whose command line chose none.
pub open spec fn default_backend() -> Backend {
    Backend::Uv
}

/// The backend that two flags choose, each true if it was passed on the
/// command line: `Uv` if its flag was passed, whatever the other; else `Pip`
/// if its flag was passed; else the default.
pub open spec fn selected(uv_passed: bool, pip_passed: bool) -> Backend {
    if uv_passed {
        Backend::Uv
    } else if pip_passed {
        Backend::Pip
    } else {
        default_backend()
    }
}

/// The name of the flag that chooses the backend.
pub open spec fn flag_of(backend: Backend) -> Seq<char> {
    match backend {
        Backend::Uv => "uv-python"@,
        Backend::Pip => "pip"@,
    }
}

/// The directory of the virtual environment of `project`.
pub open spec fn environment_path(project: Seq<char>) -> Seq<char> {
    project + "/.venv"@
}

/// The installer that the virtual environment of `project` brings along.
pub open spec fn installer_path(project: Seq<char>) -> Seq<char> {
    project + "/.venv/bin/pip3"@
}

/// The invocation that creates the virtual environment of `project`.
pub open spec fn create_environment_of(backend: Backend, project: Seq<char>) -> InvocationView {
    match backend {
        Backend::Uv => InvocationView {
            program: "uv"@,
            args: seq!["venv"@, environment_path(project)],
        },
        Backend::Pip => InvocationView {
            program: "python3"@,
            args: seq!["-m"@, "venv"@, environment_path(project)],
        },
    }
}

/// The arguments that come before the package names when the backend
/// installs into the virtual environment of `project`.
pub open spec fn install_prefix(backend: Backend, project: Seq<char>) -> Seq<Seq<char>> {
    match backend {
        Backend::Uv => seq!["pip"@, "--directory"@, environment_path(project), "install"@],
        Backend::Pip => seq!["install"@],
    }
}

/// The program that installs into the virtual environment of `project`.
pub open spec fn installer_of(backend: Backend, project: Seq<char>) -> Seq<char> {
    match backend {
        Backend::Uv => "uv"@,
        Backend::Pip => installer_path(project),
    }
}

/// The invocation that brings the installer of the environment up to date.
pub open spec fn upgrade_of(backend: Backend, project: Seq<char>) -> InvocationView {
    InvocationView {
        program: installer_of(backend, project),
        args: install_prefix(backend, project) + seq!["--upgrade"@, "pip"@],
    }
}

/// The one invocation that installs all of `modules`, in their order.
pub open spec fn install_of(
    backend: Backend,
    project: Seq<char>,
    modules: Seq<Seq<char>>,
) -> InvocationView {
    InvocationView {
        program: installer_of(backend, project),
        args: install_prefix(backend, project) + modules,
    }
}

impl Default for Backend {
    fn default() -> (backend: Backend)
        ensures
            backend == default_backend(),
    {
        Backend::Uv
    }
}

impl Backend {
    /// Resolves the backend from the two flags, each true if the user passed
    /// it on the command line. A flag that merely holds a default counts as
    /// not passed.
    pub fn select(uv_passed: bool, pip_passed: bool) -> (backend: Backend)
        ensures
            backend == selected(uv_passed, pip_passed),
    {
        if uv_passed {
            Backend::Uv
        } else if pip_passed {
            Backend::Pip
        } else {
            Backend::default()
        }
    }

    /// The name of the flag that chooses this backend.
    pub fn flag(self) -> (name: &'static str)
        ensures
            name@ == flag_of(self),
    {
        match self {
            Backend::Uv => "uv-python",
            Backend::Pip => "pip",
        }
    }

    /// The program that installs into the virtual environment of `project`.
    pub fn installer(self, project: &str) -> (program: String)
        ensures
            program@ == installer_of(self, project@),
    {
        match self {
            Backend::Uv => String::from_str("uv"),
            Backend::Pip => join(project, "/.venv/bin/pip3"),
        }
    }

    /// The arguments that precede the package names in an installation.
    fn prefix(self, project: &str) -> (args: Vec<String>)
        ensures
            views(args@) == install_prefix(self, project@),
    {
        let mut args: Vec<String> = Vec::new();
        match self {
            Backend::Uv => {
                args.push(String::from_str("pip"));
                args.push(String::from_str("--directory"));
                args.push(join(project, "/.venv"));
                args.push(String::from_str("install"));
            },
            Backend::Pip => {
                args.push(String::from_str("install"));
            },
        }
        assert(views(args@) =~= install_prefix(self, project@));
        args
    }

    /// The invocation that creates the virtual environment of `project`.
    pub fn create_environment(self, project: &str) -> (command: Invocation)
        ensures
            command@ == create_environment_of(self, project@),
    {
        let mut args: Vec<String> = Vec::new();
        let program = match self {
            Backend::Uv => {
                args.push(String::from_str("venv"));
                String::from_str("uv")
            },
            Backend::Pip => {
                args.push(String::from_str("-m"));
                args.push(String::from_str("venv"));
                String::from_str("python3")
            },
        };
        args.push(join(project, "/.venv"));
        let command = Invocation { program, args };
        assert(command@.args =~= create_environment_of(self, project@).args);
        command
    }

    /// The invocation that brings the installer of the environment up to date.
    pub fn upgrade_installer(self, project: &str) -> (command: Invocation)
        ensures
            command@ == upgrade_of(self, project@),
    {
        let mut args = self.prefix(project);
        let ghost before = args@;
        args.push(String::from_str("--upgrade"));
        args.push(String::from_str("pip"));
        let command = Invocation { program: self.installer(project), args };
        assert(command@.args =~= upgrade_of(self, project@).args) by {
            assert(views(before) == install_prefix(self, project@));
            assert(forall|i: int| 0 <= i < before.len() ==> views(before)[i] == before[i]@);
        }
        command
    }

    /// The one invocation that installs all of `modules`, or none if there is
    /// nothing to install: the installer is never run without a package.
    pub fn install(self, project: &str, modules: &Vec<String>) -> (command: Option<Invocation>)
        ensures
            match command {
                Some(install) => modules@.len() > 0 && install@ == install_of(
                    self,
                    project@,
                    views(modules@),
                ),
                None => modules@.len() == 0,
            },
    {
        if modules.len() == 0 {
            return None;
        }
        let mut args = self.prefix(project);
        let ghost prefix = views(args@);
        let mut i: usize = 0;
        while i < modules.len()
            invariant
                i <= modules.len(),
                views(args@) == prefix + views(modules@).take(i as int),
            decreases modules.len() - i,
        {
            let ghost before = args@;
            args.push(modules[i].clone());
            proof {
                lemma_views_push(before, modules[i as int]);
                assert(views(modules@).take(i + 1) =~= views(modules@).take(i as int).push(
                    modules[i as int]@,
                ));
                assert(views(args@) =~= prefix + views(modules@).take(i + 1));
            }
            i += 1;
        }
        let command = Invocation { program: self.installer(project), args };
        assert(views(modules@).take(modules.len() as int) =~= views(modules@));
        Some(command)
    }
}

/// Where neither flag was passed, the backend is the default.
pub proof fn law_no_flag_means_default()
    ensures
        selected(false, false) == default_backend(),
{
}

/// Where both flags were passed, `Uv` wins: its flag is looked at first.
pub proof fn law_both_flags_mean_uv()
    ensures
        selected(true, true) == Backend::Uv,
{
}

/// The choice depends on the flags alone, and one backend is always chosen.
pub proof fn law_one_backend_is_chosen(uv_passed: bool, pip_passed: bool)
    ensures
        selected(uv_passed, pip_passed) == Backend::Uv || selected(uv_passed, pip_passed)
            == Backend::Pip,
        uv_passed ==> selected(uv_passed, pip_passed) == Backend::Uv,
        !uv_passed && pip_passed ==> selected(uv_passed, pip_passed) == Backend::Pip,
{
}

} // verus!
