//! From the parsed command line to the plan of a run.

use vstd::prelude::*;
use crate::backend::{selected, Backend};
use crate::editor::{recognize, Editor};
use crate::modules::{resolved, ModuleSet};
use crate::pipeline::{Plan, PlanView};
use crate::text::views;

verus! {

/// `clap::ArgMatches`: the arguments as `clap` parsed them. Nothing inside it
/// is seen here; what it holds is read through the functions below.
#[verifier::external_type_specification]
#[verifier::external_body]
pub struct ExArgMatches(clap::ArgMatches);

/// What parsed arguments hold for one identifier.
pub ghost struct Held {
    /// Whether the value was passed on the command line, and is no default.
    pub from_command_line: bool,
    /// The values that are strings, in the order in which they were given.
    pub texts: Seq<Seq<char>>,
}

/// What parsed arguments hold, for each identifier that they answer for.
pub uninterp spec fn contents(matches: clap::ArgMatches) -> Map<Seq<char>, Held>;

/// The string values held for `id`: none where `id` is not answered for.
pub open spec fn texts_of(held: Map<Seq<char>, Held>, id: Seq<char>) -> Seq<Seq<char>> {
    if held.dom().contains(id) {
        held[id].texts
    } else {
        Seq::empty()
    }
}

/// `ArgMatches::try_contains_id` returns `Ok` exactly for the identifiers
/// that the parsed arguments answer for. The result is whether it did.
#[verifier::external_body]
fn answers_for(matches: &clap::ArgMatches, id: &str) -> (known: bool)
    ensures
        known == contents(*matches).dom().contains(id@),
{
    matches.try_contains_id(id).is_ok()
}

/// `ArgMatches::value_source` tells where the value of `id` came from. The
/// result is whether that is the command line. The call panics for an
/// identifier that the parsed arguments do not answer for, which the
/// precondition leaves out.
#[verifier::external_body]
fn passed(matches: &clap::ArgMatches, id: &str) -> (passed: bool)
    requires
        contents(*matches).dom().contains(id@),
    ensures
        passed == contents(*matches)[id@].from_command_line,
{
    matches.value_source(id) == Some(clap::parser::ValueSource::CommandLine)
}

/// `ArgMatches::try_get_many::<String>` hands out the string values of `id`
/// in their order. Where it has none, or refuses (`id` is not answered for,
/// or its values are no strings), the result is empty.
#[verifier::external_body]
fn texts(matches: &clap::ArgMatches, id: &str) -> (values: Vec<String>)
    ensures
        views(values@) == texts_of(contents(*matches), id@),
{
    match matches.try_get_many::<String>(id) {
        Ok(Some(values)) => values.cloned().collect(),
        _ => Vec::new(),
    }
}

/// What the command line gave, argument by argument.
#[derive(Debug, Clone, PartialEq, Eq)]
pub struct Arguments {
    /// The values of the positional `name`.
    pub name: Vec<String>,
    /// The values of `--modules`.
    pub modules: Vec<String>,
    /// The values of `--file`.
    pub file: Vec<String>,
    /// The values of `--ide`.
    pub ide: Vec<String>,
    /// Whether `--uv-python` was passed on the command line.
    pub uv_passed: bool,
    /// Whether `--pip` was passed on the command line.
    pub pip_passed: bool,
}

/// The mathematical content of [`Arguments`].
pub ghost struct ArgumentsView {
    pub name: Seq<Seq<char>>,
    pub modules: Seq<Seq<char>>,
    pub file: Seq<Seq<char>>,
    pub ide: Seq<Seq<char>>,
    pub uv_passed: bool,
    pub pip_passed: bool,
}

impl View for Arguments {
    type V = ArgumentsView;

    open spec fn view(&self) -> ArgumentsView {
        ArgumentsView {
            name: views(self.name@),
            modules: views(self.modules@),
            file: views(self.file@),
            ide: views(self.ide@),
            uv_passed: self.uv_passed,
            pip_passed: self.pip_passed,
        }
    }
}

/// What the user asks for, before the file of package names is read.
#[derive(Debug, Clone, PartialEq, Eq)]
pub struct Request {
    /// The name of the project.
    pub project: String,
    /// The packages named on the command line.
    pub inline: Vec<String>,
    /// The file that lists further packages, if one was named.
    pub file: Option<String>,
    /// The backend.
    pub backend: Backend,
    /// The editor, if one was named that is known.
    pub editor: Option<Editor>,
}

/// The mathematical content of a [`Request`].
pub ghost struct RequestView {
    pub project: Seq<char>,
    pub inline: Seq<Seq<char>>,
    pub file: Option<Seq<char>>,
    pub backend: Backend,
    pub editor: Option<Editor>,
}

impl View for Request {
    type V = RequestView;

    open spec fn view(&self) -> RequestView {
        RequestView {
            project: self.project@,
            inline: views(self.inline@),
            file: match self.file {
                Some(path) => Some(path@),
                None => None,
            },
            backend: self.backend,
            editor: self.editor,
        }
    }
}

/// The identifiers of the two backend flags are answered for.
pub open spec fn has_flags(held: Map<Seq<char>, Held>) -> bool {
    held.dom().contains("uv-python"@) && held.dom().contains("pip"@)
}

/// The arguments that parsed arguments hold.
pub open spec fn arguments_of(held: Map<Seq<char>, Held>) -> ArgumentsView {
    ArgumentsView {
        name: texts_of(held, "name"@),
        modules: texts_of(held, "modules"@),
        file: texts_of(held, "file"@),
        ide: texts_of(held, "ide"@),
        uv_passed: held["uv-python"@].from_command_line,
        pip_passed: held["pip"@].from_command_line,
    }
}

/// The request that arguments make: none without a project name. An empty
/// file name stands for no file, and an editor name that is empty or unknown
/// for no editor. Of several values of one argument the first counts.
pub open spec fn requested(arguments: ArgumentsView) -> Option<RequestView> {
    if arguments.name.len() == 0 {
        None
    } else {
        Some(
            RequestView {
                project: arguments.name[0],
                inline: arguments.modules,
                file: if arguments.file.len() > 0 && arguments.file[0].len() > 0 {
                    Some(arguments.file[0])
                } else {
                    None
                },
                backend: selected(arguments.uv_passed, arguments.pip_passed),
                editor: if arguments.ide.len() > 0 {
                    recognize(arguments.ide[0])
                } else {
                    None
                },
            },
        )
    }
}

/// The plan of a request, given the text of its file if it names one.
pub open spec fn planned(request: RequestView, listed: Option<&str>) -> PlanView {
    PlanView {
        project: request.project,
        modules: resolved(request.inline, listed),
        backend: request.backend,
        editor: request.editor,
    }
}

impl Arguments {
    /// Reads the arguments out of what `clap` parsed: `None` where the parsed
    /// arguments do not answer for the two backend flags.
    pub fn read(matches: &clap::ArgMatches) -> (arguments: Option<Arguments>)
        ensures
            match arguments {
                Some(found) => has_flags(contents(*matches)) && found@ == arguments_of(
                    contents(*matches),
                ),
                None => !has_flags(contents(*matches)),
            },
    {
        if !answers_for(matches, "uv-python") || !answers_for(matches, "pip") {
            return None;
        }
        Some(
            Arguments {
                name: texts(matches, "name"),
                modules: texts(matches, "modules"),
                file: texts(matches, "file"),
                ide: texts(matches, "ide"),
                uv_passed: passed(matches, "uv-python"),
                pip_passed: passed(matches, "pip"),
            },
        )
    }

    /// Resolves the arguments into a request.
    pub fn request(&self) -> (request: Option<Request>)
        ensures
            match request {
                Some(made) => requested(self@) == Some(made@),
                None => requested(self@) is None,
            },
    {
        if self.name.len() == 0 {
            return None;
        }
        let file = if self.file.len() > 0 && !self.file[0].as_str().is_empty() {
            Some(self.file[0].clone())
        } else {
            None
        };
        let editor = if self.ide.len() > 0 {
            Editor::from_name(self.ide[0].as_str())
        } else {
            None
        };
        let mut inline: Vec<String> = Vec::new();
        let mut i: usize = 0;
        while i < self.modules.len()
            invariant
                i <= self.modules@.len(),
                inline@.len() == i,
                forall|k: int| 0 <= k < i ==> inline@[k]@ == self.modules@[k]@,
            decreases self.modules@.len() - i,
        {
            inline.push(self.modules[i].clone());
            i += 1;
        }
        let request = Request {
            project: self.name[0].clone(),
            inline,
            file,
            backend: Backend::select(self.uv_passed, self.pip_passed),
            editor,
        };
        assert(request@.inline =~= self@.modules);
        Some(request)
    }
}

impl Request {
    /// The plan of this request. `listed` is the text of the file that the
    /// request names, and `None` if it names none.
    pub fn plan(self, listed: Option<&str>) -> (plan: Plan)
        ensures
            plan@ == planned(self@, listed),
    {
        let modules = ModuleSet::resolve(&self.inline, listed);
        Plan { project: self.project, modules, backend: self.backend, editor: self.editor }
    }
}

/// Reads the request out of what `clap` parsed: `None` where the parsed
/// arguments do not answer for the two backend flags, or hold no project
/// name.
pub fn read(matches: &clap::ArgMatches) -> (request: Option<Request>)
    ensures
        match request {
            Some(made) => has_flags(contents(*matches)) && requested(
                arguments_of(contents(*matches)),
            ) == Some(made@),
            None => !has_flags(contents(*matches)) || requested(
                arguments_of(contents(*matches)),
            ) is None,
        },
{
    match Arguments::read(matches) {
        Some(arguments) => arguments.request(),
        None => None,
    }
}

} // verus!
