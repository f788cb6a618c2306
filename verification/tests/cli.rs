use pyide::backend::Backend;
use pyide::cli::{read, Arguments, Request};
use pyide::editor::Editor;

fn list(items: &[&str]) -> Vec<String> {
    items.iter().map(|s| s.to_string()).collect()
}

fn command() -> clap::Command {
    clap::Command::new("pyide")
        .arg(clap::Arg::new("name").required(true).index(1))
        .arg(clap::Arg::new("modules").short('m').long("modules").required(false).num_args(1..))
        .arg(clap::Arg::new("uv-python").short('u').long("uv-python").required(false).num_args(0))
        .arg(clap::Arg::new("pip").short('p').long("pip").required(false).num_args(0))
        .arg(clap::Arg::new("file").short('f').long("file").required(false).num_args(1))
        .arg(clap::Arg::new("ide").short('i').long("ide").required(false).num_args(1))
}

fn parse(line: &[&str]) -> clap::ArgMatches {
    command().try_get_matches_from(line.iter().copied()).unwrap()
}

fn arguments(name: &[&str], modules: &[&str], file: &[&str], ide: &[&str]) -> Arguments {
    Arguments {
        name: list(name),
        modules: list(modules),
        file: list(file),
        ide: list(ide),
        uv_passed: false,
        pip_passed: false,
    }
}

#[test]
fn bare_command_line_gives_defaults() {
    assert_eq!(
        read(&parse(&["pyide", "demo"])),
        Some(Request {
            project: "demo".to_string(),
            inline: Vec::new(),
            file: None,
            backend: Backend::Uv,
            editor: None,
        })
    );
}

#[test]
fn full_command_line_is_read() {
    let matches =
        parse(&["pyide", "demo", "-m", "numpy", "pandas", "-p", "-f", "reqs.txt", "-i", "zed"]);
    assert_eq!(
        read(&matches),
        Some(Request {
            project: "demo".to_string(),
            inline: list(&["numpy", "pandas"]),
            file: Some("reqs.txt".to_string()),
            backend: Backend::Pip,
            editor: Some(Editor::Zed),
        })
    );
}

#[test]
fn arguments_are_read_as_given() {
    let matches = parse(&["pyide", "demo", "--modules", "a", "b", "a", "--uv-python", "--ide", "vim"]);
    assert_eq!(
        Arguments::read(&matches),
        Some(Arguments {
            name: list(&["demo"]),
            modules: list(&["a", "b", "a"]),
            file: Vec::new(),
            ide: list(&["vim"]),
            uv_passed: true,
            pip_passed: false,
        })
    );
}

#[test]
fn flag_that_holds_its_default_counts_as_not_passed() {
    let matches = parse(&["pyide", "demo"]);
    assert_eq!(matches.get_one::<bool>("uv-python"), Some(&false));
    assert_eq!(
        matches.value_source("pip"),
        Some(clap::parser::ValueSource::DefaultValue)
    );
    let found = Arguments::read(&matches).unwrap();
    assert!(!found.uv_passed);
    assert!(!found.pip_passed);
}

#[test]
fn both_backend_flags_on_the_command_line() {
    let matches = parse(&["pyide", "demo", "--pip", "--uv-python"]);
    let found = Arguments::read(&matches).unwrap();
    assert!(found.uv_passed);
    assert!(found.pip_passed);
    assert_eq!(read(&matches).unwrap().backend, Backend::Uv);
}

#[test]
fn matches_of_another_command_are_refused_or_empty() {
    let other = clap::Command::new("other")
        .arg(clap::Arg::new("name").index(1))
        .try_get_matches_from(["other", "demo"])
        .unwrap();
    let found = Arguments::read(&other);
    assert!(found.is_none() || found == Some(arguments(&["demo"], &[], &[], &[])));
}

#[test]
fn values_that_are_no_texts_are_not_read() {
    let odd = clap::Command::new("odd")
        .arg(clap::Arg::new("name").index(1).value_parser(clap::builder::BoolValueParser::new()))
        .arg(clap::Arg::new("uv-python").long("uv-python").num_args(0))
        .arg(clap::Arg::new("pip").long("pip").num_args(0))
        .arg(clap::Arg::new("modules").long("modules").num_args(1..))
        .arg(clap::Arg::new("file").long("file").num_args(1))
        .arg(clap::Arg::new("ide").long("ide").num_args(1))
        .try_get_matches_from(["odd", "true"])
        .unwrap();
    assert_eq!(Arguments::read(&odd), Some(arguments(&[], &[], &[], &[])));
    assert_eq!(read(&odd), None);
}

#[test]
fn request_needs_a_project_name() {
    assert_eq!(arguments(&[], &["a"], &["f"], &["zed"]).request(), None);
}

#[test]
fn request_from_plain_arguments() {
    let mut given = arguments(&["demo"], &["a", "b", "a"], &["reqs.txt"], &["pycharm"]);
    given.pip_passed = true;
    assert_eq!(
        given.request(),
        Some(Request {
            project: "demo".to_string(),
            inline: list(&["a", "b", "a"]),
            file: Some("reqs.txt".to_string()),
            backend: Backend::Pip,
            editor: Some(Editor::Pycharm),
        })
    );
}

#[test]
fn empty_file_name_is_no_file() {
    let made = arguments(&["demo"], &[], &[""], &[]).request().unwrap();
    assert_eq!(made.file, None);
}

#[test]
fn unknown_or_empty_editor_name_is_no_editor() {
    assert_eq!(arguments(&["demo"], &[], &[], &["emacs"]).request().unwrap().editor, None);
    assert_eq!(arguments(&["demo"], &[], &[], &[""]).request().unwrap().editor, None);
    assert_eq!(arguments(&["demo"], &[], &[], &[]).request().unwrap().editor, None);
}

#[test]
fn first_value_of_an_argument_counts() {
    let made = arguments(&["one", "two"], &[], &["f1", "f2"], &["zed", "vscode"]).request().unwrap();
    assert_eq!(made.project, "one");
    assert_eq!(made.file, Some("f1".to_string()));
    assert_eq!(made.editor, Some(Editor::Zed));
}

#[test]
fn backend_of_a_request_follows_the_flags() {
    let mut given = arguments(&["demo"], &[], &[], &[]);
    assert_eq!(given.request().unwrap().backend, Backend::Uv);
    given.pip_passed = true;
    assert_eq!(given.request().unwrap().backend, Backend::Pip);
    given.uv_passed = true;
    assert_eq!(given.request().unwrap().backend, Backend::Uv);
}

#[test]
fn plan_resolves_the_modules_of_the_request() {
    let request = Request {
        project: "demo".to_string(),
        inline: list(&["a", "b", "a", "c"]),
        file: Some("reqs.txt".to_string()),
        backend: Backend::Pip,
        editor: Some(Editor::Zed),
    };
    let plan = request.plan(Some("b\nd\n"));
    assert_eq!(plan.project, "demo");
    assert_eq!(plan.modules.names(), &list(&["a", "b", "c", "d"]));
    assert_eq!(plan.backend, Backend::Pip);
    assert_eq!(plan.editor, Some(Editor::Zed));
}

#[test]
fn plan_without_file_keeps_inline_modules() {
    let request = Request {
        project: "demo".to_string(),
        inline: list(&["x", "x"]),
        file: None,
        backend: Backend::Uv,
        editor: None,
    };
    let plan = request.plan(None);
    assert_eq!(plan.modules.names(), &list(&["x"]));
    assert_eq!(plan.editor, None);
}
