use pyide::backend::Backend;
use pyide::runner::Invocation;

fn owned(items: &[&str]) -> Vec<String> {
    items.iter().map(|s| s.to_string()).collect()
}

#[test]
fn no_backend_flag_resolves_to_the_default() {
    assert_eq!(Backend::select(false, false), Backend::default());
    assert_eq!(Backend::default(), Backend::Uv);
}

#[test]
fn both_backend_flags_resolve_to_the_first() {
    assert_eq!(Backend::select(true, true), Backend::Uv);
}

#[test]
fn single_backend_flag_selects_its_backend() {
    assert_eq!(Backend::select(true, false), Backend::Uv);
    assert_eq!(Backend::select(false, true), Backend::Pip);
}

#[test]
fn backend_flag_names() {
    assert_eq!(Backend::Uv.flag(), "uv-python");
    assert_eq!(Backend::Pip.flag(), "pip");
}

#[test]
fn environment_creation_with_uv() {
    assert_eq!(
        Backend::Uv.create_environment("demo"),
        Invocation { program: "uv".to_string(), args: owned(&["venv", "demo/.venv"]) }
    );
}

#[test]
fn environment_creation_with_pip() {
    assert_eq!(
        Backend::Pip.create_environment("demo"),
        Invocation { program: "python3".to_string(), args: owned(&["-m", "venv", "demo/.venv"]) }
    );
}

#[test]
fn installer_upgrade_with_uv() {
    assert_eq!(
        Backend::Uv.upgrade_installer("demo"),
        Invocation {
            program: "uv".to_string(),
            args: owned(&["pip", "--directory", "demo/.venv", "install", "--upgrade", "pip"]),
        }
    );
}

#[test]
fn installer_upgrade_with_pip() {
    assert_eq!(
        Backend::Pip.upgrade_installer("demo"),
        Invocation {
            program: "demo/.venv/bin/pip3".to_string(),
            args: owned(&["install", "--upgrade", "pip"]),
        }
    );
}

#[test]
fn installer_program_per_backend() {
    assert_eq!(Backend::Uv.installer("a/b"), "uv");
    assert_eq!(Backend::Pip.installer("a/b"), "a/b/.venv/bin/pip3");
}

#[test]
fn installation_with_uv_is_one_invocation_for_all_modules() {
    assert_eq!(
        Backend::Uv.install("demo", &owned(&["numpy", "pandas", "requests"])),
        Some(Invocation {
            program: "uv".to_string(),
            args: owned(&[
                "pip",
                "--directory",
                "demo/.venv",
                "install",
                "numpy",
                "pandas",
                "requests",
            ]),
        })
    );
}

#[test]
fn installation_with_pip_is_one_invocation_for_all_modules() {
    assert_eq!(
        Backend::Pip.install("demo", &owned(&["numpy", "pandas"])),
        Some(Invocation {
            program: "demo/.venv/bin/pip3".to_string(),
            args: owned(&["install", "numpy", "pandas"]),
        })
    );
}

#[test]
fn installation_of_one_module() {
    assert_eq!(
        Backend::Pip.install("p", &owned(&["flask"])),
        Some(Invocation {
            program: "p/.venv/bin/pip3".to_string(),
            args: owned(&["install", "flask"]),
        })
    );
}

#[test]
fn installation_of_nothing_is_no_invocation() {
    assert_eq!(Backend::Uv.install("demo", &Vec::new()), None);
    assert_eq!(Backend::Pip.install("demo", &Vec::new()), None);
}
