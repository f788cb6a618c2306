//! The editors that can be opened on a new project.

use vstd::prelude::*;
use crate::runner::{Invocation, InvocationView};
use crate::text::same;

verus! {

/// An editor that this library knows how to launch.
#[derive(Debug, Clone, Copy, PartialEq, Eq, Structural)]
pub enum Editor {
    Vscode,
    Pycharm,
    Zed,
}

/// The identifier by which a user names the editor.
pub open spec fn name_of(editor: Editor) -> Seq<char> {
    match editor {
        Editor::Vscode => "vscode"@,
        Editor::Pycharm => "pycharm"@,
        Editor::Zed => "zed"@,
    }
}

/// The program that launches the editor.
pub open spec fn launcher_of(editor: Editor) -> Seq<char> {
    match editor {
        Editor::Vscode => "code"@,
        Editor::Pycharm => "charm"@,
        Editor::Zed => "zeditor"@,
    }
}

/// The editor that a free text names. A text that is empty, or that is no
/// editor's identifier, names none; that is no error.
pub open spec fn recognize(name: Seq<char>) -> Option<Editor> {
    if name == "vscode"@ {
        Some(Editor::Vscode)
    } else if name == "pycharm"@ {
        Some(Editor::Pycharm)
    } else if name == "zed"@ {
        Some(Editor::Zed)
    } else {
        None
    }
}

/// The editor chosen by three flags, one per editor: the first whose flag was
/// supplied, in the fixed order Vscode, Pycharm, Zed; none if no flag was.
pub open spec fn first_supplied(vscode: bool, pycharm: bool, zed: bool) -> Option<Editor> {
    if vscode {
        Some(Editor::Vscode)
    } else if pycharm {
        Some(Editor::Pycharm)
    } else if zed {
        Some(Editor::Zed)
    } else {
        None
    }
}

/// The invocation that asks the editor's launcher for its version. It is run
/// to find out whether the editor is installed.
pub open spec fn probe_of(editor: Editor) -> InvocationView {
    InvocationView { program: launcher_of(editor), args: seq!["--version"@] }
}

/// The invocation that opens `project` in a new window of the editor.
pub open spec fn open_of(editor: Editor, project: Seq<char>) -> InvocationView {
    InvocationView { program: launcher_of(editor), args: seq!["-n"@, project] }
}

impl Editor {
    /// The identifier by which a user names this editor.
    pub fn name(self) -> (name: &'static str)
        ensures
            name@ == name_of(self),
    {
        match self {
            Editor::Vscode => "vscode",
            Editor::Pycharm => "pycharm",
            Editor::Zed => "zed",
        }
    }

    /// The program that launches this editor.
    pub fn launcher(self) -> (program: &'static str)
        ensures
            program@ == launcher_of(self),
    {
        match self {
            Editor::Vscode => "code",
            Editor::Pycharm => "charm",
            Editor::Zed => "zeditor",
        }
    }

    /// Resolves a free-text editor name.
    pub fn from_name(name: &str) -> (editor: Option<Editor>)
        ensures
            editor == recognize(name@),
    {
        if same(name, "vscode") {
            Some(Editor::Vscode)
        } else if same(name, "pycharm") {
            Some(Editor::Pycharm)
        } else if same(name, "zed") {
            Some(Editor::Zed)
        } else {
            None
        }
    }

    /// Resolves three editor flags, each true if it was supplied.
    pub fn from_flags(vscode: bool, pycharm: bool, zed: bool) -> (editor: Option<Editor>)
        ensures
            editor == first_supplied(vscode, pycharm, zed),
    {
        if vscode {
            Some(Editor::Vscode)
        } else if pycharm {
            Some(Editor::Pycharm)
        } else if zed {
            Some(Editor::Zed)
        } else {
            None
        }
    }

    /// The invocation that finds out whether this editor is installed.
    pub fn probe(self) -> (command: Invocation)
        ensures
            command@ == probe_of(self),
    {
        let mut args: Vec<String> = Vec::new();
        args.push(String::from_str("--version"));
        let command = Invocation { program: String::from_str(self.launcher()), args };
        assert(command@.args =~= probe_of(self).args);
        command
    }

    /// The invocation that opens `project` in a new window of this editor.
    pub fn open(self, project: &str) -> (command: Invocation)
        ensures
            command@ == open_of(self, project@),
    {
        let mut args: Vec<String> = Vec::new();
        args.push(String::from_str("-n"));
        args.push(String::from_str(project));
        let command = Invocation { program: String::from_str(self.launcher()), args };
        assert(command@.args =~= open_of(self, project@).args);
        command
    }
}

/// Every editor is recognized by its own identifier.
pub proof fn law_name_is_recognized(editor: Editor)
    ensures
        recognize(name_of(editor)) == Some(editor),
{
    reveal_strlit("vscode");
    reveal_strlit("pycharm");
    reveal_strlit("zed");
    assert("vscode"@.len() == 6);
    assert("pycharm"@.len() == 7);
    assert("zed"@.len() == 3);
}

/// The empty text names no editor.
pub proof fn law_empty_name_is_no_editor()
    ensures
        recognize(Seq::<char>::empty()) == None::<Editor>,
{
    reveal_strlit("vscode");
    reveal_strlit("pycharm");
    reveal_strlit("zed");
    assert("vscode"@.len() == 6);
    assert("pycharm"@.len() == 7);
    assert("zed"@.len() == 3);
}

} // verus!
