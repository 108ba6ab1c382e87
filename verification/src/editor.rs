//! The code editors that a workspace can be opened in.

use crate::command::Command;
use vstd::prelude::*;

verus! {

/// A code editor: the command that starts it and the name shown for it.
#[derive(Debug, Clone, PartialEq, Eq)]
pub struct Editor {
    pub command: String,
    pub name: String,
}

impl View for Editor {
    type V = (Seq<char>, Seq<char>);

    /// The command and the name.
    open spec fn view(&self) -> (Seq<char>, Seq<char>) {
        (self.command@, self.name@)
    }
}

/// The views of a list of editors.
pub open spec fn editors_view(v: Seq<Editor>) -> Seq<(Seq<char>, Seq<char>)> {
    v.map_values(|e: Editor| e@)
}

/// The editors that the shell knows of, in the order in which it looks for
/// them.
pub open spec fn known_editors_spec() -> Seq<(Seq<char>, Seq<char>)> {
    seq![
        ("code"@, "Visual Studio Code"@),
        ("cursor"@, "Cursor"@),
        ("zed"@, "Zed"@),
        ("subl"@, "Sublime Text"@),
        ("charm"@, "PyCharm"@),
        ("idea"@, "IntelliJ IDEA"@),
        ("webstorm"@, "WebStorm"@),
        ("rustrover"@, "RustRover"@),
    ]
}

/// The items whose flag is set, in their order. An item without a flag
/// counts as not set.
pub open spec fn selected<A>(items: Seq<A>, flags: Seq<bool>) -> Seq<A>
    decreases items.len(),
{
    if items.len() == 0 {
        Seq::empty()
    } else {
        let last = items.len() - 1;
        let before = selected(items.drop_last(), flags);
        if last < flags.len() && flags[last] {
            before.push(items[last])
        } else {
            before
        }
    }
}

/// The arguments with which `pixi` starts `editor` in `environment`.
pub open spec fn editor_args(editor: Seq<char>, environment: Seq<char>) -> Seq<Seq<char>> {
    seq!["run"@, "--environment"@, environment, editor, "."@]
}

/// What the user is told when the editor could not be started for `cause`.
pub open spec fn open_failure(cause: Seq<char>) -> Seq<char> {
    "Failed to open editor: "@ + cause
}

/// Calls `which::which` and keeps whether it found anything. Trusted:
/// nothing is claimed of the answer, which depends on the search path and
/// on the files found there.
#[verifier::external_body]
fn is_on_path(command: &str) -> bool {
    which::which(command).is_ok()
}

fn editor(command: &str, name: &str) -> (e: Editor)
    ensures
        e@ == (command@, name@),
{
    Editor { command: String::from_str(command), name: String::from_str(name) }
}

/// The editors that the shell knows of.
pub fn known_editors() -> (editors: Vec<Editor>)
    ensures
        editors_view(editors@) == known_editors_spec(),
{
    let mut editors: Vec<Editor> = Vec::new();
    editors.push(editor("code", "Visual Studio Code"));
    editors.push(editor("cursor", "Cursor"));
    editors.push(editor("zed", "Zed"));
    editors.push(editor("subl", "Sublime Text"));
    editors.push(editor("charm", "PyCharm"));
    editors.push(editor("idea", "IntelliJ IDEA"));
    editors.push(editor("webstorm", "WebStorm"));
    editors.push(editor("rustrover", "RustRover"));
    assert(editors_view(editors@) =~= known_editors_spec());
    editors
}

/// The known editors whose flag in `found` is set, in the order of the
/// table. `found[i]` says whether the `i`-th known editor is installed.
pub fn available_editors(found: &Vec<bool>) -> (editors: Vec<Editor>)
    ensures
        editors_view(editors@) == selected(known_editors_spec(), found@),
{
    let known = known_editors();
    let ghost table = editors_view(known@);
    let mut editors: Vec<Editor> = Vec::new();
    let mut i: usize = 0;
    while i < known.len()
        invariant
            i <= known.len(),
            table == editors_view(known@),
            editors_view(editors@) == selected(table.take(i as int), found@),
        decreases known.len() - i,
    {
        proof {
            assert(table.take(i + 1).drop_last() =~= table.take(i as int));
            assert(table.take(i + 1)[i as int] == known@[i as int]@);
        }
        if i < found.len() && found[i] {
            let e = editor(known[i].command.as_str(), known[i].name.as_str());
            editors.push(e);
            assert(editors_view(editors@) =~= selected(table.take(i as int), found@).push(e@));
        }
        i = i + 1;
    }
    proof {
        assert(table.take(known.len() as int) =~= table);
    }
    editors
}

/// The known editors that are installed: those whose command is found on
/// the search path.
///
/// Whatever is installed, the result is a selection from the table of
/// known editors, in the table's order.
pub fn list_available_editors() -> (editors: Vec<Editor>)
    ensures
        exists|found: Seq<bool>|
            found.len() == known_editors_spec().len() && editors_view(editors@) == #[trigger] selected(
                known_editors_spec(),
                found,
            ),
{
    let known = known_editors();
    let mut found: Vec<bool> = Vec::new();
    let mut i: usize = 0;
    while i < known.len()
        invariant
            i <= known.len(),
            found.len() == i,
        decreases known.len() - i,
    {
        found.push(is_on_path(known[i].command.as_str()));
        i = i + 1;
    }
    proof {
        assert(editors_view(known@).len() == known@.len());
    }
    available_editors(&found)
}

/// The process that opens `workspace` in `editor`: `pixi` runs the editor
/// inside `environment`, in the workspace's directory and on that
/// directory.
pub fn open_in_editor(workspace: String, editor: String, environment: String) -> (command: Command)
    ensures
        command.program@ == "pixi"@,
        command.args_view() == editor_args(editor@, environment@),
        command.dir_view() == Some(workspace@),
{
    let mut args: Vec<String> = Vec::new();
    args.push(String::from_str("run"));
    args.push(String::from_str("--environment"));
    args.push(environment);
    args.push(editor);
    args.push(String::from_str("."));
    let command = Command { program: String::from_str("pixi"), args, current_dir: Some(workspace) };
    assert(command.args_view() =~= editor_args(editor@, environment@));
    command
}

/// The outcome reported to the user interface once the editor's process
/// was started, or could not be for the cause given.
pub fn editor_opened(spawned: Result<(), String>) -> (outcome: Result<(), String>)
    ensures
        spawned is Ok ==> outcome is Ok,
        spawned matches Err(cause) ==> outcome matches Err(text) && text@ == open_failure(cause@),
{
    match spawned {
        Ok(()) => Ok(()),
        Err(cause) => Err(String::from_str("Failed to open editor: ").concat(cause.as_str())),
    }
}

} // verus!
