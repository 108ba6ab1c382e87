//! Starting the application the way macOS starts one from its dock.

use crate::command::Command;
use vstd::prelude::*;

verus! {

/// The arguments with which `open` starts the application, on the given
/// workspace if there is one.
pub open spec fn relaunch_args(workspace: Option<Seq<char>>) -> Seq<Seq<char>> {
    match workspace {
        Some(path) => seq!["-a"@, "Pixi GUI"@, path],
        None => seq!["-a"@, "Pixi GUI"@],
    }
}

/// The process that starts the application again through the launch
/// services, so that it runs inside its bundle (with its dock icon) and
/// the request reaches the instance that may already be running.
///
/// It runs in the shell's own directory. The workspace, where there is one,
/// is the last argument.
pub fn relaunch_via_launchd(workspace: Option<&str>) -> (command: Command)
    ensures
        command.program@ == "open"@,
        command.args_view() == relaunch_args(
            match workspace {
                Some(path) => Some(path@),
                None => None,
            },
        ),
        command.current_dir is None,
{
    let mut args: Vec<String> = Vec::new();
    args.push(String::from_str("-a"));
    args.push(String::from_str("Pixi GUI"));
    if let Some(path) = workspace {
        args.push(String::from_str(path));
    }
    let command = Command { program: String::from_str("open"), args, current_dir: None };
    assert(command.args_view() =~= relaunch_args(
        match workspace {
            Some(path) => Some(path@),
            None => None,
        },
    ));
    command
}

} // verus!
