//! `git notes`: the subcommand constructor and its options.

use vstd::prelude::*;

use crate::command_executor::{dir_view, CommandLine};
use crate::git;
use crate::wrap_command::WrapCommand;

pub mod options;

verus! {

/// A `git notes` command, to be run in `current_dir` where one is given, with
/// no argument yet.
pub fn notes(current_dir: Option<&str>) -> (command: WrapCommand)
    ensures
        command@ == CommandLine::start("notes"@, dir_view(current_dir)),
{
    git("notes", current_dir)
}

} // verus!
