//! `git ls-files`: the subcommand constructor and its options.

use vstd::prelude::*;

use crate::command_executor::{dir_view, CommandExecutor, CommandLine};
use crate::git;

pub mod ls_files_options;

verus! {

/// A `git ls-files` command, to be run in `current_dir` where one is given, with
/// no argument yet.
pub fn ls_files(current_dir: Option<&str>) -> (command: CommandExecutor)
    ensures
        command@ == CommandLine::start("ls-files"@, dir_view(current_dir)),
{
    git("ls-files", current_dir)
}

} // verus!
