//! `git merge`: the subcommand constructor and its options.

use vstd::prelude::*;

use crate::command_executor::{dir_view, CommandLine};
use crate::git;
use crate::wrap_command::WrapCommand;

pub mod options;

verus! {

/// A `git merge` command, to be run in `current_dir` where one is given, with
/// no argument yet.
pub fn merge(current_dir: Option<&str>) -> (command: WrapCommand)
    ensures
        command@ == CommandLine::start("merge"@, dir_view(current_dir)),
{
    git("merge", current_dir)
}

} // verus!
