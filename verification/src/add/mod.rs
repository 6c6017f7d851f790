//! `git add`: the subcommand constructor.

use vstd::prelude::*;

use crate::command_executor::{dir_view, CommandLine};
use crate::git;
use crate::wrap_command::WrapCommand;

verus! {

/// A `git add` command, to be run in `current_dir` where one is given, with
/// no argument yet.
pub fn add(current_dir: Option<&str>) -> (command: WrapCommand)
    ensures
        command@ == CommandLine::start("add"@, dir_view(current_dir)),
{
    git("add", current_dir)
}

} // verus!
