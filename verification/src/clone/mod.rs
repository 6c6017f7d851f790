//! `git clone`: the subcommand constructor.

use vstd::prelude::*;

use crate::command_executor::{dir_view, CommandLine};
use crate::git;
use crate::wrap_command::WrapCommand;

verus! {

/// A `git clone` command, to be run in `current_dir` where one is given, with
/// no argument yet.
pub fn clone(current_dir: Option<&str>) -> (command: WrapCommand)
    ensures
        command@ == CommandLine::start("clone"@, dir_view(current_dir)),
{
    git("clone", current_dir)
}

} // verus!
