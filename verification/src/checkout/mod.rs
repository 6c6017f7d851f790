//! `git checkout`: the subcommand constructor and its options.

use vstd::prelude::*;

use crate::command_executor::{dir_view, CommandExecutor, CommandLine};
use crate::git;

pub mod checkout_options;

verus! {

/// A `git checkout` command, to be run in `current_dir` where one is given, with
/// no argument yet.
pub fn checkout(current_dir: Option<&str>) -> (command: CommandExecutor)
    ensures
        command@ == CommandLine::start("checkout"@, dir_view(current_dir)),
{
    git("checkout", current_dir)
}

} // verus!
