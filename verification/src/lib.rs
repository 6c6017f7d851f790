//! A typed builder layer over the `git` command line.
//!
//! A caller picks a subcommand constructor, which hands out an executor seeded
//! with the subcommand name and an optional working directory. Option actions
//! from the catalog of that subcommand are applied to it, positional arguments
//! are appended, and the finished command line is handed to whoever spawns the
//! `git` binary. What came of the spawn is turned into a result by
//! [`execution::conclude`].
//!
//! The library fixes the tokens and their order. It does not check whether
//! flags fit together: that is left to `git`.

use vstd::prelude::*;

use crate::command_executor::{dir_view, CommandLine};
use crate::wrap_command::WrapCommand;

pub mod add;
pub mod checkout;
pub mod clone;
pub mod command_executor;
pub mod execution;
pub mod fetch;
pub mod ls_files;
pub mod merge;
pub mod notes;
pub mod rev_parse;
pub mod revparse;
pub mod wrap_command;

verus! {

/// A command for the subcommand `cmd` of `git`, to be run in `current_dir`
/// where one is given, with no argument yet.
pub fn git(cmd: &str, current_dir: Option<&str>) -> (command: WrapCommand)
    ensures
        command@ == CommandLine::start(cmd@, dir_view(current_dir)),
{
    WrapCommand::new(cmd, current_dir)
}

} // verus!
