//! The names under which the subcommand constructors and the newer option
//! catalogs know the executor and its option actions.

use vstd::prelude::*;

use crate::command_executor::{CommandExecutor, CommandOption};

verus! {

/// The command that a subcommand constructor hands out.
pub type WrapCommand = CommandExecutor;

/// An option action of the catalogs whose functions carry the bare flag name.
pub type FnOptionArg = CommandOption;

} // verus!
