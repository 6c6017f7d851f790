//! `git rev-parse`: its options under their `_option` names, for
//! [`crate::command_executor::CommandExecutor`].

pub mod revparse_options;
