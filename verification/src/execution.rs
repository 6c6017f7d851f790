//! What came of running a command.
//!
//! Spawning the `git` binary is left to the caller. The caller reports what
//! happened as a [`Launch`], and [`conclude`] turns that report into the
//! result of the invocation. A process that could not be started and a process
//! that ran and ended with a non-zero status are two different errors. The
//! text that the process wrote is handed on untouched and is never read here.

use vstd::prelude::*;

verus! {

/// What a process that ran to its end has left behind.
#[derive(Debug, PartialEq, Eq)]
pub struct ProcessOutput {
    /// The exit code, or `None` where the process ended without one.
    pub code: Option<i32>,
    /// Everything the process wrote to its standard output.
    pub stdout: String,
    /// Everything the process wrote to its standard error.
    pub stderr: String,
}

impl ProcessOutput {
    /// A process has succeeded when it ended with exit code 0.
    pub open spec fn succeeded(self) -> bool {
        self.code == Some(0i32)
    }
}

/// The report of one attempt to run a command.
#[derive(Debug, PartialEq, Eq)]
pub enum Launch {
    /// The process could not be started: the executable was not found, the
    /// working directory does not exist, or the system refused the spawn.
    Failed {
        /// What the system said.
        reason: String,
    },
    /// The process was started and has ended.
    Exited {
        /// What it left behind.
        output: ProcessOutput,
    },
}

/// Why an invocation did not succeed.
#[derive(Debug, PartialEq, Eq)]
pub enum CommandError {
    /// The process could not be started.
    Launch {
        /// What the system said.
        reason: String,
    },
    /// The process ran and ended with a status other than exit code 0.
    Exit {
        /// What it left behind: the exit code and the captured streams.
        output: ProcessOutput,
    },
}

/// The result that a report stands for.
pub open spec fn conclusion(launch: Launch) -> Result<ProcessOutput, CommandError> {
    match launch {
        Launch::Failed { reason } => Err(CommandError::Launch { reason }),
        Launch::Exited { output } => if output.succeeded() {
            Ok(output)
        } else {
            Err(CommandError::Exit { output })
        },
    }
}

/// Turns the report of a spawn into the result of the invocation.
///
/// The result is `Ok` exactly when the process ran and ended with exit code 0,
/// and then holds what the process left behind. A failed launch gives
/// [`CommandError::Launch`] with the reason as it came; any other end of the
/// process gives [`CommandError::Exit`] with the exit code and the captured
/// streams as they came.
pub fn conclude(launch: Launch) -> (result: Result<ProcessOutput, CommandError>)
    ensures
        result == conclusion(launch),
        result is Ok <==> (launch is Exited && launch->output.succeeded()),
        (result is Err && result->Err_0 is Launch) <==> launch is Failed,
        (result is Err && result->Err_0 is Exit) <==> (launch is Exited
            && !launch->output.succeeded()),
{
    match launch {
        Launch::Failed { reason } => Err(CommandError::Launch { reason }),
        Launch::Exited { output } => {
            match output.code {
                Some(0) => Ok(output),
                _ => Err(CommandError::Exit { output }),
            }
        },
    }
}

} // verus!
