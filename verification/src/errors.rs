//! The fatal error kinds of the pipeline, and the classification of one
//! compiler run's observed outcome into success or an error.

use vstd::prelude::*;

verus! {

/// Everything that can end a build. All of these are fatal: the pipeline has
/// no retries and no local recovery.
#[derive(Clone, PartialEq, Eq, Hash, Debug)]
pub enum BuildError {
    /// The requested archive name does not match `lib<name>.a`.
    ConfigurationError(String),
    /// A required environment variable is missing, fails to parse, or names an
    /// unsupported target.
    EnvironmentError(String),
    /// The compiler binary could not be located or executed.
    ToolNotFoundError(String),
    /// The compiler ran but exited non-zero; the exit code and both captured
    /// streams are carried verbatim.
    ToolExecutionError {
        /// The exit code the process ended with, if it exited normally.
        code: Option<i32>,
        /// Everything the process wrote to standard output.
        stdout: String,
        /// Everything the process wrote to standard error.
        stderr: String,
    },
}

/// What the surrounding driver observed of one attempt to run the compiler.
#[derive(Clone, PartialEq, Eq, Hash, Debug)]
pub enum SpawnOutcome {
    /// The binary could not be located or executed at all.
    NotLaunched,
    /// The process ran to completion with the given status and captured
    /// streams.
    Finished {
        /// Whether the process reported success (exit status zero).
        success: bool,
        /// The exit code, if the process exited normally.
        code: Option<i32>,
        /// Everything the process wrote to standard output.
        stdout: String,
        /// Everything the process wrote to standard error.
        stderr: String,
    },
}

/// Classifies the outcome of one compiler invocation: a binary that could not
/// be started is a `ToolNotFoundError`, a non-zero exit is a
/// `ToolExecutionError` carrying the status and both streams verbatim, and a
/// zero exit is success.
pub fn classify_outcome(outcome: SpawnOutcome) -> (r: Result<(), BuildError>)
    ensures
        match outcome {
            SpawnOutcome::NotLaunched => r matches Err(e) && e is ToolNotFoundError,
            SpawnOutcome::Finished { success, code, stdout, stderr } => if success {
                r is Ok
            } else {
                r == Err::<(), BuildError>(BuildError::ToolExecutionError { code, stdout, stderr })
            },
        },
{
    match outcome {
        SpawnOutcome::NotLaunched => Err(
            BuildError::ToolNotFoundError(
                "failed to execute command: is the compiler not installed?".to_owned(),
            ),
        ),
        SpawnOutcome::Finished { success, code, stdout, stderr } => {
            if success {
                Ok(())
            } else {
                Err(BuildError::ToolExecutionError { code, stdout, stderr })
            }
        },
    }
}

} // verus!
