//! How a build ends: the build script's exit status, and the errors that
//! stop a build.
use vstd::prelude::*;

verus! {

/// Why a build did not complete.
#[derive(Debug, PartialEq, Eq)]
pub enum BuildError {
    /// The target has no build script; holds the script path looked for.
    MissingScript(String),
    /// The cache document exists but does not hold well-formed targets.
    CorruptCache,
    /// The build script exited with a non-zero code or could not be started.
    BuildScriptFailed(i32),
    /// The built output could not be moved onto the target path.
    PublishFailed,
}

/// The exit status of a build script.
#[derive(Debug, Clone, Copy, PartialEq, Eq)]
pub enum ExitOutcome {
    Success,
    Failure(i32),
}

/// The code reported for a script that ended without an exit code (killed
/// by a signal) or could not be started.
pub const NO_EXIT_CODE: i32 = 1;

impl ExitOutcome {
    /// Maps a process exit code to an outcome: `0` is success, any other
    /// code is a failure with that code, and no code at all is a failure
    /// with `NO_EXIT_CODE`.
    pub fn from_code(code: Option<i32>) -> (r: ExitOutcome)
        ensures
            code == Some(0i32) ==> r == ExitOutcome::Success,
            forall|c: i32| code == Some(c) && c != 0 ==> r == ExitOutcome::Failure(c),
            code is None ==> r == ExitOutcome::Failure(NO_EXIT_CODE),
    {
        match code {
            Some(c) => if c == 0 {
                ExitOutcome::Success
            } else {
                ExitOutcome::Failure(c)
            },
            None => ExitOutcome::Failure(NO_EXIT_CODE),
        }
    }

    /// Whether the script's output may be published as the target: only on
    /// success. A failure leaves the target untouched and is reported as
    /// `BuildScriptFailed` with the script's code.
    pub fn into_result(self) -> (r: Result<(), BuildError>)
        ensures
            self == ExitOutcome::Success ==> r == Ok::<(), BuildError>(()),
            forall|c: i32| self == ExitOutcome::Failure(c) ==> r == Err::<(), BuildError>(BuildError::BuildScriptFailed(c)),
    {
        match self {
            ExitOutcome::Success => Ok(()),
            ExitOutcome::Failure(c) => Err(BuildError::BuildScriptFailed(c)),
        }
    }
}

} // verus!
