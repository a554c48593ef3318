//! How a run ends: the outcome of each process, and the failures that end
//! a run early.

use vstd::prelude::*;

verus! {

/// The two processes of a run.
#[derive(Clone, Copy, Debug, PartialEq, Eq)]
pub enum Process {
    Emulator,
    Debugger,
}

/// Why a run failed.
#[derive(Clone, Copy, Debug, PartialEq, Eq)]
pub enum Failure {
    /// The emulator's or the debugger's executable was found neither where
    /// the settings say nor on the search path.
    ExecutableNotFound,
    /// The emulator's configuration file could not be written.
    ConfigWriteFailure,
    /// A process could not be started.
    SpawnFailure,
    /// The emulator's diagnostic stream could not be read.
    StreamReadFailure,
    /// A process ended unsuccessfully, with this exit code if it had one.
    SubprocessFailure { exit_code: Option<i32> },
    /// The target executable could not be converted for the emulator.
    ConversionFailure,
}

/// How one process ended.
#[derive(Clone, Copy, Debug, PartialEq, Eq)]
pub enum RunOutcome {
    Success,
    Failure(Failure),
}

/// How a whole run ended.
#[derive(Clone, Copy, Debug, PartialEq, Eq)]
pub enum Resolution {
    /// Every process ended successfully.
    Success,
    /// The process `process` was the first to fail, with `cause`.
    Failed { process: Process, cause: Failure },
}

/// The outcome of a process that ended with `exit_code`: success for the
/// code 0, a subprocess failure that carries the code for anything else.
pub open spec fn outcome_of_exit(exit_code: Option<i32>) -> RunOutcome {
    if exit_code == Some(0i32) {
        RunOutcome::Success
    } else {
        RunOutcome::Failure(Failure::SubprocessFailure { exit_code })
    }
}

/// The exit status with which a run that ended in `resolution` is left: 0
/// after success, the exit code of the process that failed where it has one
/// that is not 0, and 1 for every other failure.
pub open spec fn exit_status_of(resolution: Resolution) -> i32 {
    match resolution {
        Resolution::Success => 0i32,
        Resolution::Failed {
            cause: Failure::SubprocessFailure { exit_code: Some(code) },
            ..
        } => if code != 0 {
            code
        } else {
            1i32
        },
        Resolution::Failed { .. } => 1i32,
    }
}

impl RunOutcome {
    /// The outcome of a process that has ended with `exit_code`, `None`
    /// where it ended without one.
    pub fn from_exit(exit_code: Option<i32>) -> (outcome: RunOutcome)
        ensures
            outcome == outcome_of_exit(exit_code),
    {
        match exit_code {
            Some(0) => RunOutcome::Success,
            _ => RunOutcome::Failure(Failure::SubprocessFailure { exit_code }),
        }
    }
}

impl Resolution {
    /// The exit status with which the run is left.
    pub fn exit_status(&self) -> (status: i32)
        ensures
            status == exit_status_of(*self),
            status == 0 <==> *self == Resolution::Success,
    {
        match self {
            Resolution::Success => 0,
            Resolution::Failed { cause: Failure::SubprocessFailure { exit_code: Some(code) }, .. } => {
                if *code != 0 {
                    *code
                } else {
                    1
                }
            },
            Resolution::Failed { .. } => 1,
        }
    }
}

} // verus!
