//! The ways in which running a command can fail.

use vstd::prelude::*;

verus! {

/// The kind of an input or output failure.
#[derive(Clone, Copy, Debug, PartialEq, Eq, Structural)]
pub enum IoErrorKind {
    /// A value handed in was not acceptable.
    InvalidInput,
    /// Any other failure.
    Other,
}

/// A failure at the level of pipes and processes.
#[derive(Clone, Debug)]
pub struct IoError {
    /// What kind of failure it was.
    pub kind: IoErrorKind,
    /// What went wrong, in words.
    pub message: String,
}

/// A failure that the sandbox, or the runner on its behalf, brought about.
#[derive(Debug)]
pub enum SandboxErr {
    /// The sandbox seems to have refused the command: its exit code and the
    /// output it left on standard output and standard error.
    Denied(i32, String, String),
    /// The command ran out of time.
    Timeout,
    /// The command was ended by a signal.
    Signal(i32),
}

/// Why a command could not be run to a result.
#[derive(Debug)]
pub enum CodexErr {
    /// Spawning the command or talking to it failed.
    Io(IoError),
    /// The helper sandbox was asked for but no helper executable is known.
    LandlockSandboxExecutableNotProvided,
    /// See [`SandboxErr`].
    Sandbox(SandboxErr),
}

} // verus!
