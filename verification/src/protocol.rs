//! The policies that govern how a command may be run.

use vstd::prelude::*;

verus! {

/// What a sandboxed command may touch.
#[derive(Debug, Clone, PartialEq, Eq)]
pub enum SandboxPolicy {
    /// Everything: no restriction at all.
    DangerFullAccess,
    /// The whole disk, for reading only.
    ReadOnly,
    /// The whole disk for reading, and the working directory and the given
    /// roots for writing.
    WorkspaceWrite {
        /// Further directories that may be written to.
        writable_roots: Vec<String>,
        /// Whether the command may reach the network.
        network_access: bool,
    },
}

/// When the user is asked before a command is run.
#[derive(Debug, Clone, Copy, PartialEq, Eq, Structural)]
pub enum AskForApproval {
    /// Unless the command is known to be safe.
    UnlessTrusted,
    /// Only after the command has failed in the sandbox.
    OnFailure,
    /// Whenever the model asks for it.
    OnRequest,
    /// Never.
    Never,
}

} // verus!
