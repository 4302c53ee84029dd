//! What is decided when the program starts: which policies the command line
//! overrides, and which screens come before the chat.

use crate::protocol::AskForApproval;
use vstd::prelude::*;

verus! {

/// How tightly commands are confined.
#[derive(Debug, Clone, Copy, PartialEq, Eq, Structural)]
pub enum SandboxMode {
    ReadOnly,
    WorkspaceWrite,
    DangerFullAccess,
}

/// The policies that the command line sets: full-auto mode confines to the
/// workspace and asks on failure; bypassing confines nothing and never
/// asks; else what the flags for each say.
pub fn cli_policy_overrides(
    full_auto: bool,
    dangerously_bypass_approvals_and_sandbox: bool,
    sandbox_mode: Option<SandboxMode>,
    approval_policy: Option<AskForApproval>,
) -> (overrides: (Option<SandboxMode>, Option<AskForApproval>))
    ensures
        overrides == if full_auto {
            (Some(SandboxMode::WorkspaceWrite), Some(AskForApproval::OnFailure))
        } else if dangerously_bypass_approvals_and_sandbox {
            (Some(SandboxMode::DangerFullAccess), Some(AskForApproval::Never))
        } else {
            (sandbox_mode, approval_policy)
        },
{
    if full_auto {
        (Some(SandboxMode::WorkspaceWrite), Some(AskForApproval::OnFailure))
    } else if dangerously_bypass_approvals_and_sandbox {
        (Some(SandboxMode::DangerFullAccess), Some(AskForApproval::Never))
    } else {
        (sandbox_mode, approval_policy)
    }
}

/// What a look for stored credentials found.
#[derive(Debug, Clone, Copy, PartialEq, Eq, Structural)]
pub enum StoredAuth {
    Found,
    Missing,
    /// The store could not be read.
    Unreadable,
}

/// Whether the user has to sign in first: only a provider that needs it asks
/// for it, and only where no credentials are stored or the store cannot be
/// read.
pub fn should_show_login_screen(requires_openai_auth: bool, stored: StoredAuth) -> (show: bool)
    ensures
        show == (requires_openai_auth && stored != StoredAuth::Found),
{
    if requires_openai_auth {
        match stored {
            StoredAuth::Found => false,
            StoredAuth::Missing => true,
            StoredAuth::Unreadable => true,
        }
    } else {
        false
    }
}

/// What is known of the user's settings for the project at hand.
#[derive(Debug, Clone, Copy, PartialEq, Eq, Structural)]
pub struct TrustInputs {
    /// Whether the command line sets an approval policy.
    pub approval_policy_override: bool,
    /// Whether the command line sets a sandbox mode.
    pub sandbox_mode_override: bool,
    /// Whether the chosen profile sets an approval policy.
    pub profile_approval_policy: bool,
    /// Whether the configuration file sets an approval policy.
    pub config_approval_policy: bool,
    /// Whether the configuration file sets a sandbox mode.
    pub config_sandbox_mode: bool,
    /// Whether the working directory is marked as trusted.
    pub cwd_trusted: bool,
}

/// What follows from the user's settings.
#[derive(Debug, Clone, Copy, PartialEq, Eq, Structural)]
pub struct TrustDecision {
    /// Whether the user is asked whether to trust the project.
    pub show_trust_screen: bool,
    /// Whether the settings for a trusted project are applied: approval on
    /// request, writing confined to the workspace.
    pub apply_trusted_defaults: bool,
}

impl TrustInputs {
    /// Whether the user has set a policy anywhere.
    pub open spec fn any_policy_set(&self) -> bool {
        ||| self.approval_policy_override
        ||| self.sandbox_mode_override
        ||| self.profile_approval_policy
        ||| self.config_approval_policy
        ||| self.config_sandbox_mode
    }
}

/// Decides whether to ask about trust. A user who has set a policy anywhere
/// is not asked. Else a trusted project gets the settings for trusted
/// projects without asking, and for any other the question is put.
pub fn determine_repo_trust_state(inputs: TrustInputs) -> (decision: TrustDecision)
    ensures
        decision.show_trust_screen == (!inputs.any_policy_set() && !inputs.cwd_trusted),
        decision.apply_trusted_defaults == (!inputs.any_policy_set() && inputs.cwd_trusted),
{
    if inputs.approval_policy_override || inputs.sandbox_mode_override {
        TrustDecision { show_trust_screen: false, apply_trusted_defaults: false }
    } else if inputs.profile_approval_policy {
        TrustDecision { show_trust_screen: false, apply_trusted_defaults: false }
    } else if inputs.config_approval_policy || inputs.config_sandbox_mode {
        TrustDecision { show_trust_screen: false, apply_trusted_defaults: false }
    } else if inputs.cwd_trusted {
        TrustDecision { show_trust_screen: false, apply_trusted_defaults: true }
    } else {
        TrustDecision { show_trust_screen: true, apply_trusted_defaults: false }
    }
}

} // verus!
