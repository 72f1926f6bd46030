//! The vocabulary of results: repository identity, findings with their
//! severity, check errors, and per-invocation outcomes.
//!
//! A finding reports an insecure or notable setting and is never an error:
//! a check that discovers one still succeeds. An error is reserved for
//! unexpected failures — a transport fault, a malformed response, or
//! structurally missing data such as an absent repository full name.

use vstd::prelude::*;

verus! {

/// The identity and metadata of one repository, fixed for the run.
#[derive(Debug, Clone, PartialEq, Eq)]
pub struct RepositoryRef {
    /// The login of the owning account, when the listing supplied one.
    pub owner: Option<String>,
    /// The repository's short name.
    pub name: String,
    /// The `owner/name` form, when the listing supplied one.
    pub full_name: Option<String>,
    /// The default branch, when the listing supplied one.
    pub default_branch: Option<String>,
}

impl RepositoryRef {
    /// The repository full name, which a check needs to address the
    /// platform; a record without one is a structural error.
    pub fn require_full_name(&self) -> (r: Result<&String, CheckError>)
        ensures
            (r is Ok) <==> (self.full_name is Some),
            r matches Ok(f) ==> self.full_name == Some(*f),
            r matches Err(e) ==> e == CheckError::MissingFullName,
    {
        match &self.full_name {
            Some(f) => Ok(f),
            None => Err(CheckError::MissingFullName),
        }
    }

    /// The owner login, which a check needs to address the platform; a
    /// record without one is a structural error.
    pub fn require_owner(&self) -> (r: Result<&String, CheckError>)
        ensures
            (r is Ok) <==> (self.owner is Some),
            r matches Ok(o) ==> self.owner == Some(*o),
            r matches Err(e) ==> e == CheckError::MissingOwner,
    {
        match &self.owner {
            Some(o) => Ok(o),
            None => Err(CheckError::MissingOwner),
        }
    }
}

/// How a finding is reported.
#[derive(Debug, Clone, Copy, PartialEq, Eq, Structural)]
pub enum Severity {
    Info,
    Warning,
    Error,
}

/// Why a check invocation failed.
#[derive(Debug, Clone, PartialEq, Eq)]
pub enum CheckError {
    /// The repository record carries no full name, which the check needs
    /// to address the platform.
    MissingFullName,
    /// The repository record carries no owner, which the check needs to
    /// address the platform.
    MissingOwner,
    /// The platform reported a failure the check does not recognise as a
    /// well-defined "not configured" or plan-tier condition.
    Platform(String),
}

/// A non-fatal report about an inspected setting.
#[derive(Debug, Clone, PartialEq, Eq)]
pub enum Finding {
    /// Branch protection requires status checks, but lists no contexts.
    NoRequiredStatusCheckContexts,
    /// Branch protection requires no status checks at all.
    NoRequiredStatusChecks,
    /// Branch protection is not enforced for administrators.
    ProtectionNotEnforcedForAdmins,
    /// Branch protection does not require pull requests.
    ProtectionDoesNotRequirePullRequests,
    /// Branch protection allows force pushes.
    ProtectionAllowsForcePushes,
    /// Branch protection allows deletions.
    ProtectionAllowsDeletions,
    /// The default branch has no protection configured; the value is the
    /// repository full name, for the settings link.
    MissingBranchProtection(String),
    /// Branch protection is not available for this repository's plan tier:
    /// an informational skip, not a failure.
    ProtectionNotAvailable,
    /// The repository record names no default branch, so its protection
    /// cannot be checked.
    MissingDefaultBranch,
    /// Fix mode is on, but branch protections have no remediation path.
    NothingToFixBranchProtections,
    /// Workflows may approve pull request reviews.
    CanApprovePullRequestReviews,
    /// The default workflow permissions are not `read`; the value carried
    /// is the insecure setting found.
    InsecureDefaultWorkflowPermissions(String),
    /// Fix mode is on and the workflow permissions are being remediated.
    FixingDefaultWorkflowPermissions,
    /// Fork pull request workflow settings have no API: a reminder to
    /// review them by hand; the value is the repository full name.
    ForkPullRequestWorkflowsReminder(String),
    /// A secret with this name is defined in the repository.
    FoundSecret(String),
    /// Fix mode is on, but listed secrets have no remediation path.
    NothingToFixSecrets,
    /// Code review limits have no API: a reminder to review the account
    /// setting by hand.
    CodeReviewLimitsReminder,
}

impl Finding {
    /// The severity under which this finding is reported.
    pub open spec fn spec_severity(self) -> Severity {
        match self {
            Finding::NoRequiredStatusCheckContexts => Severity::Warning,
            Finding::NoRequiredStatusChecks => Severity::Warning,
            Finding::ProtectionNotEnforcedForAdmins => Severity::Warning,
            Finding::ProtectionDoesNotRequirePullRequests => Severity::Warning,
            Finding::ProtectionAllowsForcePushes => Severity::Warning,
            Finding::ProtectionAllowsDeletions => Severity::Warning,
            Finding::MissingBranchProtection(_) => Severity::Warning,
            Finding::ProtectionNotAvailable => Severity::Info,
            Finding::MissingDefaultBranch => Severity::Warning,
            Finding::NothingToFixBranchProtections => Severity::Info,
            Finding::CanApprovePullRequestReviews => Severity::Warning,
            Finding::InsecureDefaultWorkflowPermissions(_) => Severity::Warning,
            Finding::FixingDefaultWorkflowPermissions => Severity::Info,
            Finding::ForkPullRequestWorkflowsReminder(_) => Severity::Error,
            Finding::FoundSecret(_) => Severity::Info,
            Finding::NothingToFixSecrets => Severity::Info,
            Finding::CodeReviewLimitsReminder => Severity::Error,
        }
    }

    pub fn severity(&self) -> (r: Severity)
        ensures
            r == self.spec_severity(),
    {
        match self {
            Finding::NoRequiredStatusCheckContexts => Severity::Warning,
            Finding::NoRequiredStatusChecks => Severity::Warning,
            Finding::ProtectionNotEnforcedForAdmins => Severity::Warning,
            Finding::ProtectionDoesNotRequirePullRequests => Severity::Warning,
            Finding::ProtectionAllowsForcePushes => Severity::Warning,
            Finding::ProtectionAllowsDeletions => Severity::Warning,
            Finding::MissingBranchProtection(_) => Severity::Warning,
            Finding::ProtectionNotAvailable => Severity::Info,
            Finding::MissingDefaultBranch => Severity::Warning,
            Finding::NothingToFixBranchProtections => Severity::Info,
            Finding::CanApprovePullRequestReviews => Severity::Warning,
            Finding::InsecureDefaultWorkflowPermissions(_) => Severity::Warning,
            Finding::FixingDefaultWorkflowPermissions => Severity::Info,
            Finding::ForkPullRequestWorkflowsReminder(_) => Severity::Error,
            Finding::FoundSecret(_) => Severity::Info,
            Finding::NothingToFixSecrets => Severity::Info,
            Finding::CodeReviewLimitsReminder => Severity::Error,
        }
    }
}

/// The result of one (check, target) invocation. Never silently dropped:
/// the orchestration state machines record one per invocation.
#[derive(Debug, Clone, PartialEq, Eq)]
pub enum RunOutcome {
    Success,
    Failure(CheckError),
}

impl RunOutcome {
    pub open spec fn is_failure(self) -> bool {
        self is Failure
    }

    pub fn failed(&self) -> (r: bool)
        ensures
            r == self.is_failure(),
    {
        matches!(self, RunOutcome::Failure(_))
    }
}

} // verus!
