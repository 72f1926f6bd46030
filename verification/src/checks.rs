//! The registry of known checks.
//!
//! Checks are partitioned into two disjoint domains: repository-scoped
//! checks, which run once per repository, and account-scoped checks, which
//! run once per account. Each check is a fixed, named member of a closed
//! enumeration, so looking a name up is a total function.

pub mod branch_protections;
pub mod code_review_limits;
pub mod default_workflow_permissions;
pub mod fork_pull_request_workflows;
pub mod repository_secrets;

use vstd::prelude::*;

verus! {

/// All the available checks on a repository.
#[derive(Debug, Clone, Copy, PartialEq, Eq, Structural)]
pub enum RepositoryChecks {
    DefaultWorkflowPermissions,
    ForkPullRequestWorkflows,
    RepositorySecrets,
    BranchProtections,
}

/// All the available checks on an account.
#[derive(Debug, Clone, Copy, PartialEq, Eq, Structural)]
pub enum AccountChecks {
    CodeReviewLimits,
}

/// A check of either domain.
#[derive(Debug, Clone, Copy, PartialEq, Eq, Structural)]
pub enum Checks {
    Repository(RepositoryChecks),
    Account(AccountChecks),
}

impl RepositoryChecks {
    /// The unique name under which this check is selected.
    pub open spec fn spec_name(self) -> Seq<char> {
        match self {
            RepositoryChecks::DefaultWorkflowPermissions => "default_workflow_permissions"@,
            RepositoryChecks::ForkPullRequestWorkflows => "fork_pull_request_workflows"@,
            RepositoryChecks::RepositorySecrets => "repository_secrets"@,
            RepositoryChecks::BranchProtections => "branch_protections"@,
        }
    }

    pub fn name(&self) -> (r: &'static str)
        ensures
            r@ == self.spec_name(),
    {
        match self {
            RepositoryChecks::DefaultWorkflowPermissions => "default_workflow_permissions",
            RepositoryChecks::ForkPullRequestWorkflows => "fork_pull_request_workflows",
            RepositoryChecks::RepositorySecrets => "repository_secrets",
            RepositoryChecks::BranchProtections => "branch_protections",
        }
    }
}

impl AccountChecks {
    /// The unique name under which this check is selected.
    pub open spec fn spec_name(self) -> Seq<char> {
        match self {
            AccountChecks::CodeReviewLimits => "code_review_limits"@,
        }
    }

    pub fn name(&self) -> (r: &'static str)
        ensures
            r@ == self.spec_name(),
    {
        match self {
            AccountChecks::CodeReviewLimits => "code_review_limits",
        }
    }
}

impl Checks {
    pub open spec fn spec_name(self) -> Seq<char> {
        match self {
            Checks::Repository(c) => c.spec_name(),
            Checks::Account(c) => c.spec_name(),
        }
    }

    pub fn name(&self) -> (r: &'static str)
        ensures
            r@ == self.spec_name(),
    {
        match self {
            Checks::Repository(c) => c.name(),
            Checks::Account(c) => c.name(),
        }
    }
}

impl From<RepositoryChecks> for Checks {
    fn from(value: RepositoryChecks) -> (r: Self) {
        Checks::Repository(value)
    }
}

impl vstd::std_specs::convert::FromSpecImpl<RepositoryChecks> for Checks {
    open spec fn obeys_from_spec() -> bool {
        true
    }

    open spec fn from_spec(value: RepositoryChecks) -> Self {
        Checks::Repository(value)
    }
}

impl From<AccountChecks> for Checks {
    fn from(value: AccountChecks) -> (r: Self) {
        Checks::Account(value)
    }
}

impl vstd::std_specs::convert::FromSpecImpl<AccountChecks> for Checks {
    open spec fn obeys_from_spec() -> bool {
        true
    }

    open spec fn from_spec(value: AccountChecks) -> Self {
        Checks::Account(value)
    }
}

/// Every repository-scoped check, in registry order.
pub open spec fn spec_all_repository_checks() -> Seq<RepositoryChecks> {
    seq![
        RepositoryChecks::DefaultWorkflowPermissions,
        RepositoryChecks::ForkPullRequestWorkflows,
        RepositoryChecks::RepositorySecrets,
        RepositoryChecks::BranchProtections,
    ]
}

/// Every account-scoped check, in registry order.
pub open spec fn spec_all_account_checks() -> Seq<AccountChecks> {
    seq![AccountChecks::CodeReviewLimits]
}

pub fn all_repository_checks() -> (r: Vec<RepositoryChecks>)
    ensures
        r@ == spec_all_repository_checks(),
{
    let mut r: Vec<RepositoryChecks> = Vec::new();
    r.push(RepositoryChecks::DefaultWorkflowPermissions);
    r.push(RepositoryChecks::ForkPullRequestWorkflows);
    r.push(RepositoryChecks::RepositorySecrets);
    r.push(RepositoryChecks::BranchProtections);
    proof {
        assert(r@ =~= spec_all_repository_checks());
    }
    r
}

pub fn all_account_checks() -> (r: Vec<AccountChecks>)
    ensures
        r@ == spec_all_account_checks(),
{
    let mut r: Vec<AccountChecks> = Vec::new();
    r.push(AccountChecks::CodeReviewLimits);
    proof {
        assert(r@ =~= spec_all_account_checks());
    }
    r
}

} // verus!
