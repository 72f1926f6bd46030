//! The `fork_pull_request_workflows` check reminds the operator to review
//! the "fork pull request workflows from outside collaborators" setting.
//!
//! The platform exposes no API for it, so all this check can do is report
//! a reminder naming the repository's settings page. It performs no read
//! and no write, and fails only when the repository record carries no
//! full name.

use vstd::prelude::*;

use crate::report::CheckError;
use crate::report::Finding;
use crate::report::RepositoryRef;

verus! {

/// The `fork_pull_request_workflows` check.
#[derive(Default, Debug, Clone, Copy)]
pub struct ForkPullRequestWorkflows;

impl ForkPullRequestWorkflows {
    /// The reminder finding for this repository: exactly one, carrying the
    /// repository full name, and an error if and only if that name is
    /// missing.
    pub fn evaluate(repository: &RepositoryRef) -> (r: Result<Vec<Finding>, CheckError>)
        ensures
            (r is Ok) <==> (repository.full_name is Some),
            r matches Ok(v) ==> v@.len() == 1 && (v@[0] matches
                Finding::ForkPullRequestWorkflowsReminder(f) && (repository.full_name matches Some(
                n,
            ) && f@ == n@)),
            r matches Err(e) ==> e == CheckError::MissingFullName,
    {
        match repository.require_full_name() {
            Ok(full_name) => {
                let mut v: Vec<Finding> = Vec::new();
                v.push(Finding::ForkPullRequestWorkflowsReminder(full_name.clone()));
                Ok(v)
            },
            Err(e) => Err(e),
        }
    }
}

} // verus!
