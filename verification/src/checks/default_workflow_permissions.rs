//! The `default_workflow_permissions` check ensures that a repository's
//! default workflow permissions use secure values: the default workflow
//! token restricted to `read` access, and workflows not allowed to
//! approve pull request reviews.
//!
//! In fix mode, both settings are remediated in a single write: the
//! permissions set to `read` and review approval switched off.

use vstd::prelude::*;

use crate::report::Finding;
use crate::text::str_eq;

verus! {

/// The default workflow permission settings of one repository, as the
/// platform reports and accepts them.
#[derive(Debug, Clone, PartialEq, Eq)]
pub struct WorkflowPermissions {
    /// `read` or `write`.
    pub default_workflow_permissions: String,
    /// Whether workflows may approve pull request reviews.
    pub can_approve_pull_request_reviews: bool,
}

/// The `default_workflow_permissions` check.
#[derive(Default, Debug, Clone, Copy)]
pub struct DefaultWorkflowPermissions;

impl DefaultWorkflowPermissions {
    /// Whether the fetched settings call for remediation.
    pub open spec fn spec_fix_needed(p: WorkflowPermissions) -> bool {
        p.can_approve_pull_request_reviews || p.default_workflow_permissions@ != "read"@
    }

    /// The findings reported for the fetched settings.
    pub open spec fn spec_findings(p: WorkflowPermissions, fix: bool) -> Seq<Finding> {
        (if p.can_approve_pull_request_reviews {
            seq![Finding::CanApprovePullRequestReviews]
        } else {
            Seq::<Finding>::empty()
        }) + (if p.default_workflow_permissions@ != "read"@ {
            seq![Finding::InsecureDefaultWorkflowPermissions(p.default_workflow_permissions)]
        } else {
            Seq::<Finding>::empty()
        }) + (if fix && Self::spec_fix_needed(p) {
            seq![Finding::FixingDefaultWorkflowPermissions]
        } else {
            Seq::<Finding>::empty()
        })
    }

    /// Decide the findings and the remediation write for the fetched
    /// settings: a finding for each insecure value, and — only in fix
    /// mode, and only when a fix is needed — the single secure write to
    /// perform.
    pub fn evaluate(permissions: WorkflowPermissions, fix: bool) -> (r: (
        Vec<Finding>,
        Option<WorkflowPermissions>,
    ))
        ensures
            r.0@ == Self::spec_findings(permissions, fix),
            (r.1 is Some) <==> (fix && Self::spec_fix_needed(permissions)),
            r.1 matches Some(w) ==> w.default_workflow_permissions@ == "read"@
                && !w.can_approve_pull_request_reviews,
    {
        let WorkflowPermissions {
            default_workflow_permissions: value,
            can_approve_pull_request_reviews: can_approve,
        } = permissions;
        let insecure_value = !str_eq(value.as_str(), "read");
        let fix_needed = can_approve || insecure_value;
        let mut findings: Vec<Finding> = Vec::new();
        if can_approve {
            findings.push(Finding::CanApprovePullRequestReviews);
        }
        if insecure_value {
            findings.push(Finding::InsecureDefaultWorkflowPermissions(value));
        }
        let write = if fix && fix_needed {
            findings.push(Finding::FixingDefaultWorkflowPermissions);
            Some(
                WorkflowPermissions {
                    default_workflow_permissions: "read".to_owned(),
                    can_approve_pull_request_reviews: false,
                },
            )
        } else {
            None
        };
        proof {
            assert(findings@ =~= Self::spec_findings(permissions, fix));
        }
        (findings, write)
    }
}

} // verus!
