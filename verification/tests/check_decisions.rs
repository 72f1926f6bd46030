use ghsec::checks::branch_protections::BranchProtection;
use ghsec::checks::branch_protections::BranchProtections;
use ghsec::checks::branch_protections::ProtectionLookup;
use ghsec::checks::branch_protections::ProtectionTarget;
use ghsec::checks::code_review_limits::CodeReviewLimits;
use ghsec::checks::default_workflow_permissions::DefaultWorkflowPermissions;
use ghsec::checks::default_workflow_permissions::WorkflowPermissions;
use ghsec::checks::fork_pull_request_workflows::ForkPullRequestWorkflows;
use ghsec::checks::repository_secrets::RepositorySecrets;
use ghsec::report::CheckError;
use ghsec::report::Finding;
use ghsec::report::RepositoryRef;
use ghsec::report::Severity;

fn repo(owner: Option<&str>, name: &str, full_name: Option<&str>, branch: Option<&str>) -> RepositoryRef {
    RepositoryRef {
        owner: owner.map(str::to_owned),
        name: name.to_owned(),
        full_name: full_name.map(str::to_owned),
        default_branch: branch.map(str::to_owned),
    }
}

fn secure_permissions() -> WorkflowPermissions {
    WorkflowPermissions {
        default_workflow_permissions: "read".to_owned(),
        can_approve_pull_request_reviews: false,
    }
}

fn insecure_permissions() -> WorkflowPermissions {
    WorkflowPermissions {
        default_workflow_permissions: "write".to_owned(),
        can_approve_pull_request_reviews: true,
    }
}

#[test]
fn secure_workflow_permissions_yield_nothing() {
    let (findings, write) = DefaultWorkflowPermissions::evaluate(secure_permissions(), false);
    assert!(findings.is_empty());
    assert!(write.is_none());
}

#[test]
fn secure_workflow_permissions_need_no_fix_even_in_fix_mode() {
    let (findings, write) = DefaultWorkflowPermissions::evaluate(secure_permissions(), true);
    assert!(findings.is_empty());
    assert!(write.is_none());
}

#[test]
fn insecure_workflow_permissions_yield_findings_without_write() {
    let (findings, write) = DefaultWorkflowPermissions::evaluate(insecure_permissions(), false);
    assert_eq!(
        findings,
        vec![
            Finding::CanApprovePullRequestReviews,
            Finding::InsecureDefaultWorkflowPermissions("write".to_owned()),
        ]
    );
    assert!(write.is_none());
}

#[test]
fn insecure_workflow_permissions_are_fixed_in_fix_mode() {
    let (findings, write) = DefaultWorkflowPermissions::evaluate(insecure_permissions(), true);
    assert_eq!(
        findings,
        vec![
            Finding::CanApprovePullRequestReviews,
            Finding::InsecureDefaultWorkflowPermissions("write".to_owned()),
            Finding::FixingDefaultWorkflowPermissions,
        ]
    );
    let w = write.expect("fix mode with an insecure value must write");
    assert_eq!(w.default_workflow_permissions, "read");
    assert!(!w.can_approve_pull_request_reviews);
}

#[test]
fn only_the_permission_value_can_be_insecure() {
    let p = WorkflowPermissions {
        default_workflow_permissions: "write".to_owned(),
        can_approve_pull_request_reviews: false,
    };
    let (findings, write) = DefaultWorkflowPermissions::evaluate(p, true);
    assert_eq!(
        findings,
        vec![
            Finding::InsecureDefaultWorkflowPermissions("write".to_owned()),
            Finding::FixingDefaultWorkflowPermissions,
        ]
    );
    assert!(write.is_some());
}

#[test]
fn no_secrets_yield_no_findings() {
    assert!(RepositorySecrets::evaluate(vec![], false).is_empty());
    assert!(RepositorySecrets::evaluate(vec![], true).is_empty());
}

#[test]
fn each_secret_name_is_reported_in_order() {
    let findings = RepositorySecrets::evaluate(
        vec!["GH_TOKEN".to_owned(), "DEPLOY_KEY".to_owned()],
        false,
    );
    assert_eq!(
        findings,
        vec![
            Finding::FoundSecret("GH_TOKEN".to_owned()),
            Finding::FoundSecret("DEPLOY_KEY".to_owned()),
        ]
    );
}

#[test]
fn secrets_in_fix_mode_note_the_missing_remediation() {
    let findings = RepositorySecrets::evaluate(vec!["GH_TOKEN".to_owned()], true);
    assert_eq!(
        findings,
        vec![
            Finding::FoundSecret("GH_TOKEN".to_owned()),
            Finding::NothingToFixSecrets,
        ]
    );
}

#[test]
fn code_review_limits_always_reminds_and_succeeds() {
    let findings = CodeReviewLimits::evaluate();
    assert_eq!(findings, vec![Finding::CodeReviewLimitsReminder]);
}

#[test]
fn fork_workflows_remind_with_the_full_name() {
    let r = repo(Some("a"), "r1", Some("a/r1"), Some("main"));
    let findings = ForkPullRequestWorkflows::evaluate(&r).expect("full name present");
    assert_eq!(
        findings,
        vec![Finding::ForkPullRequestWorkflowsReminder("a/r1".to_owned())]
    );
}

#[test]
fn fork_workflows_fail_without_a_full_name() {
    let r = repo(Some("a"), "r1", None, Some("main"));
    assert_eq!(
        ForkPullRequestWorkflows::evaluate(&r),
        Err(CheckError::MissingFullName)
    );
}

#[test]
fn missing_owner_is_a_structural_error() {
    let r = repo(None, "r1", Some("a/r1"), Some("main"));
    assert_eq!(r.require_owner(), Err(CheckError::MissingOwner));
    let r = repo(Some("a"), "r1", Some("a/r1"), Some("main"));
    assert_eq!(r.require_owner(), Ok(&"a".to_owned()));
}

fn tight_protection() -> BranchProtection {
    BranchProtection {
        required_status_check_contexts: Some(vec!["ci".to_owned()]),
        enforce_admins: true,
        requires_pull_request_reviews: true,
        allow_force_pushes: false,
        allow_deletions: false,
    }
}

#[test]
fn branch_protection_target_skips_without_default_branch() {
    let r = repo(Some("a"), "r1", Some("a/r1"), None);
    assert_eq!(
        BranchProtections::target(&r),
        Ok(ProtectionTarget::NoDefaultBranch)
    );
    assert_eq!(
        BranchProtections::missing_default_branch(),
        vec![Finding::MissingDefaultBranch]
    );
}

#[test]
fn branch_protection_target_needs_the_full_name() {
    let r = repo(Some("a"), "r1", None, Some("main"));
    assert_eq!(BranchProtections::target(&r), Err(CheckError::MissingFullName));
    let r = repo(Some("a"), "r1", Some("a/r1"), Some("main"));
    assert_eq!(
        BranchProtections::target(&r),
        Ok(ProtectionTarget::Query("a/r1".to_owned(), "main".to_owned()))
    );
}

#[test]
fn tight_branch_protection_yields_nothing() {
    let r = BranchProtections::evaluate(
        "a/r1".to_owned(),
        ProtectionLookup::Protected(tight_protection()),
        false,
    )
    .expect("a protected branch is no error");
    assert!(r.is_empty());
}

#[test]
fn loose_branch_protection_yields_one_finding_per_setting() {
    let p = BranchProtection {
        required_status_check_contexts: Some(vec![]),
        enforce_admins: false,
        requires_pull_request_reviews: false,
        allow_force_pushes: true,
        allow_deletions: true,
    };
    let r = BranchProtections::evaluate("a/r1".to_owned(), ProtectionLookup::Protected(p), false)
        .expect("a protected branch is no error");
    assert_eq!(
        r,
        vec![
            Finding::NoRequiredStatusCheckContexts,
            Finding::ProtectionNotEnforcedForAdmins,
            Finding::ProtectionDoesNotRequirePullRequests,
            Finding::ProtectionAllowsForcePushes,
            Finding::ProtectionAllowsDeletions,
        ]
    );
}

#[test]
fn absent_status_checks_are_their_own_finding() {
    let p = BranchProtection {
        required_status_check_contexts: None,
        ..tight_protection()
    };
    let r = BranchProtections::evaluate("a/r1".to_owned(), ProtectionLookup::Protected(p), false)
        .expect("a protected branch is no error");
    assert_eq!(r, vec![Finding::NoRequiredStatusChecks]);
}

#[test]
fn fix_mode_on_protections_only_notes_the_missing_remediation() {
    let r = BranchProtections::evaluate(
        "a/r1".to_owned(),
        ProtectionLookup::Protected(tight_protection()),
        true,
    )
    .expect("a protected branch is no error");
    assert_eq!(r, vec![Finding::NothingToFixBranchProtections]);
}

#[test]
fn unprotected_branch_is_a_finding_not_a_failure() {
    let r = BranchProtections::evaluate(
        "a/r1".to_owned(),
        ProtectionLookup::Refused("Branch not protected".to_owned()),
        false,
    )
    .expect("a missing protection is a finding");
    assert_eq!(r, vec![Finding::MissingBranchProtection("a/r1".to_owned())]);
}

#[test]
fn plan_tier_refusal_is_an_informational_skip() {
    let r = BranchProtections::evaluate(
        "a/r1".to_owned(),
        ProtectionLookup::Refused("Upgrade to GitHub Pro or make this repository public.".to_owned()),
        false,
    )
    .expect("a plan tier refusal is a finding");
    assert_eq!(r, vec![Finding::ProtectionNotAvailable]);
}

#[test]
fn unrecognised_refusals_propagate_as_errors() {
    let r = BranchProtections::evaluate(
        "a/r1".to_owned(),
        ProtectionLookup::Refused("Not Found".to_owned()),
        false,
    );
    assert_eq!(r, Err(CheckError::Platform("Not Found".to_owned())));
}

#[test]
fn transport_failures_propagate_as_errors() {
    let r = BranchProtections::evaluate(
        "a/r1".to_owned(),
        ProtectionLookup::Failed("connection reset".to_owned()),
        true,
    );
    assert_eq!(r, Err(CheckError::Platform("connection reset".to_owned())));
}

#[test]
fn severities_match_the_reporting_rules() {
    assert_eq!(Finding::FoundSecret("X".to_owned()).severity(), Severity::Info);
    assert_eq!(Finding::NothingToFixSecrets.severity(), Severity::Info);
    assert_eq!(Finding::MissingBranchProtection("a/r".to_owned()).severity(), Severity::Warning);
    assert_eq!(Finding::CanApprovePullRequestReviews.severity(), Severity::Warning);
    assert_eq!(
        Finding::InsecureDefaultWorkflowPermissions("write".to_owned()).severity(),
        Severity::Warning
    );
    assert_eq!(
        Finding::ForkPullRequestWorkflowsReminder("a/r".to_owned()).severity(),
        Severity::Error
    );
    assert_eq!(Finding::CodeReviewLimitsReminder.severity(), Severity::Error);
    assert_eq!(Finding::ProtectionNotAvailable.severity(), Severity::Info);
}
