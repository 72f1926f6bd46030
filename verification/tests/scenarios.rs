//! End-to-end runs driven the way the surrounding program drives them:
//! parse the selection, build the context, plan the tasks, and step each
//! task with the decisions of the selected checks, here against a
//! scripted platform instead of the live one.

use ghsec::checks::RepositoryChecks;
use ghsec::checks::default_workflow_permissions::DefaultWorkflowPermissions;
use ghsec::checks::default_workflow_permissions::WorkflowPermissions;
use ghsec::checks::code_review_limits::CodeReviewLimits;
use ghsec::checks::repository_secrets::RepositorySecrets;
use ghsec::context::CheckCtx;
use ghsec::orchestrator::plan_account_task;
use ghsec::orchestrator::plan_repository_tasks;
use ghsec::orchestrator::run_succeeded;
use ghsec::report::Finding;
use ghsec::report::RepositoryRef;
use ghsec::report::RunOutcome;
use ghsec::selection::CheckRunRequest;

fn repo(name: &str) -> RepositoryRef {
    RepositoryRef {
        owner: Some("a".to_owned()),
        name: name.to_owned(),
        full_name: Some(format!("a/{name}")),
        default_branch: Some("main".to_owned()),
    }
}

/// The settings each repository of the scenario reports.
fn scripted_permissions(name: &str) -> WorkflowPermissions {
    if name == "r1" {
        WorkflowPermissions {
            default_workflow_permissions: "write".to_owned(),
            can_approve_pull_request_reviews: false,
        }
    } else {
        WorkflowPermissions {
            default_workflow_permissions: "read".to_owned(),
            can_approve_pull_request_reviews: false,
        }
    }
}

#[test]
fn findings_without_fix_leave_the_run_successful() {
    let request = CheckRunRequest::parse("default_workflow_permissions,repository_secrets")
        .expect("both names are known");
    let ctx = CheckCtx::new(false, "*".to_owned(), "^GH_(TOKEN|PAT)$".to_owned())
        .expect("valid pattern");
    let mut tasks = plan_repository_tasks(&request, &ctx, vec![repo("r1"), repo("r2")]);
    assert_eq!(tasks.len(), 2);

    let mut findings: Vec<(String, Finding)> = Vec::new();
    let mut writes = 0;
    for t in tasks.iter_mut() {
        let name = t.repository.name.clone();
        while let Some(check) = t.next_check() {
            let fs = match check {
                RepositoryChecks::DefaultWorkflowPermissions => {
                    let (fs, write) =
                        DefaultWorkflowPermissions::evaluate(scripted_permissions(&name), ctx.fix());
                    if write.is_some() {
                        writes += 1;
                    }
                    fs
                }
                RepositoryChecks::RepositorySecrets => {
                    // Neither repository holds a secret.
                    RepositorySecrets::evaluate(vec![], ctx.fix())
                }
                other => panic!("the selection holds no {other:?}"),
            };
            for f in fs {
                findings.push((name.clone(), f));
            }
            t.record(RunOutcome::Success);
        }
    }
    let account = plan_account_task(&request);
    assert_eq!(account.checks.len(), 0);

    // Findings came from r1's permissions check alone, no write happened,
    // and the run still succeeds: a finding is not an error.
    assert_eq!(
        findings,
        vec![(
            "r1".to_owned(),
            Finding::InsecureDefaultWorkflowPermissions("write".to_owned())
        )]
    );
    assert_eq!(writes, 0);
    assert!(run_succeeded(&tasks, &account));
}

#[test]
fn fix_mode_without_a_remediation_path_still_succeeds() {
    let request = CheckRunRequest::parse("all").expect("all is always accepted");
    assert!(matches!(request, CheckRunRequest::All));
    let mut account = plan_account_task(&request);
    let mut findings: Vec<Finding> = Vec::new();
    while let Some(check) = account.next_check() {
        match check {
            ghsec::checks::AccountChecks::CodeReviewLimits => {
                // Fix mode is on, but no programmatic fix exists: the
                // check reports its reminder, performs no write, and
                // still succeeds.
                findings.extend(CodeReviewLimits::evaluate());
                account.record(RunOutcome::Success);
            }
        }
    }
    assert_eq!(findings, vec![Finding::CodeReviewLimitsReminder]);
    assert!(run_succeeded(&vec![], &account));
}
