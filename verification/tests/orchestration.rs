use ghsec::checks::AccountChecks;
use ghsec::checks::Checks;
use ghsec::checks::RepositoryChecks;
use ghsec::context::CheckCtx;
use ghsec::orchestrator::AccountTask;
use ghsec::orchestrator::RepoTask;
use ghsec::orchestrator::plan_account_task;
use ghsec::orchestrator::plan_repository_tasks;
use ghsec::orchestrator::run_succeeded;
use ghsec::report::CheckError;
use ghsec::report::RepositoryRef;
use ghsec::report::RunOutcome;
use ghsec::selection::CheckRunRequest;

fn repo(name: &str) -> RepositoryRef {
    RepositoryRef {
        owner: Some("a".to_owned()),
        name: name.to_owned(),
        full_name: Some(format!("a/{name}")),
        default_branch: Some("main".to_owned()),
    }
}

fn ctx(pattern: &str) -> CheckCtx {
    CheckCtx::new(false, pattern.to_owned(), "^GH_(TOKEN|PAT)$".to_owned())
        .expect("pattern should be a valid glob")
}

fn failure() -> RunOutcome {
    RunOutcome::Failure(CheckError::Platform("boom".to_owned()))
}

const ABC: [RepositoryChecks; 3] = [
    RepositoryChecks::DefaultWorkflowPermissions,
    RepositoryChecks::ForkPullRequestWorkflows,
    RepositoryChecks::RepositorySecrets,
];

#[test]
fn repository_task_offers_checks_in_selection_order() {
    let mut t = RepoTask::new(repo("r1"), ABC.to_vec());
    assert_eq!(t.next_check(), Some(ABC[0]));
    t.record(RunOutcome::Success);
    assert_eq!(t.next_check(), Some(ABC[1]));
    t.record(RunOutcome::Success);
    assert_eq!(t.next_check(), Some(ABC[2]));
    t.record(RunOutcome::Success);
    assert_eq!(t.next_check(), None);
    assert!(!t.has_failed());
}

#[test]
fn failed_check_stops_the_repository_task() {
    let mut t = RepoTask::new(repo("r1"), ABC.to_vec());
    t.record(RunOutcome::Success);
    assert_eq!(t.next_check(), Some(ABC[1]));
    t.record(failure());
    assert_eq!(t.next_check(), None);
    assert!(t.has_failed());
    assert_eq!(t.results.len(), 2);
    assert_eq!(t.results[0], RunOutcome::Success);
    assert_eq!(t.results[1], failure());
}

#[test]
fn one_failing_repository_does_not_stop_the_others() {
    let request = CheckRunRequest::Specific(vec![Checks::Repository(
        RepositoryChecks::RepositorySecrets,
    )]);
    let repos = vec![repo("r1"), repo("r2"), repo("r3")];
    let mut tasks = plan_repository_tasks(&request, &ctx("*"), repos);
    assert_eq!(tasks.len(), 3);
    for (i, t) in tasks.iter_mut().enumerate() {
        while t.next_check().is_some() {
            if i == 1 {
                t.record(failure());
            } else {
                t.record(RunOutcome::Success);
            }
        }
    }
    assert_eq!(tasks[0].results.len(), 1);
    assert_eq!(tasks[1].results.len(), 1);
    assert_eq!(tasks[2].results.len(), 1);
    assert!(tasks[1].has_failed());
    assert!(!tasks[0].has_failed());
    assert!(!tasks[2].has_failed());
    let account = plan_account_task(&request);
    assert!(!run_succeeded(&tasks, &account));
}

#[test]
fn account_task_continues_past_a_failure() {
    let mut t = AccountTask::new(vec![
        AccountChecks::CodeReviewLimits,
        AccountChecks::CodeReviewLimits,
    ]);
    assert_eq!(t.next_check(), Some(AccountChecks::CodeReviewLimits));
    t.record(failure());
    assert_eq!(t.next_check(), Some(AccountChecks::CodeReviewLimits));
    t.record(RunOutcome::Success);
    assert_eq!(t.next_check(), None);
    assert_eq!(t.results.len(), 2);
}

#[test]
fn planning_filters_repositories_by_glob() {
    let request = CheckRunRequest::All;
    let repos = vec![repo("workflows-ci"), repo("notes"), repo("workflows-deploy")];
    let tasks = plan_repository_tasks(&request, &ctx("workflows-*"), repos);
    let names: Vec<&str> = tasks.iter().map(|t| t.repository.name.as_str()).collect();
    assert_eq!(names, vec!["workflows-ci", "workflows-deploy"]);
    for t in &tasks {
        assert_eq!(
            t.checks,
            vec![
                RepositoryChecks::DefaultWorkflowPermissions,
                RepositoryChecks::ForkPullRequestWorkflows,
                RepositoryChecks::RepositorySecrets,
                RepositoryChecks::BranchProtections,
            ]
        );
        assert!(t.results.is_empty());
    }
}

#[test]
fn default_pattern_matches_every_repository() {
    let request = CheckRunRequest::All;
    let repos = vec![repo("r1"), repo("r2")];
    let tasks = plan_repository_tasks(&request, &ctx("*"), repos);
    assert_eq!(tasks.len(), 2);
}

#[test]
fn planning_the_account_task_takes_the_selected_account_checks() {
    let t = plan_account_task(&CheckRunRequest::All);
    assert_eq!(t.checks, vec![AccountChecks::CodeReviewLimits]);
    assert!(t.results.is_empty());
    let none = plan_account_task(&CheckRunRequest::Specific(vec![Checks::Repository(
        RepositoryChecks::RepositorySecrets,
    )]));
    assert!(none.checks.is_empty());
    assert_eq!(none.next_check(), None);
}

#[test]
fn run_succeeds_only_without_failures() {
    let request = CheckRunRequest::All;
    let mut tasks = plan_repository_tasks(&request, &ctx("*"), vec![repo("r1")]);
    let mut account = plan_account_task(&request);
    while tasks[0].next_check().is_some() {
        tasks[0].record(RunOutcome::Success);
    }
    while account.next_check().is_some() {
        account.record(RunOutcome::Success);
    }
    assert!(run_succeeded(&tasks, &account));
}

#[test]
fn an_account_failure_fails_the_run() {
    let request = CheckRunRequest::All;
    let tasks: Vec<RepoTask> = vec![];
    let mut account = plan_account_task(&request);
    account.record(failure());
    assert!(!run_succeeded(&tasks, &account));
}
