//! The orchestration state machines.
//!
//! The run expands the selection into concrete checks per domain, filters
//! the listed repositories by the run's name pattern, and then drives one
//! task per selected repository plus one task for the account. Within a
//! repository's task the selected checks run sequentially, in selection
//! order, and a failure aborts only that task's remaining checks; account
//! checks run sequentially and a failure never stops the later ones.
//! Every outcome is recorded, and the run as a whole succeeds exactly
//! when no recorded outcome is a failure.
//!
//! The caller performs the platform I/O between steps: it asks a task for
//! its next check, invokes the check, and records the outcome.

use vstd::prelude::*;

use crate::checks::AccountChecks;
use crate::checks::RepositoryChecks;
use crate::context::CheckCtx;
use crate::context::glob_match;
use crate::report::RepositoryRef;
use crate::report::RunOutcome;
use crate::selection::CheckRunRequest;
use crate::selection::repo_parts;

verus! {

/// The sequential execution of the selected repository checks against one
/// repository. A failure aborts the task's remaining checks; other tasks
/// are unaffected, each owning its own state.
#[derive(Debug)]
pub struct RepoTask {
    /// The repository the checks run against.
    pub repository: RepositoryRef,
    /// The selected repository checks, in selection order.
    pub checks: Vec<RepositoryChecks>,
    /// One recorded outcome per check run so far, in order.
    pub results: Vec<RunOutcome>,
}

impl RepoTask {
    /// At most one outcome per check, and only the last recorded outcome
    /// may be a failure: a failure ends the task.
    pub open spec fn wf(self) -> bool {
        &&& self.results@.len() <= self.checks@.len()
        &&& forall|i: int|
            0 <= i < self.results@.len() - 1 ==> !(#[trigger] self.results@[i]).is_failure()
    }

    /// Whether the task ended in a failure.
    pub open spec fn spec_has_failed(self) -> bool {
        self.results@.len() > 0 && self.results@.last().is_failure()
    }

    /// The next check to run: none once the task failed or every check
    /// has an outcome.
    pub open spec fn spec_next_check(self) -> Option<RepositoryChecks> {
        if self.spec_has_failed() || self.results@.len() == self.checks@.len() {
            None
        } else {
            Some(self.checks@[self.results@.len() as int])
        }
    }

    /// Whether the task has run to completion, by failure or by running
    /// every check.
    pub open spec fn complete(self) -> bool {
        self.spec_next_check() is None
    }

    /// A fresh task for one repository: no outcome recorded yet.
    pub fn new(repository: RepositoryRef, checks: Vec<RepositoryChecks>) -> (r: RepoTask)
        ensures
            r.wf(),
            r.repository == repository,
            r.checks == checks,
            r.results@.len() == 0,
    {
        RepoTask { repository, checks, results: Vec::new() }
    }

    pub fn has_failed(&self) -> (r: bool)
        ensures
            r == self.spec_has_failed(),
    {
        if self.results.len() == 0 {
            false
        } else {
            self.results[self.results.len() - 1].failed()
        }
    }

    /// The next check to run against the repository, if any.
    pub fn next_check(&self) -> (r: Option<RepositoryChecks>)
        requires
            self.wf(),
        ensures
            r == self.spec_next_check(),
    {
        if self.has_failed() || self.results.len() == self.checks.len() {
            None
        } else {
            Some(self.checks[self.results.len()])
        }
    }

    /// Record the outcome of the check last offered by `next_check`.
    pub fn record(&mut self, outcome: RunOutcome)
        requires
            old(self).wf(),
            old(self).spec_next_check() is Some,
        ensures
            final(self).wf(),
            final(self).repository == old(self).repository,
            final(self).checks == old(self).checks,
            final(self).results@ == old(self).results@.push(outcome),
    {
        self.results.push(outcome);
    }
}

/// The sequential execution of the selected account checks. Unlike a
/// repository task, a failure never stops the later checks: account
/// checks are independent singletons.
#[derive(Debug)]
pub struct AccountTask {
    /// The selected account checks, in selection order.
    pub checks: Vec<AccountChecks>,
    /// One recorded outcome per check run so far, in order.
    pub results: Vec<RunOutcome>,
}

impl AccountTask {
    pub open spec fn wf(self) -> bool {
        self.results@.len() <= self.checks@.len()
    }

    /// The next check to run: the first without an outcome, whatever the
    /// earlier outcomes were.
    pub open spec fn spec_next_check(self) -> Option<AccountChecks> {
        if self.results@.len() == self.checks@.len() {
            None
        } else {
            Some(self.checks@[self.results@.len() as int])
        }
    }

    pub open spec fn complete(self) -> bool {
        self.spec_next_check() is None
    }

    /// A fresh task for the account: no outcome recorded yet.
    pub fn new(checks: Vec<AccountChecks>) -> (r: AccountTask)
        ensures
            r.wf(),
            r.checks == checks,
            r.results@.len() == 0,
    {
        AccountTask { checks, results: Vec::new() }
    }

    /// The next check to run against the account, if any.
    pub fn next_check(&self) -> (r: Option<AccountChecks>)
        requires
            self.wf(),
        ensures
            r == self.spec_next_check(),
    {
        if self.results.len() == self.checks.len() {
            None
        } else {
            Some(self.checks[self.results.len()])
        }
    }

    /// Record the outcome of the check last offered by `next_check`. The
    /// new state offers the following check whether or not this outcome
    /// is a failure.
    pub fn record(&mut self, outcome: RunOutcome)
        requires
            old(self).wf(),
            old(self).spec_next_check() is Some,
        ensures
            final(self).wf(),
            final(self).checks == old(self).checks,
            final(self).results@ == old(self).results@.push(outcome),
    {
        self.results.push(outcome);
    }
}

/// The repositories selected by the run's name pattern, in listing order.
pub open spec fn spec_selected_repositories(
    pattern: Seq<char>,
    repositories: Seq<RepositoryRef>,
) -> Seq<RepositoryRef>
    decreases repositories.len(),
{
    if repositories.len() == 0 {
        Seq::<RepositoryRef>::empty()
    } else {
        let rest = spec_selected_repositories(pattern, repositories.drop_first());
        if glob_match(pattern, repositories[0].name@) {
            seq![repositories[0]] + rest
        } else {
            rest
        }
    }
}

/// The repositories of a task list, in order.
pub open spec fn task_repositories(tasks: Seq<RepoTask>) -> Seq<RepositoryRef> {
    tasks.map_values(|t: RepoTask| t.repository)
}

/// Expand the selection and filter the listed repositories into one fresh
/// task per selected repository, in listing order, each carrying the
/// selected repository checks in selection order. A repository whose
/// short name does not match the run's pattern gets no task.
pub fn plan_repository_tasks(
    request: &CheckRunRequest,
    ctx: &CheckCtx,
    repositories: Vec<RepositoryRef>,
) -> (r: Vec<RepoTask>)
    ensures
        task_repositories(r@) == spec_selected_repositories(
            ctx.spec_repository_names(),
            repositories@,
        ),
        forall|k: int|
            0 <= k < r@.len() ==> (#[trigger] r@[k]).checks@ == repo_parts(request.spec_expanded())
                && r@[k].results@.len() == 0 && r@[k].wf(),
{
    let ghost orig = repositories@;
    let ghost pattern = ctx.spec_repository_names();
    let mut remaining = repositories;
    let mut tasks: Vec<RepoTask> = Vec::new();
    proof {
        assert(task_repositories(tasks@) + spec_selected_repositories(pattern, orig)
            =~= spec_selected_repositories(pattern, orig));
    }
    while remaining.len() > 0
        invariant
            pattern == ctx.spec_repository_names(),
            spec_selected_repositories(pattern, orig) == task_repositories(tasks@)
                + spec_selected_repositories(pattern, remaining@),
            forall|k: int|
                0 <= k < tasks@.len() ==> (#[trigger] tasks@[k]).checks@ == repo_parts(
                    request.spec_expanded(),
                ) && tasks@[k].results@.len() == 0 && tasks@[k].wf(),
        decreases remaining@.len(),
    {
        let ghost before = remaining@;
        let ghost tasks_before = tasks@;
        let rep = remaining.remove(0);
        proof {
            assert(rep == before[0]);
            assert(remaining@ =~= before.drop_first());
        }
        if ctx.repository_matches(rep.name.as_str()) {
            let checks = request.repository_checks();
            tasks.push(RepoTask::new(rep, checks));
            proof {
                assert(task_repositories(tasks@) =~= task_repositories(tasks_before).push(rep));
                assert(task_repositories(tasks_before) + (seq![before[0]]
                    + spec_selected_repositories(pattern, before.drop_first())) =~= task_repositories(
                    tasks@,
                ) + spec_selected_repositories(pattern, before.drop_first()));
            }
        }
    }
    proof {
        assert(spec_selected_repositories(pattern, remaining@) =~= Seq::<RepositoryRef>::empty());
        assert(task_repositories(tasks@) + Seq::<RepositoryRef>::empty() =~= task_repositories(
            tasks@,
        ));
    }
    tasks
}

/// Expand the selection into the account task.
pub fn plan_account_task(request: &CheckRunRequest) -> (r: AccountTask)
    ensures
        r.wf(),
        r.checks@ == crate::selection::account_parts(request.spec_expanded()),
        r.results@.len() == 0,
{
    AccountTask::new(request.account_checks())
}

/// Whether every outcome of one task succeeded.
pub open spec fn spec_task_succeeded(results: Seq<RunOutcome>) -> bool {
    forall|i: int| 0 <= i < results.len() ==> !(#[trigger] results[i]).is_failure()
}

fn outcomes_all_ok(v: &Vec<RunOutcome>) -> (r: bool)
    ensures
        r == spec_task_succeeded(v@),
{
    let n = v.len();
    let mut i: usize = 0;
    while i < n
        invariant
            n == v@.len(),
            0 <= i <= n,
            forall|j: int| 0 <= j < i ==> !(#[trigger] v@[j]).is_failure(),
        decreases n - i,
    {
        if v[i].failed() {
            return false;
        }
        i = i + 1;
    }
    true
}

/// Whether the run as a whole succeeded: true exactly when no recorded
/// outcome of any repository task or of the account task is a failure.
/// Findings do not count: a run that only reported insecure settings
/// succeeds.
pub fn run_succeeded(repository_tasks: &Vec<RepoTask>, account: &AccountTask) -> (r: bool)
    ensures
        r == ((forall|i: int|
            0 <= i < repository_tasks@.len() ==> spec_task_succeeded(
                (#[trigger] repository_tasks@[i]).results@,
            )) && spec_task_succeeded(account.results@)),
{
    let n = repository_tasks.len();
    let mut i: usize = 0;
    while i < n
        invariant
            n == repository_tasks@.len(),
            0 <= i <= n,
            forall|j: int|
                0 <= j < i ==> spec_task_succeeded((#[trigger] repository_tasks@[j]).results@),
        decreases n - i,
    {
        if !outcomes_all_ok(&repository_tasks[i].results) {
            return false;
        }
        i = i + 1;
    }
    outcomes_all_ok(&account.results)
}

/// Law: repository tasks are isolated from one another's failures. When
/// every task has run to completion and only the task at `k` failed,
/// every other task attempted and recorded an outcome for each one of its
/// checks.
pub proof fn lemma_failure_leaves_other_tasks_complete(tasks: Seq<RepoTask>, k: int)
    requires
        forall|i: int| 0 <= i < tasks.len() ==> (#[trigger] tasks[i]).wf() && tasks[i].complete(),
        0 <= k < tasks.len(),
        forall|i: int| 0 <= i < tasks.len() && i != k ==> !(#[trigger] tasks[i]).spec_has_failed(),
    ensures
        forall|i: int|
            0 <= i < tasks.len() && i != k ==> (#[trigger] tasks[i]).results@.len()
                == tasks[i].checks@.len(),
{
}

/// Law: within one repository's task, a failure stops the later checks.
/// A failed outcome is always the last one recorded: every earlier check
/// succeeded and got its outcome, and no further check is offered.
pub proof fn lemma_repository_failure_stops_later_checks(t: RepoTask, i: int)
    requires
        t.wf(),
        0 <= i < t.results@.len(),
        t.results@[i].is_failure(),
    ensures
        i == t.results@.len() - 1,
        forall|j: int| 0 <= j < i ==> !(#[trigger] t.results@[j]).is_failure(),
        t.spec_has_failed(),
        t.spec_next_check() is None,
{
}

/// Law: account checks proceed past failures. As long as a check remains,
/// it is offered next, whatever the earlier outcomes — failures included
/// — were.
pub proof fn lemma_account_checks_proceed_past_failure(t: AccountTask)
    requires
        t.wf(),
        t.results@.len() < t.checks@.len(),
    ensures
        t.spec_next_check() == Some(t.checks@[t.results@.len() as int]),
{
}

} // verus!
