//! The selection model: turning a user-supplied, comma-separated selection
//! string into a normalized request — run every known check, or run an
//! explicit, de-duplicated list of named checks.
//!
//! Tokens are trimmed of whitespace and matched case-insensitively.
//! A token spelling `all` anywhere makes the whole selection parse to
//! every check, whatever the other tokens are — a deliberately permissive
//! policy; without such a token, any token that names no known check
//! fails the whole parse.

use vstd::prelude::*;

use crate::checks::AccountChecks;
use crate::checks::Checks;
use crate::checks::RepositoryChecks;
use crate::checks::spec_all_account_checks;
use crate::checks::spec_all_repository_checks;
use crate::text::canonical;
use crate::text::canonicalize;
use crate::text::chars_of;
use crate::text::string_from_chars;
use crate::text::token_matches;

verus! {

/// Why a selection string was rejected.
#[derive(Debug, Clone, PartialEq, Eq)]
pub enum ParseError {
    /// The given token names no known check in either domain.
    UnknownCheck(String),
}

/// A normalized request for which checks to run: every known check, or an
/// explicit non-empty list of checks without duplicates.
#[derive(Debug, Clone)]
pub enum CheckRunRequest {
    All,
    Specific(Vec<Checks>),
}

/// The check selected by a canonical token, if any. Account names are
/// consulted before repository names; the two domains share no name.
pub open spec fn spec_check_for(t: Seq<char>) -> Option<Checks> {
    if t == AccountChecks::CodeReviewLimits.spec_name() {
        Some(Checks::Account(AccountChecks::CodeReviewLimits))
    } else if t == RepositoryChecks::DefaultWorkflowPermissions.spec_name() {
        Some(Checks::Repository(RepositoryChecks::DefaultWorkflowPermissions))
    } else if t == RepositoryChecks::ForkPullRequestWorkflows.spec_name() {
        Some(Checks::Repository(RepositoryChecks::ForkPullRequestWorkflows))
    } else if t == RepositoryChecks::RepositorySecrets.spec_name() {
        Some(Checks::Repository(RepositoryChecks::RepositorySecrets))
    } else if t == RepositoryChecks::BranchProtections.spec_name() {
        Some(Checks::Repository(RepositoryChecks::BranchProtections))
    } else {
        None
    }
}

/// Whether a canonical token names a check of either domain.
pub open spec fn known(t: Seq<char>) -> bool {
    spec_check_for(t) is Some
}

/// The check selected by a canonical token, if any.
fn check_for(t: &Vec<char>) -> (r: Option<Checks>)
    ensures
        r == spec_check_for(t@),
{
    if token_matches(t, "code_review_limits") {
        Some(Checks::Account(AccountChecks::CodeReviewLimits))
    } else if token_matches(t, "default_workflow_permissions") {
        Some(Checks::Repository(RepositoryChecks::DefaultWorkflowPermissions))
    } else if token_matches(t, "fork_pull_request_workflows") {
        Some(Checks::Repository(RepositoryChecks::ForkPullRequestWorkflows))
    } else if token_matches(t, "repository_secrets") {
        Some(Checks::Repository(RepositoryChecks::RepositorySecrets))
    } else if token_matches(t, "branch_protections") {
        Some(Checks::Repository(RepositoryChecks::BranchProtections))
    } else {
        None
    }
}

/// The input split at commas, with `cur` the part of the current token
/// read so far. Splitting alone: tokens are not yet canonical.
pub open spec fn raw_tokens(s: Seq<char>, cur: Seq<char>) -> Seq<Seq<char>>
    decreases s.len(),
{
    if s.len() == 0 {
        seq![cur]
    } else if s[0] == ',' {
        seq![cur] + raw_tokens(s.drop_first(), Seq::<char>::empty())
    } else {
        raw_tokens(s.drop_first(), cur.push(s[0]))
    }
}

/// The canonical tokens of a selection string.
pub open spec fn selection_tokens(s: Seq<char>) -> Seq<Seq<char>> {
    raw_tokens(s, Seq::<char>::empty()).map_values(|t: Seq<char>| canonical(t))
}

/// Whether some canonical token spells `all`: such a token, anywhere and
/// whatever the other tokens are, makes the whole selection parse to the
/// run-everything request.
pub open spec fn selection_has_all(ts: Seq<Seq<char>>) -> bool {
    exists|i: int| 0 <= i < ts.len() && (#[trigger] ts[i]) == "all"@
}

/// Whether some canonical token names no known check. Without a token
/// `all`, one such token fails the whole parse.
pub open spec fn selection_has_unknown(ts: Seq<Seq<char>>) -> bool {
    exists|i: int| 0 <= i < ts.len() && !known(#[trigger] ts[i])
}

/// The token reported when the parse fails: the first unknown one.
pub open spec fn selection_first_unknown(ts: Seq<Seq<char>>) -> Seq<char>
    decreases ts.len(),
{
    if ts.len() == 0 {
        Seq::<char>::empty()
    } else if !known(ts[0]) {
        ts[0]
    } else {
        selection_first_unknown(ts.drop_first())
    }
}

/// The checks selected by a run of known tokens, de-duplicated by identity,
/// in order of first occurrence after those already in `acc`.
pub open spec fn selection_checks(ts: Seq<Seq<char>>, acc: Seq<Checks>) -> Seq<Checks>
    decreases ts.len(),
{
    if ts.len() == 0 {
        acc
    } else {
        match spec_check_for(ts[0]) {
            Some(c) => selection_checks(
                ts.drop_first(),
                if acc.contains(c) {
                    acc
                } else {
                    acc.push(c)
                },
            ),
            None => acc,
        }
    }
}

proof fn lemma_skip_step<A>(s: Seq<A>, k: int)
    requires
        0 <= k < s.len(),
    ensures
        s.skip(k).drop_first() == s.skip(k + 1),
        s.skip(k)[0] == s[k],
        s.skip(k).len() == s.len() - k,
{
    assert(s.skip(k).drop_first() =~= s.skip(k + 1));
}

proof fn lemma_raw_tokens_count(s: Seq<char>, cur: Seq<char>)
    ensures
        raw_tokens(s, cur).len() >= 1,
    decreases s.len(),
{
    if s.len() == 0 {
    } else if s[0] == ',' {
    } else {
        lemma_raw_tokens_count(s.drop_first(), cur.push(s[0]));
    }
}

/// The raw tokens of the input, in order.
fn split_tokens(cs: &Vec<char>) -> (r: Vec<Vec<char>>)
    ensures
        r.deep_view() == raw_tokens(cs@, Seq::<char>::empty()),
        r@.len() >= 1,
{
    let mut out: Vec<Vec<char>> = Vec::new();
    let mut cur: Vec<char> = Vec::new();
    let n = cs.len();
    let mut i: usize = 0;
    proof {
        assert(cs@.skip(0) =~= cs@);
        assert(out.deep_view() + raw_tokens(cs@, Seq::<char>::empty()) =~~= raw_tokens(
            cs@,
            Seq::<char>::empty(),
        ));
    }
    while i < n
        invariant
            n == cs@.len(),
            0 <= i <= n,
            raw_tokens(cs@, Seq::<char>::empty()) == out.deep_view() + raw_tokens(
                cs@.skip(i as int),
                cur@,
            ),
        decreases n - i,
    {
        let ghost prev_out = out.deep_view();
        let ghost prev_cur = cur@;
        proof {
            lemma_skip_step(cs@, i as int);
        }
        let c = cs[i];
        if c == ',' {
            out.push(cur);
            cur = Vec::new();
            proof {
                assert(out.deep_view() =~~= prev_out.push(prev_cur));
                assert(raw_tokens(cs@.skip(i as int), prev_cur) == seq![prev_cur] + raw_tokens(
                    cs@.skip(i as int + 1),
                    Seq::<char>::empty(),
                ));
                assert(prev_out + (seq![prev_cur] + raw_tokens(
                    cs@.skip(i as int + 1),
                    Seq::<char>::empty(),
                )) =~~= out.deep_view() + raw_tokens(cs@.skip(i as int + 1), Seq::<char>::empty()));
            }
        } else {
            cur.push(c);
            proof {
                assert(cur@ == prev_cur.push(c));
            }
        }
        i = i + 1;
    }
    proof {
        assert(cs@.skip(n as int).len() == 0);
    }
    let ghost prev_out = out.deep_view();
    let ghost last_cur = cur@;
    out.push(cur);
    proof {
        assert(out.deep_view() =~~= prev_out.push(last_cur));
        assert(prev_out + seq![last_cur] =~~= prev_out.push(last_cur));
    }
    out
}

fn contains_check(v: &Vec<Checks>, c: Checks) -> (r: bool)
    ensures
        r == v@.contains(c),
{
    let n = v.len();
    let mut i: usize = 0;
    while i < n
        invariant
            n == v@.len(),
            0 <= i <= n,
            forall|j: int| 0 <= j < i ==> v@[j] != c,
        decreases n - i,
    {
        if v[i] == c {
            return true;
        }
        i = i + 1;
    }
    false
}

impl CheckRunRequest {
    /// The checks this request expands to: for `All`, every repository
    /// check then every account check, in registry order.
    pub open spec fn spec_expanded(self) -> Seq<Checks> {
        match self {
            CheckRunRequest::All => spec_all_repository_checks().map_values(
                |c: RepositoryChecks| Checks::Repository(c),
            ) + spec_all_account_checks().map_values(|c: AccountChecks| Checks::Account(c)),
            CheckRunRequest::Specific(v) => v@,
        }
    }

    /// Whether running this request involves any repository-scoped check,
    /// and so requires listing the repositories at all.
    pub open spec fn spec_has_repository_checks(self) -> bool {
        match self {
            CheckRunRequest::All => true,
            CheckRunRequest::Specific(v) => has_repository_member(v@),
        }
    }

    pub fn has_repository_checks(&self) -> (r: bool)
        ensures
            r == self.spec_has_repository_checks(),
    {
        match self {
            CheckRunRequest::All => true,
            CheckRunRequest::Specific(v) => any_repository(v),
        }
    }

    /// Parse a selection string.
    ///
    /// Splits on commas, trims whitespace, lower-cases each token. A
    /// token `all` anywhere selects every check, whatever the other
    /// tokens are; otherwise a token that names no known check fails the
    /// whole parse, and the first such token is reported; otherwise the
    /// known tokens yield their checks, de-duplicated by identity in
    /// order of first occurrence. The explicit list is never empty:
    /// empty input is one empty token, which is unknown.
    pub fn parse(s: &str) -> (r: Result<CheckRunRequest, ParseError>)
        ensures
            (r matches Ok(CheckRunRequest::All)) <==> selection_has_all(selection_tokens(s@)),
            (r is Err) <==> (!selection_has_all(selection_tokens(s@)) && selection_has_unknown(
                selection_tokens(s@),
            )),
            r matches Err(ParseError::UnknownCheck(m)) ==> m@ == selection_first_unknown(
                selection_tokens(s@),
            ),
            r matches Ok(CheckRunRequest::Specific(v)) ==> v@ == selection_checks(
                selection_tokens(s@),
                Seq::<Checks>::empty(),
            ) && v@.len() > 0,
    {
        let cs = chars_of(s);
        let toks = split_tokens(&cs);
        let ghost ts = selection_tokens(s@);
        proof {
            assert(ts == toks.deep_view().map_values(|t: Seq<char>| canonical(t)));
            assert(ts.len() == toks.deep_view().len());
        }
        let n = toks.len();
        let mut cts: Vec<Vec<char>> = Vec::new();
        let mut i: usize = 0;
        while i < n
            invariant
                n == toks@.len(),
                ts.len() == n,
                ts == selection_tokens(s@),
                ts == toks.deep_view().map_values(|t: Seq<char>| canonical(t)),
                0 <= i <= n,
                cts@.len() == i,
                forall|j: int| 0 <= j < i ==> (#[trigger] cts@[j])@ == ts[j],
            decreases n - i,
        {
            let nt = canonicalize(&toks[i]);
            proof {
                assert(toks.deep_view()[i as int] =~= toks@[i as int]@);
                assert(ts[i as int] == canonical(toks.deep_view()[i as int]));
            }
            cts.push(nt);
            i = i + 1;
        }
        let mut k: usize = 0;
        while k < n
            invariant
                n == cts@.len(),
                ts.len() == n,
                ts == selection_tokens(s@),
                forall|j: int| 0 <= j < n ==> (#[trigger] cts@[j])@ == ts[j],
                0 <= k <= n,
                forall|j: int| 0 <= j < k ==> (#[trigger] ts[j]) != "all"@,
            decreases n - k,
        {
            if token_matches(&cts[k], "all") {
                proof {
                    assert(ts[k as int] == "all"@);
                }
                return Ok(CheckRunRequest::All);
            }
            k = k + 1;
        }
        let mut sel: Vec<Checks> = Vec::new();
        let mut k2: usize = 0;
        proof {
            assert(ts.skip(0) =~~= ts);
        }
        while k2 < n
            invariant
                n == cts@.len(),
                ts.len() == n,
                ts == selection_tokens(s@),
                forall|j: int| 0 <= j < n ==> (#[trigger] cts@[j])@ == ts[j],
                forall|j: int| 0 <= j < n ==> (#[trigger] ts[j]) != "all"@,
                0 <= k2 <= n,
                forall|j: int| 0 <= j < k2 ==> known(#[trigger] ts[j]),
                selection_first_unknown(ts) == selection_first_unknown(ts.skip(k2 as int)),
                selection_checks(ts, Seq::<Checks>::empty()) == selection_checks(
                    ts.skip(k2 as int),
                    sel@,
                ),
                k2 > 0 ==> sel@.len() > 0,
            decreases n - k2,
        {
            proof {
                lemma_skip_step(ts, k2 as int);
            }
            let found = check_for(&cts[k2]);
            match found {
                Some(c) => {
                    if !contains_check(&sel, c) {
                        sel.push(c);
                    }
                },
                None => {
                    proof {
                        assert(!known(ts[k2 as int]));
                    }
                    return Err(ParseError::UnknownCheck(string_from_chars(&cts[k2])));
                },
            }
            k2 = k2 + 1;
        }
        proof {
            assert(ts.skip(n as int).len() == 0);
            lemma_raw_tokens_count(s@, Seq::<char>::empty());
            assert(ts.len() >= 1);
        }
        Ok(CheckRunRequest::Specific(sel))
    }

    fn copy_checks(v: &Vec<Checks>) -> (r: Vec<Checks>)
        ensures
            r@ == v@,
    {
        let n = v.len();
        let mut r: Vec<Checks> = Vec::new();
        let mut i: usize = 0;
        while i < n
            invariant
                n == v@.len(),
                0 <= i <= n,
                r@ == v@.take(i as int),
            decreases n - i,
        {
            r.push(v[i]);
            proof {
                assert(v@.take(i as int).push(v@[i as int]) =~= v@.take(i as int + 1));
            }
            i = i + 1;
        }
        proof {
            assert(v@.take(n as int) =~= v@);
        }
        r
    }

    /// The checks this request runs, in execution order.
    pub fn expanded(&self) -> (r: Vec<Checks>)
        ensures
            r@ == self.spec_expanded(),
    {
        match self {
            CheckRunRequest::All => {
                let mut r: Vec<Checks> = Vec::new();
                r.push(Checks::Repository(RepositoryChecks::DefaultWorkflowPermissions));
                r.push(Checks::Repository(RepositoryChecks::ForkPullRequestWorkflows));
                r.push(Checks::Repository(RepositoryChecks::RepositorySecrets));
                r.push(Checks::Repository(RepositoryChecks::BranchProtections));
                r.push(Checks::Account(AccountChecks::CodeReviewLimits));
                proof {
                    assert(r@ =~= self.spec_expanded());
                }
                r
            },
            CheckRunRequest::Specific(v) => Self::copy_checks(v),
        }
    }

    /// The checks this request runs, consuming the request.
    pub fn into_checks(self) -> (r: Vec<Checks>)
        ensures
            r@ == self.spec_expanded(),
    {
        match self {
            CheckRunRequest::All => CheckRunRequest::All.expanded(),
            CheckRunRequest::Specific(v) => v,
        }
    }

    /// The repository-scoped checks this request runs, in order.
    pub fn repository_checks(&self) -> (r: Vec<RepositoryChecks>)
        ensures
            r@ == repo_parts(self.spec_expanded()),
    {
        let e = self.expanded();
        let n = e.len();
        let mut r: Vec<RepositoryChecks> = Vec::new();
        let mut i: usize = 0;
        proof {
            assert(e@.skip(0) =~= e@);
            assert(r@ + repo_parts(e@) =~= repo_parts(e@));
        }
        while i < n
            invariant
                n == e@.len(),
                e@ == self.spec_expanded(),
                0 <= i <= n,
                repo_parts(e@) == r@ + repo_parts(e@.skip(i as int)),
            decreases n - i,
        {
            proof {
                lemma_skip_step(e@, i as int);
            }
            let ghost prev = r@;
            match e[i] {
                Checks::Repository(c) => {
                    r.push(c);
                    proof {
                        assert(prev + (seq![c] + repo_parts(e@.skip(i as int + 1))) =~= r@
                            + repo_parts(e@.skip(i as int + 1)));
                    }
                },
                Checks::Account(_) => {},
            }
            i = i + 1;
        }
        proof {
            assert(e@.skip(n as int).len() == 0);
            assert(r@ + repo_parts(e@.skip(n as int)) =~= r@);
        }
        r
    }

    /// The account-scoped checks this request runs, in order.
    pub fn account_checks(&self) -> (r: Vec<AccountChecks>)
        ensures
            r@ == account_parts(self.spec_expanded()),
    {
        let e = self.expanded();
        let n = e.len();
        let mut r: Vec<AccountChecks> = Vec::new();
        let mut i: usize = 0;
        proof {
            assert(e@.skip(0) =~= e@);
            assert(r@ + account_parts(e@) =~= account_parts(e@));
        }
        while i < n
            invariant
                n == e@.len(),
                e@ == self.spec_expanded(),
                0 <= i <= n,
                account_parts(e@) == r@ + account_parts(e@.skip(i as int)),
            decreases n - i,
        {
            proof {
                lemma_skip_step(e@, i as int);
            }
            let ghost prev = r@;
            match e[i] {
                Checks::Account(c) => {
                    r.push(c);
                    proof {
                        assert(prev + (seq![c] + account_parts(e@.skip(i as int + 1))) =~= r@
                            + account_parts(e@.skip(i as int + 1)));
                    }
                },
                Checks::Repository(_) => {},
            }
            i = i + 1;
        }
        proof {
            assert(e@.skip(n as int).len() == 0);
            assert(r@ + account_parts(e@.skip(n as int)) =~= r@);
        }
        r
    }
}

/// Whether a check list holds at least one repository-scoped check.
pub open spec fn has_repository_member(s: Seq<Checks>) -> bool {
    exists|i: int| 0 <= i < s.len() && (#[trigger] s[i]) is Repository
}

fn any_repository(v: &Vec<Checks>) -> (r: bool)
    ensures
        r == has_repository_member(v@),
{
    let n = v.len();
    let mut i: usize = 0;
    while i < n
        invariant
            n == v@.len(),
            0 <= i <= n,
            forall|j: int| 0 <= j < i ==> !((#[trigger] v@[j]) is Repository),
        decreases n - i,
    {
        if matches!(v[i], Checks::Repository(_)) {
            proof {
                assert((v@[i as int]) is Repository);
            }
            return true;
        }
        i = i + 1;
    }
    false
}

/// The repository-scoped members of a check list, in order.
pub open spec fn repo_parts(s: Seq<Checks>) -> Seq<RepositoryChecks>
    decreases s.len(),
{
    if s.len() == 0 {
        Seq::<RepositoryChecks>::empty()
    } else {
        match s[0] {
            Checks::Repository(c) => seq![c] + repo_parts(s.drop_first()),
            Checks::Account(_) => repo_parts(s.drop_first()),
        }
    }
}

/// The account-scoped members of a check list, in order.
pub open spec fn account_parts(s: Seq<Checks>) -> Seq<AccountChecks>
    decreases s.len(),
{
    if s.len() == 0 {
        Seq::<AccountChecks>::empty()
    } else {
        match s[0] {
            Checks::Account(c) => seq![c] + account_parts(s.drop_first()),
            Checks::Repository(_) => account_parts(s.drop_first()),
        }
    }
}


/// No two distinct members of a check list.
pub open spec fn distinct_checks(s: Seq<Checks>) -> bool {
    forall|i: int, j: int| 0 <= i < j < s.len() ==> s[i] != s[j]
}

/// Every token of the list names a known check.
pub open spec fn all_known(ts: Seq<Seq<char>>) -> bool {
    forall|i: int| 0 <= i < ts.len() ==> known(#[trigger] ts[i])
}

/// Whether some token of the list names the check `c`.
pub open spec fn selects(ts: Seq<Seq<char>>, c: Checks) -> bool {
    exists|i: int| 0 <= i < ts.len() && spec_check_for(#[trigger] ts[i]) == Some(c)
}

/// The token `all` is reserved: it names no check of either domain.
pub proof fn lemma_all_is_not_a_check()
    ensures
        !known("all"@),
{
    reveal_strlit("all");
    reveal_strlit("code_review_limits");
    reveal_strlit("default_workflow_permissions");
    reveal_strlit("fork_pull_request_workflows");
    reveal_strlit("repository_secrets");
    reveal_strlit("branch_protections");
    assert("all"@.len() != "code_review_limits"@.len());
    assert("all"@.len() != "default_workflow_permissions"@.len());
    assert("all"@.len() != "fork_pull_request_workflows"@.len());
    assert("all"@.len() != "repository_secrets"@.len());
    assert("all"@.len() != "branch_protections"@.len());
}

/// Law: a token `all` at any position — mixed with any other tokens,
/// valid or not — makes the whole selection parse to every check, and
/// never to an error.
pub proof fn lemma_all_token_wins(ts: Seq<Seq<char>>, i: int)
    requires
        0 <= i < ts.len(),
        ts[i] == "all"@,
    ensures
        selection_has_all(ts),
        !(!selection_has_all(ts) && selection_has_unknown(ts)),
{
}

proof fn lemma_selection_checks_general(ts: Seq<Seq<char>>, acc: Seq<Checks>)
    requires
        all_known(ts),
    ensures
        forall|c: Checks| #[trigger] selection_checks(ts, acc).contains(c) <==> acc.contains(c)
            || selects(ts, c),
        distinct_checks(acc) ==> distinct_checks(selection_checks(ts, acc)),
    decreases ts.len(),
{
    if ts.len() == 0 {
        assert forall|c: Checks| #[trigger] selection_checks(ts, acc).contains(c) implies acc.contains(c) || selects(ts, c) by {}
    } else {
        assert(known(ts[0]));
        let cc = match spec_check_for(ts[0]) {
            Some(x) => x,
            None => Checks::Account(AccountChecks::CodeReviewLimits),
        };
        let acc2 = if acc.contains(cc) {
            acc
        } else {
            acc.push(cc)
        };
        let rest = ts.drop_first();
        assert forall|i: int| 0 <= i < rest.len() implies known(#[trigger] rest[i]) by {
            assert(rest[i] == ts[i + 1]);
        }
        lemma_selection_checks_general(rest, acc2);
        assert(selection_checks(ts, acc) == selection_checks(rest, acc2));
        assert forall|c: Checks| acc2.contains(c) <==> acc.contains(c) || c == cc by {
            if acc2.contains(c) && acc2 != acc {
                let k = choose|k: int| 0 <= k < acc2.len() && acc2[k] == c;
                if k < acc.len() {
                    assert(acc[k] == c);
                } else {
                    assert(c == cc);
                }
            }
            if acc.contains(c) && acc2 != acc {
                let k = choose|k: int| 0 <= k < acc.len() && acc[k] == c;
                assert(acc2[k] == c);
            }
            if c == cc && acc2 != acc {
                assert(acc2[acc.len() as int] == cc);
            }
        }
        assert forall|c: Checks| selects(ts, c) <==> c == cc || selects(rest, c) by {
            if selects(ts, c) {
                let k = choose|k: int| 0 <= k < ts.len() && spec_check_for(#[trigger] ts[k])
                    == Some(c);
                if k == 0 {
                    assert(c == cc);
                } else {
                    assert(rest[k - 1] == ts[k]);
                    assert(selects(rest, c));
                }
            }
            if c == cc {
                assert(spec_check_for(ts[0]) == Some(c));
                assert(selects(ts, c));
            }
            if selects(rest, c) {
                let k = choose|k: int| 0 <= k < rest.len() && spec_check_for(#[trigger] rest[k])
                    == Some(c);
                assert(ts[k + 1] == rest[k]);
                assert(selects(ts, c));
            }
        }
        if distinct_checks(acc) {
            assert forall|i: int, j: int| 0 <= i < j < acc2.len() implies acc2[i] != acc2[j] by {
                if acc2 != acc {
                    if j < acc.len() {
                    } else {
                        assert(acc2[j] == cc);
                        assert(acc2[i] == acc[i]);
                        assert(!acc.contains(cc));
                        assert(acc[i] != cc);
                    }
                }
            }
        }
    }
}

/// Law: a selection made only of known check names parses to exactly the
/// set of those checks, without duplicates — never to the run-everything
/// request and never to an error.
pub proof fn lemma_known_names_select_exact_set(ts: Seq<Seq<char>>)
    requires
        all_known(ts),
    ensures
        !selection_has_all(ts),
        !selection_has_unknown(ts),
        forall|c: Checks| #[trigger] selection_checks(ts, Seq::<Checks>::empty()).contains(c)
            <==> selects(ts, c),
        distinct_checks(selection_checks(ts, Seq::<Checks>::empty())),
{
    lemma_all_is_not_a_check();
    assert forall|i: int| 0 <= i < ts.len() implies (#[trigger] ts[i]) != "all"@ by {
        assert(known(ts[i]));
    }
    lemma_selection_checks_general(ts, Seq::<Checks>::empty());
    assert(forall|c: Checks| !Seq::<Checks>::empty().contains(c));
}

/// Law: two selections of known names that mention the same checks — in
/// any order, with any repetition — parse to the same set of checks.
pub proof fn lemma_selection_order_independent(ts1: Seq<Seq<char>>, ts2: Seq<Seq<char>>)
    requires
        all_known(ts1),
        all_known(ts2),
        forall|c: Checks| #[trigger] selects(ts1, c) <==> selects(ts2, c),
    ensures
        forall|c: Checks| #[trigger] selection_checks(ts1, Seq::<Checks>::empty()).contains(c)
            <==> selection_checks(ts2, Seq::<Checks>::empty()).contains(c),
{
    lemma_selection_checks_general(ts1, Seq::<Checks>::empty());
    lemma_selection_checks_general(ts2, Seq::<Checks>::empty());
}

/// Law: a token that names no known check fails the whole parse — there
/// is no partial success — unless a token `all` stands anywhere in the
/// selection, which wins instead; and the first unknown token is the one
/// reported.
pub proof fn lemma_unknown_token_fails(ts: Seq<Seq<char>>, i: int)
    requires
        0 <= i < ts.len(),
        !known(ts[i]),
        forall|j: int| 0 <= j < ts.len() ==> (#[trigger] ts[j]) != "all"@,
        forall|j: int| 0 <= j < i ==> known(#[trigger] ts[j]),
    ensures
        !selection_has_all(ts),
        selection_has_unknown(ts),
        selection_first_unknown(ts) == ts[i],
    decreases i,
{
    if i == 0 {
    } else {
        let rest = ts.drop_first();
        assert forall|j: int| 0 <= j < rest.len() implies (#[trigger] rest[j]) != "all"@ by {
            assert(rest[j] == ts[j + 1]);
        }
        assert forall|j: int| 0 <= j < i - 1 implies known(#[trigger] rest[j]) by {
            assert(rest[j] == ts[j + 1]);
        }
        assert(rest[i - 1] == ts[i]);
        lemma_unknown_token_fails(rest, i - 1);
    }
}

impl Default for CheckRunRequest {
    /// When the user supplies nothing, every check runs.
    fn default() -> (r: Self)
        ensures
            r == CheckRunRequest::All,
    {
        CheckRunRequest::All
    }
}

} // verus!
