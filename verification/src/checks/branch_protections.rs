//! The `branch_protections` check inspects the protection configured on a
//! repository's default branch.
//!
//! Due to limitations in the platform's API, only the default branch is
//! checked. The platform reports a missing protection as a named error
//! with the message `Branch not protected`, and a plan tier without the
//! feature with a message naming the required upgrade: both are
//! well-defined conditions the check classifies as findings, not
//! failures. No remediation path exists yet, so fix mode performs no
//! write.

use vstd::prelude::*;

use crate::report::CheckError;
use crate::report::Finding;
use crate::report::RepositoryRef;
use crate::text::contains_str;
use crate::text::has_substring;
use crate::text::str_eq;

verus! {

/// The protection settings of one branch, as far as this check reads
/// them.
#[derive(Debug, Clone, PartialEq, Eq)]
pub struct BranchProtection {
    /// The contexts of the required status checks, or nothing when no
    /// required status checks are configured.
    pub required_status_check_contexts: Option<Vec<String>>,
    /// Whether the protection binds administrators too.
    pub enforce_admins: bool,
    /// Whether the protection requires pull request reviews.
    pub requires_pull_request_reviews: bool,
    /// Whether force pushes are allowed.
    pub allow_force_pushes: bool,
    /// Whether deletions are allowed.
    pub allow_deletions: bool,
}

/// What the platform answered when the protection was looked up.
#[derive(Debug, Clone, PartialEq, Eq)]
pub enum ProtectionLookup {
    /// The branch is protected, with these settings.
    Protected(BranchProtection),
    /// The platform refused with a named error carrying this message.
    Refused(String),
    /// The lookup failed in transport or another unexpected way.
    Failed(String),
}

/// Where the check is to look, when the repository record allows it.
#[derive(Debug, Clone, PartialEq, Eq)]
pub enum ProtectionTarget {
    /// The record names no default branch: the check skips with a
    /// warning, reading nothing.
    NoDefaultBranch,
    /// Look up the protection of this (full name, branch) pair.
    Query(String, String),
}

/// The `branch_protections` check.
#[derive(Default, Debug, Clone, Copy)]
pub struct BranchProtections;

impl BranchProtections {
    /// Where to look for this repository: a query for the repository's
    /// (full name, default branch) whenever the record names both, a skip
    /// when no default branch is named, and a failure if and only if a
    /// default branch is named but the full name is missing.
    pub fn target(repository: &RepositoryRef) -> (r: Result<ProtectionTarget, CheckError>)
        ensures
            repository.default_branch is None ==> r matches Ok(ProtectionTarget::NoDefaultBranch),
            (r is Err) <==> (repository.default_branch is Some && repository.full_name is None),
            r matches Err(e) ==> e == CheckError::MissingFullName,
            repository.default_branch is Some && repository.full_name is Some ==> (r matches Ok(
                ProtectionTarget::Query(f, b),
            ) && (repository.full_name matches Some(fo) && f@ == fo@) && (
            repository.default_branch matches Some(bo) && b@ == bo@)),
    {
        match &repository.default_branch {
            Some(branch) => match repository.require_full_name() {
                Ok(full_name) => Ok(ProtectionTarget::Query(full_name.clone(), branch.clone())),
                Err(e) => Err(e),
            },
            None => Ok(ProtectionTarget::NoDefaultBranch),
        }
    }

    /// The finding reported when the repository names no default branch.
    pub fn missing_default_branch() -> (r: Vec<Finding>)
        ensures
            r@ == seq![Finding::MissingDefaultBranch],
    {
        let mut v: Vec<Finding> = Vec::new();
        v.push(Finding::MissingDefaultBranch);
        proof {
            assert(v@ =~= seq![Finding::MissingDefaultBranch]);
        }
        v
    }

    /// The findings reported for a protected branch.
    pub open spec fn spec_protected_findings(p: BranchProtection, fix: bool) -> Seq<Finding> {
        (match p.required_status_check_contexts {
            Some(contexts) => if contexts@.len() == 0 {
                seq![Finding::NoRequiredStatusCheckContexts]
            } else {
                Seq::<Finding>::empty()
            },
            None => seq![Finding::NoRequiredStatusChecks],
        }) + (if !p.enforce_admins {
            seq![Finding::ProtectionNotEnforcedForAdmins]
        } else {
            Seq::<Finding>::empty()
        }) + (if !p.requires_pull_request_reviews {
            seq![Finding::ProtectionDoesNotRequirePullRequests]
        } else {
            Seq::<Finding>::empty()
        }) + (if p.allow_force_pushes {
            seq![Finding::ProtectionAllowsForcePushes]
        } else {
            Seq::<Finding>::empty()
        }) + (if p.allow_deletions {
            seq![Finding::ProtectionAllowsDeletions]
        } else {
            Seq::<Finding>::empty()
        }) + (if fix {
            seq![Finding::NothingToFixBranchProtections]
        } else {
            Seq::<Finding>::empty()
        })
    }

    /// Classify the platform's answer and decide the findings.
    ///
    /// A protected branch yields a finding per insecure setting. A named
    /// refusal with the message `Branch not protected` is a warning
    /// carrying the repository full name; one whose message names the
    /// required plan upgrade is an informational skip; any other refusal
    /// or failure is this check's error, carrying the message.
    pub fn evaluate(full_name: String, lookup: ProtectionLookup, fix: bool) -> (r: Result<
        Vec<Finding>,
        CheckError,
    >)
        ensures
            lookup matches ProtectionLookup::Protected(p) ==> (r matches Ok(v) && v@
                == Self::spec_protected_findings(p, fix)),
            lookup matches ProtectionLookup::Refused(m) ==> (if m@ == "Branch not protected"@ {
                r matches Ok(v) && v@ == seq![Finding::MissingBranchProtection(full_name)] + (
                if fix {
                    seq![Finding::NothingToFixBranchProtections]
                } else {
                    Seq::<Finding>::empty()
                })
            } else if has_substring(m@, "Upgrade to GitHub Pro"@) {
                r matches Ok(v) && v@ == seq![Finding::ProtectionNotAvailable]
            } else {
                r == Err::<Vec<Finding>, CheckError>(CheckError::Platform(m))
            }),
            lookup matches ProtectionLookup::Failed(m) ==> r == Err::<Vec<Finding>, CheckError>(
                CheckError::Platform(m),
            ),
    {
        match lookup {
            ProtectionLookup::Protected(p) => {
                let mut v: Vec<Finding> = Vec::new();
                match &p.required_status_check_contexts {
                    Some(contexts) => {
                        if contexts.len() == 0 {
                            v.push(Finding::NoRequiredStatusCheckContexts);
                        }
                    },
                    None => {
                        v.push(Finding::NoRequiredStatusChecks);
                    },
                }
                if !p.enforce_admins {
                    v.push(Finding::ProtectionNotEnforcedForAdmins);
                }
                if !p.requires_pull_request_reviews {
                    v.push(Finding::ProtectionDoesNotRequirePullRequests);
                }
                if p.allow_force_pushes {
                    v.push(Finding::ProtectionAllowsForcePushes);
                }
                if p.allow_deletions {
                    v.push(Finding::ProtectionAllowsDeletions);
                }
                if fix {
                    v.push(Finding::NothingToFixBranchProtections);
                }
                proof {
                    assert(v@ =~= Self::spec_protected_findings(p, fix));
                }
                Ok(v)
            },
            ProtectionLookup::Refused(m) => {
                if str_eq(m.as_str(), "Branch not protected") {
                    let mut v: Vec<Finding> = Vec::new();
                    v.push(Finding::MissingBranchProtection(full_name));
                    if fix {
                        v.push(Finding::NothingToFixBranchProtections);
                    }
                    proof {
                        assert(v@ =~= seq![Finding::MissingBranchProtection(full_name)] + (if fix {
                            seq![Finding::NothingToFixBranchProtections]
                        } else {
                            Seq::<Finding>::empty()
                        }));
                    }
                    Ok(v)
                } else if contains_str(m.as_str(), "Upgrade to GitHub Pro") {
                    let mut v: Vec<Finding> = Vec::new();
                    v.push(Finding::ProtectionNotAvailable);
                    proof {
                        assert(v@ =~= seq![Finding::ProtectionNotAvailable]);
                    }
                    Ok(v)
                } else {
                    Err(CheckError::Platform(m))
                }
            },
            ProtectionLookup::Failed(m) => Err(CheckError::Platform(m)),
        }
    }
}

} // verus!
