//! The execution context: the immutable, shared bundle of run-time
//! configuration handed by reference to every check invocation.
//!
//! All fallible setup happens before the context exists — an ill-formed
//! repository name pattern is rejected at construction — so no operation
//! on a built context can fail.

use vstd::prelude::*;

verus! {

/// Whether a string is a well-formed glob pattern, as `glob::Pattern::new`
/// decides it from the pattern string alone.
pub uninterp spec fn glob_valid(pattern: Seq<char>) -> bool;

/// Whether a name matches a well-formed glob pattern, as
/// `glob::Pattern::matches` decides it from the two strings alone.
pub uninterp spec fn glob_match(pattern: Seq<char>, name: Seq<char>) -> bool;

/// Relies on `glob::Pattern::new`: it compiles the pattern string alone,
/// and an invalid pattern is the only error.
#[verifier::external_body]
fn glob_pattern_is_valid(pattern: &str) -> (r: bool)
    ensures
        r == glob_valid(pattern@),
{
    glob::Pattern::new(pattern).is_ok()
}

/// Relies on `glob::Pattern::new` and `glob::Pattern::matches`: compiling
/// a well-formed pattern and matching a name against it depends on the two
/// strings alone.
#[verifier::external_body]
fn glob_pattern_matches(pattern: &str, name: &str) -> (r: bool)
    requires
        glob_valid(pattern@),
    ensures
        r == glob_match(pattern@, name@),
{
    match glob::Pattern::new(pattern) {
        Ok(p) => p.matches(name),
        Err(_) => false,
    }
}

/// Why a context could not be built.
#[derive(Debug, Clone, Copy, PartialEq, Eq, Structural)]
pub enum ContextError {
    /// The repository name filter is not a well-formed glob pattern.
    InvalidRepositoryPattern,
}

/// The read-only configuration shared by every check invocation for the
/// run's duration: the fix flag, the repository name filter, and the
/// pattern of secret names that deserve a warning. No operation on it
/// mutates it or fails.
#[derive(Debug)]
pub struct CheckCtx {
    fix: bool,
    repository_names: String,
    repository_secrets_warn_secret_names: String,
}

impl CheckCtx {
    #[verifier::type_invariant]
    spec fn inv(self) -> bool {
        glob_valid(self.repository_names@)
    }

    /// Whether checks may perform remediating writes.
    pub closed spec fn spec_fix(self) -> bool {
        self.fix
    }

    /// The glob pattern that filters repositories by short name.
    pub closed spec fn spec_repository_names(self) -> Seq<char> {
        self.repository_names@
    }

    /// The pattern of secret names that deserve a warning.
    pub closed spec fn spec_warn_secret_names(self) -> Seq<char> {
        self.repository_secrets_warn_secret_names@
    }

    /// Build the context. The one fallible step of a run's setup inside
    /// this engine: a repository name filter that is not a well-formed
    /// glob pattern is rejected here, and only here.
    pub fn new(fix: bool, repository_names: String, repository_secrets_warn_secret_names: String) -> (r:
        Result<CheckCtx, ContextError>)
        ensures
            (r is Ok) <==> glob_valid(repository_names@),
            (r is Err) ==> r matches Err(ContextError::InvalidRepositoryPattern),
            r matches Ok(c) ==> c.spec_fix() == fix && c.spec_repository_names()
                == repository_names@ && c.spec_warn_secret_names()
                == repository_secrets_warn_secret_names@,
    {
        if glob_pattern_is_valid(repository_names.as_str()) {
            Ok(
                CheckCtx {
                    fix,
                    repository_names,
                    repository_secrets_warn_secret_names,
                },
            )
        } else {
            Err(ContextError::InvalidRepositoryPattern)
        }
    }

    pub fn fix(&self) -> (r: bool)
        ensures
            r == self.spec_fix(),
    {
        self.fix
    }

    pub fn repository_names(&self) -> (r: &String)
        ensures
            r@ == self.spec_repository_names(),
    {
        &self.repository_names
    }

    pub fn warn_secret_names(&self) -> (r: &String)
        ensures
            r@ == self.spec_warn_secret_names(),
    {
        &self.repository_secrets_warn_secret_names
    }

    /// Whether a repository with this short name is selected by the run's
    /// name filter. Never fails: the pattern was validated when the
    /// context was built.
    pub fn repository_matches(&self, name: &str) -> (r: bool)
        ensures
            r == glob_match(self.spec_repository_names(), name@),
    {
        proof {
            use_type_invariant(&*self);
        }
        glob_pattern_matches(self.repository_names.as_str(), name)
    }
}

} // verus!
