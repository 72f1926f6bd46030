//! The `repository_secrets` check lists the names of the secrets defined
//! in a repository.
//!
//! Secrets often represent credentials and are a high-value target, so
//! knowing which repositories hold them is worthwhile in itself. The
//! check only reports names; it has no remediation path, so even in fix
//! mode it performs no write.

use vstd::prelude::*;

use crate::report::Finding;

verus! {

/// The `repository_secrets` check.
#[derive(Default, Debug, Clone, Copy)]
pub struct RepositorySecrets;

impl RepositorySecrets {
    /// The findings for a fetched list of secret names: one per secret,
    /// in listing order, and — in fix mode, when any secret exists — a
    /// note that no remediation path exists.
    pub fn evaluate(secret_names: Vec<String>, fix: bool) -> (r: Vec<Finding>)
        ensures
            r@.len() == secret_names@.len() + (if fix && secret_names@.len() > 0 {
                1int
            } else {
                0int
            }),
            forall|i: int|
                0 <= i < secret_names@.len() ==> r@[i] == Finding::FoundSecret(secret_names@[i]),
            fix && secret_names@.len() > 0 ==> r@.last() == Finding::NothingToFixSecrets,
    {
        let ghost orig = secret_names@;
        let had_secrets = secret_names.len() > 0;
        let mut names = secret_names;
        let mut r: Vec<Finding> = Vec::new();
        while names.len() > 0
            invariant
                r@.len() + names@.len() == orig.len(),
                names@ == orig.skip(r@.len() as int),
                forall|i: int| 0 <= i < r@.len() ==> r@[i] == Finding::FoundSecret(orig[i]),
            decreases names@.len(),
        {
            let ghost k = r@.len() as int;
            let name = names.remove(0);
            proof {
                assert(name == orig[k]);
                assert(names@ =~= orig.skip(k + 1));
            }
            r.push(Finding::FoundSecret(name));
        }
        if fix && had_secrets {
            r.push(Finding::NothingToFixSecrets);
        }
        r
    }
}

} // verus!
