//! The `code_review_limits` check reminds the operator to review the
//! account's code review limits setting.
//!
//! The platform exposes no API for it, so the check reports a reminder
//! and succeeds: a check without a remediation path must not error for
//! that reason, and it performs no write even in fix mode.

use vstd::prelude::*;

use crate::report::Finding;

verus! {

/// The `code_review_limits` check.
#[derive(Default, Debug, Clone, Copy)]
pub struct CodeReviewLimits;

impl CodeReviewLimits {
    /// The account reminder: exactly one finding, always a success, and
    /// never a write.
    pub fn evaluate() -> (r: Vec<Finding>)
        ensures
            r@ == seq![Finding::CodeReviewLimitsReminder],
    {
        let mut v: Vec<Finding> = Vec::new();
        v.push(Finding::CodeReviewLimitsReminder);
        proof {
            assert(v@ =~= seq![Finding::CodeReviewLimitsReminder]);
        }
        v
    }
}

} // verus!
