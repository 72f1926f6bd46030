//! An opinionated linter for hosted repository security settings.
//!
//! The library models the check selection and execution engine: the named
//! registry of repository- and account-scoped checks, the parser for a
//! user-supplied selection string, the shared execution context, the
//! decision logic of each check, and the orchestration state machines that
//! drive the selected checks against each repository and against the
//! account while isolating failures.

pub mod checks;
pub mod context;
pub mod orchestrator;
pub mod report;
pub mod selection;
pub mod text;
