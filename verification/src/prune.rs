//! Pruning disposable worktrees: per-worktree eligibility decisions, the
//! plan for acting on each decision, and the reporting text for both.

pub mod eligibility;
pub mod log;
pub mod safe_prune;
