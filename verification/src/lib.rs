//! Disposable git worktrees bound to branches: provisioning plans for new
//! worktrees, prune-eligibility decisions, safe-prune planning, and the
//! plain-text reporting for all of them.
//!
//! The decision logic is verified; the surrounding process (version-control
//! storage, filesystem, shell spawning) supplies plain facts and carries out
//! the planned actions.

pub mod cli;
pub mod config;
pub mod create;
pub mod filter;
pub mod prune;
