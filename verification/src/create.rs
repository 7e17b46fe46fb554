//! Provisioning a worktree: resolving or creating its branch, planning the
//! directory it lives in, and keeping the ignore rule for that directory
//! idempotent.

pub mod branch;
pub mod config;
pub mod worktree;
