//! Per-invocation configuration: the commands the tool accepts and the
//! policy flags each of them carries. The interactive front end builds these
//! values; everything the decision logic does is a function of them.

use vstd::prelude::*;

verus! {

/// Policy for one prune invocation: immutable while the invocation runs.
pub struct PruneOptions {
    /// Report what would be deleted without deleting anything.
    pub dry_run: bool,
    /// Delete worktrees even if they are dirty or their branch is unpushed.
    pub force: bool,
    /// Also consider and delete the branch checked out in each worktree.
    pub include_branch: bool,
    /// Optional regular expression; only worktrees whose name matches are
    /// considered.
    pub filter: Option<String>,
}

/// Request to open or create one worktree.
pub struct WorktreeOptions {
    /// Name of the branch and worktree to open or create.
    pub name: String,
    /// Optional remote branch to track when a branch is created.
    pub track: Option<String>,
    /// Fail instead of creating a branch that does not exist yet.
    pub no_create: bool,
}

/// Keys of the tool's persisted configuration.
#[derive(Clone, Copy, PartialEq, Eq, Structural)]
pub enum ConfigKey {
    /// Base directory under which worktrees are created; defaults to a
    /// `.worktree` directory inside the repository.
    BasePath,
}

/// A parsed command line: exactly one command per invocation.
pub struct Cli {
    pub command: Commands,
}

/// The commands the tool accepts.
pub enum Commands {
    /// Create the worktree if needed and open a shell inside it.
    Go(WorktreeOptions),
    /// Create the worktree and branch if needed and report its path.
    Create(WorktreeOptions),
    /// Remove worktrees that are safe to delete.
    Prune(PruneOptions),
    /// Read or change persisted configuration.
    Config { action: ConfigAction },
    /// Replace the running binary with the latest release.
    SelfUpdate,
}

/// Actions on the persisted configuration store.
pub enum ConfigAction {
    /// Set a configuration value, locally or globally.
    SetValue { key: ConfigKey, value: String, global: bool },
    /// Remove a configuration value, locally or globally.
    Unset { key: ConfigKey, global: bool },
    /// List every configuration entry of the tool.
    GetAll,
}

} // verus!
