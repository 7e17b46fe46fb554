//! Acting on a prune decision.
//!
//! Each decision maps to exactly one action: report the block, report what
//! a dry run would delete, or delete. The surrounding process carries the
//! deletion out; failure of one worktree's action never blocks the others.

use vstd::prelude::*;

use crate::cli::PruneOptions;
use crate::prune::eligibility::PruneEligibility;

verus! {

/// What to do with one decided worktree.
#[derive(Clone, Copy, PartialEq, Eq, Structural, Debug)]
pub enum PruneAction {
    /// Report that the worktree is blocked; delete nothing.
    ReportBlocked,
    /// Report that the worktree would be deleted; delete nothing.
    ReportDryRun,
    /// Delete the worktree, and its associated branch if one was resolved.
    Delete,
}

/// The action for a decision: blocked decisions are only reported (unless
/// forced), a dry run only announces the deletion, everything else deletes.
pub open spec fn spec_prune_action(can_prune: bool, options: PruneOptions) -> PruneAction {
    if !can_prune && !options.force {
        PruneAction::ReportBlocked
    } else if options.dry_run {
        PruneAction::ReportDryRun
    } else {
        PruneAction::Delete
    }
}

/// Plan the action for one decided worktree.
pub fn safe_prune_worktree(eligibility: &PruneEligibility, options: &PruneOptions) -> (a:
    PruneAction)
    ensures
        a == spec_prune_action(eligibility.can_prune, *options),
{
    if !eligibility.can_prune && !options.force {
        PruneAction::ReportBlocked
    } else if options.dry_run {
        PruneAction::ReportDryRun
    } else {
        PruneAction::Delete
    }
}

/// A dry run never plans a deletion, whatever the decision and the other
/// flags: worktree and branch state stay untouched.
pub proof fn lemma_dry_run_never_deletes(can_prune: bool, options: PruneOptions)
    requires
        options.dry_run,
    ensures
        spec_prune_action(can_prune, options) != PruneAction::Delete,
{
}

} // verus!
