//! Plain-text reporting for prune decisions and outcomes.
//!
//! Every processed worktree yields exactly one status line; the functions
//! here build the text of those lines from plain decision values, so the
//! decision logic itself never touches output. Colour and console handling
//! stay with the surrounding process.

use vstd::prelude::*;
use vstd::string::*;

use crate::prune::eligibility::{PruneEligibility, PruneReason};

verus! {

/// The identifying text of a decision: its worktree, and its branch when
/// one was resolved.
pub open spec fn spec_worktree_info(e: PruneEligibility) -> Seq<char> {
    match e.branch {
        Some(b) => "worktree "@ + e.worktree_name@ + " and branch "@ + b.branch_name@,
        None => "worktree "@ + e.worktree_name@,
    }
}

/// The human-readable text of a block reason; empty when there is none.
pub open spec fn spec_prune_reason_text(reason: Option<PruneReason>) -> Seq<char> {
    match reason {
        Some(PruneReason::DirtyWorktree) => "Worktree has uncommitted changes."@,
        Some(PruneReason::UnpushedCommits) => "Branch has unpushed commits."@,
        None => ""@,
    }
}

/// Name the worktree a decision is about, and its branch when one was
/// resolved.
pub fn get_worktree_info(eligibility: &PruneEligibility) -> (r: String)
    ensures
        r@ == spec_worktree_info(*eligibility),
{
    let mut line = String::from_str("worktree ");
    line.append(eligibility.worktree_name.as_str());
    match &eligibility.branch {
        Some(b) => {
            line.append(" and branch ");
            line.append(b.branch_name.as_str());
        },
        None => {},
    }
    line
}

/// Spell a block reason out for the status line.
pub fn prune_reason_to_string(reason: &Option<PruneReason>) -> (r: String)
    ensures
        r@ == spec_prune_reason_text(*reason),
{
    match reason {
        Some(PruneReason::DirtyWorktree) => String::from_str("Worktree has uncommitted changes."),
        Some(PruneReason::UnpushedCommits) => String::from_str("Branch has unpushed commits."),
        None => String::from_str(""),
    }
}

/// The status line for a blocked worktree.
pub fn blocked_line(eligibility: &PruneEligibility) -> (r: String)
    ensures
        r@ == "Failed to prune "@ + spec_worktree_info(*eligibility) + " - "@
            + spec_prune_reason_text(eligibility.reason),
{
    let mut line = String::from_str("Failed to prune ");
    line.append(get_worktree_info(eligibility).as_str());
    line.append(" - ");
    line.append(prune_reason_to_string(&eligibility.reason).as_str());
    line
}

/// The status line a dry run prints in place of a deletion.
pub fn dry_run_line(eligibility: &PruneEligibility) -> (r: String)
    ensures
        r@ == "Would prune "@ + spec_worktree_info(*eligibility),
{
    let mut line = String::from_str("Would prune ");
    line.append(get_worktree_info(eligibility).as_str());
    line
}

/// The status line for a completed deletion.
pub fn pruned_line(eligibility: &PruneEligibility) -> (r: String)
    ensures
        r@ == "Pruned "@ + spec_worktree_info(*eligibility),
{
    let mut line = String::from_str("Pruned ");
    line.append(get_worktree_info(eligibility).as_str());
    line
}

} // verus!
