//! Prune-eligibility decisions.
//!
//! For each worktree the surrounding process gathers plain facts (is the
//! working tree dirty, which branch is checked out, how the branch relates
//! to its upstream) and the functions here decide whether the worktree may
//! be deleted, with a reason when it may not. The dirty-worktree check
//! always precedes and short-circuits the unpushed-commits check, and a
//! branch with no upstream is conservatively treated as unpushed.

use vstd::prelude::*;

use crate::cli::PruneOptions;

verus! {

/// Why a worktree may not be pruned.
#[derive(Clone, Copy, PartialEq, Eq, Structural, Debug)]
pub enum PruneReason {
    /// The working tree has tracked modifications or untracked files.
    DirtyWorktree,
    /// The checked-out branch has commits its upstream does not have,
    /// or no upstream at all.
    UnpushedCommits,
}

/// How a worktree's checked-out branch relates to its upstream, as the
/// version-control engine reports it.
#[derive(Clone, Copy, PartialEq, Eq, Structural, Debug)]
pub enum UpstreamState {
    /// The branch has no upstream.
    NoUpstream,
    /// The branch tip and the upstream tip are the same commit.
    TipsEqual,
    /// The tips differ; `ahead` commits are on the branch but not on the
    /// upstream, counted from their common ancestor.
    Counted { ahead: usize },
    /// The tips differ and the ahead/behind computation failed.
    Unknown,
}

/// The plain facts about one worktree that the decision reads.
///
/// `branch` is the short name of the checked-out branch, or `None` when it
/// could not be resolved (detached HEAD, missing shorthand, or no local
/// branch of that name). Fields that a given policy never reads (for
/// example `upstream` when branch inclusion is off) may hold any value:
/// the decision does not depend on them.
pub struct WorktreeFacts {
    pub name: String,
    pub dirty: bool,
    pub branch: Option<String>,
    pub upstream: UpstreamState,
}

/// A branch that may be deleted together with its worktree.
#[derive(Debug)]
pub struct BranchEligibility {
    pub branch_name: String,
}

/// The decision for one worktree: may it be pruned, why not, and which
/// branch goes with it.
#[derive(Debug)]
pub struct PruneEligibility {
    pub worktree_name: String,
    pub can_prune: bool,
    pub branch: Option<BranchEligibility>,
    pub reason: Option<PruneReason>,
}

/// A failure scoped to a single worktree's evaluation; it never aborts the
/// evaluation of the other worktrees.
#[derive(Clone, Copy, PartialEq, Eq, Structural, Debug)]
pub enum EvalError {
    /// The worktree's checked-out branch could not be resolved while branch
    /// inclusion was requested.
    BranchUnresolvable,
}

/// A branch is unpushed when it has no upstream, or when it is ahead of its
/// upstream; when the ahead/behind computation failed, it is conservatively
/// treated as unpushed.
pub open spec fn spec_unpushed(u: UpstreamState) -> bool {
    match u {
        UpstreamState::NoUpstream => true,
        UpstreamState::TipsEqual => false,
        UpstreamState::Counted { ahead } => ahead > 0,
        UpstreamState::Unknown => true,
    }
}

/// The decision for one worktree, in evaluation order: the dirty check
/// first (skipped under force), then the branch-inclusion shortcut, then
/// branch resolution, then the unpushed check (skipped under force).
pub open spec fn spec_can_prune(facts: WorktreeFacts, options: PruneOptions) -> Result<
    PruneEligibility,
    EvalError,
> {
    if !options.force && facts.dirty {
        Ok(
            PruneEligibility {
                worktree_name: facts.name,
                can_prune: false,
                branch: None,
                reason: Some(PruneReason::DirtyWorktree),
            },
        )
    } else if !options.include_branch {
        Ok(
            PruneEligibility {
                worktree_name: facts.name,
                can_prune: true,
                branch: None,
                reason: None,
            },
        )
    } else {
        match facts.branch {
            None => Err(EvalError::BranchUnresolvable),
            Some(branch_name) => if !options.force && spec_unpushed(facts.upstream) {
                Ok(
                    PruneEligibility {
                        worktree_name: facts.name,
                        can_prune: false,
                        branch: None,
                        reason: Some(PruneReason::UnpushedCommits),
                    },
                )
            } else {
                Ok(
                    PruneEligibility {
                        worktree_name: facts.name,
                        can_prune: true,
                        branch: Some(BranchEligibility { branch_name }),
                        reason: None,
                    },
                )
            },
        }
    }
}

/// Whether the branch behind `u` counts as unpushed.
pub fn has_unpushed_commits(u: &UpstreamState) -> (r: bool)
    ensures
        r == spec_unpushed(*u),
{
    match u {
        UpstreamState::NoUpstream => true,
        UpstreamState::TipsEqual => false,
        UpstreamState::Counted { ahead } => *ahead > 0,
        UpstreamState::Unknown => true,
    }
}

/// Decide whether one worktree may be pruned.
pub fn can_prune_worktree(facts: WorktreeFacts, options: &PruneOptions) -> (r: Result<
    PruneEligibility,
    EvalError,
>)
    ensures
        r == spec_can_prune(facts, *options),
{
    if !options.force && facts.dirty {
        return Ok(
            PruneEligibility {
                worktree_name: facts.name,
                can_prune: false,
                branch: None,
                reason: Some(PruneReason::DirtyWorktree),
            },
        );
    }
    if !options.include_branch {
        return Ok(
            PruneEligibility {
                worktree_name: facts.name,
                can_prune: true,
                branch: None,
                reason: None,
            },
        );
    }
    match facts.branch {
        None => Err(EvalError::BranchUnresolvable),
        Some(branch_name) => {
            if !options.force && has_unpushed_commits(&facts.upstream) {
                Ok(
                    PruneEligibility {
                        worktree_name: facts.name,
                        can_prune: false,
                        branch: None,
                        reason: Some(PruneReason::UnpushedCommits),
                    },
                )
            } else {
                Ok(
                    PruneEligibility {
                        worktree_name: facts.name,
                        can_prune: true,
                        branch: Some(BranchEligibility { branch_name }),
                        reason: None,
                    },
                )
            }
        },
    }
}

/// Decide every worktree in order: exactly one decision (or one scoped
/// error) per entry of `facts`, each independent of the others.
pub fn find_eligible_worktrees(facts: Vec<WorktreeFacts>, options: &PruneOptions) -> (r: Vec<
    Result<PruneEligibility, EvalError>,
>)
    ensures
        r@.len() == facts@.len(),
        forall|i: int| 0 <= i < facts@.len() ==> r@[i] == spec_can_prune(facts@[i], *options),
{
    let ghost all = facts@;
    let mut remaining = facts;
    let mut decisions: Vec<Result<PruneEligibility, EvalError>> = Vec::new();
    while remaining.len() > 0
        invariant
            decisions@.len() + remaining@.len() == all.len(),
            remaining@ == all.subrange(decisions@.len() as int, all.len() as int),
            forall|i: int|
                0 <= i < decisions@.len() ==> decisions@[i] == spec_can_prune(all[i], *options),
        decreases remaining@.len(),
    {
        let f = remaining.remove(0);
        decisions.push(can_prune_worktree(f, options));
        proof {
            assert(remaining@ =~= all.subrange(decisions@.len() as int, all.len() as int));
        }
    }
    decisions
}

/// A decision carries a block reason exactly when it withholds eligibility,
/// and a forced run never withholds it.
pub proof fn lemma_reason_iff_blocked(facts: WorktreeFacts, options: PruneOptions)
    ensures
        spec_can_prune(facts, options) matches Ok(e) ==> (e.reason is Some <==> (!e.can_prune
            && !options.force)),
{
}

/// A dirty worktree is reported as dirty whatever its branch and upstream
/// state: the dirty check precedes and short-circuits the unpushed check.
pub proof fn lemma_dirty_precedes_unpushed(facts: WorktreeFacts, options: PruneOptions)
    requires
        !options.force,
        facts.dirty,
    ensures
        spec_can_prune(facts, options) matches Ok(e) && !e.can_prune && e.reason == Some(
            PruneReason::DirtyWorktree,
        ),
{
}

/// Force makes every worktree eligible, with no block reason, whatever its
/// dirtiness and upstream state — provided a decision is produced at all
/// (with branch inclusion, an unresolvable branch is an error instead).
pub proof fn lemma_force_overrides_blocks(facts: WorktreeFacts, options: PruneOptions)
    requires
        options.force,
        options.include_branch ==> facts.branch is Some,
    ensures
        spec_can_prune(facts, options) matches Ok(e) && e.can_prune && e.reason is None,
{
}

/// A clean worktree whose branch has no upstream is blocked as unpushed
/// unless forced, regardless of any ahead/behind counts.
pub proof fn lemma_no_upstream_counts_as_unpushed(facts: WorktreeFacts, options: PruneOptions)
    requires
        !options.force,
        options.include_branch,
        !facts.dirty,
        facts.branch is Some,
        facts.upstream is NoUpstream,
    ensures
        spec_can_prune(facts, options) matches Ok(e) && !e.can_prune && e.reason == Some(
            PruneReason::UnpushedCommits,
        ),
{
}

} // verus!
