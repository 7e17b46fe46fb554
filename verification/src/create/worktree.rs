//! Resolving or creating the worktree itself.
//!
//! A worktree that already exists is reused as it is — provisioning is
//! idempotent. Otherwise its directory is the planned root with the
//! requested name appended, and the version-control engine binds a new
//! worktree to the resolved branch there.

use vstd::prelude::*;

use crate::create::branch::{spec_branch_plan, BranchPlan};

verus! {

/// Reuse an existing worktree's path, or fall back to the planned target
/// for a new one. The second component says whether the worktree still has
/// to be created.
pub fn get_or_create_worktree_path(existing: Option<String>, target: String) -> (r: (String, bool))
    ensures
        existing matches Some(p) ==> r.0 == p && !r.1,
        existing is None ==> r.0 == target && r.1,
{
    match existing {
        Some(p) => (p, false),
        None => (target, true),
    }
}

/// The directory of a new worktree: the planned root with the worktree's
/// name appended.
pub fn worktree_target(root: Vec<String>, name: String) -> (r: Vec<String>)
    ensures
        r.deep_view() == root.deep_view().push(name@),
{
    let ghost rdv = root.deep_view();
    let ghost nv = name@;
    let mut target = root;
    target.push(name);
    proof {
        assert(target.deep_view() =~= rdv.push(nv));
    }
    target
}

/// The repository as provisioning sees it: which worktree names exist and
/// where, and which branch names resolve (locally or as `origin/<name>`).
pub struct ProvisionModel {
    pub worktrees: Map<Seq<char>, Seq<char>>,
    pub branches: Set<Seq<char>>,
}

/// One provisioning request against the model: reuse an existing worktree
/// untouched; otherwise resolve or create the branch as
/// [`spec_branch_plan`] says and create the worktree at `target`. `None`
/// stands for the branch-not-found failure, after which nothing changed.
pub open spec fn spec_provision(
    m: ProvisionModel,
    name: Seq<char>,
    no_create: bool,
    target: Seq<char>,
) -> (ProvisionModel, Option<Seq<char>>) {
    if m.worktrees.dom().contains(name) {
        (m, Some(m.worktrees[name]))
    } else {
        match spec_branch_plan(m.branches.contains(name), no_create) {
            BranchPlan::Unavailable => (m, None),
            _ => (
                ProvisionModel {
                    worktrees: m.worktrees.insert(name, target),
                    branches: m.branches.insert(name),
                },
                Some(target),
            ),
        }
    }
}

/// Provisioning twice with the same name and creation allowed returns the
/// same path both times, and the second run changes nothing: no duplicate
/// branch or worktree creation.
pub proof fn lemma_provision_idempotent(m: ProvisionModel, name: Seq<char>, target: Seq<char>)
    ensures
        ({
            let (m1, p1) = spec_provision(m, name, false, target);
            let (m2, p2) = spec_provision(m1, name, false, target);
            &&& p1 is Some
            &&& m2 == m1
            &&& p2 == p1
        }),
{
    let (m1, p1) = spec_provision(m, name, false, target);
    if !m.worktrees.dom().contains(name) {
        assert(m1.worktrees.dom().contains(name));
        assert(m1.worktrees[name] == target);
    }
}

} // verus!
