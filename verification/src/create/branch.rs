//! Resolving or creating the branch a worktree is bound to.
//!
//! The version-control engine looks branches up and creates them; the
//! logic here decides which of those calls to make — reuse an existing
//! branch, fail when creation is disallowed, or create from the current
//! HEAD — and fixes the reference names the lookups use.

use vstd::prelude::*;
use vstd::string::*;

verus! {

/// How to satisfy a request for a branch of a given name.
#[derive(Clone, Copy, PartialEq, Eq, Structural, Debug)]
pub enum BranchPlan {
    /// A local branch of that name, or a remote-tracking `origin/<name>`,
    /// exists: reuse it and ignore any track request.
    UseExisting,
    /// No such branch exists and creation is disallowed: fail the request.
    Unavailable,
    /// No such branch exists: create one from the current HEAD commit.
    CreateFromHead,
}

/// The branch decision: an existing branch is always reused; otherwise
/// `no_create` decides between failing and creating.
pub open spec fn spec_branch_plan(branch_exists: bool, no_create: bool) -> BranchPlan {
    if branch_exists {
        BranchPlan::UseExisting
    } else if no_create {
        BranchPlan::Unavailable
    } else {
        BranchPlan::CreateFromHead
    }
}

/// Decide how to satisfy a branch request. `branch_exists` reports whether
/// the lookup — local by exact name, then remote-tracking under
/// `origin/<name>` — found a branch.
pub fn get_or_create_branch(branch_exists: bool, no_create: bool) -> (p: BranchPlan)
    ensures
        p == spec_branch_plan(branch_exists, no_create),
{
    if branch_exists {
        BranchPlan::UseExisting
    } else if no_create {
        BranchPlan::Unavailable
    } else {
        BranchPlan::CreateFromHead
    }
}

/// The remote-tracking name under which a branch is looked up when no
/// local branch matches: `origin/<name>`.
pub fn remote_branch_name(name: &String) -> (r: String)
    ensures
        r@ == "origin/"@ + name@,
{
    let mut full = String::from_str("origin/");
    full.append(name.as_str());
    full
}

/// The full reference name under which a track request's remote branch is
/// set as upstream: `refs/remotes/<track>`.
pub fn upstream_ref_name(track: &String) -> (r: String)
    ensures
        r@ == "refs/remotes/"@ + track@,
{
    let mut full = String::from_str("refs/remotes/");
    full.append(track.as_str());
    full
}

} // verus!
