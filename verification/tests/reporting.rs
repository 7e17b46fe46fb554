//! Status-line and configuration-name text.

use branchy::cli::ConfigKey;
use branchy::config::{config_prefix, format_config_entry, get_config_name};
use branchy::prune::eligibility::{BranchEligibility, PruneEligibility, PruneReason};
use branchy::prune::log::{
    blocked_line, dry_run_line, get_worktree_info, prune_reason_to_string, pruned_line,
};

fn decision(name: &str, branch: Option<&str>, can_prune: bool, reason: Option<PruneReason>)
    -> PruneEligibility {
    PruneEligibility {
        worktree_name: name.to_string(),
        can_prune,
        branch: branch.map(|b| BranchEligibility { branch_name: b.to_string() }),
        reason,
    }
}

#[test]
fn worktree_info_names_the_branch_only_when_resolved() {
    let without = decision("temp", None, true, None);
    assert_eq!(get_worktree_info(&without), "worktree temp");
    let with = decision("temp", Some("feat"), true, None);
    assert_eq!(get_worktree_info(&with), "worktree temp and branch feat");
}

#[test]
fn each_block_reason_has_its_text() {
    assert_eq!(
        prune_reason_to_string(&Some(PruneReason::DirtyWorktree)),
        "Worktree has uncommitted changes."
    );
    assert_eq!(
        prune_reason_to_string(&Some(PruneReason::UnpushedCommits)),
        "Branch has unpushed commits."
    );
    assert_eq!(prune_reason_to_string(&None), "");
}

#[test]
fn one_status_line_per_outcome() {
    let blocked = decision("wip", None, false, Some(PruneReason::DirtyWorktree));
    assert_eq!(
        blocked_line(&blocked),
        "Failed to prune worktree wip - Worktree has uncommitted changes."
    );
    let eligible = decision("temp", Some("temp"), true, None);
    assert_eq!(dry_run_line(&eligible), "Would prune worktree temp and branch temp");
    assert_eq!(pruned_line(&eligible), "Pruned worktree temp and branch temp");
}

#[test]
fn configuration_names_live_under_the_tool_prefix() {
    assert_eq!(config_prefix(), "gt.");
    assert_eq!(get_config_name(&ConfigKey::BasePath), "gt.base-path");
    assert_eq!(
        format_config_entry(&"gt.base-path".to_string(), &"/tmp/trees".to_string()),
        "gt.base-path=/tmp/trees"
    );
}
