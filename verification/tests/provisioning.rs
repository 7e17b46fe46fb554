//! Provisioning plans: branches, the worktree root, and ignore rules.

use branchy::create::branch::{
    get_or_create_branch, remote_branch_name, upstream_ref_name, BranchPlan,
};
use branchy::create::config::{
    calculate_worktree_plan, content_contains_rule, exclude_addition, exclude_rule, is_blank,
};
use branchy::create::worktree::{get_or_create_worktree_path, worktree_target};

fn components(list: &[&str]) -> Vec<String> {
    list.iter().map(|s| s.to_string()).collect()
}

#[test]
fn existing_branch_is_reused() {
    assert_eq!(get_or_create_branch(true, false), BranchPlan::UseExisting);
    assert_eq!(get_or_create_branch(true, true), BranchPlan::UseExisting);
}

#[test]
fn missing_branch_fails_or_is_created_by_flag() {
    assert_eq!(get_or_create_branch(false, true), BranchPlan::Unavailable);
    assert_eq!(get_or_create_branch(false, false), BranchPlan::CreateFromHead);
}

#[test]
fn lookup_and_upstream_reference_names() {
    assert_eq!(remote_branch_name(&"feat".to_string()), "origin/feat");
    assert_eq!(upstream_ref_name(&"origin/feat".to_string()), "refs/remotes/origin/feat");
}

#[test]
fn blank_configuration_values_count_as_unset() {
    assert!(is_blank(&"".to_string()));
    assert!(is_blank(&" \t\r\n".to_string()));
    assert!(!is_blank(&" x ".to_string()));
}

#[test]
fn default_root_is_inside_the_repository() {
    let plan = calculate_worktree_plan(components(&["", "home", "repo"]), None);
    assert_eq!(plan.root, components(&["", "home", "repo", ".worktree"]));
    assert!(plan.should_update_exclude);
}

#[test]
fn configured_root_inside_the_repository_needs_a_rule() {
    let plan = calculate_worktree_plan(
        components(&["", "home", "repo"]),
        Some(components(&["", "home", "repo", "trees"])),
    );
    assert_eq!(plan.root, components(&["", "home", "repo", "trees"]));
    assert!(plan.should_update_exclude);
}

#[test]
fn configured_root_outside_gets_the_repository_name() {
    let plan = calculate_worktree_plan(
        components(&["", "home", "repo"]),
        Some(components(&["", "tmp", "trees"])),
    );
    assert_eq!(plan.root, components(&["", "tmp", "trees", "repo"]));
    assert!(!plan.should_update_exclude);
}

#[test]
fn exclude_rule_is_the_relative_path_with_a_leading_slash() {
    let root = components(&["", "home", "repo", ".worktree"]);
    assert_eq!(exclude_rule(&root, 3), "/.worktree");
    let nested = components(&["", "home", "repo", "a", "b"]);
    assert_eq!(exclude_rule(&nested, 3), "/a/b");
}

#[test]
fn rule_containment_is_a_substring_check() {
    assert!(content_contains_rule(&"x\n/.worktree\ny".to_string(), &"/.worktree".to_string()));
    assert!(!content_contains_rule(&"x\n/.worktre\ny".to_string(), &"/.worktree".to_string()));
    assert!(content_contains_rule(&"anything".to_string(), &"".to_string()));
}

#[test]
fn rule_insertion_is_idempotent() {
    let rule = "/.worktree".to_string();
    let first = exclude_addition(&"# exclusions\n".to_string(), &rule);
    assert_eq!(first, Some("/.worktree\n".to_string()));
    let mut content = "# exclusions\n".to_string();
    content.push_str(&first.unwrap());
    assert_eq!(exclude_addition(&content, &rule), None);
}

#[test]
fn worktree_directory_is_root_plus_name() {
    let target = worktree_target(components(&["", "tmp", "trees"]), "feat".to_string());
    assert_eq!(target, components(&["", "tmp", "trees", "feat"]));
}

#[test]
fn existing_worktree_path_is_reused_unchanged() {
    let (path, create) =
        get_or_create_worktree_path(Some("old/path".to_string()), "new/path".to_string());
    assert_eq!(path, "old/path");
    assert!(!create);
    let (path, create) = get_or_create_worktree_path(None, "new/path".to_string());
    assert_eq!(path, "new/path");
    assert!(create);
}
