//! Name filters on prune invocations.

use branchy::filter::{filter_worktree_names, FilterError, NameFilter};

fn names(list: &[&str]) -> Vec<String> {
    list.iter().map(|s| s.to_string()).collect()
}

#[test]
fn invalid_pattern_is_rejected_up_front() {
    let r = NameFilter::compile(&"(".to_string());
    assert_eq!(r.err(), Some(FilterError::InvalidPattern));
}

#[test]
fn anchored_prefix_filter_keeps_only_matching_names() {
    let f = NameFilter::compile(&"^feature-".to_string()).unwrap();
    let kept = filter_worktree_names(names(&["feature-a", "feature-b", "bugfix-c"]), &Some(f));
    assert_eq!(kept, names(&["feature-a", "feature-b"]));
}

#[test]
fn absent_filter_keeps_every_name() {
    let kept = filter_worktree_names(names(&["a", "b"]), &None);
    assert_eq!(kept, names(&["a", "b"]));
}

#[test]
fn filter_matches_anywhere_in_the_name() {
    let f = NameFilter::compile(&"fix".to_string()).unwrap();
    assert!(f.is_match(&"bugfix-c".to_string()));
    assert!(!f.is_match(&"feature-a".to_string()));
    let kept = filter_worktree_names(names(&["feature-a", "bugfix-c"]), &Some(f));
    assert_eq!(kept, names(&["bugfix-c"]));
}

#[test]
fn anchored_filter_is_not_a_substring_check() {
    let f = NameFilter::compile(&"^f".to_string()).unwrap();
    assert!(f.is_match(&"foo".to_string()));
    assert!(!f.is_match(&"bar-f".to_string()));
}
