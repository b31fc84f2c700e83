use warp_control::git_chips::{
    filter_git_branch_on_click_values, filter_git_worktree_on_click_values,
    is_plausible_new_branch_name, GitBranchOnClickValue, GitWorktreeOnClickValue,
    ENCODED_VALUE_SEPARATOR,
};

#[test]
fn git_branch_on_click_test_git_branch_on_click_value_round_trips_through_encode_decode() {
    let value = GitBranchOnClickValue::new("feature-a".to_string());
    assert_eq!(GitBranchOnClickValue::decode(&value.encode()), value);
}

#[test]
fn git_branch_on_click_test_git_branch_on_click_value_decode_strips_legacy_worktree_metadata() {
    let value = format!(
        "feature-a{ENCODED_VALUE_SEPARATOR}worktree{ENCODED_VALUE_SEPARATOR}/repo/feature-a"
    );
    assert_eq!(
        GitBranchOnClickValue::decode(&value),
        GitBranchOnClickValue::new("feature-a".to_string())
    );
}

#[test]
fn git_branch_on_click_test_filter_git_branch_on_click_values_drops_linked_worktrees() {
    let values = Some(vec![
        "  feature-a".to_string(),
        "+ linked-worktree".to_string(),
        "* main".to_string(),
        "  +literal-plus".to_string(),
    ]);
    let values = filter_git_branch_on_click_values(values).unwrap();
    let values: Vec<_> = values
        .iter()
        .map(|value| GitBranchOnClickValue::decode(value))
        .collect();
    assert_eq!(
        values,
        vec![
            GitBranchOnClickValue::new("main".to_string()),
            GitBranchOnClickValue::new("feature-a".to_string()),
            GitBranchOnClickValue::new("+literal-plus".to_string()),
        ]
    );
}

#[test]
fn git_branch_on_click_test_filter_git_worktree_on_click_values_parses_porcelain() {
    let values = Some(vec![
        "worktree /repo".to_string(),
        "HEAD abcd1234".to_string(),
        "branch refs/heads/main".to_string(),
        "".to_string(),
        "worktree /repo/.worktrees/feature".to_string(),
        "HEAD 5678efff".to_string(),
        "branch refs/heads/feature".to_string(),
        "".to_string(),
        "worktree /repo/.worktrees/detached".to_string(),
        "HEAD 99999999".to_string(),
        "detached".to_string(),
    ]);
    let values = filter_git_worktree_on_click_values(values).unwrap();
    let values: Vec<_> = values
        .iter()
        .map(|value| GitWorktreeOnClickValue::decode(value))
        .collect();
    assert_eq!(
        values,
        vec![
            GitWorktreeOnClickValue::new("/repo".to_string(), Some("main".to_string())),
            GitWorktreeOnClickValue::new(
                "/repo/.worktrees/feature".to_string(),
                Some("feature".to_string())
            ),
            GitWorktreeOnClickValue::new("/repo/.worktrees/detached".to_string(), None),
        ]
    );
}

#[test]
fn git_branch_on_click_test_git_worktree_on_click_value_round_trips_with_and_without_branch() {
    for value in [
        GitWorktreeOnClickValue::new("/repo".to_string(), Some("main".to_string())),
        GitWorktreeOnClickValue::new("/tmp/detached".to_string(), None),
    ] {
        assert_eq!(GitWorktreeOnClickValue::decode(&value.encode()), value);
    }
}

#[test]
fn git_branch_on_click_test_git_worktree_display_name_uses_basename() {
    let with_trailing = GitWorktreeOnClickValue::new("/repo/feature/".to_string(), None);
    assert_eq!(with_trailing.display_name(), "feature");
    let root = GitWorktreeOnClickValue::new("/".to_string(), None);
    assert_eq!(root.display_name(), "/");
}

#[test]
fn git_branch_on_click_test_is_plausible_new_branch_name_accepts_typical_names() {
    for name in [
        "feature/xyz",
        "fix-123",
        "release/v1.2.3",
        "user/alice/work",
        "main",
    ] {
        assert!(
            is_plausible_new_branch_name(name),
            "expected {name:?} to be accepted",
        );
    }
}

#[test]
fn git_branch_on_click_test_is_plausible_new_branch_name_rejects_empty_or_whitespace() {
    for name in ["", "   ", "\t\n"] {
        assert!(
            !is_plausible_new_branch_name(name),
            "expected {name:?} to be rejected",
        );
    }
}

#[test]
fn git_branch_on_click_test_is_plausible_new_branch_name_rejects_leading_dash() {
    assert!(!is_plausible_new_branch_name("-foo"));
    assert!(!is_plausible_new_branch_name("--all"));
}

#[test]
fn git_branch_on_click_test_is_plausible_new_branch_name_rejects_internal_whitespace() {
    assert!(!is_plausible_new_branch_name("my branch"));
    assert!(!is_plausible_new_branch_name("foo\tbar"));
}
