use grok_arch::worktree_policy::{should_auto_worktree, skip_reason, WorktreeMode};

#[test]
fn auto_worktree_only_in_git_with_always() {
    assert!(!should_auto_worktree(WorktreeMode::Always, false));
    assert!(!should_auto_worktree(WorktreeMode::Never, true));
    assert!(!should_auto_worktree(WorktreeMode::Ask, true));
    assert!(should_auto_worktree(WorktreeMode::Always, true));
}

#[test]
fn never_mode_documents_skip() {
    assert_eq!(
        skip_reason(WorktreeMode::Never, true),
        Some("worktrees disabled (new_session_worktree_mode=never)")
    );
}

#[test]
fn skip_reasons_for_each_case() {
    assert_eq!(skip_reason(WorktreeMode::Always, true), None);
    assert_eq!(skip_reason(WorktreeMode::Always, false), Some("not a git repository"));
    assert_eq!(skip_reason(WorktreeMode::Ask, true), Some("worktree deferred to user prompt"));
    for mode in [WorktreeMode::Never, WorktreeMode::Ask, WorktreeMode::Always] {
        for git in [false, true] {
            assert_eq!(should_auto_worktree(mode, git), skip_reason(mode, git).is_none());
        }
    }
}
