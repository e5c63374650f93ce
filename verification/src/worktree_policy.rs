//! Arch task-tab worktree policy helpers (testable without full TUI).

use vstd::prelude::*;

verus! {

/// The resolved UI preference for isolating a new task in a git worktree.
#[derive(Debug, Clone, Copy, PartialEq, Eq, Hash, Structural)]
pub enum WorktreeMode {
    Never,
    Ask,
    Always,
}

/// Why a new task gets no worktree, or `None` when it gets one.
pub open spec fn skip_reason_for(mode: WorktreeMode, in_git_repo: bool) -> Option<Seq<char>> {
    if !in_git_repo {
        Some("not a git repository"@)
    } else {
        match mode {
            WorktreeMode::Never => Some("worktrees disabled (new_session_worktree_mode=never)"@),
            WorktreeMode::Ask => Some("worktree deferred to user prompt"@),
            WorktreeMode::Always => None,
        }
    }
}

/// Whether a new Arch task should create an isolated git worktree.
///
/// `mode` is the resolved UI preference; `in_git_repo` comes from the cwd.
/// Returns true only when the repo is git and mode is Always.
pub fn should_auto_worktree(mode: WorktreeMode, in_git_repo: bool) -> (r: bool)
    ensures
        r == (in_git_repo && mode == WorktreeMode::Always),
{
    if !in_git_repo {
        return false;
    }
    matches!(mode, WorktreeMode::Always)
}

/// Documented skip reasons for logs/toasts.
pub fn skip_reason(mode: WorktreeMode, in_git_repo: bool) -> (r: Option<&'static str>)
    ensures
        r matches Some(s) ==> skip_reason_for(mode, in_git_repo) == Some(s@),
        r is None <==> skip_reason_for(mode, in_git_repo) is None,
{
    if !in_git_repo {
        return Some("not a git repository");
    }
    match mode {
        WorktreeMode::Never => Some("worktrees disabled (new_session_worktree_mode=never)"),
        WorktreeMode::Ask => Some("worktree deferred to user prompt"),
        WorktreeMode::Always => None,
    }
}

/// A worktree is created exactly when there is no reason to skip it.
pub proof fn law_worktree_iff_no_skip_reason(mode: WorktreeMode, in_git_repo: bool)
    ensures
        (in_git_repo && mode == WorktreeMode::Always) <==> skip_reason_for(mode, in_git_repo) is None,
{
}

} // verus!
