//! Pure core of the Arch surface of the grok pager: model routing, pet
//! chrome, worktree policy, task tabs and handoffs, slash commands, theme
//! palette and the session-directory naming scheme.

pub mod text;
pub mod model_router;
pub mod pet;
pub mod worktree_policy;
pub mod url;
pub mod slug;
pub mod paths;
pub mod agents;
pub mod actions;
pub mod tabs;
pub mod slash;
pub mod theme;
pub mod pricing;
pub mod tab_strip;
