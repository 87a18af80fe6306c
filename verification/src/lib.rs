//! Repository workspaces: Git worktree bookkeeping, the repository/workspace
//! tree shown in the side panel, and the per-workspace tab sets.
#![allow(unused_imports)]

pub mod activity;
pub mod domain;
pub mod layout;
pub mod text;
pub mod bytes;
pub mod tabs;
pub mod order;
pub mod tree;
pub mod rows;
pub mod git;
