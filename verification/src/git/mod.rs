//! Git repository and worktree operations behind repository workspaces.

pub mod types;
pub mod refs;
pub mod command;
pub mod decide;
pub mod snapshot;
pub mod ancestry;
pub mod worktrees;
pub mod commands;
pub mod generation;
pub mod removal;
pub mod creation;
pub mod repository;
pub mod naming;
pub mod cloning;
pub mod message;
pub mod debug;
pub mod laws;
pub mod protocol;
