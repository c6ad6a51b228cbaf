//! Bookkeeping for named worktree workspaces: the registry of tracked
//! workspaces and the protocols that keep it in step with the repository's
//! worktrees and the terminal sessions.

pub mod cli;
pub mod command;
pub mod conf;
pub mod error;
pub mod json;
pub mod logger;
pub mod order;
pub mod path;
pub mod runs;
pub mod store;
pub mod text;
