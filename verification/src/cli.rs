//! What the command line asks for, as plain values.

use vstd::prelude::*;

verus! {

/// How much is logged.
#[derive(Debug, Clone, Copy, PartialEq, Eq)]
pub enum LogFileLevel {
    Off,
    Error,
    Warn,
    Info,
    Debug,
    Trace,
}

/// One invocation: the logging options given and the command to run.
#[derive(Debug)]
pub struct Cli {
    /// The file to log to, where one is given.
    pub log_file_path: Option<String>,
    /// How much to log to the file, where that is given.
    pub log_file_level: Option<LogFileLevel>,
    /// How much to log to standard output, where that is given.
    pub log_stdout_level: Option<LogFileLevel>,
    /// The command to run.
    pub command: Commands,
}

/// A command with its parameters.
#[derive(Debug)]
pub enum Commands {
    /// Create a worktree and track it.
    New { worktree_name: String, repo_path: Option<String>, tmux_session_name: Option<String> },
    /// Open the session of a tracked workspace.
    Open { identifier: String },
    /// Remove a tracked workspace.
    Delete { identifier: String },
    /// Track a directory that already exists.
    Import { worktree_path: String, tmux_session_name: Option<String> },
    /// List the tracked workspaces.
    List {},
    /// Print the version.
    Version {},
}

/// A command with its parameters, as plain values.
pub enum CommandView {
    New {
        worktree_name: Seq<char>,
        repo_path: Option<Seq<char>>,
        tmux_session_name: Option<Seq<char>>,
    },
    Open { identifier: Seq<char> },
    Delete { identifier: Seq<char> },
    Import { worktree_path: Seq<char>, tmux_session_name: Option<Seq<char>> },
    List,
    Version,
}

impl View for Commands {
    type V = CommandView;

    open spec fn view(&self) -> CommandView {
        match self {
            Commands::New { worktree_name, repo_path, tmux_session_name } => CommandView::New {
                worktree_name: worktree_name@,
                repo_path: repo_path.deep_view(),
                tmux_session_name: tmux_session_name.deep_view(),
            },
            Commands::Open { identifier } => CommandView::Open { identifier: identifier@ },
            Commands::Delete { identifier } => CommandView::Delete { identifier: identifier@ },
            Commands::Import { worktree_path, tmux_session_name } => CommandView::Import {
                worktree_path: worktree_path@,
                tmux_session_name: tmux_session_name.deep_view(),
            },
            Commands::List {  } => CommandView::List,
            Commands::Version {  } => CommandView::Version,
        }
    }
}

} // verus!
