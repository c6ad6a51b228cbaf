use redwood::cli::Commands;
use redwood::command::{Command, RepoMeta, Reply, Request, Stage, Step, PKG_NAME, PKG_VERSION};
use redwood::conf::{Config, WorktreeConfig};
use redwood::error::RedwoodError;

/// Runs `command`, answering its requests with `replies` in order, and gives
/// back every request that it made.
fn drive(command: &Commands, cfg: &mut Config, replies: Vec<Reply>) -> Vec<Request> {
    let mut asked = Vec::new();
    let Step { mut stage, request } = command.execute(cfg);
    asked.push(request);
    for reply in replies {
        match command.resume(stage, reply, cfg) {
            Some(step) => {
                stage = step.stage;
                asked.push(step.request);
            }
            None => return asked,
        }
    }
    asked
}

fn registry(records: &[(&str, &str, Option<&str>)]) -> Config {
    let mut cfg = Config::new();
    for (path, name, session) in records {
        let mut wt = WorktreeConfig::new(path, name);
        if let Some(session) = session {
            wt.set_tmux_session_name(session);
        }
        cfg.add_worktree(wt).unwrap();
    }
    cfg
}

fn paths(cfg: &Config) -> Vec<String> {
    cfg.worktrees().iter().map(|wt| wt.repo_path().to_string()).collect()
}

fn text(s: &str) -> String {
    String::from(s)
}

fn git_failure(message: &str) -> RedwoodError {
    RedwoodError::GitError {
        code: git2::ErrorCode::NotFound,
        class: git2::ErrorClass::Repository,
        message: text(message),
    }
}

#[test]
fn new_creates_worktree_then_registry_then_session() {
    let command = Commands::New {
        worktree_name: text("feature"),
        repo_path: None,
        tmux_session_name: None,
    };
    let mut cfg = Config::new();
    let asked = drive(
        &command,
        &mut cfg,
        vec![
            Reply::Repo(RepoMeta { root_path: text("/repo"), is_bare: true }),
            Reply::Done,
            Reply::Done,
            Reply::Done,
            Reply::Done,
        ],
    );
    assert_eq!(
        asked,
        vec![
            Request::ResolveRepo { path: text(".") },
            Request::CreateWorktree { repo_root: text("/repo"), name: text("feature") },
            Request::WriteConfig,
            Request::NewSession { name: text("feature"), directory: text("/repo/feature") },
            Request::AttachSession { name: text("feature") },
            Request::Finish { result: Ok(()) },
        ]
    );
    assert_eq!(cfg.worktrees().len(), 1);
    assert_eq!(cfg.worktrees()[0].repo_path(), "/repo/feature");
    assert_eq!(cfg.worktrees()[0].worktree_name(), "feature");
    assert_eq!(cfg.worktrees()[0].tmux_session_name(), None);
}

#[test]
fn new_uses_given_path_and_session_name() {
    let command = Commands::New {
        worktree_name: text("feature"),
        repo_path: Some(text("/somewhere")),
        tmux_session_name: Some(text("work")),
    };
    let mut cfg = Config::new();
    let asked = drive(
        &command,
        &mut cfg,
        vec![
            Reply::Repo(RepoMeta { root_path: text("/repo/"), is_bare: false }),
            Reply::Done,
            Reply::Done,
            Reply::Done,
            Reply::Done,
        ],
    );
    assert_eq!(asked[0], Request::ResolveRepo { path: text("/somewhere") });
    assert_eq!(
        asked[3],
        Request::NewSession { name: text("work"), directory: text("/repo/feature") }
    );
    assert_eq!(asked[4], Request::AttachSession { name: text("work") });
    assert_eq!(cfg.worktrees()[0].tmux_session_name(), Some("work"));
}

#[test]
fn new_stops_when_repository_fails() {
    let command =
        Commands::New { worktree_name: text("w"), repo_path: None, tmux_session_name: None };
    let mut cfg = Config::new();
    let asked = drive(&command, &mut cfg, vec![Reply::Failed(git_failure("no repo")), Reply::Done]);
    assert_eq!(
        asked,
        vec![
            Request::ResolveRepo { path: text(".") },
            Request::Finish { result: Err(git_failure("no repo")) },
        ]
    );
    assert!(cfg.worktrees().is_empty());
}

#[test]
fn new_stops_when_worktree_cannot_be_created() {
    let command =
        Commands::New { worktree_name: text("w"), repo_path: None, tmux_session_name: None };
    let mut cfg = Config::new();
    let asked = drive(
        &command,
        &mut cfg,
        vec![
            Reply::Repo(RepoMeta { root_path: text("/r"), is_bare: true }),
            Reply::Failed(git_failure("exists")),
        ],
    );
    assert_eq!(asked.len(), 3);
    assert_eq!(asked[2], Request::Finish { result: Err(git_failure("exists")) });
    assert!(cfg.worktrees().is_empty());
}

#[test]
fn new_reports_duplicate_after_worktree_was_created() {
    let command =
        Commands::New { worktree_name: text("w"), repo_path: None, tmux_session_name: None };
    let mut cfg = registry(&[("/r/w", "w", None)]);
    let asked = drive(
        &command,
        &mut cfg,
        vec![Reply::Repo(RepoMeta { root_path: text("/r"), is_bare: true }), Reply::Done],
    );
    assert_eq!(
        asked,
        vec![
            Request::ResolveRepo { path: text(".") },
            Request::CreateWorktree { repo_root: text("/r"), name: text("w") },
            Request::Finish { result: Err(RedwoodError::WorkTreeConfigAlreadyExists) },
        ]
    );
    assert_eq!(cfg.worktrees().len(), 1);
}

#[test]
fn new_keeps_record_in_memory_when_storing_fails() {
    let command =
        Commands::New { worktree_name: text("w"), repo_path: None, tmux_session_name: None };
    let mut cfg = Config::new();
    let failure = RedwoodError::ConfigWriteError(text("disk full"));
    let asked = drive(
        &command,
        &mut cfg,
        vec![
            Reply::Repo(RepoMeta { root_path: text("/r"), is_bare: true }),
            Reply::Done,
            Reply::Failed(RedwoodError::ConfigWriteError(text("disk full"))),
        ],
    );
    assert_eq!(asked.last(), Some(&Request::Finish { result: Err(failure) }));
    assert_eq!(asked.len(), 4);
    assert_eq!(paths(&cfg), vec!["/r/w"]);
}

#[test]
fn open_attaches_to_session_of_record() {
    let mut cfg = registry(&[("/r/a", "a", None), ("/r/b", "b", Some("bee"))]);
    let by_name = Commands::Open { identifier: text("a") };
    let asked = drive(&by_name, &mut cfg, vec![Reply::Done, Reply::Done]);
    assert_eq!(
        asked,
        vec![
            Request::NewSession { name: text("a"), directory: text("/r/a") },
            Request::AttachSession { name: text("a") },
            Request::Finish { result: Ok(()) },
        ]
    );
    let by_path = Commands::Open { identifier: text("/r/b") };
    let asked = drive(&by_path, &mut cfg, vec![Reply::Done, Reply::Done]);
    assert_eq!(
        asked,
        vec![
            Request::NewSession { name: text("bee"), directory: text("/r/b") },
            Request::AttachSession { name: text("bee") },
            Request::Finish { result: Ok(()) },
        ]
    );
    assert_eq!(paths(&cfg), vec!["/r/a", "/r/b"]);
}

#[test]
fn open_unknown_workspace_is_not_found() {
    let mut cfg = registry(&[("/r/a", "a", None)]);
    let command = Commands::Open { identifier: text("zzz") };
    let asked = drive(&command, &mut cfg, vec![Reply::Done]);
    assert_eq!(
        asked,
        vec![Request::Finish {
            result: Err(RedwoodError::WorkTreeConfigNotFound { worktree_name: text("zzz") })
        }]
    );
}

#[test]
fn open_stops_when_session_fails() {
    let mut cfg = registry(&[("/r/a", "a", None)]);
    let command = Commands::Open { identifier: text("a") };
    let asked =
        drive(&command, &mut cfg, vec![Reply::Failed(RedwoodError::TmuxError(text("no tmux")))]);
    assert_eq!(asked.len(), 2);
    assert_eq!(asked[1], Request::Finish { result: Err(RedwoodError::TmuxError(text("no tmux"))) });
}

#[test]
fn delete_in_bare_repository_removes_worktree_session_and_record() {
    let mut cfg = registry(&[("/r/a", "a", Some("ay")), ("/r/b", "b", None)]);
    let command = Commands::Delete { identifier: text("a") };
    let asked = drive(
        &command,
        &mut cfg,
        vec![
            Reply::Repo(RepoMeta { root_path: text("/r"), is_bare: true }),
            Reply::Done,
            Reply::Done,
            Reply::Done,
        ],
    );
    assert_eq!(
        asked,
        vec![
            Request::ResolveRepo { path: text("/r/a") },
            Request::DeleteWorktree { repo_root: text("/r"), name: text("a") },
            Request::KillSession { name: text("ay") },
            Request::WriteConfig,
            Request::Finish { result: Ok(()) },
        ]
    );
    assert_eq!(paths(&cfg), vec!["/r/b"]);
}

#[test]
fn delete_outside_bare_repository_leaves_worktree() {
    let mut cfg = registry(&[("/r/a", "a", None)]);
    let command = Commands::Delete { identifier: text("/r/a") };
    let asked = drive(
        &command,
        &mut cfg,
        vec![
            Reply::Repo(RepoMeta { root_path: text("/r/a"), is_bare: false }),
            Reply::Done,
            Reply::Done,
        ],
    );
    assert_eq!(
        asked,
        vec![
            Request::ResolveRepo { path: text("/r/a") },
            Request::KillSession { name: text("a") },
            Request::WriteConfig,
            Request::Finish { result: Ok(()) },
        ]
    );
    assert!(cfg.worktrees().is_empty());
}

#[test]
fn delete_with_failing_resolve_keeps_registry_and_session() {
    let mut cfg = registry(&[("/r/a", "a", None), ("/r/b", "b", None)]);
    let before = cfg.serialize().unwrap();
    let command = Commands::Delete { identifier: text("a") };
    let asked = drive(
        &command,
        &mut cfg,
        vec![Reply::Failed(git_failure("gone")), Reply::Done, Reply::Done],
    );
    assert_eq!(
        asked,
        vec![
            Request::ResolveRepo { path: text("/r/a") },
            Request::Finish { result: Err(git_failure("gone")) },
        ]
    );
    assert!(!asked.iter().any(|request| matches!(request, Request::KillSession { .. })));
    assert_eq!(cfg.serialize().unwrap(), before);
}

#[test]
fn delete_with_failing_worktree_removal_keeps_registry() {
    let mut cfg = registry(&[("/r/a", "a", None)]);
    let command = Commands::Delete { identifier: text("a") };
    let asked = drive(
        &command,
        &mut cfg,
        vec![
            Reply::Repo(RepoMeta { root_path: text("/r"), is_bare: true }),
            Reply::Failed(git_failure("locked")),
        ],
    );
    assert_eq!(asked.len(), 3);
    assert_eq!(asked[2], Request::Finish { result: Err(git_failure("locked")) });
    assert_eq!(paths(&cfg), vec!["/r/a"]);
}

#[test]
fn delete_removes_record_even_when_session_cannot_be_ended() {
    let mut cfg = registry(&[("/r/a", "a", None), ("/r/b", "b", None)]);
    let command = Commands::Delete { identifier: text("b") };
    let asked = drive(
        &command,
        &mut cfg,
        vec![
            Reply::Repo(RepoMeta { root_path: text("/r"), is_bare: false }),
            Reply::Failed(RedwoodError::TmuxError(text("no session"))),
            Reply::Done,
        ],
    );
    assert_eq!(
        asked,
        vec![
            Request::ResolveRepo { path: text("/r/b") },
            Request::KillSession { name: text("b") },
            Request::WriteConfig,
            Request::Finish { result: Err(RedwoodError::TmuxError(text("no session"))) },
        ]
    );
    assert_eq!(paths(&cfg), vec!["/r/a"]);
}

#[test]
fn delete_surfaces_failure_to_store() {
    let mut cfg = registry(&[("/r/a", "a", None)]);
    let command = Commands::Delete { identifier: text("a") };
    let asked = drive(
        &command,
        &mut cfg,
        vec![
            Reply::Repo(RepoMeta { root_path: text("/r"), is_bare: false }),
            Reply::Done,
            Reply::Failed(RedwoodError::ConfigWriteError(text("read-only"))),
        ],
    );
    assert_eq!(
        asked.last(),
        Some(&Request::Finish { result: Err(RedwoodError::ConfigWriteError(text("read-only"))) })
    );
    assert!(cfg.worktrees().is_empty());
}

#[test]
fn delete_unknown_workspace_is_not_found() {
    let mut cfg = registry(&[("/r/a", "a", None)]);
    let command = Commands::Delete { identifier: text("nonexistent") };
    let asked = drive(&command, &mut cfg, vec![Reply::Done]);
    assert_eq!(
        asked,
        vec![Request::Finish {
            result: Err(RedwoodError::WorkTreeConfigNotFound {
                worktree_name: text("nonexistent")
            })
        }]
    );
    assert_eq!(paths(&cfg), vec!["/r/a"]);
}

#[test]
fn import_names_workspace_by_final_component() {
    let command =
        Commands::Import { worktree_path: text("projects/foo"), tmux_session_name: None };
    let mut cfg = Config::new();
    let asked = drive(
        &command,
        &mut cfg,
        vec![Reply::Path(text("/home/u/projects/foo")), Reply::Done],
    );
    assert_eq!(
        asked,
        vec![
            Request::Canonicalize { path: text("projects/foo") },
            Request::WriteConfig,
            Request::Finish { result: Ok(()) },
        ]
    );
    assert_eq!(cfg.worktrees().len(), 1);
    assert_eq!(cfg.worktrees()[0].repo_path(), "/home/u/projects/foo");
    assert_eq!(cfg.worktrees()[0].worktree_name(), "foo");
    assert_eq!(cfg.worktrees()[0].tmux_session_name(), None);
}

#[test]
fn import_keeps_given_session_name() {
    let command =
        Commands::Import { worktree_path: text("."), tmux_session_name: Some(text("main")) };
    let mut cfg = Config::new();
    drive(&command, &mut cfg, vec![Reply::Path(text("/srv/site")), Reply::Done]);
    assert_eq!(cfg.worktrees()[0].worktree_name(), "site");
    assert_eq!(cfg.worktrees()[0].tmux_session_name(), Some("main"));
}

#[test]
fn import_of_unresolvable_path_is_invalid_path() {
    let command = Commands::Import { worktree_path: text("nowhere"), tmux_session_name: None };
    let mut cfg = Config::new();
    let asked = drive(&command, &mut cfg, vec![Reply::Unresolved(text("No such file"))]);
    assert_eq!(
        asked,
        vec![
            Request::Canonicalize { path: text("nowhere") },
            Request::Finish {
                result: Err(RedwoodError::InvalidPathError {
                    worktree_path: text("nowhere"),
                    msg: text("No such file"),
                })
            },
        ]
    );
    assert!(cfg.worktrees().is_empty());
}

#[test]
fn import_of_known_workspace_is_duplicate() {
    let command = Commands::Import { worktree_path: text("foo"), tmux_session_name: None };
    let mut cfg = registry(&[("/p/foo", "foo", None)]);
    let asked = drive(&command, &mut cfg, vec![Reply::Path(text("/p/foo")), Reply::Done]);
    assert_eq!(
        asked,
        vec![
            Request::Canonicalize { path: text("foo") },
            Request::Finish { result: Err(RedwoodError::WorkTreeConfigAlreadyExists) },
        ]
    );
    assert_eq!(cfg.worktrees().len(), 1);
}

#[test]
fn list_prints_paths_in_listing_order() {
    let mut cfg = registry(&[("b", "1", None), ("a/b/c", "2", None), ("a/b", "3", None), ("a", "4", None)]);
    let asked = drive(&Commands::List {}, &mut cfg, vec![Reply::Done]);
    assert_eq!(
        asked,
        vec![
            Request::Print { lines: vec![text("a"), text("a/b"), text("a/b/c"), text("b")] },
            Request::Finish { result: Ok(()) },
        ]
    );
    assert_eq!(paths(&cfg), vec!["b", "a/b/c", "a/b", "a"]);
}

#[test]
fn version_prints_name_and_version() {
    let mut cfg = Config::new();
    let asked = drive(&Commands::Version {}, &mut cfg, vec![Reply::Done]);
    assert_eq!(
        asked,
        vec![
            Request::Print { lines: vec![text("redwood v0.1.0")] },
            Request::Finish { result: Ok(()) },
        ]
    );
    assert_eq!(format!("{} v{}", PKG_NAME, PKG_VERSION), "redwood v0.1.0");
}

#[test]
fn reply_that_does_not_answer_is_refused() {
    let mut cfg = registry(&[("/r/a", "a", None)]);
    let command = Commands::Delete { identifier: text("a") };
    let step = command.execute(&mut cfg);
    assert!(command.resume(step.stage, Reply::Path(text("/x")), &mut cfg).is_none());
    assert!(command.resume(Stage::NewResolving, Reply::Done, &mut cfg).is_none());
    assert!(command.resume(Stage::Finished, Reply::Done, &mut cfg).is_none());
    assert_eq!(paths(&cfg), vec!["/r/a"]);
}
