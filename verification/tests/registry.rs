use redwood::conf::{Config, WorktreeConfig};
use redwood::error::RedwoodError;

fn registry(paths: &[&str]) -> Config {
    let mut cfg = Config::new();
    for (i, path) in paths.iter().enumerate() {
        cfg.add_worktree(WorktreeConfig::new(path, &format!("n{}", i))).unwrap();
    }
    cfg
}

fn listed_paths(cfg: &Config) -> Vec<String> {
    cfg.list().iter().map(|wt| wt.repo_path().to_string()).collect()
}

fn listed_names(cfg: &Config) -> Vec<String> {
    cfg.list().iter().map(|wt| wt.worktree_name().to_string()).collect()
}

#[test]
fn list() {
    let mut cfg = Config::new();

    let wts: Vec<WorktreeConfig> = vec!["b", "a/b/c", "a/b/c/d", "a/b", "a/b/a", "a/b/a/e", "a"]
        .iter()
        .map(|p| WorktreeConfig::new(p, ""))
        .collect();

    for wt in wts {
        cfg.add_worktree(wt).unwrap();
    }

    let v = cfg.list();
    assert_eq!(v[0].repo_path(), "a");
    assert_eq!(v[1].repo_path(), "a/b");
    assert_eq!(v[2].repo_path(), "a/b/a");
    assert_eq!(v[3].repo_path(), "a/b/a/e");
    assert_eq!(v[4].repo_path(), "a/b/c");
    assert_eq!(v[5].repo_path(), "a/b/c/d");
    assert_eq!(v[6].repo_path(), "b");
}

#[test]
fn list_orders_four_paths() {
    let cfg = registry(&["b", "a/b/c", "a/b", "a"]);
    assert_eq!(listed_paths(&cfg), vec!["a", "a/b", "a/b/c", "b"]);
}

#[test]
fn list_twice_gives_the_same() {
    let cfg = registry(&["x/Y", "x/y", "B", "a", "b", "A", ""]);
    assert_eq!(cfg.list(), cfg.list());
    assert_eq!(cfg.worktrees().len(), 7);
}

#[test]
fn list_ignores_case() {
    let cfg = registry(&["B", "a", "C"]);
    assert_eq!(listed_paths(&cfg), vec!["a", "B", "C"]);
}

#[test]
fn list_keeps_storage_order_of_paths_equal_but_for_case() {
    let cfg = registry(&["B", "a", "b", "A"]);
    assert_eq!(listed_paths(&cfg), vec!["a", "A", "B", "b"]);
    assert_eq!(listed_names(&cfg), vec!["n1", "n3", "n0", "n2"]);
}

#[test]
fn list_compares_bytes_of_lowercase() {
    let cfg = registry(&["é", "z", "E", "Z/a", "É"]);
    assert_eq!(listed_paths(&cfg), vec!["E", "z", "Z/a", "é", "É"]);
}

#[test]
fn list_of_empty_registry_is_empty() {
    assert!(Config::new().list().is_empty());
}

#[test]
fn list_leaves_registry_as_it_is() {
    let cfg = registry(&["b", "a"]);
    let _ = cfg.list();
    assert_eq!(cfg.worktrees()[0].repo_path(), "b");
    assert_eq!(cfg.worktrees()[1].repo_path(), "a");
}

#[test]
fn two_added_records_are_found_by_path_and_name() {
    let mut cfg = Config::new();
    cfg.add_worktree(WorktreeConfig::new("/r/one", "one")).unwrap();
    cfg.add_worktree(WorktreeConfig::new("/r/two", "two")).unwrap();
    for (identifier, place, path) in
        [("/r/one", 0, "/r/one"), ("one", 0, "/r/one"), ("/r/two", 1, "/r/two"), ("two", 1, "/r/two")]
    {
        let (i, wt) = cfg.find(identifier).unwrap();
        assert_eq!(i, place);
        assert_eq!(wt.repo_path(), path);
    }
}

#[test]
fn records_may_share_path_or_name() {
    let mut cfg = Config::new();
    cfg.add_worktree(WorktreeConfig::new("/r/a", "n")).unwrap();
    cfg.add_worktree(WorktreeConfig::new("/r/b", "n")).unwrap();
    cfg.add_worktree(WorktreeConfig::new("/r/a", "m")).unwrap();
    assert_eq!(cfg.worktrees().len(), 3);
    assert_eq!(cfg.find("n").unwrap().0, 0);
    assert_eq!(cfg.find("/r/b").unwrap().0, 1);
    assert_eq!(cfg.find("m").unwrap().0, 2);
}

#[test]
fn find_gives_first_record_that_answers() {
    let mut cfg = Config::new();
    cfg.add_worktree(WorktreeConfig::new("x", "first")).unwrap();
    cfg.add_worktree(WorktreeConfig::new("second", "x")).unwrap();
    let (i, wt) = cfg.find("x").unwrap();
    assert_eq!(i, 0);
    assert_eq!(wt.worktree_name(), "first");
    assert!(cfg.find("X").is_none());
    assert!(cfg.find("").is_none());
}

#[test]
fn adding_known_pair_fails_and_changes_nothing() {
    let mut cfg = Config::new();
    cfg.add_worktree(WorktreeConfig::new("/r/a", "a")).unwrap();
    cfg.add_worktree(WorktreeConfig::new("/r/b", "b")).unwrap();
    let before = cfg.serialize().unwrap();
    let mut again = WorktreeConfig::new("/r/a", "a");
    again.set_tmux_session_name("other");
    assert_eq!(cfg.add_worktree(again), Err(RedwoodError::WorkTreeConfigAlreadyExists));
    assert_eq!(cfg.worktrees().len(), 2);
    assert_eq!(cfg.serialize().unwrap(), before);
}

#[test]
fn removing_unknown_identifier_fails_and_changes_nothing() {
    let mut cfg = registry(&["/r/a", "/r/b"]);
    let before = cfg.serialize().unwrap();
    assert_eq!(
        cfg.remove_worktree("nonexistent"),
        Err(RedwoodError::WorkTreeConfigNotFound { worktree_name: String::from("nonexistent") })
    );
    assert_eq!(cfg.serialize().unwrap(), before);
    let mut empty = Config::new();
    assert!(empty.remove_worktree("nonexistent").is_err());
    assert!(empty.worktrees().is_empty());
}

#[test]
fn remove_takes_out_the_first_match_only() {
    let mut cfg = Config::new();
    cfg.add_worktree(WorktreeConfig::new("/r/a", "n")).unwrap();
    cfg.add_worktree(WorktreeConfig::new("/r/b", "n")).unwrap();
    cfg.add_worktree(WorktreeConfig::new("/r/c", "c")).unwrap();
    cfg.remove_worktree("n").unwrap();
    assert_eq!(cfg.worktrees().len(), 2);
    assert_eq!(cfg.worktrees()[0].repo_path(), "/r/b");
    assert_eq!(cfg.worktrees()[1].repo_path(), "/r/c");
    cfg.remove_worktree("/r/c").unwrap();
    assert_eq!(cfg.worktrees().len(), 1);
    assert_eq!(cfg.worktrees()[0].repo_path(), "/r/b");
}

#[test]
fn record_accessors() {
    let mut wt = WorktreeConfig::new("/r/a", "a");
    assert_eq!(wt.repo_path(), "/r/a");
    assert_eq!(wt.worktree_name(), "a");
    assert_eq!(wt.tmux_session_name(), None);
    assert_eq!(wt.session_name(), "a");
    wt.set_tmux_session_name("s");
    assert_eq!(wt.tmux_session_name(), Some("s"));
    assert_eq!(wt.session_name(), "s");
    assert_eq!(wt.clone(), wt);
    assert!(Config::default().worktrees().is_empty());
}
