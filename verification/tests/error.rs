use redwood::error::{git_failure_text, RedwoodError};

fn text(s: &str) -> String {
    String::from(s)
}

#[test]
fn failures_in_words() {
    assert_eq!(
        RedwoodError::ConfigWriteError(text("x")).to_string(),
        "failed to write config file: x"
    );
    assert_eq!(
        RedwoodError::ConfigReadError(text("y")).to_string(),
        "failed to read config file: y"
    );
    assert_eq!(
        RedwoodError::ConfigCorrupt(text("z")).to_string(),
        "config file is malformed: z"
    );
    assert_eq!(
        RedwoodError::ConfigPathUnresolvable.to_string(),
        "could not resolve path to config variable (make sure $XDG_CONFIG_HOME or $HOME is set)"
    );
    assert_eq!(
        RedwoodError::WorkTreeConfigNotFound { worktree_name: text("wt") }.to_string(),
        "work tree configuration wt not found"
    );
    assert_eq!(
        RedwoodError::WorkTreeConfigAlreadyExists.to_string(),
        "work tree configuration already exists"
    );
    assert_eq!(
        RedwoodError::CommandError { command: text("tmux"), message: text("not found") }
            .to_string(),
        "failed to execute command \"tmux\": not found"
    );
    assert_eq!(RedwoodError::TmuxError(text("no server")).to_string(), "no server");
}

#[test]
fn invalid_path_is_quoted() {
    let failure =
        RedwoodError::InvalidPathError { worktree_path: text("a \"b\"/c"), msg: text("gone") };
    assert_eq!(failure.to_string(), "invalid path \"a \\\"b\\\"/c\": gone");
    assert_eq!(
        failure.to_string(),
        format!("invalid path {:?}: {}", std::path::PathBuf::from("a \"b\"/c"), "gone")
    );
}

#[test]
fn git_failure_names_code_and_class() {
    let failure = RedwoodError::GitError {
        code: git2::ErrorCode::Exists,
        class: git2::ErrorClass::Reference,
        message: text("a reference exists"),
    };
    assert_eq!(
        failure.to_string(),
        "git failed with code=Exists, class=Reference, message: a reference exists"
    );
    assert_eq!(
        git_failure_text("C", "K", "m"),
        "git failed with code=C, class=K, message: m"
    );
}

#[test]
fn git_error_keeps_code_class_and_message() {
    let error = git2::Error::new(
        git2::ErrorCode::NotFound,
        git2::ErrorClass::Worktree,
        "no such worktree",
    );
    assert_eq!(
        RedwoodError::from(error),
        RedwoodError::GitError {
            code: git2::ErrorCode::NotFound,
            class: git2::ErrorClass::Worktree,
            message: text("no such worktree"),
        }
    );
    let plain: RedwoodError = git2::Error::from_str("boom").into();
    assert_eq!(
        plain.to_string(),
        "git failed with code=GenericError, class=None, message: boom"
    );
}

#[test]
fn git_failure_from_its_parts() {
    assert_eq!(
        RedwoodError::git(git2::ErrorCode::Locked, git2::ErrorClass::Index, "index is locked"),
        RedwoodError::GitError {
            code: git2::ErrorCode::Locked,
            class: git2::ErrorClass::Index,
            message: String::from("index is locked"),
        }
    );
}
