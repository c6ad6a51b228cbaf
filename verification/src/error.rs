//! The failures that the registry and the command protocols report.

use crate::text::{debug_form, to_debug_form};
use vstd::prelude::*;
use vstd::std_specs::convert::FromSpecImpl;
use vstd::string::*;

verus! {

/// `git2::Error`, as an opaque value.
#[verifier::external_type_specification]
#[verifier::external_body]
pub struct ExGitError(git2::Error);

/// `git2::ErrorCode`, as an opaque value.
#[verifier::external_type_specification]
#[verifier::external_body]
pub struct ExGitErrorCode(git2::ErrorCode);

/// `git2::ErrorClass`, as an opaque value.
#[verifier::external_type_specification]
#[verifier::external_body]
pub struct ExGitErrorClass(git2::ErrorClass);

/// The code of an error of the version-control library, as
/// `git2::Error::code` gives it.
pub uninterp spec fn git_code(error: git2::Error) -> git2::ErrorCode;

/// The class of an error of the version-control library, as
/// `git2::Error::class` gives it.
pub uninterp spec fn git_class(error: git2::Error) -> git2::ErrorClass;

/// The message of an error of the version-control library, as
/// `git2::Error::message` gives it.
pub uninterp spec fn git_message(error: git2::Error) -> Seq<char>;

/// The name of a code, as the `Debug` formatting of `git2::ErrorCode`
/// writes it.
pub uninterp spec fn code_text(code: git2::ErrorCode) -> Seq<char>;

/// The name of a class, as the `Debug` formatting of `git2::ErrorClass`
/// writes it.
pub uninterp spec fn class_text(class: git2::ErrorClass) -> Seq<char>;

/// `git2::Error::code` returns the code of the error, which depends on the
/// error alone. Nothing is claimed of which code it is.
pub assume_specification[ git2::Error::code ](error: &git2::Error) -> (code: git2::ErrorCode)
    ensures
        code == git_code(*error),
;

/// `git2::Error::class` returns the class of the error, which depends on
/// the error alone. Nothing is claimed of which class it is.
pub assume_specification[ git2::Error::class ](error: &git2::Error) -> (class: git2::ErrorClass)
    ensures
        class == git_class(*error),
;

/// `git2::Error::message` returns the text of the error, which depends on
/// the error alone. Nothing is claimed of what it says.
pub assume_specification<'a>[ git2::Error::message ](error: &'a git2::Error) -> (message: &'a str)
    ensures
        message@ == git_message(*error),
;

/// Formats a `git2::ErrorCode` with `{:?}`. The text is the name of the
/// code, which depends on the code alone.
#[verifier::external_body]
fn code_name(code: &git2::ErrorCode) -> (name: String)
    ensures
        name@ == code_text(*code),
{
    format!("{:?}", code)
}

/// Formats a `git2::ErrorClass` with `{:?}`. The text is the name of the
/// class, which depends on the class alone.
#[verifier::external_body]
fn class_name(class: &git2::ErrorClass) -> (name: String)
    ensures
        name@ == class_text(*class),
{
    format!("{:?}", class)
}

/// A failure of the registry, of an adapter or of a command protocol.
#[derive(Debug, PartialEq, Eq)]
pub enum RedwoodError {
    /// The registry could not be encoded or stored.
    ConfigWriteError(String),
    /// The stored registry exists and could not be read.
    ConfigReadError(String),
    /// The stored registry was read and is not a registry.
    ConfigCorrupt(String),
    /// Neither the configuration home nor the user's home is known.
    ConfigPathUnresolvable,
    /// No tracked workspace answers to the identifier.
    WorkTreeConfigNotFound { worktree_name: String },
    /// A tracked workspace already has this path and this name.
    WorkTreeConfigAlreadyExists,
    /// The version-control adapter failed.
    GitError { code: git2::ErrorCode, class: git2::ErrorClass, message: String },
    /// A command of the session adapter could not be run.
    CommandError { command: String, message: String },
    /// The session adapter failed.
    TmuxError(String),
    /// The path to import does not name a directory that can be resolved.
    InvalidPathError { worktree_path: String, msg: String },
}

/// A failure as plain values.
pub enum ErrorView {
    ConfigWriteError(Seq<char>),
    ConfigReadError(Seq<char>),
    ConfigCorrupt(Seq<char>),
    ConfigPathUnresolvable,
    WorkTreeConfigNotFound { worktree_name: Seq<char> },
    WorkTreeConfigAlreadyExists,
    GitError { code: git2::ErrorCode, class: git2::ErrorClass, message: Seq<char> },
    CommandError { command: Seq<char>, message: Seq<char> },
    TmuxError(Seq<char>),
    InvalidPathError { worktree_path: Seq<char>, msg: Seq<char> },
}

impl View for RedwoodError {
    type V = ErrorView;

    open spec fn view(&self) -> ErrorView {
        match self {
            RedwoodError::ConfigWriteError(msg) => ErrorView::ConfigWriteError(msg@),
            RedwoodError::ConfigReadError(msg) => ErrorView::ConfigReadError(msg@),
            RedwoodError::ConfigCorrupt(msg) => ErrorView::ConfigCorrupt(msg@),
            RedwoodError::ConfigPathUnresolvable => ErrorView::ConfigPathUnresolvable,
            RedwoodError::WorkTreeConfigNotFound { worktree_name } => {
                ErrorView::WorkTreeConfigNotFound { worktree_name: worktree_name@ }
            },
            RedwoodError::WorkTreeConfigAlreadyExists => ErrorView::WorkTreeConfigAlreadyExists,
            RedwoodError::GitError { code, class, message } => ErrorView::GitError {
                code: *code,
                class: *class,
                message: message@,
            },
            RedwoodError::CommandError { command, message } => ErrorView::CommandError {
                command: command@,
                message: message@,
            },
            RedwoodError::TmuxError(msg) => ErrorView::TmuxError(msg@),
            RedwoodError::InvalidPathError { worktree_path, msg } => ErrorView::InvalidPathError {
                worktree_path: worktree_path@,
                msg: msg@,
            },
        }
    }
}

/// The wording of a failure of the version-control adapter, given the names
/// of its code and of its class.
pub open spec fn git_wording(
    code_name: Seq<char>,
    class_name: Seq<char>,
    message: Seq<char>,
) -> Seq<char> {
    "git failed with code="@ + code_name + ", class="@ + class_name + ", message: "@ + message
}

impl ErrorView {
    /// The wording of the failure. A failure of the version-control adapter
    /// is worded with the names of its code and of its class.
    pub open spec fn wording(self) -> Seq<char> {
        match self {
            ErrorView::ConfigWriteError(msg) => "failed to write config file: "@ + msg,
            ErrorView::ConfigReadError(msg) => "failed to read config file: "@ + msg,
            ErrorView::ConfigCorrupt(msg) => "config file is malformed: "@ + msg,
            ErrorView::ConfigPathUnresolvable => {
                "could not resolve path to config variable (make sure $XDG_CONFIG_HOME or $HOME is set)"@
            },
            ErrorView::WorkTreeConfigNotFound { worktree_name } => {
                "work tree configuration "@ + worktree_name + " not found"@
            },
            ErrorView::WorkTreeConfigAlreadyExists => "work tree configuration already exists"@,
            ErrorView::GitError { code, class, message } => git_wording(
                code_text(code),
                class_text(class),
                message,
            ),
            ErrorView::CommandError { command, message } => {
                "failed to execute command \""@ + command + "\": "@ + message
            },
            ErrorView::TmuxError(msg) => msg,
            ErrorView::InvalidPathError { worktree_path, msg } => {
                "invalid path "@ + debug_form(worktree_path) + ": "@ + msg
            },
        }
    }
}

/// Words a failure of the version-control adapter from the names of its code
/// and of its class and from its message.
pub fn git_failure_text(code_name: &str, class_name: &str, message: &str) -> (text: String)
    ensures
        text@ == git_wording(code_name@, class_name@, message@),
{
    let mut text = String::from_str("git failed with code=");
    text.append(code_name);
    text.append(", class=");
    text.append(class_name);
    text.append(", message: ");
    text.append(message);
    text
}

impl RedwoodError {
    /// The failure of the version-control adapter with this code, this class
    /// and this message.
    pub fn git(code: git2::ErrorCode, class: git2::ErrorClass, message: &str) -> (failure:
        RedwoodError)
        ensures
            failure@ == (ErrorView::GitError { code, class, message: message@ }),
    {
        RedwoodError::GitError { code, class, message: message.to_owned() }
    }

    /// The failure in words, as it is shown to the user.
    pub fn to_string(&self) -> (text: String)
        ensures
            text@ == self@.wording(),
    {
        match self {
            RedwoodError::ConfigWriteError(msg) => {
                let mut text = String::from_str("failed to write config file: ");
                text.append(msg.as_str());
                text
            },
            RedwoodError::ConfigReadError(msg) => {
                let mut text = String::from_str("failed to read config file: ");
                text.append(msg.as_str());
                text
            },
            RedwoodError::ConfigCorrupt(msg) => {
                let mut text = String::from_str("config file is malformed: ");
                text.append(msg.as_str());
                text
            },
            RedwoodError::ConfigPathUnresolvable => String::from_str(
                "could not resolve path to config variable (make sure $XDG_CONFIG_HOME or $HOME is set)",
            ),
            RedwoodError::WorkTreeConfigNotFound { worktree_name } => {
                let mut text = String::from_str("work tree configuration ");
                text.append(worktree_name.as_str());
                text.append(" not found");
                text
            },
            RedwoodError::WorkTreeConfigAlreadyExists => String::from_str(
                "work tree configuration already exists",
            ),
            RedwoodError::GitError { code, class, message } => {
                let code = code_name(code);
                let class = class_name(class);
                git_failure_text(code.as_str(), class.as_str(), message.as_str())
            },
            RedwoodError::CommandError { command, message } => {
                let mut text = String::from_str("failed to execute command \"");
                text.append(command.as_str());
                text.append("\": ");
                text.append(message.as_str());
                text
            },
            RedwoodError::TmuxError(msg) => msg.clone(),
            RedwoodError::InvalidPathError { worktree_path, msg } => {
                let quoted = to_debug_form(worktree_path.as_str());
                let mut text = String::from_str("invalid path ");
                text.append(quoted.as_str());
                text.append(": ");
                text.append(msg.as_str());
                text
            },
        }
    }
}

impl From<git2::Error> for RedwoodError {
    /// The failure of the version-control adapter that holds the code, the
    /// class and the message of `error`.
    fn from(error: git2::Error) -> (failure: RedwoodError)
        ensures
            failure@ == (ErrorView::GitError {
                code: git_code(error),
                class: git_class(error),
                message: git_message(error),
            }),
    {
        RedwoodError::git(error.code(), error.class(), error.message())
    }
}

/// The conversion is stated on the view of its result; no function gives
/// the result itself, whose message is a string made anew.
impl FromSpecImpl<git2::Error> for RedwoodError {
    open spec fn obeys_from_spec() -> bool {
        false
    }

    open spec fn from_spec(error: git2::Error) -> RedwoodError {
        arbitrary()
    }
}

} // verus!
