//! The command protocols. A command does not reach the repository, the
//! sessions or the stored registry itself: it asks for one thing at a time,
//! and goes on from the reply. Each protocol is a function from the stage
//! reached, the reply and the registry to the next stage, the next request
//! and the registry as it then stands.

use crate::cli::{CommandView, Commands};
use crate::conf::{holds_pair, listing, position, views, Config, WorktreeConfig, WorktreeView};
use crate::error::{ErrorView, RedwoodError};
use crate::path::{final_component, join, joined, last_component};
use vstd::prelude::*;
use vstd::string::*;

verus! {

/// What the version-control adapter knows of the repository at a path.
#[derive(Debug, PartialEq, Eq)]
pub struct RepoMeta {
    /// The directory that holds the repository's worktrees.
    pub root_path: String,
    /// Whether the repository is bare.
    pub is_bare: bool,
}

/// The repository at a path, as plain values.
pub struct RepoMetaView {
    pub root_path: Seq<char>,
    pub is_bare: bool,
}

impl View for RepoMeta {
    type V = RepoMetaView;

    open spec fn view(&self) -> RepoMetaView {
        RepoMetaView { root_path: self.root_path@, is_bare: self.is_bare }
    }
}

/// What a command asks for.
#[derive(Debug, PartialEq, Eq)]
pub enum Request {
    /// The repository at `path`.
    ResolveRepo { path: String },
    /// A new worktree named `name` in the repository rooted at `repo_root`.
    CreateWorktree { repo_root: String, name: String },
    /// The removal of the worktree named `name` from the repository rooted
    /// at `repo_root`.
    DeleteWorktree { repo_root: String, name: String },
    /// The registry, as it now stands, stored.
    WriteConfig,
    /// A new session named `name` in `directory`.
    NewSession { name: String, directory: String },
    /// The terminal attached to the session named `name`.
    AttachSession { name: String },
    /// The end of the session named `name`.
    KillSession { name: String },
    /// The absolute path, free of links, of `path`.
    Canonicalize { path: String },
    /// These lines on standard output.
    Print { lines: Vec<String> },
    /// Nothing more: the command has ended with `result`.
    Finish { result: Result<(), RedwoodError> },
}

/// A request as plain values.
pub enum RequestView {
    ResolveRepo { path: Seq<char> },
    CreateWorktree { repo_root: Seq<char>, name: Seq<char> },
    DeleteWorktree { repo_root: Seq<char>, name: Seq<char> },
    WriteConfig,
    NewSession { name: Seq<char>, directory: Seq<char> },
    AttachSession { name: Seq<char> },
    KillSession { name: Seq<char> },
    Canonicalize { path: Seq<char> },
    Print { lines: Seq<Seq<char>> },
    Finish { result: Result<(), ErrorView> },
}

/// The result of a command as plain values.
pub open spec fn result_view(result: Result<(), RedwoodError>) -> Result<(), ErrorView> {
    match result {
        Ok(()) => Ok(()),
        Err(e) => Err(e@),
    }
}

impl View for Request {
    type V = RequestView;

    open spec fn view(&self) -> RequestView {
        match self {
            Request::ResolveRepo { path } => RequestView::ResolveRepo { path: path@ },
            Request::CreateWorktree { repo_root, name } => RequestView::CreateWorktree {
                repo_root: repo_root@,
                name: name@,
            },
            Request::DeleteWorktree { repo_root, name } => RequestView::DeleteWorktree {
                repo_root: repo_root@,
                name: name@,
            },
            Request::WriteConfig => RequestView::WriteConfig,
            Request::NewSession { name, directory } => RequestView::NewSession {
                name: name@,
                directory: directory@,
            },
            Request::AttachSession { name } => RequestView::AttachSession { name: name@ },
            Request::KillSession { name } => RequestView::KillSession { name: name@ },
            Request::Canonicalize { path } => RequestView::Canonicalize { path: path@ },
            Request::Print { lines } => RequestView::Print { lines: lines.deep_view() },
            Request::Finish { result } => RequestView::Finish { result: result_view(*result) },
        }
    }
}

/// The reply to a request.
#[derive(Debug, PartialEq, Eq)]
pub enum Reply {
    /// It was done, and there is nothing to hand back.
    Done,
    /// The repository that was asked for.
    Repo(RepoMeta),
    /// The path that was asked for.
    Path(String),
    /// The path could not be made absolute, for this reason.
    Unresolved(String),
    /// It failed.
    Failed(RedwoodError),
}

/// A reply as plain values.
pub enum ReplyView {
    Done,
    Repo(RepoMetaView),
    Path(Seq<char>),
    Unresolved(Seq<char>),
    Failed(ErrorView),
}

impl View for Reply {
    type V = ReplyView;

    open spec fn view(&self) -> ReplyView {
        match self {
            Reply::Done => ReplyView::Done,
            Reply::Repo(meta) => ReplyView::Repo(meta@),
            Reply::Path(path) => ReplyView::Path(path@),
            Reply::Unresolved(reason) => ReplyView::Unresolved(reason@),
            Reply::Failed(e) => ReplyView::Failed(e@),
        }
    }
}

/// A failure that may be there, as plain values.
pub open spec fn failure_view(reported: Option<RedwoodError>) -> Option<ErrorView> {
    match reported {
        Some(e) => Some(e@),
        None => None,
    }
}

/// How far a command has come: the request whose reply it waits for, and
/// what it has to remember until then.
#[derive(Debug, PartialEq, Eq)]
pub enum Stage {
    /// New waits for the repository.
    NewResolving,
    /// New waits for the worktree at `worktree_path`.
    NewCreatingWorktree { worktree_path: String },
    /// New waits for the registry to be stored.
    NewWriting { worktree_path: String },
    /// New waits for the session.
    NewCreatingSession,
    /// New waits for the terminal to come back from the session.
    NewAttaching,
    /// Open waits for the session named `session_name`.
    OpenCreatingSession { session_name: String },
    /// Open waits for the terminal to come back from the session.
    OpenAttaching,
    /// Delete waits for the repository of the workspace named
    /// `worktree_name`, whose session is named `session_name`.
    DeleteResolving { worktree_name: String, session_name: String },
    /// Delete waits for the removal of the worktree.
    DeleteRemovingWorktree { session_name: String },
    /// Delete waits for the end of the session.
    DeleteKilling,
    /// Delete waits for the registry to be stored, and has `reported` to
    /// hand on where the session could not be ended.
    DeleteWriting { reported: Option<RedwoodError> },
    /// Import waits for the absolute path.
    ImportCanonicalizing,
    /// Import waits for the registry to be stored.
    ImportWriting,
    /// List or Version waits for its lines to be printed.
    Printing,
    /// The command has ended.
    Finished,
}

/// A stage as plain values.
pub enum StageView {
    NewResolving,
    NewCreatingWorktree { worktree_path: Seq<char> },
    NewWriting { worktree_path: Seq<char> },
    NewCreatingSession,
    NewAttaching,
    OpenCreatingSession { session_name: Seq<char> },
    OpenAttaching,
    DeleteResolving { worktree_name: Seq<char>, session_name: Seq<char> },
    DeleteRemovingWorktree { session_name: Seq<char> },
    DeleteKilling,
    DeleteWriting { reported: Option<ErrorView> },
    ImportCanonicalizing,
    ImportWriting,
    Printing,
    Finished,
}

impl View for Stage {
    type V = StageView;

    open spec fn view(&self) -> StageView {
        match self {
            Stage::NewResolving => StageView::NewResolving,
            Stage::NewCreatingWorktree { worktree_path } => StageView::NewCreatingWorktree {
                worktree_path: worktree_path@,
            },
            Stage::NewWriting { worktree_path } => StageView::NewWriting {
                worktree_path: worktree_path@,
            },
            Stage::NewCreatingSession => StageView::NewCreatingSession,
            Stage::NewAttaching => StageView::NewAttaching,
            Stage::OpenCreatingSession { session_name } => StageView::OpenCreatingSession {
                session_name: session_name@,
            },
            Stage::OpenAttaching => StageView::OpenAttaching,
            Stage::DeleteResolving { worktree_name, session_name } => StageView::DeleteResolving {
                worktree_name: worktree_name@,
                session_name: session_name@,
            },
            Stage::DeleteRemovingWorktree { session_name } => StageView::DeleteRemovingWorktree {
                session_name: session_name@,
            },
            Stage::DeleteKilling => StageView::DeleteKilling,
            Stage::DeleteWriting { reported } => StageView::DeleteWriting {
                reported: failure_view(*reported),
            },
            Stage::ImportCanonicalizing => StageView::ImportCanonicalizing,
            Stage::ImportWriting => StageView::ImportWriting,
            Stage::Printing => StageView::Printing,
            Stage::Finished => StageView::Finished,
        }
    }
}

/// One step of a command: the stage it has reached and what it asks for.
#[derive(Debug, PartialEq, Eq)]
pub struct Step {
    pub stage: Stage,
    pub request: Request,
}

/// One step of a command as plain values, with the registry as the step
/// leaves it.
pub struct Outcome {
    pub stage: StageView,
    pub request: RequestView,
    pub registry: Seq<WorktreeView>,
}

/// The step `step` that leaves the registry as `registry`.
pub open spec fn outcome_of(step: Step, registry: Seq<WorktreeView>) -> Outcome {
    Outcome { stage: step.stage@, request: step.request@, registry }
}

/// The end of a command with `result`.
pub open spec fn finished(result: Result<(), ErrorView>, registry: Seq<WorktreeView>) -> Outcome {
    Outcome { stage: StageView::Finished, request: RequestView::Finish { result }, registry }
}

/// The failure of a command whose identifier no record answers to.
pub open spec fn not_found(identifier: Seq<char>) -> ErrorView {
    ErrorView::WorkTreeConfigNotFound { worktree_name: identifier }
}

/// The name of the session of a new or imported workspace: the name given
/// for it, or else the name of the workspace.
pub open spec fn session_name_for(worktree_name: Seq<char>, given: Option<Seq<char>>) -> Seq<char> {
    match given {
        Some(name) => name,
        None => worktree_name,
    }
}

/// Tracking `wt`: where the registry holds its path and name already, the
/// command ends there; otherwise the record is added and the registry is to
/// be stored, which `stage` waits for.
pub open spec fn recorded(
    registry: Seq<WorktreeView>,
    wt: WorktreeView,
    stage: StageView,
) -> Outcome {
    if holds_pair(registry, wt) {
        finished(Err(ErrorView::WorkTreeConfigAlreadyExists), registry)
    } else {
        Outcome { stage, request: RequestView::WriteConfig, registry: registry.push(wt) }
    }
}

/// Forgetting the workspace that answers to `identifier`: where none does,
/// the command ends there; otherwise the record is removed and the registry
/// is to be stored.
pub open spec fn forgotten(
    registry: Seq<WorktreeView>,
    identifier: Seq<char>,
    reported: Option<ErrorView>,
) -> Outcome {
    match position(registry, identifier) {
        Some(i) => Outcome {
            stage: StageView::DeleteWriting { reported },
            request: RequestView::WriteConfig,
            registry: registry.remove(i),
        },
        None => finished(Err(not_found(identifier)), registry),
    }
}

/// The name of the program.
pub const PKG_NAME: &'static str = "redwood";

/// The version of the program.
pub const PKG_VERSION: &'static str = "0.1.0";

/// The line that Version prints: the name of the program and its version.
pub open spec fn version_line() -> Seq<char> {
    PKG_NAME@ + " v"@ + PKG_VERSION@
}

/// The paths of the records, in their order.
pub open spec fn paths_of(records: Seq<WorktreeView>) -> Seq<Seq<char>> {
    records.map_values(|wt: WorktreeView| wt.repo_path)
}

/// The first step of a command.
pub open spec fn begun(command: CommandView, registry: Seq<WorktreeView>) -> Outcome {
    match command {
        CommandView::New { repo_path, .. } => Outcome {
            stage: StageView::NewResolving,
            request: RequestView::ResolveRepo {
                path: match repo_path {
                    Some(path) => path,
                    None => "."@,
                },
            },
            registry,
        },
        CommandView::Open { identifier } => match position(registry, identifier) {
            Some(i) => Outcome {
                stage: StageView::OpenCreatingSession { session_name: registry[i].session_name() },
                request: RequestView::NewSession {
                    name: registry[i].session_name(),
                    directory: registry[i].repo_path,
                },
                registry,
            },
            None => finished(Err(not_found(identifier)), registry),
        },
        CommandView::Delete { identifier } => match position(registry, identifier) {
            Some(i) => Outcome {
                stage: StageView::DeleteResolving {
                    worktree_name: registry[i].worktree_name,
                    session_name: registry[i].session_name(),
                },
                request: RequestView::ResolveRepo { path: registry[i].repo_path },
                registry,
            },
            None => finished(Err(not_found(identifier)), registry),
        },
        CommandView::Import { worktree_path, .. } => Outcome {
            stage: StageView::ImportCanonicalizing,
            request: RequestView::Canonicalize { path: worktree_path },
            registry,
        },
        CommandView::List => Outcome {
            stage: StageView::Printing,
            request: RequestView::Print { lines: paths_of(listing(registry)) },
            registry,
        },
        CommandView::Version => Outcome {
            stage: StageView::Printing,
            request: RequestView::Print { lines: seq![version_line()] },
            registry,
        },
    }
}

/// The step of New that follows `reply` at `stage`.
pub open spec fn new_resumed(
    worktree_name: Seq<char>,
    tmux_session_name: Option<Seq<char>>,
    stage: StageView,
    reply: ReplyView,
    registry: Seq<WorktreeView>,
) -> Option<Outcome> {
    match stage {
        StageView::NewResolving => match reply {
            ReplyView::Repo(meta) => Some(
                Outcome {
                    stage: StageView::NewCreatingWorktree {
                        worktree_path: joined(meta.root_path, worktree_name),
                    },
                    request: RequestView::CreateWorktree {
                        repo_root: meta.root_path,
                        name: worktree_name,
                    },
                    registry,
                },
            ),
            ReplyView::Failed(e) => Some(finished(Err(e), registry)),
            _ => None,
        },
        StageView::NewCreatingWorktree { worktree_path } => match reply {
            ReplyView::Done => Some(
                recorded(
                    registry,
                    WorktreeView { repo_path: worktree_path, worktree_name, tmux_session_name },
                    StageView::NewWriting { worktree_path },
                ),
            ),
            ReplyView::Failed(e) => Some(finished(Err(e), registry)),
            _ => None,
        },
        StageView::NewWriting { worktree_path } => match reply {
            ReplyView::Done => Some(
                Outcome {
                    stage: StageView::NewCreatingSession,
                    request: RequestView::NewSession {
                        name: session_name_for(worktree_name, tmux_session_name),
                        directory: worktree_path,
                    },
                    registry,
                },
            ),
            ReplyView::Failed(e) => Some(finished(Err(e), registry)),
            _ => None,
        },
        StageView::NewCreatingSession => match reply {
            ReplyView::Done => Some(
                Outcome {
                    stage: StageView::NewAttaching,
                    request: RequestView::AttachSession {
                        name: session_name_for(worktree_name, tmux_session_name),
                    },
                    registry,
                },
            ),
            ReplyView::Failed(e) => Some(finished(Err(e), registry)),
            _ => None,
        },
        StageView::NewAttaching => match reply {
            ReplyView::Done => Some(finished(Ok(()), registry)),
            ReplyView::Failed(e) => Some(finished(Err(e), registry)),
            _ => None,
        },
        _ => None,
    }
}

/// The step of Open that follows `reply` at `stage`.
pub open spec fn open_resumed(
    stage: StageView,
    reply: ReplyView,
    registry: Seq<WorktreeView>,
) -> Option<Outcome> {
    match stage {
        StageView::OpenCreatingSession { session_name } => match reply {
            ReplyView::Done => Some(
                Outcome {
                    stage: StageView::OpenAttaching,
                    request: RequestView::AttachSession { name: session_name },
                    registry,
                },
            ),
            ReplyView::Failed(e) => Some(finished(Err(e), registry)),
            _ => None,
        },
        StageView::OpenAttaching => match reply {
            ReplyView::Done => Some(finished(Ok(()), registry)),
            ReplyView::Failed(e) => Some(finished(Err(e), registry)),
            _ => None,
        },
        _ => None,
    }
}

/// The step of Delete that follows `reply` at `stage`. The worktree is
/// removed from a bare repository only. A session that could not be ended
/// does not keep the record: the record is removed and the registry stored
/// all the same, and the failure is handed on at the end.
pub open spec fn delete_resumed(
    identifier: Seq<char>,
    stage: StageView,
    reply: ReplyView,
    registry: Seq<WorktreeView>,
) -> Option<Outcome> {
    match stage {
        StageView::DeleteResolving { worktree_name, session_name } => match reply {
            ReplyView::Repo(meta) => Some(
                if meta.is_bare {
                    Outcome {
                        stage: StageView::DeleteRemovingWorktree { session_name },
                        request: RequestView::DeleteWorktree {
                            repo_root: meta.root_path,
                            name: worktree_name,
                        },
                        registry,
                    }
                } else {
                    Outcome {
                        stage: StageView::DeleteKilling,
                        request: RequestView::KillSession { name: session_name },
                        registry,
                    }
                },
            ),
            ReplyView::Failed(e) => Some(finished(Err(e), registry)),
            _ => None,
        },
        StageView::DeleteRemovingWorktree { session_name } => match reply {
            ReplyView::Done => Some(
                Outcome {
                    stage: StageView::DeleteKilling,
                    request: RequestView::KillSession { name: session_name },
                    registry,
                },
            ),
            ReplyView::Failed(e) => Some(finished(Err(e), registry)),
            _ => None,
        },
        StageView::DeleteKilling => match reply {
            ReplyView::Done => Some(forgotten(registry, identifier, None)),
            ReplyView::Failed(e) => Some(forgotten(registry, identifier, Some(e))),
            _ => None,
        },
        StageView::DeleteWriting { reported } => match reply {
            ReplyView::Done => Some(
                finished(
                    match reported {
                        Some(e) => Err(e),
                        None => Ok(()),
                    },
                    registry,
                ),
            ),
            ReplyView::Failed(e) => Some(finished(Err(e), registry)),
            _ => None,
        },
        _ => None,
    }
}

/// The step of Import that follows `reply` at `stage`.
pub open spec fn import_resumed(
    worktree_path: Seq<char>,
    tmux_session_name: Option<Seq<char>>,
    stage: StageView,
    reply: ReplyView,
    registry: Seq<WorktreeView>,
) -> Option<Outcome> {
    match stage {
        StageView::ImportCanonicalizing => match reply {
            ReplyView::Path(path) => Some(
                recorded(
                    registry,
                    WorktreeView {
                        repo_path: path,
                        worktree_name: final_component(path),
                        tmux_session_name,
                    },
                    StageView::ImportWriting,
                ),
            ),
            ReplyView::Unresolved(reason) => Some(
                finished(
                    Err(ErrorView::InvalidPathError { worktree_path, msg: reason }),
                    registry,
                ),
            ),
            ReplyView::Failed(e) => Some(finished(Err(e), registry)),
            _ => None,
        },
        StageView::ImportWriting => match reply {
            ReplyView::Done => Some(finished(Ok(()), registry)),
            ReplyView::Failed(e) => Some(finished(Err(e), registry)),
            _ => None,
        },
        _ => None,
    }
}

/// The step of List and of Version that follows `reply` at `stage`.
pub open spec fn print_resumed(
    stage: StageView,
    reply: ReplyView,
    registry: Seq<WorktreeView>,
) -> Option<Outcome> {
    match stage {
        StageView::Printing => match reply {
            ReplyView::Done => Some(finished(Ok(()), registry)),
            ReplyView::Failed(e) => Some(finished(Err(e), registry)),
            _ => None,
        },
        _ => None,
    }
}

/// The step of a command that follows `reply` at `stage`; none where the
/// stage is not one of the command or the reply does not answer what the
/// stage waits for.
pub open spec fn resumed(
    command: CommandView,
    stage: StageView,
    reply: ReplyView,
    registry: Seq<WorktreeView>,
) -> Option<Outcome> {
    match command {
        CommandView::New { worktree_name, tmux_session_name, .. } => new_resumed(
            worktree_name,
            tmux_session_name,
            stage,
            reply,
            registry,
        ),
        CommandView::Open { .. } => open_resumed(stage, reply, registry),
        CommandView::Delete { identifier } => delete_resumed(identifier, stage, reply, registry),
        CommandView::Import { worktree_path, tmux_session_name } => import_resumed(
            worktree_path,
            tmux_session_name,
            stage,
            reply,
            registry,
        ),
        CommandView::List => print_resumed(stage, reply, registry),
        CommandView::Version => print_resumed(stage, reply, registry),
    }
}

/// Whether `step`, which leaves the registry as `after`, is the step
/// `expected`; where none is expected, whether there is none and the
/// registry is as it was.
pub open spec fn step_is(
    step: Option<Step>,
    after: Seq<WorktreeView>,
    expected: Option<Outcome>,
    before: Seq<WorktreeView>,
) -> bool {
    match expected {
        Some(outcome) => step matches Some(taken) && outcome_of(taken, after) == outcome,
        None => step is None && after == before,
    }
}

/// A command that is run step by step.
pub trait Command {
    /// The command and its parameters as plain values.
    spec fn model(&self) -> CommandView;

    /// Takes the first step of the command.
    fn execute(&self, cfg: &mut Config) -> (step: Step)
        ensures
            outcome_of(step, final(cfg)@) == begun(self.model(), old(cfg)@),
    ;

    /// Takes the step that follows `reply` at `stage`, if there is one.
    fn resume(&self, stage: Stage, reply: Reply, cfg: &mut Config) -> (step: Option<Step>)
        ensures
            step_is(
                step,
                final(cfg)@,
                resumed(self.model(), stage@, reply@, old(cfg)@),
                old(cfg)@,
            ),
    ;
}

/// The last step of a command.
fn finish(result: Result<(), RedwoodError>) -> (step: Step)
    ensures
        step.stage@ == StageView::Finished,
        step.request@ == (RequestView::Finish { result: result_view(result) }),
{
    Step { stage: Stage::Finished, request: Request::Finish { result } }
}

/// The failure of a command whose identifier no record answers to.
fn not_found_failure(identifier: &str) -> (failure: RedwoodError)
    ensures
        failure@ == not_found(identifier@),
{
    RedwoodError::WorkTreeConfigNotFound { worktree_name: identifier.to_owned() }
}

/// The record of a workspace at `path` named `name`, with the session name
/// given for it, if any.
fn new_record(path: &str, name: &str, session: &Option<String>) -> (wt: WorktreeConfig)
    ensures
        wt@ == (WorktreeView {
            repo_path: path@,
            worktree_name: name@,
            tmux_session_name: session.deep_view(),
        }),
{
    let mut wt = WorktreeConfig::new(path, name);
    match session {
        Some(given) => {
            wt.set_tmux_session_name(given.as_str());
        },
        None => {},
    }
    wt
}

/// The name of the session of a new workspace.
fn session_for(worktree_name: &String, given: &Option<String>) -> (name: String)
    ensures
        name@ == session_name_for(worktree_name@, given.deep_view()),
{
    match given {
        Some(name) => name.clone(),
        None => worktree_name.clone(),
    }
}

/// Adds `wt` to the registry and asks for the registry to be stored, or
/// ends the command where the registry holds its path and name already.
fn record(cfg: &mut Config, wt: WorktreeConfig, stage: Stage) -> (step: Step)
    ensures
        outcome_of(step, final(cfg)@) == recorded(old(cfg)@, wt@, stage@),
{
    match cfg.add_worktree(wt) {
        Ok(()) => Step { stage, request: Request::WriteConfig },
        Err(e) => finish(Err(e)),
    }
}

/// Removes the record that answers to `identifier` and asks for the
/// registry to be stored, or ends the command where no record answers.
fn forget(cfg: &mut Config, identifier: &str, reported: Option<RedwoodError>) -> (step: Step)
    ensures
        outcome_of(step, final(cfg)@) == forgotten(
            old(cfg)@,
            identifier@,
            failure_view(reported),
        ),
{
    match cfg.remove_worktree(identifier) {
        Ok(()) => Step { stage: Stage::DeleteWriting { reported }, request: Request::WriteConfig },
        Err(e) => finish(Err(e)),
    }
}

/// The paths of the listed records, one line each.
fn listed_paths(cfg: &Config) -> (lines: Vec<String>)
    ensures
        lines.deep_view() == paths_of(listing(cfg@)),
{
    let listed = cfg.list();
    let mut lines: Vec<String> = Vec::new();
    let mut i: usize = 0;
    while i < listed.len()
        invariant
            i <= listed.len(),
            lines.len() == i,
            forall|k: int| 0 <= k < i ==> (#[trigger] lines[k])@ == listed[k]@.repo_path,
        decreases listed.len() - i,
    {
        lines.push(listed[i].repo_path().to_owned());
        i = i + 1;
    }
    assert(lines.deep_view() =~= paths_of(views(listed@)));
    lines
}

/// The line that Version prints.
fn version_text() -> (line: String)
    ensures
        line@ == version_line(),
{
    let mut line = String::from_str(PKG_NAME);
    line.append(" v");
    line.append(PKG_VERSION);
    line
}

/// The first step of Open: the session of the workspace is asked for.
fn open_execute(identifier: &str, cfg: &Config) -> (step: Step)
    ensures
        outcome_of(step, cfg@) == begun((CommandView::Open { identifier: identifier@ }), cfg@),
{
    match cfg.find(identifier) {
        Some((_, wt)) => Step {
            stage: Stage::OpenCreatingSession { session_name: wt.session_name().to_owned() },
            request: Request::NewSession {
                name: wt.session_name().to_owned(),
                directory: wt.repo_path().to_owned(),
            },
        },
        None => finish(Err(not_found_failure(identifier))),
    }
}

/// The first step of Delete: the repository of the workspace is asked for.
fn delete_execute(identifier: &str, cfg: &Config) -> (step: Step)
    ensures
        outcome_of(step, cfg@) == begun((CommandView::Delete { identifier: identifier@ }), cfg@),
{
    match cfg.find(identifier) {
        Some((_, wt)) => Step {
            stage: Stage::DeleteResolving {
                worktree_name: wt.worktree_name().to_owned(),
                session_name: wt.session_name().to_owned(),
            },
            request: Request::ResolveRepo { path: wt.repo_path().to_owned() },
        },
        None => finish(Err(not_found_failure(identifier))),
    }
}

/// The step of New that follows `reply` at `stage`.
fn new_resume(
    worktree_name: &String,
    tmux_session_name: &Option<String>,
    stage: Stage,
    reply: Reply,
    cfg: &mut Config,
) -> (step: Option<Step>)
    ensures
        step_is(
            step,
            final(cfg)@,
            new_resumed(
                worktree_name@,
                tmux_session_name.deep_view(),
                stage@,
                reply@,
                old(cfg)@,
            ),
            old(cfg)@,
        ),
{
    match stage {
        Stage::NewResolving => match reply {
            Reply::Repo(meta) => {
                let worktree_path = join(meta.root_path.as_str(), worktree_name.as_str());
                Some(
                    Step {
                        stage: Stage::NewCreatingWorktree { worktree_path },
                        request: Request::CreateWorktree {
                            repo_root: meta.root_path,
                            name: worktree_name.clone(),
                        },
                    },
                )
            },
            Reply::Failed(e) => Some(finish(Err(e))),
            _ => None,
        },
        Stage::NewCreatingWorktree { worktree_path } => match reply {
            Reply::Done => {
                let wt = new_record(
                    worktree_path.as_str(),
                    worktree_name.as_str(),
                    tmux_session_name,
                );
                Some(record(cfg, wt, Stage::NewWriting { worktree_path }))
            },
            Reply::Failed(e) => Some(finish(Err(e))),
            _ => None,
        },
        Stage::NewWriting { worktree_path } => match reply {
            Reply::Done => Some(
                Step {
                    stage: Stage::NewCreatingSession,
                    request: Request::NewSession {
                        name: session_for(worktree_name, tmux_session_name),
                        directory: worktree_path,
                    },
                },
            ),
            Reply::Failed(e) => Some(finish(Err(e))),
            _ => None,
        },
        Stage::NewCreatingSession => match reply {
            Reply::Done => Some(
                Step {
                    stage: Stage::NewAttaching,
                    request: Request::AttachSession {
                        name: session_for(worktree_name, tmux_session_name),
                    },
                },
            ),
            Reply::Failed(e) => Some(finish(Err(e))),
            _ => None,
        },
        Stage::NewAttaching => match reply {
            Reply::Done => Some(finish(Ok(()))),
            Reply::Failed(e) => Some(finish(Err(e))),
            _ => None,
        },
        _ => None,
    }
}

/// The step of Open that follows `reply` at `stage`.
fn open_resume(stage: Stage, reply: Reply) -> (step: Option<Step>)
    ensures
        forall|registry: Seq<WorktreeView>|
            step_is(step, registry, #[trigger] open_resumed(stage@, reply@, registry), registry),
{
    match stage {
        Stage::OpenCreatingSession { session_name } => match reply {
            Reply::Done => Some(
                Step {
                    stage: Stage::OpenAttaching,
                    request: Request::AttachSession { name: session_name },
                },
            ),
            Reply::Failed(e) => Some(finish(Err(e))),
            _ => None,
        },
        Stage::OpenAttaching => match reply {
            Reply::Done => Some(finish(Ok(()))),
            Reply::Failed(e) => Some(finish(Err(e))),
            _ => None,
        },
        _ => None,
    }
}

/// The step of Delete that follows `reply` at `stage`.
fn delete_resume(
    identifier: &String,
    stage: Stage,
    reply: Reply,
    cfg: &mut Config,
) -> (step: Option<Step>)
    ensures
        step_is(
            step,
            final(cfg)@,
            delete_resumed(identifier@, stage@, reply@, old(cfg)@),
            old(cfg)@,
        ),
{
    match stage {
        Stage::DeleteResolving { worktree_name, session_name } => match reply {
            Reply::Repo(meta) => {
                if meta.is_bare {
                    Some(
                        Step {
                            stage: Stage::DeleteRemovingWorktree { session_name },
                            request: Request::DeleteWorktree {
                                repo_root: meta.root_path,
                                name: worktree_name,
                            },
                        },
                    )
                } else {
                    Some(
                        Step {
                            stage: Stage::DeleteKilling,
                            request: Request::KillSession { name: session_name },
                        },
                    )
                }
            },
            Reply::Failed(e) => Some(finish(Err(e))),
            _ => None,
        },
        Stage::DeleteRemovingWorktree { session_name } => match reply {
            Reply::Done => Some(
                Step {
                    stage: Stage::DeleteKilling,
                    request: Request::KillSession { name: session_name },
                },
            ),
            Reply::Failed(e) => Some(finish(Err(e))),
            _ => None,
        },
        Stage::DeleteKilling => match reply {
            Reply::Done => Some(forget(cfg, identifier.as_str(), None)),
            Reply::Failed(e) => Some(forget(cfg, identifier.as_str(), Some(e))),
            _ => None,
        },
        Stage::DeleteWriting { reported } => match reply {
            Reply::Done => Some(
                finish(
                    match reported {
                        Some(e) => Err(e),
                        None => Ok(()),
                    },
                ),
            ),
            Reply::Failed(e) => Some(finish(Err(e))),
            _ => None,
        },
        _ => None,
    }
}

/// The step of Import that follows `reply` at `stage`.
fn import_resume(
    worktree_path: &String,
    tmux_session_name: &Option<String>,
    stage: Stage,
    reply: Reply,
    cfg: &mut Config,
) -> (step: Option<Step>)
    ensures
        step_is(
            step,
            final(cfg)@,
            import_resumed(
                worktree_path@,
                tmux_session_name.deep_view(),
                stage@,
                reply@,
                old(cfg)@,
            ),
            old(cfg)@,
        ),
{
    match stage {
        Stage::ImportCanonicalizing => match reply {
            Reply::Path(path) => {
                let wt = new_record(
                    path.as_str(),
                    last_component(path.as_str()),
                    tmux_session_name,
                );
                Some(record(cfg, wt, Stage::ImportWriting))
            },
            Reply::Unresolved(reason) => Some(
                finish(
                    Err(
                        RedwoodError::InvalidPathError {
                            worktree_path: worktree_path.clone(),
                            msg: reason,
                        },
                    ),
                ),
            ),
            Reply::Failed(e) => Some(finish(Err(e))),
            _ => None,
        },
        Stage::ImportWriting => match reply {
            Reply::Done => Some(finish(Ok(()))),
            Reply::Failed(e) => Some(finish(Err(e))),
            _ => None,
        },
        _ => None,
    }
}

/// The step of List and of Version that follows `reply` at `stage`.
fn print_resume(stage: Stage, reply: Reply) -> (step: Option<Step>)
    ensures
        forall|registry: Seq<WorktreeView>|
            step_is(step, registry, #[trigger] print_resumed(stage@, reply@, registry), registry),
{
    match stage {
        Stage::Printing => match reply {
            Reply::Done => Some(finish(Ok(()))),
            Reply::Failed(e) => Some(finish(Err(e))),
            _ => None,
        },
        _ => None,
    }
}

impl Command for Commands {
    open spec fn model(&self) -> CommandView {
        self@
    }

    fn execute(&self, cfg: &mut Config) -> (step: Step) {
        match self {
            Commands::New { repo_path, .. } => Step {
                stage: Stage::NewResolving,
                request: Request::ResolveRepo {
                    path: match repo_path {
                        Some(path) => path.clone(),
                        None => String::from_str("."),
                    },
                },
            },
            Commands::Open { identifier } => open_execute(identifier.as_str(), cfg),
            Commands::Delete { identifier } => delete_execute(identifier.as_str(), cfg),
            Commands::Import { worktree_path, .. } => Step {
                stage: Stage::ImportCanonicalizing,
                request: Request::Canonicalize { path: worktree_path.clone() },
            },
            Commands::List {  } => Step {
                stage: Stage::Printing,
                request: Request::Print { lines: listed_paths(cfg) },
            },
            Commands::Version {  } => {
                let mut lines: Vec<String> = Vec::new();
                lines.push(version_text());
                assert(lines.deep_view() =~= seq![version_line()]);
                Step { stage: Stage::Printing, request: Request::Print { lines } }
            },
        }
    }

    fn resume(&self, stage: Stage, reply: Reply, cfg: &mut Config) -> (step: Option<Step>) {
        match self {
            Commands::New { worktree_name, tmux_session_name, .. } => new_resume(
                worktree_name,
                tmux_session_name,
                stage,
                reply,
                cfg,
            ),
            Commands::Open { .. } => open_resume(stage, reply),
            Commands::Delete { identifier } => delete_resume(identifier, stage, reply, cfg),
            Commands::Import { worktree_path, tmux_session_name } => import_resume(
                worktree_path,
                tmux_session_name,
                stage,
                reply,
                cfg,
            ),
            Commands::List {  } => print_resume(stage, reply),
            Commands::Version {  } => print_resume(stage, reply),
        }
    }
}

} // verus!
