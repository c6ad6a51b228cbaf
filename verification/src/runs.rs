//! Runs of a command: the steps that it takes when the replies come in a
//! given order, and what holds of every run.

use crate::cli::CommandView;
use crate::command::{
    begun, finished, not_found, resumed, session_name_for, Outcome, ReplyView, RequestView,
    StageView,
};
use crate::conf::{position, unique_pairs, WorktreeView};
use crate::error::ErrorView;
use vstd::prelude::*;

verus! {

/// The steps that follow the step `last` when the replies are `replies`:
/// they end with the command, with the replies, or at a reply that does not
/// answer the request.
pub open spec fn continued(
    command: CommandView,
    last: Outcome,
    replies: Seq<ReplyView>,
) -> Seq<Outcome>
    decreases replies.len(),
{
    if replies.len() == 0 {
        Seq::empty()
    } else {
        match resumed(command, last.stage, replies[0], last.registry) {
            Some(next) => seq![next] + continued(command, next, replies.drop_first()),
            None => Seq::empty(),
        }
    }
}

/// The steps of a command on `registry` when the replies are `replies`.
pub open spec fn run(
    command: CommandView,
    registry: Seq<WorktreeView>,
    replies: Seq<ReplyView>,
) -> Seq<Outcome> {
    seq![begun(command, registry)] + continued(command, begun(command, registry), replies)
}

/// Each step after `last` follows from the step before it and the reply to
/// it.
proof fn lemma_continued_step(
    command: CommandView,
    last: Outcome,
    replies: Seq<ReplyView>,
    k: int,
)
    requires
        0 <= k < continued(command, last, replies).len(),
    ensures
        k < replies.len(),
        resumed(
            command,
            (if k == 0 {
                last
            } else {
                continued(command, last, replies)[k - 1]
            }).stage,
            replies[k],
            (if k == 0 {
                last
            } else {
                continued(command, last, replies)[k - 1]
            }).registry,
        ) == Some(continued(command, last, replies)[k]),
    decreases k,
{
    let next = resumed(command, last.stage, replies[0], last.registry).unwrap();
    let rest = continued(command, next, replies.drop_first());
    assert(continued(command, last, replies) =~= seq![next] + rest);
    if k > 0 {
        lemma_continued_step(command, next, replies.drop_first(), k - 1);
        assert(replies.drop_first()[k - 1] == replies[k]);
    }
}

/// A run begins with the first step of the command, and each later step
/// follows from the step before it and the reply to it.
pub proof fn lemma_run_step(
    command: CommandView,
    registry: Seq<WorktreeView>,
    replies: Seq<ReplyView>,
    k: int,
)
    requires
        0 <= k,
        k + 1 < run(command, registry, replies).len(),
    ensures
        run(command, registry, replies)[0] == begun(command, registry),
        k < replies.len(),
        resumed(
            command,
            run(command, registry, replies)[k].stage,
            replies[k],
            run(command, registry, replies)[k].registry,
        ) == Some(run(command, registry, replies)[k + 1]),
{
    lemma_continued_step(command, begun(command, registry), replies, k);
}

/// What holds of the first step of a command, and of every step that
/// follows a step of which it holds, holds of every step of every run.
pub proof fn lemma_run_keeps(
    command: CommandView,
    registry: Seq<WorktreeView>,
    replies: Seq<ReplyView>,
    holds: spec_fn(Outcome) -> bool,
)
    requires
        holds(begun(command, registry)),
        forall|last: Outcome, reply: ReplyView|
            holds(last) && (#[trigger] resumed(command, last.stage, reply, last.registry)) is Some
                ==> holds(resumed(command, last.stage, reply, last.registry).unwrap()),
    ensures
        forall|k: int|
            0 <= k < run(command, registry, replies).len() ==> holds(
                #[trigger] run(command, registry, replies)[k],
            ),
{
    let steps = run(command, registry, replies);
    assert forall|k: int| 0 <= k < steps.len() implies holds(#[trigger] steps[k]) by {
        lemma_run_keeps_upto(command, registry, replies, holds, k);
    }
}

proof fn lemma_run_keeps_upto(
    command: CommandView,
    registry: Seq<WorktreeView>,
    replies: Seq<ReplyView>,
    holds: spec_fn(Outcome) -> bool,
    k: int,
)
    requires
        holds(begun(command, registry)),
        forall|last: Outcome, reply: ReplyView|
            holds(last) && (#[trigger] resumed(command, last.stage, reply, last.registry)) is Some
                ==> holds(resumed(command, last.stage, reply, last.registry).unwrap()),
        0 <= k < run(command, registry, replies).len(),
    ensures
        holds(run(command, registry, replies)[k]),
    decreases k,
{
    if k > 0 {
        lemma_run_keeps_upto(command, registry, replies, holds, k - 1);
        lemma_run_step(command, registry, replies, k - 1);
    }
}

/// A command that has ended takes no further step.
pub proof fn lemma_nothing_follows_the_end(
    command: CommandView,
    reply: ReplyView,
    registry: Seq<WorktreeView>,
)
    ensures
        resumed(command, StageView::Finished, reply, registry) is None,
{
}

/// A failure of an adapter ends the command, is handed on as it came, and
/// leaves the registry as it was. The one exception is a session that
/// Delete could not end.
pub proof fn lemma_failure_ends_command(
    command: CommandView,
    stage: StageView,
    failure: ErrorView,
    registry: Seq<WorktreeView>,
)
    requires
        resumed(command, stage, ReplyView::Failed(failure), registry) is Some,
        !(command is Delete && stage is DeleteKilling),
    ensures
        resumed(command, stage, ReplyView::Failed(failure), registry) == Some(
            finished(Err(failure), registry),
        ),
{
}

/// Delete, where the repository of the workspace cannot be resolved: the
/// run is the request for the repository and the end of the command with
/// that failure, whatever replies are still there. The registry stays as it
/// was, and the end of the session is never asked for.
pub proof fn lemma_delete_stops_at_failed_resolve(
    command: CommandView,
    registry: Seq<WorktreeView>,
    failure: ErrorView,
    later: Seq<ReplyView>,
)
    requires
        command is Delete,
        begun(command, registry).request is ResolveRepo,
    ensures
        run(command, registry, seq![ReplyView::Failed(failure)] + later) == seq![
            begun(command, registry),
            finished(Err(failure), registry),
        ],
        begun(command, registry).registry == registry,
{
    let replies = seq![ReplyView::Failed(failure)] + later;
    let first = begun(command, registry);
    let end = finished(Err(failure), registry);
    assert(replies[0] == ReplyView::Failed(failure));
    assert(resumed(command, first.stage, replies[0], first.registry) == Some(end));
    let rest = replies.drop_first();
    assert(continued(command, end, rest) =~= Seq::<Outcome>::empty()) by {
        if rest.len() > 0 {
            assert(resumed(command, end.stage, rest[0], end.registry) is None);
        }
    }
    assert(continued(command, first, replies) =~= seq![end]);
    assert(run(command, registry, replies) =~= seq![first, end]);
}

/// Delete asks for the repository first exactly when a record answers to
/// its identifier; otherwise it ends at once, and the registry is as it was.
pub proof fn lemma_delete_begins_with_known_workspace(
    identifier: Seq<char>,
    registry: Seq<WorktreeView>,
)
    ensures
        ({
            let first = begun(CommandView::Delete { identifier }, registry);
            &&& first.registry == registry
            &&& position(registry, identifier) is Some <==> first.request is ResolveRepo
            &&& position(registry, identifier) is None ==> first == finished(
                Err(not_found(identifier)),
                registry,
            )
        }),
{
}

/// Where a request stands in the order of Delete: the repository first,
/// then the session, then the stored registry, then the end.
pub open spec fn delete_rank(request: RequestView) -> int {
    match request {
        RequestView::ResolveRepo { .. } => 0,
        RequestView::DeleteWorktree { .. } => 0,
        RequestView::KillSession { .. } => 1,
        RequestView::WriteConfig => 2,
        _ => 3,
    }
}

/// Whether the step is one of Delete on `registry`: its request is the one
/// that its stage waits for, and the registry is as it was until it is to
/// be stored.
pub open spec fn is_delete_step(step: Outcome, registry: Seq<WorktreeView>) -> bool {
    match step.stage {
        StageView::DeleteResolving { .. } => step.request is ResolveRepo && step.registry
            == registry,
        StageView::DeleteRemovingWorktree { .. } => step.request is DeleteWorktree
            && step.registry == registry,
        StageView::DeleteKilling => step.request is KillSession && step.registry == registry,
        StageView::DeleteWriting { .. } => step.request is WriteConfig,
        StageView::Finished => step.request is Finish,
        _ => false,
    }
}

/// Delete asks in order: of the repository before the session, of the
/// session before the registry is changed and stored. No request comes
/// after one that stands later in that order, and the registry is as it
/// was at every step that asks of the repository or of the session.
pub proof fn lemma_delete_keeps_order(
    command: CommandView,
    registry: Seq<WorktreeView>,
    replies: Seq<ReplyView>,
    i: int,
    j: int,
)
    requires
        command is Delete,
        0 <= i <= j < run(command, registry, replies).len(),
    ensures
        delete_rank(run(command, registry, replies)[i].request) <= delete_rank(
            run(command, registry, replies)[j].request,
        ),
        delete_rank(run(command, registry, replies)[i].request) < 2 ==> run(
            command,
            registry,
            replies,
        )[i].registry == registry,
    decreases j - i,
{
    let steps = run(command, registry, replies);
    lemma_run_keeps(command, registry, replies, |step: Outcome| is_delete_step(step, registry));
    assert(is_delete_step(steps[i], registry));
    if i < j {
        lemma_delete_keeps_order(command, registry, replies, i + 1, j);
        lemma_run_step(command, registry, replies, i);
        assert(is_delete_step(steps[i + 1], registry));
    }
}

/// Where a request stands in the order of New: the repository first, then
/// the stored registry, then the session, then the end.
pub open spec fn new_rank(request: RequestView) -> int {
    match request {
        RequestView::ResolveRepo { .. } => 0,
        RequestView::CreateWorktree { .. } => 0,
        RequestView::WriteConfig => 1,
        RequestView::NewSession { .. } => 2,
        RequestView::AttachSession { .. } => 2,
        _ => 3,
    }
}

/// Whether the step is one of New on `registry`: its request is the one
/// that its stage waits for, and the registry is as it was until the
/// worktree has been created.
pub open spec fn is_new_step(step: Outcome, registry: Seq<WorktreeView>) -> bool {
    match step.stage {
        StageView::NewResolving => step.request is ResolveRepo && step.registry == registry,
        StageView::NewCreatingWorktree { .. } => step.request is CreateWorktree && step.registry
            == registry,
        StageView::NewWriting { .. } => step.request is WriteConfig,
        StageView::NewCreatingSession => step.request is NewSession,
        StageView::NewAttaching => step.request is AttachSession,
        StageView::Finished => step.request is Finish,
        _ => false,
    }
}

/// New asks in order: of the repository before the registry is changed and
/// stored, of the session after that. No request comes after one that
/// stands later in that order, and the registry is as it was at every step
/// that asks of the repository.
pub proof fn lemma_new_keeps_order(
    command: CommandView,
    registry: Seq<WorktreeView>,
    replies: Seq<ReplyView>,
    i: int,
    j: int,
)
    requires
        command is New,
        0 <= i <= j < run(command, registry, replies).len(),
    ensures
        new_rank(run(command, registry, replies)[i].request) <= new_rank(
            run(command, registry, replies)[j].request,
        ),
        new_rank(run(command, registry, replies)[i].request) < 1 ==> run(
            command,
            registry,
            replies,
        )[i].registry == registry,
    decreases j - i,
{
    let steps = run(command, registry, replies);
    lemma_run_keeps(command, registry, replies, |step: Outcome| is_new_step(step, registry));
    assert(is_new_step(steps[i], registry));
    if i < j {
        lemma_new_keeps_order(command, registry, replies, i + 1, j);
        lemma_run_step(command, registry, replies, i);
        assert(is_new_step(steps[i + 1], registry));
    }
}

/// Open, List and Version only read the registry: at every step of a run
/// the registry is as it was, and it is never asked to be stored.
pub proof fn lemma_reading_commands_keep_registry(
    command: CommandView,
    registry: Seq<WorktreeView>,
    replies: Seq<ReplyView>,
    k: int,
)
    requires
        command is Open || command is List || command is Version,
        0 <= k < run(command, registry, replies).len(),
    ensures
        run(command, registry, replies)[k].registry == registry,
        !(run(command, registry, replies)[k].request is WriteConfig),
{
    lemma_run_keeps(
        command,
        registry,
        replies,
        |step: Outcome| step.registry == registry && !(step.request is WriteConfig),
    );
}

/// Import is bookkeeping only: it asks for the absolute path and for the
/// registry to be stored, and never of the repository or of a session.
pub proof fn lemma_import_asks_no_adapter(
    command: CommandView,
    registry: Seq<WorktreeView>,
    replies: Seq<ReplyView>,
    k: int,
)
    requires
        command is Import,
        0 <= k < run(command, registry, replies).len(),
    ensures
        run(command, registry, replies)[k].request is Canonicalize || run(
            command,
            registry,
            replies,
        )[k].request is WriteConfig || run(command, registry, replies)[k].request is Finish,
{
    lemma_run_keeps(
        command,
        registry,
        replies,
        |step: Outcome|
            step.request is Canonicalize || step.request is WriteConfig || step.request is Finish,
    );
}

/// Whether the request, where it names a session, names `session_name`.
pub open spec fn names_session(request: RequestView, session_name: Seq<char>) -> bool {
    match request {
        RequestView::NewSession { name, .. } => name == session_name,
        RequestView::AttachSession { name } => name == session_name,
        RequestView::KillSession { name } => name == session_name,
        _ => true,
    }
}

/// The command New with these parameters.
pub open spec fn new_command(
    worktree_name: Seq<char>,
    repo_path: Option<Seq<char>>,
    tmux_session_name: Option<Seq<char>>,
) -> CommandView {
    CommandView::New { worktree_name, repo_path, tmux_session_name }
}

/// New names its session by the name given for it, or else by the name of
/// the workspace, and by nothing else.
pub proof fn lemma_new_names_its_session(
    worktree_name: Seq<char>,
    repo_path: Option<Seq<char>>,
    tmux_session_name: Option<Seq<char>>,
    registry: Seq<WorktreeView>,
    replies: Seq<ReplyView>,
    k: int,
)
    requires
        0 <= k < run(
            new_command(worktree_name, repo_path, tmux_session_name),
            registry,
            replies,
        ).len(),
    ensures
        names_session(
            run(
                new_command(worktree_name, repo_path, tmux_session_name),
                registry,
                replies,
            )[k].request,
            session_name_for(worktree_name, tmux_session_name),
        ),
{
    lemma_run_keeps(
        new_command(worktree_name, repo_path, tmux_session_name),
        registry,
        replies,
        |step: Outcome|
            names_session(step.request, session_name_for(worktree_name, tmux_session_name)),
    );
}

/// A registry in which no two records have both the same path and the same
/// name stays so at every step of every run.
pub proof fn lemma_run_keeps_pairs_unique(
    command: CommandView,
    registry: Seq<WorktreeView>,
    replies: Seq<ReplyView>,
    k: int,
)
    requires
        unique_pairs(registry),
        0 <= k < run(command, registry, replies).len(),
    ensures
        unique_pairs(run(command, registry, replies)[k].registry),
{
    assert forall|last: Outcome, reply: ReplyView|
        unique_pairs(last.registry) && (#[trigger] resumed(
            command,
            last.stage,
            reply,
            last.registry,
        )) is Some implies unique_pairs(
        resumed(command, last.stage, reply, last.registry).unwrap().registry,
    ) by {
        let next = resumed(command, last.stage, reply, last.registry).unwrap();
        if next.registry != last.registry {
            if command is Delete {
                let identifier = command->Delete_identifier;
                let i = position(last.registry, identifier).unwrap();
                crate::conf::lemma_position_is_first_match(last.registry, identifier);
                assert(next.registry == last.registry.remove(i));
            }
        }
    }
    lemma_run_keeps(command, registry, replies, |step: Outcome| unique_pairs(step.registry));
}

} // verus!
