//! What operations leave alone.
use vstd::prelude::*;

use crate::branches::{
    base_commit_turn, branch_exists_turn, branch_oid_turn, branch_status_turn, branch_type_turn,
};
use crate::cli::{available_turn, finished, git_turn, CliTurn};
use crate::commands::{
    abort_cherry_pick_turn, abort_merge_turn, abort_rebase_turn, abort_revert_turn,
    cherry_pick_in_progress_turn, conflicted_files_turn, diff_status_turn, has_changes_turn,
    has_staged_changes_turn, marker_exists_turn, merge_in_progress_turn, quit_rebase_turn,
    rebase_in_progress_turn, rebase_onto_turn, revert_in_progress_turn, worktree_add_args,
    worktree_add_turn,
};
use crate::comparing::{get_diffs_turn, TargetModel};
use crate::dialogue::{and_then, explained, Reply, RequestModel, Turn};
use crate::diff::{
    converted_turn, counts_at, delta_turn, file_diffs_turn, status_diff_turn, status_diffs_turn,
    DiffModel,
};
use crate::errors::{CliErrorModel, GitError, ServiceErrorModel};
use crate::listing::all_branches_turn;
use crate::merging::{diverged_text, merge_changes_turn};
use crate::oid::Oid;
use crate::porcelain::StatusDiffModel;
use crate::raw::utf8;
use crate::rebasing::{
    abort_conflicts_turn, believed, conflict_op_turn, rebase_branch_turn, ConflictOp,
};
use crate::records::{DeltaRecord, DiffRecord, LineCounts};
use crate::remotes::{
    add_all_and_push_turn, default_url_turn, github_info_turn, push_to_github_turn,
    remote_has_branch_turn, remote_name_turn,
};
use crate::service::{
    commit_all_turn, ensure_identity_turn, fallback_email, fallback_name, open_turn, ServiceTurn,
};
use crate::stats::{commit_changes_turn, file_stats_turn, limited, walked_turn, CommitModel};
use crate::worktrees::{
    ahead_behind_ids_turn, change_counts_turn, check_clean_turn, checkout_path_turn,
    commit_subject_turn, head_info_turn, is_clean_turn, reconcile_turn, reset_turn, HeadModel,
    WorktreeResetOptions, WorktreeResetOutcome,
};

verus! {

// ---------------------------------------------------------------------------
// Reading
// ---------------------------------------------------------------------------

/// Whether a command only looks: at the status, at references, at differences, at worktrees, or at
/// what a remote has.
pub open spec fn is_looking(args: Seq<Seq<u8>>) -> bool {
    args.len() >= 2 && {
        ||| args[0] == utf8("--no-optional-locks"@) && args[1] == utf8("status"@)
        ||| args[0] == utf8("rev-parse"@)
        ||| args[0] == utf8("merge-base"@)
        ||| args[0] == utf8("diff"@)
        ||| args[0] == utf8("ls-remote"@)
        ||| args[0] == utf8("worktree"@) && args[1] == utf8("list"@)
    }
}

/// Whether a word is the first of the arguments of a command that changes something.
pub open spec fn is_changing_word(w: Seq<char>) -> bool {
    ||| w == "add"@
    ||| w == "checkout"@
    ||| w == "cherry-pick"@
    ||| w == "commit"@
    ||| w == "fetch"@
    ||| w == "merge"@
    ||| w == "push"@
    ||| w == "read-tree"@
    ||| w == "rebase"@
    ||| w == "reset"@
    ||| w == "revert"@
    ||| w == "sparse-checkout"@
    ||| w == "update-ref"@
}

proof fn lemma_utf8_injective(a: Seq<char>, b: Seq<char>)
    requires
        utf8(a) == utf8(b),
    ensures
        a == b,
{
    vstd::utf8::encode_utf8_decode_utf8(a);
    vstd::utf8::encode_utf8_decode_utf8(b);
}

/// No command that changes something passes for one that only looks.
pub proof fn law_changing_commands_do_not_look(word: Seq<char>, args: Seq<Seq<u8>>)
    requires
        is_changing_word(word),
        args.len() > 0,
        args[0] == utf8(word),
    ensures
        !is_looking(args),
{
    reveal_strlit("add");
    reveal_strlit("checkout");
    reveal_strlit("cherry-pick");
    reveal_strlit("commit");
    reveal_strlit("fetch");
    reveal_strlit("merge");
    reveal_strlit("push");
    reveal_strlit("read-tree");
    reveal_strlit("rebase");
    reveal_strlit("reset");
    reveal_strlit("revert");
    reveal_strlit("sparse-checkout");
    reveal_strlit("update-ref");
    reveal_strlit("--no-optional-locks");
    reveal_strlit("rev-parse");
    reveal_strlit("merge-base");
    reveal_strlit("diff");
    reveal_strlit("ls-remote");
    reveal_strlit("worktree");
    assert("checkout"@[0] != "worktree"@[0]);
    assert("push"@[0] != "diff"@[0]);
    assert("update-ref"@[0] != "merge-base"@[0]);
    assert("read-tree"@[2] != "rev-parse"@[2]);
    assert("read-tree"@[0] != "ls-remote"@[0]);
    if args[0] == utf8("--no-optional-locks"@) {
        lemma_utf8_injective(word, "--no-optional-locks"@);
    }
    if args[0] == utf8("rev-parse"@) {
        lemma_utf8_injective(word, "rev-parse"@);
    }
    if args[0] == utf8("merge-base"@) {
        lemma_utf8_injective(word, "merge-base"@);
    }
    if args[0] == utf8("diff"@) {
        lemma_utf8_injective(word, "diff"@);
    }
    if args[0] == utf8("ls-remote"@) {
        lemma_utf8_injective(word, "ls-remote"@);
    }
    if args[0] == utf8("worktree"@) {
        lemma_utf8_injective(word, "worktree"@);
    }
}

/// Whether a request changes nothing: no file, no reference, no object, no configuration.
pub open spec fn is_reading(q: RequestModel) -> bool {
    match q {
        RequestModel::Run(c) => is_looking(c.args),
        RequestModel::CreateDirs(_) => false,
        RequestModel::InitRepo(_, _, _) => false,
        RequestModel::CloneRepo(_, _, _) => false,
        RequestModel::ConfigSet(_, _, _) => false,
        RequestModel::RenameBranch(_, _, _, _) => false,
        RequestModel::SetUpstream(_, _, _, _) => false,
        RequestModel::SetHead(_, _) => false,
        RequestModel::EmptyTree(_) => false,
        RequestModel::CreateCommit(_, _) => false,
        RequestModel::UpdateReference(_, _) => false,
        RequestModel::WriteMergedTree(_, _, _, _) => false,
        RequestModel::TempIndex => false,
        _ => true,
    }
}

/// Whether the request that an operation asks for, if it asks, changes nothing.
pub open spec fn only_reads<A, E>(t: Turn<A, E>) -> bool {
    t matches Turn::Ask(q) ==> is_reading(q)
}

/// Whether an operation came to a yes.
pub open spec fn says_yes<E>(t: Turn<bool, E>) -> bool {
    t matches Turn::Done(b, _) && b
}

// ---------------------------------------------------------------------------
// Merging
// ---------------------------------------------------------------------------

/// How far a task branch is behind its base, as a merge finds it.
pub open spec fn merge_status_turn(
    base_path: Seq<u8>,
    task_path: Seq<u8>,
    task: Seq<char>,
    base: Seq<char>,
    h: Seq<Reply>,
    at: int,
) -> ServiceTurn<(int, int)> {
    and_then(
        open_turn(task_path, h, at),
        |u: (), n: int|
            and_then(
                open_turn(base_path, h, n),
                |u: (), n: int| branch_status_turn(base_path, task, base, h, n),
            ),
    )
}

/// Whether the replies to a merge allow it: the base branch has not moved on, and where it is
/// checked out nothing is staged.
pub open spec fn merge_allowed(
    base_path: Seq<u8>,
    task_path: Seq<u8>,
    task: Seq<char>,
    base: Seq<char>,
    h: Seq<Reply>,
    at: int,
) -> bool {
    match merge_status_turn(base_path, task_path, task, base, h, at) {
        Turn::Done(status, n) => status.1 == 0 && match checkout_path_turn(base_path, base, h, n) {
            Turn::Done(None, _) => true,
            Turn::Done(Some(path), m) => match has_staged_changes_turn(path, h, m) {
                Turn::Done(staged, _) => !staged,
                _ => false,
            },
            _ => false,
        },
        _ => false,
    }
}

/// A merge changes nothing before it has found that the base branch has not moved on and that
/// nothing is staged where the base branch is checked out.
pub proof fn law_merge_reads_until_allowed(
    base_path: Seq<u8>,
    task_path: Seq<u8>,
    task: Seq<char>,
    base: Seq<char>,
    message: Seq<char>,
    h: Seq<Reply>,
    at: int,
)
    ensures
        only_reads(merge_changes_turn(base_path, task_path, task, base, message, h, at))
            || merge_allowed(base_path, task_path, task, base, h, at),
{
}

/// A merge into a base branch that has moved on fails, and says by how many commits.
pub proof fn law_merge_refuses_diverged(
    base_path: Seq<u8>,
    task_path: Seq<u8>,
    task: Seq<char>,
    base: Seq<char>,
    message: Seq<char>,
    h: Seq<Reply>,
    at: int,
    ahead: int,
    behind: int,
    n: int,
)
    requires
        merge_status_turn(base_path, task_path, task, base, h, at) == ServiceTurn::Done(
            (ahead, behind),
            n,
        ),
        behind > 0,
    ensures
        merge_changes_turn(base_path, task_path, task, base, message, h, at) == ServiceTurn::<
            Seq<char>,
        >::Failed(
            ServiceErrorModel::BranchesDiverged(diverged_text(base, behind as nat, task)),
            n,
        ),
{
}

/// A merge into a base branch that is checked out where something is staged fails.
pub proof fn law_merge_refuses_staged(
    base_path: Seq<u8>,
    task_path: Seq<u8>,
    task: Seq<char>,
    base: Seq<char>,
    message: Seq<char>,
    h: Seq<Reply>,
    at: int,
    ahead: int,
    n: int,
    checkout: Seq<u8>,
    m: int,
    k: int,
)
    requires
        merge_status_turn(base_path, task_path, task, base, h, at) == ServiceTurn::Done(
            (ahead, 0int),
            n,
        ),
        checkout_path_turn(base_path, base, h, n) == ServiceTurn::Done(Some(checkout), m),
        has_staged_changes_turn(checkout, h, m) == CliTurn::Done(true, k),
    ensures
        merge_changes_turn(base_path, task_path, task, base, message, h, at) == ServiceTurn::<
            Seq<char>,
        >::Failed(ServiceErrorModel::WorktreeDirty(base, "staged changes present"@), k),
{
}

// ---------------------------------------------------------------------------
// Rebasing
// ---------------------------------------------------------------------------

/// The check that a worktree is clean, as a rebase makes it.
pub open spec fn rebase_check_turn(repo: Seq<u8>, path: Seq<u8>, h: Seq<Reply>, at: int) ->
    ServiceTurn<()> {
    and_then(
        open_turn(path, h, at),
        |u: (), n: int|
            and_then(open_turn(repo, h, n), |u: (), n: int| check_clean_turn(path, h, n)),
    )
}

/// Whether the replies to a rebase allow it: the worktree is clean, and no rebase is in progress.
pub open spec fn rebase_allowed(repo: Seq<u8>, path: Seq<u8>, h: Seq<Reply>, at: int) -> bool {
    match rebase_check_turn(repo, path, h, at) {
        Turn::Done(_, n) => match believed(rebase_in_progress_turn(path, h, n)) {
            Turn::Done(in_progress, _) => !in_progress,
            _ => false,
        },
        _ => false,
    }
}

/// A rebase changes nothing before it has found that the worktree is clean and that no rebase is
/// in progress.
pub proof fn law_rebase_reads_until_allowed(
    repo: Seq<u8>,
    path: Seq<u8>,
    new_base: Seq<char>,
    old_base: Seq<char>,
    task: Seq<char>,
    h: Seq<Reply>,
    at: int,
)
    ensures
        only_reads(rebase_branch_turn(repo, path, new_base, old_base, task, h, at))
            || rebase_allowed(repo, path, h, at),
{
}

/// A rebase in a worktree with uncommitted changes fails as the check does.
pub proof fn law_rebase_refuses_dirty(
    repo: Seq<u8>,
    path: Seq<u8>,
    new_base: Seq<char>,
    old_base: Seq<char>,
    task: Seq<char>,
    h: Seq<Reply>,
    at: int,
    branch: Seq<char>,
    files: Seq<char>,
    n: int,
)
    requires
        rebase_check_turn(repo, path, h, at) == ServiceTurn::<()>::Failed(
            ServiceErrorModel::WorktreeDirty(branch, files),
            n,
        ),
    ensures
        rebase_branch_turn(repo, path, new_base, old_base, task, h, at) == ServiceTurn::<
            Seq<char>,
        >::Failed(ServiceErrorModel::WorktreeDirty(branch, files), n),
{
}

/// A rebase where one is in progress fails, and leaves that one as it is.
pub proof fn law_rebase_refuses_second(
    repo: Seq<u8>,
    path: Seq<u8>,
    new_base: Seq<char>,
    old_base: Seq<char>,
    task: Seq<char>,
    h: Seq<Reply>,
    at: int,
    n: int,
    m: int,
)
    requires
        rebase_check_turn(repo, path, h, at) == ServiceTurn::Done((), n),
        rebase_in_progress_turn(path, h, n) == CliTurn::Done(true, m),
    ensures
        rebase_branch_turn(repo, path, new_base, old_base, task, h, at) == ServiceTurn::<
            Seq<char>,
        >::Failed(ServiceErrorModel::RebaseInProgress, m),
{
}

/// The command for a rebase refuses too where one is in progress.
pub proof fn law_rebase_onto_refuses_second(
    path: Seq<u8>,
    new_base: Seq<char>,
    old_base: Seq<char>,
    task: Seq<char>,
    h: Seq<Reply>,
    at: int,
    n: int,
)
    requires
        rebase_in_progress_turn(path, h, at) == CliTurn::Done(true, n),
    ensures
        rebase_onto_turn(path, new_base, old_base, task, h, at) == CliTurn::<()>::Failed(
            CliErrorModel::RebaseInProgress,
            n,
        ),
{
}

// ---------------------------------------------------------------------------
// Resetting
// ---------------------------------------------------------------------------

/// The check that a worktree is clean, after opening it.
pub open spec fn open_clean_turn(path: Seq<u8>, h: Seq<Reply>, at: int) -> ServiceTurn<()> {
    and_then(open_turn(path, h, at), |u: (), n: int| check_clean_turn(path, h, n))
}

/// A reset that is not forced changes nothing before it has found that the worktree is clean.
pub proof fn law_reset_reads_until_clean(path: Seq<u8>, sha: Seq<char>, h: Seq<Reply>, at: int)
    ensures
        only_reads(reset_turn(path, sha, false, h, at)) || open_clean_turn(path, h, at) is Done,
{
}

/// A reset of a worktree with uncommitted changes fails where it is not forced.
pub proof fn law_reset_refuses_dirty(
    path: Seq<u8>,
    sha: Seq<char>,
    h: Seq<Reply>,
    at: int,
    branch: Seq<char>,
    files: Seq<char>,
    n: int,
)
    requires
        open_clean_turn(path, h, at) == ServiceTurn::<()>::Failed(
            ServiceErrorModel::WorktreeDirty(branch, files),
            n,
        ),
    ensures
        reset_turn(path, sha, false, h, at) == ServiceTurn::<()>::Failed(
            ServiceErrorModel::WorktreeDirty(branch, files),
            n,
        ),
{
}

/// A reset up to the command that resets, without what is done for a sparse checkout.
pub open spec fn hard_reset_turn(
    path: Seq<u8>,
    sha: Seq<char>,
    force: bool,
    h: Seq<Reply>,
    at: int,
) -> ServiceTurn<()> {
    and_then(
        if force {
            open_turn(path, h, at)
        } else {
            open_clean_turn(path, h, at)
        },
        |u: (), n: int|
            explained(
                finished(
                    git_turn(path, seq![utf8("reset"@), utf8("--hard"@), utf8(sha)], h, n),
                ),
                "git reset --hard failed: "@,
            ),
    )
}

/// A reset fails exactly where it fails up to the command that resets: that a sparse checkout
/// cannot be reapplied is no failure.
pub proof fn law_reset_survives_sparse_checkout(
    path: Seq<u8>,
    sha: Seq<char>,
    force: bool,
    h: Seq<Reply>,
    at: int,
)
    ensures
        reset_turn(path, sha, force, h, at) is Failed || hard_reset_turn(path, sha, force, h, at)
            is Failed ==> reset_turn(path, sha, force, h, at) == hard_reset_turn(
            path,
            sha,
            force,
            h,
            at,
        ),
{
}

/// The addition of a worktree up to the command that adds it.
pub open spec fn bare_add_turn(
    dir: Seq<u8>,
    path: Seq<u8>,
    branch: Seq<char>,
    create: bool,
    h: Seq<Reply>,
    at: int,
) -> CliTurn<()> {
    and_then(
        available_turn(h, at),
        |u: (), n: int| finished(git_turn(dir, worktree_add_args(path, branch, create), h, n)),
    )
}

/// The addition of a worktree fails exactly where it fails up to the command that adds it.
pub proof fn law_worktree_add_survives_sparse_checkout(
    dir: Seq<u8>,
    path: Seq<u8>,
    branch: Seq<char>,
    create: bool,
    h: Seq<Reply>,
    at: int,
)
    ensures
        worktree_add_turn(dir, path, branch, create, h, at) is Failed || bare_add_turn(
            dir,
            path,
            branch,
            create,
            h,
            at,
        ) is Failed ==> worktree_add_turn(dir, path, branch, create, h, at) == bare_add_turn(
            dir,
            path,
            branch,
            create,
            h,
            at,
        ),
{
}

/// Bringing a worktree to a commit never fails; it is applied only where it is needed; it is
/// needed where HEAD is elsewhere or the worktree is dirty.
pub proof fn law_reconcile_outcome(
    path: Seq<u8>,
    target: Seq<char>,
    options: WorktreeResetOptions,
    h: Seq<Reply>,
    at: int,
)
    ensures
        !(reconcile_turn(path, target, options, h, at) is Failed),
        reconcile_turn(path, target, options, h, at) matches Turn::Done(outcome, _) ==> {
            &&& outcome.applied ==> outcome.needed
            &&& options.is_dirty ==> outcome.needed
            &&& !options.is_dirty && head_info_turn(path, h, at) is Done ==> (outcome.needed
                <==> head_info_turn(path, h, at)->Done_0.oid != target)
            &&& head_info_turn(path, h, at) is Failed ==> outcome.needed
            &&& outcome.applied ==> options.perform_reset && (options.force_when_dirty
                || !options.is_dirty)
        },
{
}

/// Bringing a worktree to a commit changes nothing where no reset is wanted, or uncommitted changes
/// stand against it.
pub proof fn law_reconcile_reads_unless_wanted(
    path: Seq<u8>,
    target: Seq<char>,
    options: WorktreeResetOptions,
    h: Seq<Reply>,
    at: int,
)
    requires
        !options.perform_reset || (options.is_dirty && !options.force_when_dirty),
    ensures
        only_reads(reconcile_turn(path, target, options, h, at)),
{
}

/// A worktree that is at the commit and not dirty is left as it is.
pub proof fn law_reconcile_keeps_reached(
    path: Seq<u8>,
    target: Seq<char>,
    options: WorktreeResetOptions,
    h: Seq<Reply>,
    at: int,
    head: HeadModel,
    n: int,
)
    requires
        head_info_turn(path, h, at) == ServiceTurn::Done(head, n),
        head.oid == target,
        !options.is_dirty,
    ensures
        reconcile_turn(path, target, options, h, at) == ServiceTurn::Done(
            WorktreeResetOutcome { needed: false, applied: false },
            n,
        ),
{
}

// ---------------------------------------------------------------------------
// Committing and pushing
// ---------------------------------------------------------------------------

/// Where nothing has changed, a commit changes nothing and says so.
pub proof fn law_commit_without_changes(
    dirs: Seq<Seq<char>>,
    path: Seq<u8>,
    message: Seq<char>,
    h: Seq<Reply>,
    at: int,
    n: int,
)
    requires
        has_changes_turn(path, h, at) == CliTurn::Done(false, n),
    ensures
        commit_all_turn(dirs, path, message, h, at) == ServiceTurn::Done(false, n),
{
}

/// A commit changes nothing before it has found that something changed.
pub proof fn law_commit_reads_until_changed(
    dirs: Seq<Seq<char>>,
    path: Seq<u8>,
    message: Seq<char>,
    h: Seq<Reply>,
    at: int,
)
    ensures
        only_reads(commit_all_turn(dirs, path, message, h, at)) || says_yes(
            has_changes_turn(path, h, at),
        ),
{
}

/// A name or an address for commits that is there is kept: it is never set, whatever else is
/// missing; where both are there, nothing is changed. One that is missing is set, to the service's
/// own.
pub proof fn law_identity_kept(
    path: Seq<u8>,
    has_name: bool,
    has_email: bool,
    h: Seq<Reply>,
    at: int,
)
    requires
        h.len() >= at + 4,
        at >= 0,
        h[at + 2] == Reply::Flag(has_name),
        h[at + 3] == Reply::Flag(has_email),
    ensures
        has_name && has_email ==> only_reads(ensure_identity_turn(path, h, at)),
        ensure_identity_turn(path, h, at) matches Turn::Ask(
            RequestModel::ConfigSet(repo, key, value),
        ) ==> {
            &&& repo == path
            &&& key == "user.name"@ && value == fallback_name() && !has_name || key
                == "user.email"@ && value == fallback_email() && !has_email
        },
        h[at] == Reply::Unit(Ok::<(), GitError>(())) && h[at + 1] == Reply::Unit(
            Ok::<(), GitError>(()),
        ) && h.len() == at + 5 && h[at + 4] == Reply::Unit(Ok::<(), GitError>(())) ==> {
            &&& !has_name ==> ensure_identity_turn(path, h, at) == ServiceTurn::<()>::Ask(
                RequestModel::ConfigSet(path, "user.name"@, fallback_name()),
            )
            &&& has_name && !has_email ==> ensure_identity_turn(path, h, at)
                == ServiceTurn::<()>::Ask(
                RequestModel::ConfigSet(path, "user.email"@, fallback_email()),
            )
        },
        !has_name && !has_email && h.len() == at + 6 && h[at] == Reply::Unit(
            Ok::<(), GitError>(()),
        ) && h[at + 1] == Reply::Unit(Ok::<(), GitError>(())) && h[at + 4] == Reply::Unit(
            Ok::<(), GitError>(()),
        ) && h[at + 5] == Reply::Unit(Ok::<(), GitError>(())) ==> ensure_identity_turn(path, h, at)
            == ServiceTurn::<()>::Ask(
            RequestModel::ConfigSet(path, "user.email"@, fallback_email()),
        ),
{
    reveal_strlit("user.name");
    reveal_strlit("user.email");
    assert("user.name"@.len() != "user.email"@.len());
}

/// A push changes nothing, here or there, before it has found that the worktree is clean.
pub proof fn law_push_reads_until_clean(
    path: Seq<u8>,
    branch: Seq<char>,
    force: bool,
    h: Seq<Reply>,
    at: int,
)
    ensures
        only_reads(push_to_github_turn(path, branch, force, h, at)) || open_clean_turn(path, h, at)
            is Done,
{
}

/// A push of a worktree with uncommitted changes fails.
pub proof fn law_push_refuses_dirty(
    path: Seq<u8>,
    name: Seq<char>,
    force: bool,
    h: Seq<Reply>,
    at: int,
    branch: Seq<char>,
    files: Seq<char>,
    n: int,
)
    requires
        open_clean_turn(path, h, at) == ServiceTurn::<()>::Failed(
            ServiceErrorModel::WorktreeDirty(branch, files),
            n,
        ),
    ensures
        push_to_github_turn(path, name, force, h, at) == ServiceTurn::<()>::Failed(
            ServiceErrorModel::WorktreeDirty(branch, files),
            n,
        ),
{
}

/// Whether anything changed, as `add_all_and_push_turn` finds it.
pub open spec fn push_check_turn(path: Seq<u8>, h: Seq<Reply>, at: int) -> ServiceTurn<bool> {
    and_then(
        open_turn(path, h, at),
        |u: (), n: int|
            and_then(
                default_url_turn(path, h, n),
                |remote: (Seq<char>, Seq<char>), n: int|
                    explained(has_changes_turn(path, h, n), "git status failed: "@),
            ),
    )
}

/// Where nothing has changed, nothing is staged, committed or pushed.
pub proof fn law_push_all_without_changes(
    dirs: Seq<Seq<char>>,
    path: Seq<u8>,
    branch: Seq<char>,
    h: Seq<Reply>,
    at: int,
    n: int,
)
    requires
        push_check_turn(path, h, at) == ServiceTurn::Done(false, n),
    ensures
        add_all_and_push_turn(dirs, path, branch, h, at) == ServiceTurn::Done((), n),
{
}

/// Nothing is staged, committed or pushed before something was found to have changed.
pub proof fn law_push_all_reads_until_changed(
    dirs: Seq<Seq<char>>,
    path: Seq<u8>,
    branch: Seq<char>,
    h: Seq<Reply>,
    at: int,
)
    ensures
        only_reads(add_all_and_push_turn(dirs, path, branch, h, at)) || says_yes(
            push_check_turn(path, h, at),
        ),
{
}

// ---------------------------------------------------------------------------
// Operations in progress
// ---------------------------------------------------------------------------

/// Aborting a rebase, a merge, a cherry-pick or a revert, or quitting a rebase, does nothing and
/// succeeds where none is in progress.
pub proof fn law_aborting_nothing(path: Seq<u8>, h: Seq<Reply>, at: int, n: int)
    ensures
        rebase_in_progress_turn(path, h, at) == CliTurn::Done(false, n) ==> abort_rebase_turn(
            path,
            h,
            at,
        ) == CliTurn::Done((), n) && quit_rebase_turn(path, h, at) == CliTurn::Done((), n),
        merge_in_progress_turn(path, h, at) == CliTurn::Done(false, n) ==> abort_merge_turn(
            path,
            h,
            at,
        ) == CliTurn::Done((), n),
        cherry_pick_in_progress_turn(path, h, at) == CliTurn::Done(false, n)
            ==> abort_cherry_pick_turn(path, h, at) == CliTurn::Done((), n),
        revert_in_progress_turn(path, h, at) == CliTurn::Done(false, n) ==> abort_revert_turn(
            path,
            h,
            at,
        ) == CliTurn::Done((), n),
{
}

/// Nothing is changed before the operation that is to be aborted was found to be in progress.
pub proof fn law_aborting_reads_until_found(path: Seq<u8>, h: Seq<Reply>, at: int)
    ensures
        only_reads(abort_rebase_turn(path, h, at)) || says_yes(
            rebase_in_progress_turn(path, h, at),
        ),
        only_reads(quit_rebase_turn(path, h, at)) || says_yes(rebase_in_progress_turn(path, h, at)),
        only_reads(abort_merge_turn(path, h, at)) || says_yes(merge_in_progress_turn(path, h, at)),
        only_reads(abort_cherry_pick_turn(path, h, at)) || says_yes(
            cherry_pick_in_progress_turn(path, h, at),
        ),
        only_reads(abort_revert_turn(path, h, at)) || says_yes(
            revert_in_progress_turn(path, h, at),
        ),
{
}

/// Where no operation is found to be in progress, there is nothing to abort, and nothing is done.
pub proof fn law_no_conflicts_to_abort(path: Seq<u8>, h: Seq<Reply>, at: int, n: int)
    requires
        conflict_op_turn(path, h, at) == ServiceTurn::Done(None::<ConflictOp>, n),
    ensures
        abort_conflicts_turn(path, h, at) == ServiceTurn::Done((), n),
{
}

/// Nothing is aborted before some operation was found to be in progress.
pub proof fn law_abort_conflicts_reads_until_found(path: Seq<u8>, h: Seq<Reply>, at: int)
    ensures
        only_reads(abort_conflicts_turn(path, h, at)) || (conflict_op_turn(path, h, at) matches
            Turn::Done(op, _) && op is Some),
{
}

/// Looking for an operation in progress never fails.
pub proof fn law_conflict_op_never_fails(path: Seq<u8>, h: Seq<Reply>, at: int)
    ensures
        !(conflict_op_turn(path, h, at) is Failed),
{
}

// ---------------------------------------------------------------------------
// Questions
// ---------------------------------------------------------------------------

/// Asking for branches and how they relate changes nothing.
pub proof fn law_branch_questions_read(
    path: Seq<u8>,
    name: Seq<char>,
    base: Seq<char>,
    h: Seq<Reply>,
    at: int,
)
    ensures
        only_reads(branch_type_turn(path, name, h, at)),
        only_reads(branch_exists_turn(path, name, h, at)),
        only_reads(branch_status_turn(path, name, base, h, at)),
        only_reads(base_commit_turn(path, name, base, h, at)),
        only_reads(branch_oid_turn(path, name, h, at)),
        only_reads(all_branches_turn(path, h, at)),
        only_reads(remote_name_turn(path, name, h, at)),
        only_reads(remote_has_branch_turn(path, name, h, at)),
        only_reads(github_info_turn(path, h, at)),
{
}

proof fn lemma_in_progress_reads(path: Seq<u8>, marker: Seq<char>, h: Seq<Reply>, at: int)
    ensures
        only_reads(believed(rebase_in_progress_turn(path, h, at))),
        !(believed(rebase_in_progress_turn(path, h, at)) is Failed),
        only_reads(believed(marker_exists_turn(path, marker, h, at))),
        !(believed(marker_exists_turn(path, marker, h, at)) is Failed),
{
}

#[verifier::spinoff_prover]
proof fn lemma_conflict_op_reads(path: Seq<u8>, h: Seq<Reply>, at: int)
    ensures
        only_reads(conflict_op_turn(path, h, at)),
{
    lemma_in_progress_reads(path, "MERGE_HEAD"@, h, at);
    if let Turn::Done(_, n1) = believed(rebase_in_progress_turn(path, h, at)) {
        lemma_in_progress_reads(path, "MERGE_HEAD"@, h, n1);
        if let Turn::Done(_, n2) = believed(marker_exists_turn(path, "MERGE_HEAD"@, h, n1)) {
            lemma_in_progress_reads(path, "CHERRY_PICK_HEAD"@, h, n2);
            if let Turn::Done(_, n3) = believed(
                marker_exists_turn(path, "CHERRY_PICK_HEAD"@, h, n2),
            ) {
                lemma_in_progress_reads(path, "REVERT_HEAD"@, h, n3);
            }
        }
    }
}

/// Asking for the state of a worktree changes nothing.
pub proof fn law_worktree_questions_read(
    dirs: Seq<Seq<char>>,
    path: Seq<u8>,
    branch: Seq<char>,
    h: Seq<Reply>,
    at: int,
)
    ensures
        only_reads(head_info_turn(path, h, at)),
        only_reads(is_clean_turn(path, h, at)),
        only_reads(change_counts_turn(dirs, path, h, at)),
        only_reads(checkout_path_turn(path, branch, h, at)),
        only_reads(conflict_op_turn(path, h, at)),
        only_reads(conflicted_files_turn(path, h, at)),
{
    lemma_conflict_op_reads(path, h, at);
}

proof fn lemma_walk_reads(
    repo: Seq<u8>,
    ids: Seq<Result<Oid, GitError>>,
    i: int,
    done: Seq<CommitModel>,
    h: Seq<Reply>,
    at: int,
)
    ensures
        only_reads(walked_turn(repo, ids, i, done, h, at)),
    decreases ids.len() - i,
{
    if 0 <= i < ids.len() {
        if let Ok(id) = ids[i] {
            if let Turn::Done(c, n) = commit_changes_turn(repo, id@, h, at) {
                lemma_walk_reads(repo, ids, i + 1, done.push(c), h, n);
            }
        }
    }
}

/// Asking for commits changes nothing.
pub proof fn law_commit_questions_read(
    path: Seq<u8>,
    sha: Seq<char>,
    other: Seq<char>,
    limit: int,
    h: Seq<Reply>,
    at: int,
)
    ensures
        only_reads(commit_subject_turn(path, sha, h, at)),
        only_reads(ahead_behind_ids_turn(path, sha, other, h, at)),
        only_reads(file_stats_turn(path, limit, h, at)),
{
    assert forall|ids: Seq<Result<Oid, GitError>>, m: int|
        only_reads(
            #[trigger] walked_turn(path, limited(ids, limit), 0, Seq::<CommitModel>::empty(), h, m),
        ) by {
        lemma_walk_reads(path, limited(ids, limit), 0, Seq::<CommitModel>::empty(), h, m);
    }
}

/// Whether a command works on an index alone: it fills the index from HEAD, stages files in it, or
/// compares it with a commit.
pub open spec fn is_indexing(args: Seq<Seq<u8>>) -> bool {
    ||| args.len() == 2 && args[0] == utf8("read-tree"@) && args[1] == utf8("HEAD"@)
    ||| args.len() >= 2 && args[0] == utf8("add"@) && args[1] == utf8("-A"@)
    ||| args.len() >= 4 && args[0] == utf8("-c"@) && args[1] == utf8("core.quotepath=false"@)
        && args[2] == utf8("diff"@) && args[3] == utf8("--cached"@)
}

/// Whether a request changes nothing but a temporary index: it only reads, makes the place for that
/// index, or runs a command that works on an index, with that index named in the environment.
pub open spec fn spares_repository(q: RequestModel) -> bool {
    ||| is_reading(q)
    ||| q is TempIndex
    ||| q matches RequestModel::Run(c) && c.envs.len() == 1 && c.envs[0].0 == utf8(
        "GIT_INDEX_FILE"@,
    ) && is_indexing(c.args)
}

/// Comparing a worktree with a commit stages files in a temporary index alone.
pub proof fn law_status_diff_spares_index(
    dirs: Seq<Seq<char>>,
    path: Seq<u8>,
    base: Seq<u8>,
    filter: Option<Seq<Seq<char>>>,
    h: Seq<Reply>,
    at: int,
)
    ensures
        diff_status_turn(dirs, path, base, filter, h, at) matches Turn::Ask(q)
            ==> spares_repository(q),
{
}

proof fn lemma_delta_reads(
    repo: Seq<u8>,
    delta: DeltaRecord,
    counts: Option<LineCounts>,
    h: Seq<Reply>,
    at: int,
)
    ensures
        only_reads(delta_turn(repo, delta, counts, h, at)),
        !(delta_turn(repo, delta, counts, h, at) is Failed),
{
}

proof fn lemma_file_diffs_read(
    repo: Seq<u8>,
    deltas: Seq<DeltaRecord>,
    stats: Seq<Option<LineCounts>>,
    i: int,
    done: Seq<DiffModel>,
    h: Seq<Reply>,
    at: int,
)
    ensures
        only_reads(file_diffs_turn(repo, deltas, stats, i, done, h, at)),
        !(file_diffs_turn(repo, deltas, stats, i, done, h, at) is Failed),
    decreases deltas.len() - i,
{
    if 0 <= i < deltas.len() {
        if deltas[i].status is Unreadable {
            lemma_file_diffs_read(repo, deltas, stats, i + 1, done, h, at);
        } else {
            let counts = counts_at(stats, done.len() as int);
            lemma_delta_reads(repo, deltas[i], counts, h, at);
            if let Turn::Done(d, n) = delta_turn(repo, deltas[i], counts, h, at) {
                lemma_file_diffs_read(repo, deltas, stats, i + 1, done.push(d), h, n);
            }
        }
    }
}

proof fn lemma_status_diff_reads(
    repo: Seq<u8>,
    tree: Seq<u8>,
    e: StatusDiffModel,
    h: Seq<Reply>,
    at: int,
)
    ensures
        only_reads(status_diff_turn(repo, tree, e, h, at)),
        !(status_diff_turn(repo, tree, e, h, at) is Failed),
{
}

proof fn lemma_status_diffs_read(
    repo: Seq<u8>,
    tree: Seq<u8>,
    entries: Seq<StatusDiffModel>,
    i: int,
    done: Seq<DiffModel>,
    h: Seq<Reply>,
    at: int,
)
    ensures
        only_reads(status_diffs_turn(repo, tree, entries, i, done, h, at)),
        !(status_diffs_turn(repo, tree, entries, i, done, h, at) is Failed),
    decreases entries.len() - i,
{
    if 0 <= i < entries.len() {
        lemma_status_diff_reads(repo, tree, entries[i], h, at);
        if let Turn::Done(d, n) = status_diff_turn(repo, tree, entries[i], h, at) {
            lemma_status_diffs_read(repo, tree, entries, i + 1, done.push(d), h, n);
        }
    }
}

/// Turning what was reported or compared into changes with contents changes nothing, and never
/// fails: what cannot be read is left out.
pub proof fn law_contents_are_only_read(
    repo: Seq<u8>,
    tree: Seq<u8>,
    diff: DiffRecord,
    entries: Seq<StatusDiffModel>,
    h: Seq<Reply>,
    at: int,
)
    ensures
        only_reads(converted_turn(repo, diff, h, at)),
        !(converted_turn(repo, diff, h, at) is Failed),
        only_reads(status_diffs_turn(repo, tree, entries, 0, seq![], h, at)),
        !(status_diffs_turn(repo, tree, entries, 0, seq![], h, at) is Failed),
{
    lemma_file_diffs_read(repo, diff.deltas@, diff.line_stats@, 0, seq![], h, at);
    lemma_status_diffs_read(repo, tree, entries, 0, seq![], h, at);
}

/// Diffs change nothing in the repository or the worktree, whatever their target is.
pub proof fn law_diffs_spare_repository(
    dirs: Seq<Seq<char>>,
    target: TargetModel,
    filter: Option<Seq<Seq<char>>>,
    h: Seq<Reply>,
    at: int,
)
    ensures
        get_diffs_turn(dirs, target, filter, h, at) matches Turn::Ask(q) ==> spares_repository(q),
{
    assert forall|repo: Seq<u8>, diff: DiffRecord, m: int|
        only_reads(#[trigger] converted_turn(repo, diff, h, m)) by {
        lemma_file_diffs_read(repo, diff.deltas@, diff.line_stats@, 0, seq![], h, m);
    }
    assert forall|repo: Seq<u8>, tree: Seq<u8>, entries: Seq<StatusDiffModel>, m: int|
        only_reads(
            #[trigger] status_diffs_turn(repo, tree, entries, 0, Seq::<DiffModel>::empty(), h, m),
        ) by {
        lemma_status_diffs_read(repo, tree, entries, 0, Seq::<DiffModel>::empty(), h, m);
    }
    assert forall|path: Seq<u8>, base: Seq<u8>, m: int|
        (#[trigger] diff_status_turn(dirs, path, base, filter, h, m)) matches Turn::Ask(q)
            ==> spares_repository(q) by {
        law_status_diff_spares_index(dirs, path, base, filter, h, m);
    }
}

} // verus!
