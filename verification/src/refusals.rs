//! What operations say when a step fails.
use vstd::prelude::*;

use crate::branches::{find_branch_turn, rename_branch_turn};
use crate::cli::{failure_text, git_turn, output_of, CliTurn};
use crate::cloning::{credentials_turn, CredentialsModel};
use crate::commands::{
    abort_cherry_pick_turn, abort_merge_turn, abort_rebase_turn, abort_revert_turn, add_all_turn,
    cli_commit_turn, conflicted_files_turn, diff_status_turn, has_changes_turn,
    has_staged_changes_turn, list_worktrees_turn, marker_exists_turn, merge_base_turn,
    merge_squash_turn, quit_rebase_turn, rebase_in_progress_turn, rebase_onto_turn, update_ref_turn,
    worktree_add_turn, worktree_move_turn, worktree_prune_turn, worktree_remove_turn,
    worktree_status_turn,
};
use crate::comparing::{get_diffs_turn, TargetModel};
use crate::dialogue::{Reply, Turn};
use crate::diff::DiffModel;
use crate::errors::{
    cli_error_text, service_error_text, CliErrorModel, GitError, GitErrorModel, ServiceErrorModel,
};
use crate::merging::merge_checked_out_turn;
use crate::model::Model;
use crate::oid::{oid_of_text, Oid};
use crate::porcelain::{StatusDiffModel, WorktreeModel, WorktreeStatusModel};
use crate::raw::{strict_text, utf8, RawText};
use crate::rebasing::{
    abort_conflicts_turn, conflict_files_text, conflict_op_turn, failed_rebase_turn,
    rebase_branch_turn, rebase_checked_turn, rebase_conflict_text, service_abort_rebase_turn,
    service_conflicts_turn, ConflictOp,
};
use crate::records::{
    BranchInfo, BranchType, CommitInfo, GitHubRepoInfo, HeadRef, RemoteInfo, RunEnd, RunReport,
    StatusRecord, VersionReport,
};
use crate::remotes::{
    add_all_and_push_turn, default_url_turn, fetch_branch_turn, fetch_from_turn, github_info_turn,
    remote_of_ref_turn,
};
use crate::service::{
    commit_all_turn, default_remote_turn, ensure_identity_turn, ensure_main_turn, initialize_turn,
    ServiceTurn,
};
use crate::text::{has_part, joined, utf8_fault};
use crate::traces::{leaves_out, lemma_left_out};
use crate::worktrees::{
    ahead_behind_ids_turn, change_counts_turn, changed_files, check_clean_turn, checkout_path_turn,
    commit_subject_turn, current_branch_turn, head_info_turn, is_clean_turn, reset_turn, HeadModel,
};

verus! {

/// A list of worktrees that fails tells so when a checkout is looked for.
pub proof fn law_failed_worktree_list_told(
    path: Seq<u8>,
    branch: Seq<char>,
    h: Seq<Reply>,
    at: int,
    e: CliErrorModel,
    n: int,
)
    requires
        list_worktrees_turn(path, h, at) == CliTurn::<Seq<WorktreeModel>>::Failed(e, n),
    ensures
        checkout_path_turn(path, branch, h, at) == ServiceTurn::<Option<Seq<u8>>>::Failed(
            ServiceErrorModel::InvalidRepository("git worktree list failed: "@ + cli_error_text(e)),
            n,
        ),
{
}

/// A status that fails tells so: when changes are counted, when they are committed, and when they
/// are pushed.
pub proof fn law_failed_status_told(
    dirs: Seq<Seq<char>>,
    path: Seq<u8>,
    message: Seq<char>,
    h: Seq<Reply>,
    at: int,
    e: CliErrorModel,
    n: int,
)
    ensures
        worktree_status_turn(dirs, path, h, at) == CliTurn::<WorktreeStatusModel>::Failed(e, n)
            ==> change_counts_turn(dirs, path, h, at) == ServiceTurn::<(int, int)>::Failed(
                ServiceErrorModel::InvalidRepository("git status failed: "@ + cli_error_text(e)),
                n,
            ),
        has_changes_turn(path, h, at) == CliTurn::<bool>::Failed(e, n)
            ==> commit_all_turn(dirs, path, message, h, at) == ServiceTurn::<bool>::Failed(
                ServiceErrorModel::InvalidRepository("git status failed: "@ + cli_error_text(e)),
                n,
            ),
{
}

/// A status that fails stops a push of all changes, and tells so.
pub proof fn law_failed_status_stops_push(
    dirs: Seq<Seq<char>>,
    path: Seq<u8>,
    branch: Seq<char>,
    remote: (Seq<char>, Seq<char>),
    p: int,
    h: Seq<Reply>,
    at: int,
    e: CliErrorModel,
    n: int,
)
    requires
        0 <= at < h.len(),
        h[at] == Reply::Unit(Ok::<(), GitError>(())),
        default_url_turn(path, h, at + 1) == ServiceTurn::Done(remote, p),
        has_changes_turn(path, h, p) == CliTurn::<bool>::Failed(e, n),
    ensures
        add_all_and_push_turn(dirs, path, branch, h, at) == ServiceTurn::<()>::Failed(
            ServiceErrorModel::InvalidRepository("git status failed: "@ + cli_error_text(e)),
            n,
        ),
{
}

/// Where changes cannot be staged, or the commit fails, that is told, and nothing is committed.
pub proof fn law_failed_commit_told(
    dirs: Seq<Seq<char>>,
    path: Seq<u8>,
    message: Seq<char>,
    p: int,
    q: int,
    r: int,
    h: Seq<Reply>,
    at: int,
    e: CliErrorModel,
    n: int,
)
    requires
        has_changes_turn(path, h, at) == CliTurn::Done(true, p),
    ensures
        add_all_turn(dirs, path, h, p) == CliTurn::<()>::Failed(e, n)
            ==> commit_all_turn(dirs, path, message, h, at) == ServiceTurn::<bool>::Failed(
                ServiceErrorModel::InvalidRepository("git add failed: "@ + cli_error_text(e)),
                n,
            ),
        add_all_turn(dirs, path, h, p) == CliTurn::Done((), q)
            && ensure_identity_turn(path, h, q) == ServiceTurn::Done((), r)
            && cli_commit_turn(path, message, h, r) == CliTurn::<()>::Failed(e, n)
            ==> commit_all_turn(dirs, path, message, h, at) == ServiceTurn::<bool>::Failed(
                ServiceErrorModel::InvalidRepository("git commit failed: "@ + cli_error_text(e)),
                n,
            ),
{
}

/// A reset whose command fails tells so.
pub proof fn law_failed_reset_told(
    path: Seq<u8>,
    sha: Seq<char>,
    h: Seq<Reply>,
    at: int,
    e: CliErrorModel,
    n: int,
)
    requires
        0 <= at < h.len(),
        h[at] == Reply::Unit(Ok::<(), GitError>(())),
        git_turn(
            path,
            seq![utf8("reset"@), utf8("--hard"@), utf8(sha)],
            h,
            at + 1,
        ) == CliTurn::<Seq<char>>::Failed(e, n),
    ensures
        reset_turn(path, sha, true, h, at) == ServiceTurn::<()>::Failed(
            ServiceErrorModel::InvalidRepository("git reset --hard failed: "@ + cli_error_text(e)),
            n,
        ),
{
}

/// A worktree with changes is not reset without force, and its failure is that of the check.
pub proof fn law_dirty_worktree_not_reset(
    path: Seq<u8>,
    sha: Seq<char>,
    h: Seq<Reply>,
    at: int,
    f: ServiceErrorModel,
    n: int,
)
    requires
        0 <= at < h.len(),
        h[at] == Reply::Unit(Ok::<(), GitError>(())),
        check_clean_turn(path, h, at + 1) == ServiceTurn::<()>::Failed(f, n),
    ensures
        reset_turn(path, sha, false, h, at) == ServiceTurn::<()>::Failed(f, n),
{
}

/// A merge in a checkout fails as its steps do: where staged changes cannot be told, where there
/// are some, where the merge fails, and where the task branch cannot be moved.
pub proof fn law_failed_checkout_merge_told(
    base_path: Seq<u8>,
    checkout: Seq<u8>,
    task: Seq<char>,
    base: Seq<char>,
    message: Seq<char>,
    sha: Seq<char>,
    p: int,
    q: int,
    r: int,
    h: Seq<Reply>,
    at: int,
    e: CliErrorModel,
    n: int,
)
    ensures
        has_staged_changes_turn(checkout, h, at) == CliTurn::<bool>::Failed(e, n)
            ==> merge_checked_out_turn(base_path, checkout, task, base, message, h, at)
                == ServiceTurn::<Seq<char>>::Failed(
                    ServiceErrorModel::InvalidRepository(
                        "git diff --cached failed: "@ + cli_error_text(e),
                    ),
                    n,
                ),
        has_staged_changes_turn(checkout, h, at) == CliTurn::Done(true, p)
            ==> merge_checked_out_turn(base_path, checkout, task, base, message, h, at)
                == ServiceTurn::<Seq<char>>::Failed(
                    ServiceErrorModel::WorktreeDirty(base, "staged changes present"@),
                    p,
                ),
        has_staged_changes_turn(checkout, h, at) == CliTurn::Done(false, p)
            && ensure_identity_turn(checkout, h, p) == ServiceTurn::Done((), q)
            && merge_squash_turn(
                checkout,
                base,
                task,
                message,
                h,
                q,
            ) == CliTurn::<Seq<char>>::Failed(e, n)
            ==> merge_checked_out_turn(base_path, checkout, task, base, message, h, at)
                == ServiceTurn::<Seq<char>>::Failed(
                    ServiceErrorModel::InvalidRepository("CLI merge failed: "@ + cli_error_text(e)),
                    n,
                ),
        has_staged_changes_turn(checkout, h, at) == CliTurn::Done(false, p)
            && ensure_identity_turn(checkout, h, p) == ServiceTurn::Done((), q)
            && merge_squash_turn(checkout, base, task, message, h, q) == CliTurn::Done(sha, r)
            && update_ref_turn(
                base_path,
                "refs/heads/"@ + task,
                sha,
                h,
                r,
            ) == CliTurn::<()>::Failed(e, n)
            ==> merge_checked_out_turn(base_path, checkout, task, base, message, h, at)
                == ServiceTurn::<Seq<char>>::Failed(
                    ServiceErrorModel::InvalidRepository(
                        "git update-ref failed: "@ + cli_error_text(e),
                    ),
                    n,
                ),
{
}

/// A rebase that is in progress is found before another begins, and is not touched.
pub proof fn law_second_rebase_refused(
    dir: Seq<u8>,
    new_base: Seq<char>,
    old_base: Seq<char>,
    task: Seq<char>,
    h: Seq<Reply>,
    at: int,
    n: int,
)
    requires
        rebase_in_progress_turn(dir, h, at) == CliTurn::Done(true, n),
    ensures
        rebase_onto_turn(dir, new_base, old_base, task, h, at) == CliTurn::<()>::Failed(
            CliErrorModel::RebaseInProgress,
            n,
        ),
{
}

/// A rebase goes no further than a branch that is not found, a fetch that fails, or an identity
/// that cannot be set: each failure is that of the rebase.
pub proof fn law_rebase_stops_before_command(
    repo: Seq<u8>,
    path: Seq<u8>,
    new_base: Seq<char>,
    old_base: Seq<char>,
    task: Seq<char>,
    kind: BranchType,
    info: BranchInfo,
    p: int,
    h: Seq<Reply>,
    at: int,
    f: ServiceErrorModel,
    n: int,
)
    ensures
        find_branch_turn(repo, new_base, h, at) == ServiceTurn::<(BranchType, BranchInfo)>::Failed(
            f,
            n,
        )
            ==> rebase_checked_turn(
                repo,
                path,
                new_base,
                old_base,
                task,
                h,
                at,
            ) == ServiceTurn::<Seq<char>>::Failed(f, n),
        find_branch_turn(repo, new_base, h, at) == ServiceTurn::Done((kind, info), p)
            && info.is_remote
            && fetch_branch_turn(repo, info, h, p) == ServiceTurn::<()>::Failed(f, n)
            ==> rebase_checked_turn(
                repo,
                path,
                new_base,
                old_base,
                task,
                h,
                at,
            ) == ServiceTurn::<Seq<char>>::Failed(f, n),
        find_branch_turn(repo, new_base, h, at) == ServiceTurn::Done((kind, info), p)
            && !info.is_remote
            && ensure_identity_turn(path, h, p) == ServiceTurn::<()>::Failed(f, n)
            ==> rebase_checked_turn(
                repo,
                path,
                new_base,
                old_base,
                task,
                h,
                at,
            ) == ServiceTurn::<Seq<char>>::Failed(f, n),
{
}

/// A list of conflicts, or the end of an operation, that fails tells which command it was.
pub proof fn law_failed_end_told(
    path: Seq<u8>,
    h: Seq<Reply>,
    at: int,
    e: CliErrorModel,
    n: int,
)
    ensures
        conflicted_files_turn(path, h, at) == CliTurn::<Seq<Seq<char>>>::Failed(e, n)
            ==> service_conflicts_turn(path, h, at) == ServiceTurn::<Seq<Seq<char>>>::Failed(
                ServiceErrorModel::InvalidRepository(
                    "git diff for conflicts failed: "@ + cli_error_text(e),
                ),
                n,
            ),
        abort_rebase_turn(path, h, at) == CliTurn::<()>::Failed(e, n)
            ==> service_abort_rebase_turn(path, h, at) == ServiceTurn::<()>::Failed(
                ServiceErrorModel::InvalidRepository(
                    "git rebase --abort failed: "@ + cli_error_text(e),
                ),
                n,
            ),
{
}

/// Aborting an operation that is in progress fails as its command does, and says which it was.
pub proof fn law_failed_abort_told(
    path: Seq<u8>,
    op: ConflictOp,
    p: int,
    h: Seq<Reply>,
    at: int,
    e: CliErrorModel,
    n: int,
)
    requires
        conflict_op_turn(path, h, at) == ServiceTurn::Done(Some(op), p),
    ensures
        op is Merge && abort_merge_turn(path, h, p) == CliTurn::<()>::Failed(e, n)
            ==> abort_conflicts_turn(path, h, at) == ServiceTurn::<()>::Failed(
                ServiceErrorModel::InvalidRepository(
                    "git merge --abort failed: "@ + cli_error_text(e),
                ),
                n,
            ),
        op is CherryPick && abort_cherry_pick_turn(path, h, p) == CliTurn::<()>::Failed(e, n)
            ==> abort_conflicts_turn(path, h, at) == ServiceTurn::<()>::Failed(
                ServiceErrorModel::InvalidRepository(
                    "git cherry-pick --abort failed: "@ + cli_error_text(e),
                ),
                n,
            ),
        op is Revert && abort_revert_turn(path, h, p) == CliTurn::<()>::Failed(e, n)
            ==> abort_conflicts_turn(path, h, at) == ServiceTurn::<()>::Failed(
                ServiceErrorModel::InvalidRepository(
                    "git revert --abort failed: "@ + cli_error_text(e),
                ),
                n,
            ),
{
}

/// A rebase with conflicts whose abort fails, and one without whose end fails, say which it was.
pub proof fn law_failed_rebase_end_told(
    path: Seq<u8>,
    files: Seq<Seq<char>>,
    p: int,
    q: int,
    h: Seq<Reply>,
    at: int,
    e: CliErrorModel,
    n: int,
)
    requires
        conflict_op_turn(path, h, at) == ServiceTurn::Done(Some(ConflictOp::Rebase), p),
        service_conflicts_turn(path, h, p) == ServiceTurn::Done(files, q),
    ensures
        files.len() > 0 && abort_rebase_turn(path, h, q) == CliTurn::<()>::Failed(e, n)
            ==> abort_conflicts_turn(path, h, at) == ServiceTurn::<()>::Failed(
                ServiceErrorModel::InvalidRepository(
                    "git rebase --abort failed: "@ + cli_error_text(e),
                ),
                n,
            ),
        files.len() == 0 && quit_rebase_turn(path, h, q) == CliTurn::<()>::Failed(e, n)
            ==> abort_conflicts_turn(path, h, at) == ServiceTurn::<()>::Failed(
                ServiceErrorModel::InvalidRepository(
                    "git rebase --quit failed: "@ + cli_error_text(e),
                ),
                n,
            ),
{
}

/// A comparison of a worktree that fails says whether the tree of the base commit or the comparison
/// was at fault.
pub proof fn law_failed_comparison_told(
    dirs: Seq<Seq<char>>,
    path: Seq<u8>,
    base: Seq<u8>,
    filter: Option<Seq<Seq<char>>>,
    c: CommitInfo,
    tree: Result<Oid, GitError>,
    h: Seq<Reply>,
    at: int,
    e: CliErrorModel,
    n: int,
)
    requires
        0 <= at,
        at + 2 < h.len(),
        h[at] == Reply::Unit(Ok::<(), GitError>(())),
        h[at + 1] == Reply::Commit(Ok::<CommitInfo, GitError>(c)),
        h[at + 2] == Reply::Id(tree),
    ensures
        tree is Err
            ==> get_diffs_turn(dirs, TargetModel::Worktree { path, base }, filter, h, at)
                == ServiceTurn::<Seq<DiffModel>>::Failed(
                    ServiceErrorModel::InvalidRepository(
                        "Failed to find base commit tree: "@ + tree->Err_0.shown@,
                    ),
                    at + 3,
                ),
        tree is Ok
            && diff_status_turn(
                dirs,
                path,
                base,
                filter,
                h,
                at + 3,
            ) == CliTurn::<Seq<StatusDiffModel>>::Failed(e, n)
            ==> get_diffs_turn(dirs, TargetModel::Worktree { path, base }, filter, h, at)
                == ServiceTurn::<Seq<DiffModel>>::Failed(
                    ServiceErrorModel::InvalidRepository("git diff failed: "@ + cli_error_text(e)),
                    n,
                ),
{
}

/// The first commit has nothing to be compared with.
pub proof fn law_first_commit_not_compared(
    dirs: Seq<Seq<char>>,
    path: Seq<u8>,
    sha: Seq<char>,
    filter: Option<Seq<Seq<char>>>,
    c: CommitInfo,
    x: GitError,
    h: Seq<Reply>,
    at: int,
)
    requires
        0 <= at,
        at + 2 < h.len(),
        oid_of_text(sha) is Some,
        h[at] == Reply::Unit(Ok::<(), GitError>(())),
        h[at + 1] == Reply::Commit(Ok::<CommitInfo, GitError>(c)),
        h[at + 2] == Reply::Id(Err::<Oid, GitError>(x)),
    ensures
        get_diffs_turn(dirs, TargetModel::Commit { path, sha }, filter, h, at)
            == ServiceTurn::<Seq<DiffModel>>::Failed(
                ServiceErrorModel::InvalidRepository(
                    "Commit has no parent; cannot diff a squash merge without a baseline"@,
                ),
                at + 3,
            ),
{
}

/// What is not the id of a commit is refused, and it is said what it was given as.
pub proof fn law_what_is_no_id_told(
    dirs: Seq<Seq<char>>,
    path: Seq<u8>,
    sha: Seq<char>,
    other: Seq<char>,
    filter: Option<Seq<Seq<char>>>,
    h: Seq<Reply>,
    at: int,
)
    requires
        0 <= at < h.len(),
        h[at] == Reply::Unit(Ok::<(), GitError>(())),
        oid_of_text(sha) is None,
    ensures
        commit_subject_turn(path, sha, h, at) == ServiceTurn::<Seq<char>>::Failed(
            ServiceErrorModel::InvalidRepository("Invalid commit SHA"@),
            at + 1,
        ),
        get_diffs_turn(dirs, TargetModel::Commit { path, sha }, filter, h, at)
            == ServiceTurn::<Seq<DiffModel>>::Failed(
                ServiceErrorModel::InvalidRepository("Invalid commit SHA: "@ + sha),
                at + 1,
            ),
        ahead_behind_ids_turn(path, sha, other, h, at) == ServiceTurn::<(int, int)>::Failed(
            ServiceErrorModel::InvalidRepository("Invalid from OID"@),
            at + 1,
        ),
        oid_of_text(other) is Some
            ==> ahead_behind_ids_turn(path, other, sha, h, at) == ServiceTurn::<(int, int)>::Failed(
                ServiceErrorModel::InvalidRepository("Invalid to OID"@),
                at + 1,
            ),
{
}

/// Paths of a worktree that are not text are not moved, and it is said which of the two it was.
pub proof fn law_unreadable_paths_not_moved(
    dir: Seq<u8>,
    old_path: Seq<u8>,
    new_path: Seq<u8>,
    h: Seq<Reply>,
    at: int,
)
    requires
        0 <= at < h.len(),
        h[at] == Reply::Version(VersionReport::Ended(true)),
    ensures
        strict_text(old_path) is None
            ==> worktree_move_turn(dir, old_path, new_path, h, at) == CliTurn::<()>::Failed(
                CliErrorModel::CommandFailed("Invalid old worktree path"@),
                at + 1,
            ),
        strict_text(old_path) is Some && strict_text(new_path) is None
            ==> worktree_move_turn(dir, old_path, new_path, h, at) == CliTurn::<()>::Failed(
                CliErrorModel::CommandFailed("Invalid new worktree path"@),
                at + 1,
            ),
{
}

/// Where no place for an index is found, a worktree is not compared.
pub proof fn law_no_place_for_index_told(
    dirs: Seq<Seq<char>>,
    dir: Seq<u8>,
    base: Seq<u8>,
    filter: Option<Seq<Seq<char>>>,
    m: String,
    h: Seq<Reply>,
    at: int,
)
    requires
        0 <= at < h.len(),
        h[at] == Reply::TempIndex(Err::<RawText, String>(m)),
    ensures
        diff_status_turn(dirs, dir, base, filter, h, at) == CliTurn::<Seq<StatusDiffModel>>::Failed(
            CliErrorModel::CommandFailed("temp dir create failed: "@ + m@),
            at + 1,
        ),
{
}

/// The remote of a branch is not found where the branch has no reference, where its remote has no
/// name that is text, or where there is no such remote.
pub proof fn law_missing_remote_told(
    repo: Seq<u8>,
    branch: BranchInfo,
    refname: String,
    raw_name: RawText,
    x: GitError,
    h: Seq<Reply>,
    at: int,
)
    requires
        0 <= at,
        at + 1 < h.len(),
        h[at] == Reply::Bytes(Ok::<RawText, GitError>(raw_name)),
        h[at + 1] == Reply::Remote(Err::<RemoteInfo, GitError>(x)),
    ensures
        branch.refname is None
            ==> remote_of_ref_turn(repo, branch, h, at) == ServiceTurn::<RemoteInfo>::Failed(
                ServiceErrorModel::InvalidRepository("Invalid branch ref"@),
                at,
            ),
        branch.refname == Some(refname) && strict_text(raw_name@) is None
            ==> remote_of_ref_turn(repo, branch, h, at) == ServiceTurn::<RemoteInfo>::Failed(
                ServiceErrorModel::InvalidRepository(
                    "Invalid remote name for branch "@ + refname@ + ": "@ + utf8_fault(raw_name@),
                ),
                at + 1,
            ),
        branch.refname == Some(refname) && strict_text(raw_name@) is Some
            ==> remote_of_ref_turn(repo, branch, h, at) == ServiceTurn::<RemoteInfo>::Failed(
                ServiceErrorModel::InvalidRepository(
                    "Remote '"@ + strict_text(
                        raw_name@,
                    )->0 + "' for branch '"@ + refname@ + "' not found"@,
                ),
                at + 2,
            ),
{
}

/// A remote without an address is neither fetched from nor pushed to.
pub proof fn law_remote_without_address_refused(
    repo: Seq<u8>,
    remote: RemoteInfo,
    refspec: Seq<char>,
    p: int,
    name: Seq<char>,
    h: Seq<Reply>,
    at: int,
)
    requires
        remote.url is None,
        default_remote_turn::<ServiceErrorModel>(repo, h, at) == ServiceTurn::Done(name, p),
        0 <= p < h.len(),
        h[p] == Reply::Remote(Ok::<RemoteInfo, GitError>(remote)),
    ensures
        fetch_from_turn(repo, remote, refspec, h, at) == ServiceTurn::<()>::Failed(
            ServiceErrorModel::InvalidRepository("Remote has no URL"@),
            at,
        ),
        default_url_turn(repo, h, at) == ServiceTurn::<(Seq<char>, Seq<char>)>::Failed(
            ServiceErrorModel::InvalidRepository("Remote has no URL"@),
            p + 1,
        ),
{
}

/// The repository on the service is not named where the default remote is not there, or its address
/// is not one of the service.
pub proof fn law_unnamed_repository_told(
    path: Seq<u8>,
    name: Seq<char>,
    x: GitError,
    remote: RemoteInfo,
    url: String,
    m: String,
    p: int,
    h: Seq<Reply>,
    at: int,
)
    requires
        0 <= at < h.len(),
        h[at] == Reply::Unit(Ok::<(), GitError>(())),
        default_remote_turn::<ServiceErrorModel>(path, h, at + 1) == ServiceTurn::Done(name, p),
        0 <= p < h.len(),
        remote.url == Some(url),
    ensures
        h[p] == Reply::Remote(Err::<RemoteInfo, GitError>(x))
            ==> github_info_turn(path, h, at) == ServiceTurn::<(Seq<char>, Seq<char>)>::Failed(
                ServiceErrorModel::InvalidRepository("No '"@ + name + "' remote found"@),
                p + 1,
            ),
        p + 1 < h.len() && h[p] == Reply::Remote(Ok::<RemoteInfo, GitError>(remote))
            && h[p + 1] == Reply::RepoInfo(Err::<GitHubRepoInfo, String>(m))
            ==> github_info_turn(path, h, at) == ServiceTurn::<(Seq<char>, Seq<char>)>::Failed(
                ServiceErrorModel::InvalidRepository("Failed to parse remote URL: "@ + m@),
                p + 2,
            ),
{
}

/// Without a home directory there is no key file to offer.
pub proof fn law_no_home_told(
    user: Seq<char>,
    h: Seq<Reply>,
    at: int,
)
    requires
        0 <= at,
        at + 1 < h.len(),
    ensures
        h[at] == Reply::Found(None)
            ==> credentials_turn(None, None, h, at)
                == Turn::<CredentialsModel, GitErrorModel>::Failed(
                    GitErrorModel {
                        code: -1,
                        class: 0,
                        message: "Could not find home directory"@,
                        shown: "Could not find home directory"@,
                    },
                    at + 1,
                ),
        h[at] == Reply::Flag(false) && h[at + 1] == Reply::Found(None)
            ==> credentials_turn(None, Some(user), h, at)
                == Turn::<CredentialsModel, GitErrorModel>::Failed(
                    GitErrorModel {
                        code: -1,
                        class: 0,
                        message: "Could not find home directory"@,
                        shown: "Could not find home directory"@,
                    },
                    at + 2,
                ),
{
}

/// A HEAD without a commit has neither an id nor a branch to tell.
pub proof fn law_head_without_commit_told(
    path: Seq<u8>,
    head: HeadRef,
    h: Seq<Reply>,
    at: int,
)
    requires
        0 <= at,
        at + 1 < h.len(),
        h[at] == Reply::Unit(Ok::<(), GitError>(())),
        h[at + 1] == Reply::Head(Ok::<HeadRef, GitError>(head)),
        head.target is None,
    ensures
        head_info_turn(path, h, at) == ServiceTurn::<HeadModel>::Failed(
            ServiceErrorModel::InvalidRepository("Repository HEAD has no target commit"@),
            at + 2,
        ),
        current_branch_turn(path, h, at) == Turn::<Seq<char>, GitErrorModel>::Failed(
            GitErrorModel {
                code: -1,
                class: 0,
                message: "Failed to get head info"@,
                shown: "Failed to get head info"@,
            },
            at + 2,
        ),
{
}

/// A HEAD that cannot be read fails as the reading did.
pub proof fn law_unread_head_told(
    path: Seq<u8>,
    x: GitError,
    h: Seq<Reply>,
    at: int,
)
    requires
        0 <= at,
        at + 1 < h.len(),
        h[at] == Reply::Unit(Ok::<(), GitError>(())),
        h[at + 1] == Reply::Head(Err::<HeadRef, GitError>(x)),
    ensures
        head_info_turn(path, h, at) == ServiceTurn::<HeadModel>::Failed(
            ServiceErrorModel::Git(x.model()),
            at + 2,
        ),
        current_branch_turn(path, h, at) == Turn::<Seq<char>, GitErrorModel>::Failed(
            x.model(),
            at + 2,
        ),
{
}

/// A check of a worktree that is not clean names the branch, or says that it is not known.
pub proof fn law_dirty_branch_unknown(
    path: Seq<u8>,
    records: Vec<StatusRecord>,
    head: Result<HeadRef, GitError>,
    h: Seq<Reply>,
    at: int,
)
    requires
        0 <= at,
        at + 1 < h.len(),
        h[at] == Reply::Statuses(Ok::<Vec<StatusRecord>, GitError>(records)),
        h[at + 1] == Reply::Head(head),
        changed_files(records@).len() > 0,
        head is Err || head->Ok_0.shorthand is None,
    ensures
        check_clean_turn(path, h, at) == ServiceTurn::<()>::Failed(
            ServiceErrorModel::WorktreeDirty(
                "unknown branch"@,
                joined(changed_files(records@), ", "@),
            ),
            at + 2,
        ),
{
}

/// A rebase with conflicts names the branch, or says that it is not known.
pub proof fn law_conflicted_branch_unknown(
    path: Seq<u8>,
    new_base: Seq<char>,
    output: Seq<char>,
    head: Result<HeadRef, GitError>,
    h: Seq<Reply>,
    at: int,
    e: CliErrorModel,
    n: int,
)
    requires
        0 <= at < h.len(),
        has_part(output, "CONFLICT"@),
        h[at] == Reply::Head(head),
        head is Err || head->Ok_0.shorthand is None,
        conflicted_files_turn(path, h, at + 1) == CliTurn::<Seq<Seq<char>>>::Failed(e, n),
    ensures
        failed_rebase_turn(path, new_base, output, h, at) == ServiceTurn::<Seq<char>>::Failed(
            ServiceErrorModel::MergeConflicts(
                "Rebase encountered merge conflicts while rebasing '(unknown)' onto '"@ + new_base
                    + "'."@ + " Resolve conflicts and then continue or abort."@,
            ),
            n,
        ),
{
    reveal_strlit("Rebase encountered merge conflicts while rebasing '");
    reveal_strlit("(unknown)");
    reveal_strlit("' onto '");
    reveal_strlit("'.");
    reveal_strlit("Rebase encountered merge conflicts while rebasing '(unknown)' onto '");
    reveal_strlit(" Resolve conflicts and then continue or abort.");
    assert("Rebase encountered merge conflicts while rebasing '"@ + "(unknown)"@ + "' onto '"@
        =~= "Rebase encountered merge conflicts while rebasing '(unknown)' onto '"@);
    assert(conflict_files_text(seq![]) =~= Seq::<char>::empty());
    assert(rebase_conflict_text("(unknown)"@, new_base, seq![])
        =~= "Rebase encountered merge conflicts while rebasing '(unknown)' onto '"@ + new_base
        + "'."@ + " Resolve conflicts and then continue or abort."@);
}

/// Branches that cannot be counted, and directories that cannot be made, tell why.
pub proof fn law_failed_preparation_told(
    path: Seq<u8>,
    x: GitError,
    m: String,
    h: Seq<Reply>,
    at: int,
)
    requires
        0 <= at,
        at + 1 < h.len(),
    ensures
        h[at] == Reply::Unit(Ok::<(), GitError>(()))
            && h[at + 1] == Reply::Count(Err::<usize, GitError>(x))
            ==> ensure_main_turn(path, h, at) == ServiceTurn::<()>::Failed(
                ServiceErrorModel::InvalidRepository("Failed to list branches: "@ + x.shown@),
                at + 2,
            ),
        h[at] == Reply::Flag(false) && h[at + 1] == Reply::Io(Err::<(), String>(m))
            ==> initialize_turn(path, h, at) == ServiceTurn::<()>::Failed(
                ServiceErrorModel::IoError(m@),
                at + 2,
            ),
{
}

/// A branch that is not there is told by its name: where it is looked for, and where it is to be
/// renamed.
pub proof fn law_missing_branch_told(
    path: Seq<u8>,
    name: Seq<char>,
    new_name: Seq<char>,
    x: GitError,
    y: GitError,
    h: Seq<Reply>,
    at: int,
)
    requires
        0 <= at,
        at + 1 < h.len(),
    ensures
        h[at] == Reply::Branch(Err::<BranchInfo, GitError>(x))
            && h[at + 1] == Reply::Branch(Err::<BranchInfo, GitError>(y))
            ==> find_branch_turn(path, name, h, at)
                == ServiceTurn::<(BranchType, BranchInfo)>::Failed(
                    ServiceErrorModel::BranchNotFound(name),
                    at + 2,
                ),
        h[at] == Reply::Unit(Ok::<(), GitError>(()))
            && h[at + 1] == Reply::Branch(Err::<BranchInfo, GitError>(x))
            ==> rename_branch_turn(path, name, new_name, h, at) == ServiceTurn::<()>::Failed(
                ServiceErrorModel::BranchNotFound(name),
                at + 2,
            ),
{
}

/// Input that could not be written to a command makes it fail, even where it ended well.
pub proof fn law_unwritten_input_told(
    end: RunEnd,
    m: String,
)
    requires
        end.code == Some(0i32),
        end.stdin_error == Some(m),
    ensures
        output_of(RunReport::Ended(end)) == Err::<Seq<u8>, CliErrorModel>(
            CliErrorModel::CommandFailed("failed to write to git stdin: "@ + m@),
        ),
{
}

/// What the failures of a command are shown as.
pub proof fn law_command_failures_shown(
    m: Seq<char>,
)
    ensures
        cli_error_text(CliErrorModel::NotAvailable) == "git executable not found or not runnable"@,
        cli_error_text(CliErrorModel::CommandFailed(m)) == "git command failed: "@ + m,
        cli_error_text(CliErrorModel::AuthFailed(m)) == "authentication failed: "@ + m,
        cli_error_text(CliErrorModel::PushRejected(m)) == "push rejected: "@ + m,
        cli_error_text(CliErrorModel::RebaseInProgress) == "rebase in progress in this worktree"@,
{
}

/// What the failures of the service are shown as.
pub proof fn law_service_failures_shown(
    b: Seq<char>,
    m: Seq<char>,
    g: GitErrorModel,
    c: CliErrorModel,
)
    ensures
        service_error_text(ServiceErrorModel::Git(g)) == g.shown,
        service_error_text(ServiceErrorModel::GitCLI(c)) == cli_error_text(c),
        service_error_text(ServiceErrorModel::IoError(m)) == m,
        service_error_text(ServiceErrorModel::InvalidRepository(m)) == "Invalid repository: "@ + m,
        service_error_text(ServiceErrorModel::BranchNotFound(m)) == "Branch not found: "@ + m,
        service_error_text(ServiceErrorModel::MergeConflicts(m)) == "Merge conflicts: "@ + m,
        service_error_text(ServiceErrorModel::BranchesDiverged(m)) == "Branches diverged: "@ + m,
        service_error_text(
            ServiceErrorModel::WorktreeDirty(b, m),
        ) == b + " has uncommitted changes: "@ + m,
        service_error_text(
            ServiceErrorModel::RebaseInProgress,
        ) == "Rebase in progress; resolve or abort it before retrying"@,
{
}

/// The output of a command that failed is given in full.
pub proof fn law_output_of_failure_given(
    out: Seq<char>,
    err: Seq<char>,
)
    ensures
        out.len() == 0 && err.len() == 0
            ==> failure_text(out, err) == "Command failed with no output"@,
        out.len() > 0 && err.len() > 0
            ==> failure_text(out, err) == "--- stderr\n"@ + err + "\n--- stdout\n"@ + out,
        out.len() == 0 && err.len() > 0 ==> err.is_suffix_of(failure_text(out, err)),
        out.len() > 0 && err.len() == 0 ==> out.is_suffix_of(failure_text(out, err)),
{
}

/// Commands on worktrees fail as `git` does.
pub proof fn law_failed_worktree_commands_told(
    dir: Seq<u8>,
    path: Seq<u8>,
    new_path: Seq<u8>,
    branch: Seq<char>,
    h: Seq<Reply>,
    at: int,
    e: CliErrorModel,
    n: int,
)
    requires
        0 <= at < h.len(),
        h[at] == Reply::Version(VersionReport::Ended(true)),
    ensures
        git_turn(
            dir,
            seq![utf8("worktree"@), utf8("add"@), utf8("-b"@), utf8(branch), path],
            h,
            at + 1,
        ) == CliTurn::<Seq<char>>::Failed(e, n)
            ==> worktree_add_turn(dir, path, branch, true, h, at) == CliTurn::<()>::Failed(e, n),
        git_turn(
            dir,
            seq![utf8("worktree"@), utf8("add"@), path, utf8(branch)],
            h,
            at + 1,
        ) == CliTurn::<Seq<char>>::Failed(e, n)
            ==> worktree_add_turn(dir, path, branch, false, h, at) == CliTurn::<()>::Failed(e, n),
        git_turn(
            dir,
            seq![utf8("worktree"@), utf8("remove"@), utf8("--force"@), path],
            h,
            at + 1,
        ) == CliTurn::<Seq<char>>::Failed(e, n)
            ==> worktree_remove_turn(dir, path, true, h, at) == CliTurn::<()>::Failed(e, n),
        git_turn(
            dir,
            seq![utf8("worktree"@), utf8("remove"@), path],
            h,
            at + 1,
        ) == CliTurn::<Seq<char>>::Failed(e, n)
            ==> worktree_remove_turn(dir, path, false, h, at) == CliTurn::<()>::Failed(e, n),
        strict_text(path) is Some && strict_text(new_path) is Some
            && git_turn(
                dir,
                seq![utf8("worktree"@), utf8("move"@), path, new_path],
                h,
                at + 1,
            ) == CliTurn::<Seq<char>>::Failed(e, n)
            ==> worktree_move_turn(dir, path, new_path, h, at) == CliTurn::<()>::Failed(e, n),
        git_turn(
            dir,
            seq![utf8("worktree"@), utf8("prune"@)],
            h,
            at,
        ) == CliTurn::<Seq<char>>::Failed(e, n)
            ==> worktree_prune_turn(dir, h, at) == CliTurn::<()>::Failed(e, n),
        git_turn(
            dir,
            seq![utf8("worktree"@), utf8("list"@), utf8("--porcelain"@)],
            h,
            at,
        ) == CliTurn::<Seq<char>>::Failed(e, n)
            ==> list_worktrees_turn(dir, h, at) == CliTurn::<Seq<WorktreeModel>>::Failed(e, n),
{
}

/// A sparse checkout that cannot be applied again keeps neither a worktree from being added nor a
/// reset from being done.
pub proof fn law_failed_reapply_passed_over(
    dir: Seq<u8>,
    path: Seq<u8>,
    branch: Seq<char>,
    sha: Seq<char>,
    create: bool,
    out: Seq<char>,
    p: int,
    h: Seq<Reply>,
    at: int,
    e: CliErrorModel,
    n: int,
)
    requires
        0 <= at < h.len(),
        git_turn(
            path,
            seq![utf8("sparse-checkout"@), utf8("reapply"@)],
            h,
            p,
        ) == CliTurn::<Seq<char>>::Failed(e, n),
    ensures
        h[at] == Reply::Version(VersionReport::Ended(true))
            && git_turn(
                dir,
                if create {
                    seq![utf8("worktree"@), utf8("add"@), utf8("-b"@), utf8(branch), path]
                } else {
                    seq![utf8("worktree"@), utf8("add"@), path, utf8(branch)]
                },
                h,
                at + 1,
            ) == CliTurn::Done(out, p)
            ==> worktree_add_turn(dir, path, branch, create, h, at) == CliTurn::Done((), n),
        h[at] == Reply::Unit(Ok::<(), GitError>(()))
            && git_turn(
                path,
                seq![utf8("reset"@), utf8("--hard"@), utf8(sha)],
                h,
                at + 1,
            ) == CliTurn::Done(out, p)
            ==> reset_turn(path, sha, true, h, at) == ServiceTurn::Done((), n),
{
}

/// Where no such operation is in progress there is nothing to end.
pub proof fn law_nothing_to_end(
    dir: Seq<u8>,
    h: Seq<Reply>,
    at: int,
    n: int,
)
    ensures
        rebase_in_progress_turn(dir, h, at) == CliTurn::Done(false, n)
            ==> abort_rebase_turn(dir, h, at) == CliTurn::Done((), n)
                && quit_rebase_turn(dir, h, at) == CliTurn::Done((), n),
        marker_exists_turn(dir, "MERGE_HEAD"@, h, at) == CliTurn::Done(false, n)
            ==> abort_merge_turn(dir, h, at) == CliTurn::Done((), n),
        marker_exists_turn(dir, "CHERRY_PICK_HEAD"@, h, at) == CliTurn::Done(false, n)
            ==> abort_cherry_pick_turn(dir, h, at) == CliTurn::Done((), n),
        marker_exists_turn(dir, "REVERT_HEAD"@, h, at) == CliTurn::Done(false, n)
            ==> abort_revert_turn(dir, h, at) == CliTurn::Done((), n),
{
}

/// Where it cannot be told whether an operation is in progress, or the command that ends it fails,
/// ending it fails so.
pub proof fn law_failed_end_passed_on(
    dir: Seq<u8>,
    p: int,
    h: Seq<Reply>,
    at: int,
    e: CliErrorModel,
    n: int,
)
    ensures
        rebase_in_progress_turn(dir, h, at) == CliTurn::<bool>::Failed(e, n)
            ==> abort_rebase_turn(dir, h, at) == CliTurn::<()>::Failed(e, n)
                && quit_rebase_turn(dir, h, at) == CliTurn::<()>::Failed(e, n),
        rebase_in_progress_turn(dir, h, at) == CliTurn::Done(true, p)
            && git_turn(
                dir,
                seq![utf8("rebase"@), utf8("--abort"@)],
                h,
                p,
            ) == CliTurn::<Seq<char>>::Failed(e, n)
            ==> abort_rebase_turn(dir, h, at) == CliTurn::<()>::Failed(e, n),
        rebase_in_progress_turn(dir, h, at) == CliTurn::Done(true, p)
            && git_turn(
                dir,
                seq![utf8("rebase"@), utf8("--quit"@)],
                h,
                p,
            ) == CliTurn::<Seq<char>>::Failed(e, n)
            ==> quit_rebase_turn(dir, h, at) == CliTurn::<()>::Failed(e, n),
        marker_exists_turn(dir, "MERGE_HEAD"@, h, at) == CliTurn::<bool>::Failed(e, n)
            ==> abort_merge_turn(dir, h, at) == CliTurn::<()>::Failed(e, n),
        marker_exists_turn(dir, "MERGE_HEAD"@, h, at) == CliTurn::Done(true, p)
            && git_turn(
                dir,
                seq![utf8("merge"@), utf8("--abort"@)],
                h,
                p,
            ) == CliTurn::<Seq<char>>::Failed(e, n)
            ==> abort_merge_turn(dir, h, at) == CliTurn::<()>::Failed(e, n),
        marker_exists_turn(dir, "CHERRY_PICK_HEAD"@, h, at) == CliTurn::<bool>::Failed(e, n)
            ==> abort_cherry_pick_turn(dir, h, at) == CliTurn::<()>::Failed(e, n),
        marker_exists_turn(dir, "CHERRY_PICK_HEAD"@, h, at) == CliTurn::Done(true, p)
            && git_turn(
                dir,
                seq![utf8("cherry-pick"@), utf8("--abort"@)],
                h,
                p,
            ) == CliTurn::<Seq<char>>::Failed(e, n)
            ==> abort_cherry_pick_turn(dir, h, at) == CliTurn::<()>::Failed(e, n),
        marker_exists_turn(dir, "REVERT_HEAD"@, h, at) == CliTurn::<bool>::Failed(e, n)
            ==> abort_revert_turn(dir, h, at) == CliTurn::<()>::Failed(e, n),
        marker_exists_turn(dir, "REVERT_HEAD"@, h, at) == CliTurn::Done(true, p)
            && git_turn(
                dir,
                seq![utf8("revert"@), utf8("--abort"@)],
                h,
                p,
            ) == CliTurn::<Seq<char>>::Failed(e, n)
            ==> abort_revert_turn(dir, h, at) == CliTurn::<()>::Failed(e, n),
{
}

/// A marker is missing where the command says so; it is not known where the command could not be
/// run.
pub proof fn law_marker_unknown(
    dir: Seq<u8>,
    marker: Seq<char>,
    h: Seq<Reply>,
    at: int,
    e: CliErrorModel,
    n: int,
)
    requires
        git_turn(
            dir,
            seq![utf8("rev-parse"@), utf8("--verify"@), utf8(marker)],
            h,
            at,
        ) == CliTurn::<Seq<char>>::Failed(e, n),
    ensures
        e is CommandFailed ==> marker_exists_turn(dir, marker, h, at) == CliTurn::Done(false, n),
        !(e is CommandFailed)
            ==> marker_exists_turn(dir, marker, h, at) == CliTurn::<bool>::Failed(e, n),
{
}

/// Whether a rebase is in progress is not known where either of its places cannot be told.
pub proof fn law_rebase_unknown(
    dir: Seq<u8>,
    out: Seq<char>,
    p: int,
    h: Seq<Reply>,
    at: int,
    e: CliErrorModel,
    n: int,
)
    ensures
        git_turn(
            dir,
            seq![utf8("rev-parse"@), utf8("--git-path"@), utf8("rebase-merge"@)],
            h,
            at,
        ) == CliTurn::<Seq<char>>::Failed(e, n)
            ==> rebase_in_progress_turn(dir, h, at) == CliTurn::<bool>::Failed(e, n),
        git_turn(
            dir,
            seq![utf8("rev-parse"@), utf8("--git-path"@), utf8("rebase-merge"@)],
            h,
            at,
        ) == CliTurn::Done(out, p)
            && git_turn(
                dir,
                seq![utf8("rev-parse"@), utf8("--git-path"@), utf8("rebase-apply"@)],
                h,
                p,
            ) == CliTurn::<Seq<char>>::Failed(e, n)
            ==> rebase_in_progress_turn(dir, h, at) == CliTurn::<bool>::Failed(e, n),
{
}

/// A merge base is not found where both ways to ask for it fail; the failure is that of the second.
pub proof fn law_no_merge_base(
    dir: Seq<u8>,
    a: Seq<char>,
    b: Seq<char>,
    x: CliErrorModel,
    p: int,
    h: Seq<Reply>,
    at: int,
    e: CliErrorModel,
    n: int,
)
    requires
        git_turn(
            dir,
            seq![utf8("merge-base"@), utf8("--fork-point"@), utf8(a), utf8(b)],
            h,
            at,
        ) == CliTurn::<Seq<char>>::Failed(x, p),
        git_turn(
            dir,
            seq![utf8("merge-base"@), utf8(a), utf8(b)],
            h,
            p,
        ) == CliTurn::<Seq<char>>::Failed(e, n),
    ensures
        merge_base_turn(dir, a, b, h, at) == CliTurn::<Seq<char>>::Failed(e, n),
{
}

/// A squash merge in a checkout fails as the first of its commands that fails: the checkout, the
/// merge, the commit, or the question for the new commit.
pub proof fn law_failed_squash_merge_told(
    dir: Seq<u8>,
    base: Seq<char>,
    from: Seq<char>,
    message: Seq<char>,
    o1: Seq<char>,
    o2: Seq<char>,
    o3: Seq<char>,
    p: int,
    q: int,
    r: int,
    h: Seq<Reply>,
    at: int,
    e: CliErrorModel,
    n: int,
)
    ensures
        git_turn(dir, seq![utf8("checkout"@), utf8(base)], h, at) == CliTurn::<Seq<char>>::Failed(
            e,
            n,
        )
            ==> merge_squash_turn(dir, base, from, message, h, at) == CliTurn::<Seq<char>>::Failed(
                e,
                n,
            ),
        git_turn(dir, seq![utf8("checkout"@), utf8(base)], h, at) == CliTurn::Done(o1, p) ==> {
            &&& git_turn(
                dir,
                seq![utf8("merge"@), utf8("--squash"@), utf8("--no-commit"@), utf8(from)],
                h,
                p,
            ) == CliTurn::<Seq<char>>::Failed(e, n)
                ==> merge_squash_turn(
                    dir,
                    base,
                    from,
                    message,
                    h,
                    at,
                ) == CliTurn::<Seq<char>>::Failed(e, n)
            &&& git_turn(
                dir,
                seq![utf8("merge"@), utf8("--squash"@), utf8("--no-commit"@), utf8(from)],
                h,
                p,
            ) == CliTurn::Done(o2, q) ==> {
                &&& git_turn(
                    dir,
                    seq![utf8("commit"@), utf8("-m"@), utf8(message)],
                    h,
                    q,
                ) == CliTurn::<Seq<char>>::Failed(e, n)
                    ==> merge_squash_turn(
                        dir,
                        base,
                        from,
                        message,
                        h,
                        at,
                    ) == CliTurn::<Seq<char>>::Failed(e, n)
                &&& git_turn(
                    dir,
                    seq![utf8("commit"@), utf8("-m"@), utf8(message)],
                    h,
                    q,
                ) == CliTurn::Done(o3, r)
                    && git_turn(
                        dir,
                        seq![utf8("rev-parse"@), utf8("HEAD"@)],
                        h,
                        r,
                    ) == CliTurn::<Seq<char>>::Failed(e, n)
                    ==> merge_squash_turn(
                        dir,
                        base,
                        from,
                        message,
                        h,
                        at,
                    ) == CliTurn::<Seq<char>>::Failed(e, n)
            }
        },
{
}

/// The other commands fail as `git` does.
pub proof fn law_other_failed_commands_told(
    dirs: Seq<Seq<char>>,
    dir: Seq<u8>,
    message: Seq<char>,
    refname: Seq<char>,
    sha: Seq<char>,
    args: Seq<Seq<u8>>,
    h: Seq<Reply>,
    at: int,
    e: CliErrorModel,
    n: int,
)
    requires
        leaves_out(args, seq![utf8("add"@), utf8("-A"@)], dirs),
    ensures
        git_turn(dir, args, h, at) == CliTurn::<Seq<char>>::Failed(e, n)
            ==> add_all_turn(dirs, dir, h, at) == CliTurn::<()>::Failed(e, n),
        git_turn(
            dir,
            seq![utf8("commit"@), utf8("--no-verify"@), utf8("-m"@), utf8(message)],
            h,
            at,
        ) == CliTurn::<Seq<char>>::Failed(e, n)
            ==> cli_commit_turn(dir, message, h, at) == CliTurn::<()>::Failed(e, n),
        git_turn(
            dir,
            seq![utf8("update-ref"@), utf8(refname), utf8(sha)],
            h,
            at,
        ) == CliTurn::<Seq<char>>::Failed(e, n)
            ==> update_ref_turn(dir, refname, sha, h, at) == CliTurn::<()>::Failed(e, n),
        git_turn(
            dir,
            seq![utf8("diff"@), utf8("--name-only"@), utf8("--diff-filter=U"@)],
            h,
            at,
        ) == CliTurn::<Seq<char>>::Failed(e, n)
            ==> conflicted_files_turn(dir, h, at) == CliTurn::<Seq<Seq<char>>>::Failed(e, n),
{
    lemma_left_out(args, seq![utf8("add"@), utf8("-A"@)], dirs);
}

/// A rebase is refused, with what the check says, where the worktree is not clean; and where one is
/// in progress already. Not to know whether one is in progress is no reason to refuse.
pub proof fn law_rebase_refused(
    repo: Seq<u8>,
    path: Seq<u8>,
    new_base: Seq<char>,
    old_base: Seq<char>,
    task: Seq<char>,
    p: int,
    h: Seq<Reply>,
    at: int,
    f: ServiceErrorModel,
    e: CliErrorModel,
    n: int,
)
    requires
        0 <= at,
        at + 1 < h.len(),
        h[at] == Reply::Unit(Ok::<(), GitError>(())),
        h[at + 1] == Reply::Unit(Ok::<(), GitError>(())),
    ensures
        check_clean_turn(path, h, at + 2) == ServiceTurn::<()>::Failed(f, n)
            ==> rebase_branch_turn(
                repo,
                path,
                new_base,
                old_base,
                task,
                h,
                at,
            ) == ServiceTurn::<Seq<char>>::Failed(f, n),
        check_clean_turn(path, h, at + 2) == ServiceTurn::Done((), p) ==> {
            &&& rebase_in_progress_turn(path, h, p) == CliTurn::Done(true, n)
                ==> rebase_branch_turn(
                    repo,
                    path,
                    new_base,
                    old_base,
                    task,
                    h,
                    at,
                ) == ServiceTurn::<Seq<char>>::Failed(ServiceErrorModel::RebaseInProgress, n)
            &&& rebase_in_progress_turn(path, h, p) == CliTurn::Done(false, n)
                || rebase_in_progress_turn(path, h, p) == CliTurn::<bool>::Failed(e, n)
                ==> rebase_branch_turn(
                    repo,
                    path,
                    new_base,
                    old_base,
                    task,
                    h,
                    at,
                ) == rebase_checked_turn(repo, path, new_base, old_base, task, h, n)
        },
{
}

/// A check of a worktree that fails for another reason than changes fails so.
pub proof fn law_unchecked_worktree_told(
    path: Seq<u8>,
    x: GitError,
    h: Seq<Reply>,
    at: int,
)
    requires
        0 <= at,
        at + 1 < h.len(),
        h[at] == Reply::Unit(Ok::<(), GitError>(())),
        h[at + 1] == Reply::Statuses(Err::<Vec<StatusRecord>, GitError>(x)),
    ensures
        is_clean_turn(path, h, at) == ServiceTurn::<bool>::Failed(
            ServiceErrorModel::Git(x.model()),
            at + 2,
        ),
        check_clean_turn(path, h, at + 1) == ServiceTurn::<()>::Failed(
            ServiceErrorModel::Git(x.model()),
            at + 2,
        ),
{
}

} // verus!
