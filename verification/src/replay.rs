//! That an operation can be run again from the start of its record.
use vstd::prelude::*;

use crate::branches::{
    base_commit_turn, branch_exists_turn, branch_oid_turn, branch_status_turn, branch_type_turn,
    find_branch_turn, rename_branch_turn,
};
use crate::cli::{run_turn, text_turn};
use crate::cloning::{clone_turn, credentials_turn};
use crate::commands::{
    abort_cherry_pick_turn, abort_merge_turn, abort_rebase_turn, abort_revert_turn, add_all_turn,
    cherry_pick_in_progress_turn, cli_commit_turn, conflicted_files_turn, diff_status_turn,
    fetch_turn, has_changes_turn, has_staged_changes_turn, list_worktrees_turn, marker_exists_turn,
    merge_base_turn, merge_in_progress_turn, merge_squash_turn, push_refspec_turn, push_turn,
    quit_rebase_turn, rebase_in_progress_turn, rebase_onto_turn, remote_branch_exists_turn,
    revert_in_progress_turn, update_ref_turn, worktree_add_turn, worktree_move_turn,
    worktree_prune_turn, worktree_remove_turn, worktree_status_turn,
};
use crate::comparing::{branch_tree_turn, get_diffs_turn, tree_diffs_turn, TargetModel};
use crate::dialogue::{explained, settled, told, CommandModel, Reply, Turn};
use crate::diff::{
    contents_turn, converted_turn, counts_at, delta_turn, file_diffs_turn, new_oversize_turn,
    new_path_of, old_oversize_turn, old_path_of, oversize_turn, side_turn, status_diff_turn,
    status_diffs_turn, DiffModel,
};
use crate::errors::{CliErrorModel, GitError, ServiceErrorModel};
use crate::listing::all_branches_turn;
use crate::merging::{
    merge_changes_turn, merge_checked_out_turn, merge_commits_turn, merge_references_turn,
};
use crate::oid::Oid;
use crate::porcelain::StatusDiffModel;
use crate::rebasing::{
    abort_conflicts_turn, believed, conflict_op_turn, end_rebase_turn, rebase_branch_turn,
    rebase_checked_turn, rebased_turn, service_abort_rebase_turn, service_conflicts_turn,
};
use crate::records::{BranchInfo, DeltaFile, DeltaRecord, DiffRecord, LineCounts, RemoteInfo};
use crate::remotes::{
    add_all_and_push_turn, default_url_turn, fetch_all_turn, fetch_branch_turn, fetch_from_turn,
    github_info_turn, push_to_github_turn, remote_has_branch_turn, remote_name_turn,
    remote_status_turn, track_turn,
};
use crate::service::{
    commit_all_turn, ensure_identity_turn, ensure_main_turn, initialize_turn, open_turn,
    stage_and_commit_turn,
};
use crate::stats::{commit_changes_turn, file_stats_turn, limited, walked_turn, CommitModel};
use crate::worktrees::{
    ahead_behind_ids_turn, change_counts_turn, check_clean_turn, checkout_path_turn,
    commit_subject_turn, current_branch_turn, head_info_turn, is_clean_turn, reconcile_report_turn,
    reconcile_turn, reset_turn, WorktreeResetOptions,
};

verus! {

/// Whether an operation that stood at `t` stands at `u` with more replies: it does not change any
/// more once it has ended.
pub open spec fn stays<A, E>(t: Turn<A, E>, u: Turn<A, E>) -> bool {
    !(t is Ask) ==> u == t
}

/// Further replies do not change how a commit went.
pub proof fn law_commit_stays(
    dirs: Seq<Seq<char>>,
    path: Seq<u8>,
    message: Seq<char>,
    h: Seq<Reply>,
    more: Seq<Reply>,
    at: int,
)
    ensures
        stays(
            commit_all_turn(dirs, path, message, h, at),
            commit_all_turn(dirs, path, message, h + more, at),
        ),
{
}

/// Further replies do not change how a reset went.
pub proof fn law_reset_stays(
    path: Seq<u8>,
    sha: Seq<char>,
    force: bool,
    h: Seq<Reply>,
    more: Seq<Reply>,
    at: int,
)
    ensures
        stays(reset_turn(path, sha, force, h, at), reset_turn(path, sha, force, h + more, at)),
{
}

proof fn lemma_status_stays(
    path: Seq<u8>,
    name: Seq<char>,
    base: Seq<char>,
    h: Seq<Reply>,
    more: Seq<Reply>,
    at: int,
)
    ensures
        stays(
            branch_status_turn(path, name, base, h, at),
            branch_status_turn(path, name, base, h + more, at),
        ),
{
}

proof fn lemma_checkout_stays(
    path: Seq<u8>,
    branch: Seq<char>,
    h: Seq<Reply>,
    more: Seq<Reply>,
    at: int,
)
    ensures
        stays(
            checkout_path_turn(path, branch, h, at),
            checkout_path_turn(path, branch, h + more, at),
        ),
{
}

proof fn lemma_identity_stays(path: Seq<u8>, h: Seq<Reply>, more: Seq<Reply>, at: int)
    ensures
        stays(ensure_identity_turn(path, h, at), ensure_identity_turn(path, h + more, at)),
{
}

proof fn lemma_squash_command_stays(
    dir: Seq<u8>,
    base: Seq<char>,
    from: Seq<char>,
    message: Seq<char>,
    h: Seq<Reply>,
    more: Seq<Reply>,
    at: int,
)
    ensures
        stays(
            merge_squash_turn(dir, base, from, message, h, at),
            merge_squash_turn(dir, base, from, message, h + more, at),
        ),
{
}

proof fn lemma_checked_out_stays(
    base_path: Seq<u8>,
    checkout: Seq<u8>,
    task: Seq<char>,
    base: Seq<char>,
    message: Seq<char>,
    h: Seq<Reply>,
    more: Seq<Reply>,
    at: int,
)
    ensures
        stays(
            merge_checked_out_turn(base_path, checkout, task, base, message, h, at),
            merge_checked_out_turn(base_path, checkout, task, base, message, h + more, at),
        ),
{
    if let Turn::Done(_, n) = has_staged_changes_turn(checkout, h, at) {
        lemma_identity_stays(checkout, h, more, n);
        if let Turn::Done(_, m) = ensure_identity_turn(checkout, h, n) {
            lemma_squash_command_stays(checkout, base, task, message, h, more, m);
        }
    }
}

proof fn lemma_squash_stays(
    base_path: Seq<u8>,
    task_path: Seq<u8>,
    task: Seq<char>,
    base: Seq<char>,
    message: Seq<char>,
    base_commit: Seq<u8>,
    task_commit: Seq<u8>,
    h: Seq<Reply>,
    more: Seq<Reply>,
    at: int,
)
    ensures
        stays(
            merge_commits_turn(
                base_path,
                task_path,
                task,
                base,
                message,
                base_commit,
                task_commit,
                h,
                at,
            ),
            merge_commits_turn(
                base_path,
                task_path,
                task,
                base,
                message,
                base_commit,
                task_commit,
                h + more,
                at,
            ),
        ),
{
}

proof fn lemma_references_stay(
    base_path: Seq<u8>,
    task_path: Seq<u8>,
    task: Seq<char>,
    base: Seq<char>,
    message: Seq<char>,
    h: Seq<Reply>,
    more: Seq<Reply>,
    at: int,
)
    ensures
        stays(
            merge_references_turn(base_path, task_path, task, base, message, h, at),
            merge_references_turn(base_path, task_path, task, base, message, h + more, at),
        ),
{
    assert forall|b: Seq<u8>, t: Seq<u8>, n: int| #[trigger]
        stays(
            merge_commits_turn(base_path, task_path, task, base, message, b, t, h, n),
            merge_commits_turn(base_path, task_path, task, base, message, b, t, h + more, n),
        ) by {
        lemma_squash_stays(base_path, task_path, task, base, message, b, t, h, more, n);
    }
}

/// Further replies do not change how a merge went.
pub proof fn law_merge_stays(
    base_path: Seq<u8>,
    task_path: Seq<u8>,
    task: Seq<char>,
    base: Seq<char>,
    message: Seq<char>,
    h: Seq<Reply>,
    more: Seq<Reply>,
    at: int,
)
    ensures
        stays(
            merge_changes_turn(base_path, task_path, task, base, message, h, at),
            merge_changes_turn(base_path, task_path, task, base, message, h + more, at),
        ),
{
    if let Turn::Done(_, n1) = open_turn(task_path, h, at) {
        if let Turn::Done(_, n2) = open_turn(base_path, h, n1) {
            lemma_status_stays(base_path, task, base, h, more, n2);
            if let Turn::Done(_, n3) = branch_status_turn(base_path, task, base, h, n2) {
                lemma_checkout_stays(base_path, base, h, more, n3);
                if let Turn::Done(checkout, n4) = checkout_path_turn(base_path, base, h, n3) {
                    if let Some(path) = checkout {
                        lemma_checked_out_stays(
                            base_path,
                            path,
                            task,
                            base,
                            message,
                            h,
                            more,
                            n4,
                        );
                    } else {
                        lemma_references_stay(
                            base_path,
                            task_path,
                            task,
                            base,
                            message,
                            h,
                            more,
                            n4,
                        );
                    }
                }
            }
        }
    }
}

proof fn lemma_rebase_command_stays(
    path: Seq<u8>,
    new_base: Seq<char>,
    old_base: Seq<char>,
    task: Seq<char>,
    h: Seq<Reply>,
    more: Seq<Reply>,
    at: int,
)
    ensures
        stays(
            rebase_onto_turn(path, new_base, old_base, task, h, at),
            rebase_onto_turn(path, new_base, old_base, task, h + more, at),
        ),
{
    lemma_in_progress_stays(path, h, more, at);
    if let Turn::Done(_, n) = settled::<_, _, CliErrorModel>(rebase_in_progress_turn(path, h, at)) {
        lemma_merge_base_stays(path, old_base, task, h, more, n);
    }
}

proof fn lemma_in_progress_stays(path: Seq<u8>, h: Seq<Reply>, more: Seq<Reply>, at: int)
    ensures
        stays(rebase_in_progress_turn(path, h, at), rebase_in_progress_turn(path, h + more, at)),
{
}

proof fn lemma_merge_base_stays(
    path: Seq<u8>,
    a: Seq<char>,
    b: Seq<char>,
    h: Seq<Reply>,
    more: Seq<Reply>,
    at: int,
)
    ensures
        stays(merge_base_turn(path, a, b, h, at), merge_base_turn(path, a, b, h + more, at)),
{
}

proof fn lemma_rebased_stays(
    path: Seq<u8>,
    new_base: Seq<char>,
    result: Result<(), CliErrorModel>,
    h: Seq<Reply>,
    more: Seq<Reply>,
    at: int,
)
    ensures
        stays(
            rebased_turn(path, new_base, result, h, at),
            rebased_turn(path, new_base, result, h + more, at),
        ),
{
}

proof fn lemma_clean_stays(path: Seq<u8>, h: Seq<Reply>, more: Seq<Reply>, at: int)
    ensures
        stays(check_clean_turn(path, h, at), check_clean_turn(path, h + more, at)),
{
}

proof fn lemma_find_stays(repo: Seq<u8>, name: Seq<char>, h: Seq<Reply>, more: Seq<Reply>, at: int)
    ensures
        stays(find_branch_turn(repo, name, h, at), find_branch_turn(repo, name, h + more, at)),
{
}

proof fn lemma_fetch_stays(
    repo: Seq<u8>,
    branch: BranchInfo,
    h: Seq<Reply>,
    more: Seq<Reply>,
    at: int,
)
    ensures
        stays(fetch_branch_turn(repo, branch, h, at), fetch_branch_turn(repo, branch, h + more, at)),
{
}

proof fn lemma_rebase_checked_stays(
    repo: Seq<u8>,
    path: Seq<u8>,
    new_base: Seq<char>,
    old_base: Seq<char>,
    task: Seq<char>,
    h: Seq<Reply>,
    more: Seq<Reply>,
    at: int,
)
    ensures
        stays(
            rebase_checked_turn(repo, path, new_base, old_base, task, h, at),
            rebase_checked_turn(repo, path, new_base, old_base, task, h + more, at),
        ),
{
    lemma_find_stays(repo, new_base, h, more, at);
    if let Turn::Done(base, n) = find_branch_turn(repo, new_base, h, at) {
        lemma_fetch_stays(repo, base.1, h, more, n);
        let fetched = if base.1.is_remote {
            fetch_branch_turn(repo, base.1, h, n)
        } else {
            Turn::Done((), n)
        };
        if let Turn::Done(_, m) = fetched {
            lemma_identity_stays(path, h, more, m);
            if let Turn::Done(_, k) = ensure_identity_turn(path, h, m) {
                lemma_rebase_command_stays(path, new_base, old_base, task, h, more, k);
                if let Turn::Done(result, j) = settled::<_, _, ServiceErrorModel>(
                    rebase_onto_turn(path, new_base, old_base, task, h, k),
                ) {
                    lemma_rebased_stays(path, new_base, result, h, more, j);
                }
            }
        }
    }
}

/// Further replies do not change how a rebase went.
pub proof fn law_rebase_stays(
    repo: Seq<u8>,
    path: Seq<u8>,
    new_base: Seq<char>,
    old_base: Seq<char>,
    task: Seq<char>,
    h: Seq<Reply>,
    more: Seq<Reply>,
    at: int,
)
    ensures
        stays(
            rebase_branch_turn(repo, path, new_base, old_base, task, h, at),
            rebase_branch_turn(repo, path, new_base, old_base, task, h + more, at),
        ),
{
    if let Turn::Done(_, n1) = open_turn(path, h, at) {
        if let Turn::Done(_, n2) = open_turn(repo, h, n1) {
            lemma_clean_stays(path, h, more, n2);
            if let Turn::Done(_, n3) = check_clean_turn(path, h, n2) {
                lemma_in_progress_stays(path, h, more, n3);
                if let Turn::Done(_, n4) = believed(rebase_in_progress_turn(path, h, n3)) {
                    lemma_rebase_checked_stays(
                        repo,
                        path,
                        new_base,
                        old_base,
                        task,
                        h,
                        more,
                        n4,
                    );
                }
            }
        }
    }
}

/// Further replies do not change how an attempt to bring a worktree to a commit went.
pub proof fn law_reconcile_stays(
    path: Seq<u8>,
    target: Seq<char>,
    options: WorktreeResetOptions,
    h: Seq<Reply>,
    more: Seq<Reply>,
    at: int,
)
    ensures
        stays(
            reconcile_turn(path, target, options, h, at),
            reconcile_turn(path, target, options, h + more, at),
        ),
        stays(
            reconcile_report_turn(path, target, options, h, at),
            reconcile_report_turn(path, target, options, h + more, at),
        ),
{
    if let Turn::Done(_, n) = settled::<_, _, ServiceErrorModel>(head_info_turn(path, h, at)) {
        law_reset_stays(path, target, options.force_when_dirty, h, more, n);
    }
}

/// Further replies do not change how the end of an operation in progress went.
pub proof fn law_abort_conflicts_stays(path: Seq<u8>, h: Seq<Reply>, more: Seq<Reply>, at: int)
    ensures
        stays(abort_conflicts_turn(path, h, at), abort_conflicts_turn(path, h + more, at)),
{
    lemma_conflict_op_stays(path, h, more, at);
    if let Turn::Done(_, n) = conflict_op_turn(path, h, at) {
        lemma_end_rebase_stays(path, h, more, n);
        lemma_aborts_stay(path, h, more, n);
    }
}

proof fn lemma_marker_stays(
    path: Seq<u8>,
    marker: Seq<char>,
    h: Seq<Reply>,
    more: Seq<Reply>,
    at: int,
)
    ensures
        stays(
            believed(marker_exists_turn(path, marker, h, at)),
            believed(marker_exists_turn(path, marker, h + more, at)),
        ),
{
}

#[verifier::spinoff_prover]
proof fn lemma_conflict_op_stays(path: Seq<u8>, h: Seq<Reply>, more: Seq<Reply>, at: int)
    ensures
        stays(conflict_op_turn(path, h, at), conflict_op_turn(path, h + more, at)),
{
    lemma_in_progress_stays(path, h, more, at);
    if let Turn::Done(_, n1) = believed(rebase_in_progress_turn(path, h, at)) {
        lemma_marker_stays(path, "MERGE_HEAD"@, h, more, n1);
        if let Turn::Done(_, n2) = believed(marker_exists_turn(path, "MERGE_HEAD"@, h, n1)) {
            lemma_marker_stays(path, "CHERRY_PICK_HEAD"@, h, more, n2);
            if let Turn::Done(_, n3) = believed(
                marker_exists_turn(path, "CHERRY_PICK_HEAD"@, h, n2),
            ) {
                lemma_marker_stays(path, "REVERT_HEAD"@, h, more, n3);
            }
        }
    }
}

proof fn lemma_aborts_stay(path: Seq<u8>, h: Seq<Reply>, more: Seq<Reply>, at: int)
    ensures
        stays(abort_merge_turn(path, h, at), abort_merge_turn(path, h + more, at)),
        stays(abort_cherry_pick_turn(path, h, at), abort_cherry_pick_turn(path, h + more, at)),
        stays(abort_revert_turn(path, h, at), abort_revert_turn(path, h + more, at)),
{
}

proof fn lemma_end_rebase_stays(path: Seq<u8>, h: Seq<Reply>, more: Seq<Reply>, at: int)
    ensures
        stays(end_rebase_turn(path, h, at), end_rebase_turn(path, h + more, at)),
{
    if let Turn::Done(_, n) = settled::<_, _, ServiceErrorModel>(
        service_conflicts_turn(path, h, at),
    ) {
        lemma_in_progress_stays(path, h, more, n);
    }
}

proof fn lemma_track_stays(
    repo: Seq<u8>,
    remote: Seq<char>,
    branch: Seq<char>,
    h: Seq<Reply>,
    more: Seq<Reply>,
    at: int,
)
    ensures
        stays(
            track_turn(repo, remote, branch, h, at),
            track_turn(repo, remote, branch, h + more, at),
        ),
{
}

proof fn lemma_default_url_stays(repo: Seq<u8>, h: Seq<Reply>, more: Seq<Reply>, at: int)
    ensures
        stays(default_url_turn(repo, h, at), default_url_turn(repo, h + more, at)),
{
}

/// Further replies do not change how a push went.
pub proof fn law_push_stays(
    path: Seq<u8>,
    branch: Seq<char>,
    force: bool,
    h: Seq<Reply>,
    more: Seq<Reply>,
    at: int,
)
    ensures
        stays(
            push_to_github_turn(path, branch, force, h, at),
            push_to_github_turn(path, branch, force, h + more, at),
        ),
{
    if let Turn::Done(_, n1) = open_turn(path, h, at) {
        lemma_clean_stays(path, h, more, n1);
        if let Turn::Done(_, n2) = check_clean_turn(path, h, n1) {
            lemma_default_url_stays(path, h, more, n2);
            if let Turn::Done(remote, n3) = default_url_turn(path, h, n2) {
                if let Turn::Done(_, n4) = push_turn(path, remote.1, branch, force, h, n3) {
                    lemma_track_stays(path, remote.0, branch, h, more, n4);
                }
            }
        }
    }
}

/// Further replies do not change how staging, committing and pushing went.
pub proof fn law_push_all_stays(
    dirs: Seq<Seq<char>>,
    path: Seq<u8>,
    branch: Seq<char>,
    h: Seq<Reply>,
    more: Seq<Reply>,
    at: int,
)
    ensures
        stays(
            add_all_and_push_turn(dirs, path, branch, h, at),
            add_all_and_push_turn(dirs, path, branch, h + more, at),
        ),
{
    if let Turn::Done(_, n1) = open_turn(path, h, at) {
        lemma_default_url_stays(path, h, more, n1);
        if let Turn::Done(remote, n2) = default_url_turn(path, h, n1) {
            if let Turn::Done(_, n3) = has_changes_turn(path, h, n2) {
                lemma_stage_stays(dirs, path, h, more, n3);
                if let Turn::Done(_, n4) = stage_and_commit_turn(dirs, path, "update"@, h, n3) {
                    if let Turn::Done(_, n5) = push_turn(path, remote.1, branch, false, h, n4) {
                        lemma_track_stays(path, remote.0, branch, h, more, n5);
                    }
                }
            }
        }
    }
}

proof fn lemma_stage_stays(
    dirs: Seq<Seq<char>>,
    path: Seq<u8>,
    h: Seq<Reply>,
    more: Seq<Reply>,
    at: int,
)
    ensures
        stays(
            stage_and_commit_turn(dirs, path, "update"@, h, at),
            stage_and_commit_turn(dirs, path, "update"@, h + more, at),
        ),
{
}

proof fn lemma_delta_stays(
    repo: Seq<u8>,
    delta: DeltaRecord,
    counts: Option<LineCounts>,
    h: Seq<Reply>,
    more: Seq<Reply>,
    at: int,
)
    ensures
        stays(
            delta_turn(repo, delta, counts, h, at),
            delta_turn(repo, delta, counts, h + more, at),
        ),
{
    let added = delta.status is Added;
    let deleted = delta.status is Deleted;
    if let Turn::Done(a, n1) = oversize_turn(repo, added, delta.old_file.id@, h, at) {
        if let Turn::Done(b, n2) = oversize_turn(repo, deleted, delta.new_file.id@, h, n1) {
            lemma_side_stays(repo, added, a || b, delta.old_file, h, more, n2);
            if let Turn::Done(_, n3) = side_turn(repo, added, a || b, delta.old_file, h, n2) {
                lemma_side_stays(repo, deleted, a || b, delta.new_file, h, more, n3);
            }
        }
    }
}

proof fn lemma_side_stays(
    repo: Seq<u8>,
    absent: bool,
    omitted: bool,
    file: DeltaFile,
    h: Seq<Reply>,
    more: Seq<Reply>,
    at: int,
)
    ensures
        stays(
            side_turn(repo, absent, omitted, file, h, at),
            side_turn(repo, absent, omitted, file, h + more, at),
        ),
{
}

proof fn lemma_file_diffs_stay(
    repo: Seq<u8>,
    deltas: Seq<DeltaRecord>,
    stats: Seq<Option<LineCounts>>,
    i: int,
    done: Seq<DiffModel>,
    h: Seq<Reply>,
    more: Seq<Reply>,
    at: int,
)
    ensures
        stays(
            file_diffs_turn(repo, deltas, stats, i, done, h, at),
            file_diffs_turn(repo, deltas, stats, i, done, h + more, at),
        ),
    decreases deltas.len() - i,
{
    if 0 <= i < deltas.len() {
        if deltas[i].status is Unreadable {
            lemma_file_diffs_stay(repo, deltas, stats, i + 1, done, h, more, at);
        } else {
            let counts = counts_at(stats, done.len() as int);
            lemma_delta_stays(repo, deltas[i], counts, h, more, at);
            if let Turn::Done(d, n) = delta_turn(repo, deltas[i], counts, h, at) {
                lemma_file_diffs_stay(repo, deltas, stats, i + 1, done.push(d), h, more, n);
            }
        }
    }
}

proof fn lemma_status_diff_stays(
    repo: Seq<u8>,
    tree: Seq<u8>,
    e: StatusDiffModel,
    h: Seq<Reply>,
    more: Seq<Reply>,
    at: int,
)
    ensures
        stays(
            status_diff_turn(repo, tree, e, h, at),
            status_diff_turn(repo, tree, e, h + more, at),
        ),
{
    let old_path = old_path_of(e);
    let new_path = new_path_of(e);
    if let Turn::Done(a, n1) = old_oversize_turn(repo, tree, old_path, h, at) {
        if let Turn::Done(b, n2) = new_oversize_turn(repo, new_path, h, n1) {
            lemma_contents_stay(repo, tree, old_path, new_path, a || b, h, more, n2);
        }
    }
}

proof fn lemma_contents_stay(
    repo: Seq<u8>,
    tree: Seq<u8>,
    old_path: Option<Seq<char>>,
    new_path: Option<Seq<char>>,
    omitted: bool,
    h: Seq<Reply>,
    more: Seq<Reply>,
    at: int,
)
    ensures
        stays(
            contents_turn(repo, tree, old_path, new_path, omitted, h, at),
            contents_turn(repo, tree, old_path, new_path, omitted, h + more, at),
        ),
{
}

proof fn lemma_status_diffs_stay(
    repo: Seq<u8>,
    tree: Seq<u8>,
    entries: Seq<StatusDiffModel>,
    i: int,
    done: Seq<DiffModel>,
    h: Seq<Reply>,
    more: Seq<Reply>,
    at: int,
)
    ensures
        stays(
            status_diffs_turn(repo, tree, entries, i, done, h, at),
            status_diffs_turn(repo, tree, entries, i, done, h + more, at),
        ),
    decreases entries.len() - i,
{
    if 0 <= i < entries.len() {
        lemma_status_diff_stays(repo, tree, entries[i], h, more, at);
        if let Turn::Done(d, n) = status_diff_turn(repo, tree, entries[i], h, at) {
            lemma_status_diffs_stay(repo, tree, entries, i + 1, done.push(d), h, more, n);
        }
    }
}

proof fn lemma_diff_status_stays(
    dirs: Seq<Seq<char>>,
    path: Seq<u8>,
    base: Seq<u8>,
    filter: Option<Seq<Seq<char>>>,
    h: Seq<Reply>,
    more: Seq<Reply>,
    at: int,
)
    ensures
        stays(
            diff_status_turn(dirs, path, base, filter, h, at),
            diff_status_turn(dirs, path, base, filter, h + more, at),
        ),
{
}

proof fn lemma_branch_tree_stays(
    repo: Seq<u8>,
    name: Seq<char>,
    h: Seq<Reply>,
    more: Seq<Reply>,
    at: int,
)
    ensures
        stays(branch_tree_turn(repo, name, h, at), branch_tree_turn(repo, name, h + more, at)),
{
}

proof fn lemma_tree_diffs_stay(
    repo: Seq<u8>,
    old_tree: Seq<u8>,
    new_tree: Seq<u8>,
    filter: Option<Seq<Seq<char>>>,
    h: Seq<Reply>,
    more: Seq<Reply>,
    at: int,
)
    ensures
        stays(
            tree_diffs_turn(repo, old_tree, new_tree, filter, h, at),
            tree_diffs_turn(repo, old_tree, new_tree, filter, h + more, at),
        ),
{
    assert forall|diff: DiffRecord, n: int| #[trigger]
        stays(converted_turn(repo, diff, h, n), converted_turn(repo, diff, h + more, n)) by {
        lemma_file_diffs_stay(repo, diff.deltas@, diff.line_stats@, 0, seq![], h, more, n);
    }
}

/// Further replies do not change what a diff came to.
pub proof fn law_diffs_stay(
    dirs: Seq<Seq<char>>,
    target: TargetModel,
    filter: Option<Seq<Seq<char>>>,
    h: Seq<Reply>,
    more: Seq<Reply>,
    at: int,
)
    ensures
        stays(
            get_diffs_turn(dirs, target, filter, h, at),
            get_diffs_turn(dirs, target, filter, h + more, at),
        ),
{
    match target {
        TargetModel::Worktree { path, base } => {
            assert forall|tree: Seq<u8>, entries: Seq<StatusDiffModel>, n: int| #[trigger]
                stays(
                    status_diffs_turn(path, tree, entries, 0, Seq::<DiffModel>::empty(), h, n),
                    status_diffs_turn(
                        path,
                        tree,
                        entries,
                        0,
                        Seq::<DiffModel>::empty(),
                        h + more,
                        n,
                    ),
                ) by {
                lemma_status_diffs_stay(
                    path,
                    tree,
                    entries,
                    0,
                    Seq::<DiffModel>::empty(),
                    h,
                    more,
                    n,
                );
            }
            assert forall|n: int| #[trigger]
                stays(
                    diff_status_turn(dirs, path, base, filter, h, n),
                    diff_status_turn(dirs, path, base, filter, h + more, n),
                ) by {
                lemma_diff_status_stays(dirs, path, base, filter, h, more, n);
            }
        },
        TargetModel::Branch { path, branch, base } => {
            if let Turn::Done(_, n1) = open_turn(path, h, at) {
                lemma_branch_tree_stays(path, base, h, more, n1);
                if let Turn::Done(a, n2) = branch_tree_turn(path, base, h, n1) {
                    lemma_branch_tree_stays(path, branch, h, more, n2);
                    if let Turn::Done(b, n3) = branch_tree_turn(path, branch, h, n2) {
                        lemma_tree_diffs_stay(path, a@, b@, filter, h, more, n3);
                    }
                }
            }
        },
        TargetModel::Commit { path, sha } => {
            assert forall|a: Seq<u8>, b: Seq<u8>, n: int| #[trigger]
                stays(
                    tree_diffs_turn(path, a, b, filter, h, n),
                    tree_diffs_turn(path, a, b, filter, h + more, n),
                ) by {
                lemma_tree_diffs_stay(path, a, b, filter, h, more, n);
            }
        },
    }
}

proof fn lemma_commit_changes_stay(
    repo: Seq<u8>,
    id: Seq<u8>,
    h: Seq<Reply>,
    more: Seq<Reply>,
    at: int,
)
    ensures
        stays(
            commit_changes_turn(repo, id, h, at),
            commit_changes_turn(repo, id, h + more, at),
        ),
{
}

proof fn lemma_walk_stays(
    repo: Seq<u8>,
    ids: Seq<Result<Oid, GitError>>,
    i: int,
    done: Seq<CommitModel>,
    h: Seq<Reply>,
    more: Seq<Reply>,
    at: int,
)
    ensures
        stays(
            walked_turn(repo, ids, i, done, h, at),
            walked_turn(repo, ids, i, done, h + more, at),
        ),
    decreases ids.len() - i,
{
    if 0 <= i < ids.len() {
        if let Ok(id) = ids[i] {
            lemma_commit_changes_stay(repo, id@, h, more, at);
            if let Turn::Done(c, n) = commit_changes_turn(repo, id@, h, at) {
                lemma_walk_stays(repo, ids, i + 1, done.push(c), h, more, n);
            }
        }
    }
}

/// Further replies do not change how collecting statistics went.
pub proof fn law_stats_stay(
    path: Seq<u8>,
    limit: int,
    h: Seq<Reply>,
    more: Seq<Reply>,
    at: int,
)
    ensures
        stays(file_stats_turn(path, limit, h, at), file_stats_turn(path, limit, h + more, at)),
{
    assert forall|ids: Seq<Result<Oid, GitError>>, m: int|
        stays(
            #[trigger] walked_turn(path, limited(ids, limit), 0, Seq::<CommitModel>::empty(), h, m),
            walked_turn(path, limited(ids, limit), 0, Seq::<CommitModel>::empty(), h + more, m),
        ) by {
        lemma_walk_stays(path, limited(ids, limit), 0, Seq::<CommitModel>::empty(), h, more, m);
    }
}

/// Further replies do not change how a new repository was made, or how a repository got its main
/// branch.
pub proof fn law_new_repository_stays(path: Seq<u8>, h: Seq<Reply>, more: Seq<Reply>, at: int)
    ensures
        stays(initialize_turn(path, h, at), initialize_turn(path, h + more, at)),
        stays(ensure_main_turn(path, h, at), ensure_main_turn(path, h + more, at)),
{
}

/// Further replies do not change how a clone went, or which credentials it was given.
pub proof fn law_clone_stays(
    url: Seq<char>,
    target: Seq<u8>,
    parent: Option<Seq<u8>>,
    token: Option<Seq<char>>,
    username: Option<Seq<char>>,
    h: Seq<Reply>,
    more: Seq<Reply>,
    at: int,
)
    ensures
        stays(
            clone_turn(url, target, parent, token, h, at),
            clone_turn(url, target, parent, token, h + more, at),
        ),
        stays(
            credentials_turn(token, username, h, at),
            credentials_turn(token, username, h + more, at),
        ),
{
}

/// Further replies do not change what was told of branches.
pub proof fn law_branch_questions_stay(
    path: Seq<u8>,
    name: Seq<char>,
    base: Seq<char>,
    h: Seq<Reply>,
    more: Seq<Reply>,
    at: int,
)
    ensures
        stays(branch_type_turn(path, name, h, at), branch_type_turn(path, name, h + more, at)),
        stays(branch_exists_turn(path, name, h, at), branch_exists_turn(path, name, h + more, at)),
        stays(
            branch_status_turn(path, name, base, h, at),
            branch_status_turn(path, name, base, h + more, at),
        ),
        stays(
            base_commit_turn(path, name, base, h, at),
            base_commit_turn(path, name, base, h + more, at),
        ),
        stays(branch_oid_turn(path, name, h, at), branch_oid_turn(path, name, h + more, at)),
        stays(all_branches_turn(path, h, at), all_branches_turn(path, h + more, at)),
{
}

/// Further replies do not change how a renaming went.
pub proof fn law_rename_stays(
    path: Seq<u8>,
    old_name: Seq<char>,
    new_name: Seq<char>,
    h: Seq<Reply>,
    more: Seq<Reply>,
    at: int,
)
    ensures
        stays(
            rename_branch_turn(path, old_name, new_name, h, at),
            rename_branch_turn(path, old_name, new_name, h + more, at),
        ),
{
}

/// Further replies do not change how worktrees were added, removed, moved and pruned, or where a
/// branch was found checked out.
pub proof fn law_worktrees_stay(
    repo: Seq<u8>,
    path: Seq<u8>,
    new_path: Seq<u8>,
    branch: Seq<char>,
    create: bool,
    force: bool,
    h: Seq<Reply>,
    more: Seq<Reply>,
    at: int,
)
    ensures
        stays(
            told(worktree_add_turn(repo, path, branch, create, h, at)),
            told(worktree_add_turn(repo, path, branch, create, h + more, at)),
        ),
        stays(
            told(worktree_remove_turn(repo, path, force, h, at)),
            told(worktree_remove_turn(repo, path, force, h + more, at)),
        ),
        stays(
            told(worktree_move_turn(repo, path, new_path, h, at)),
            told(worktree_move_turn(repo, path, new_path, h + more, at)),
        ),
        stays(
            told(worktree_prune_turn(repo, h, at)),
            told(worktree_prune_turn(repo, h + more, at)),
        ),
        stays(list_worktrees_turn(repo, h, at), list_worktrees_turn(repo, h + more, at)),
        stays(
            checkout_path_turn(repo, branch, h, at),
            checkout_path_turn(repo, branch, h + more, at),
        ),
{
}

/// Further replies do not change what was told of a worktree.
pub proof fn law_worktree_questions_stay(
    dirs: Seq<Seq<char>>,
    path: Seq<u8>,
    sha: Seq<char>,
    other: Seq<char>,
    h: Seq<Reply>,
    more: Seq<Reply>,
    at: int,
)
    ensures
        stays(head_info_turn(path, h, at), head_info_turn(path, h + more, at)),
        stays(current_branch_turn(path, h, at), current_branch_turn(path, h + more, at)),
        stays(is_clean_turn(path, h, at), is_clean_turn(path, h + more, at)),
        stays(check_clean_turn(path, h, at), check_clean_turn(path, h + more, at)),
        stays(change_counts_turn(dirs, path, h, at), change_counts_turn(dirs, path, h + more, at)),
        stays(commit_subject_turn(path, sha, h, at), commit_subject_turn(path, sha, h + more, at)),
        stays(
            ahead_behind_ids_turn(path, sha, other, h, at),
            ahead_behind_ids_turn(path, sha, other, h + more, at),
        ),
{
}

/// Further replies do not change what was told of an operation in progress.
pub proof fn law_conflict_questions_stay(path: Seq<u8>, h: Seq<Reply>, more: Seq<Reply>, at: int)
    ensures
        stays(conflict_op_turn(path, h, at), conflict_op_turn(path, h + more, at)),
        stays(service_conflicts_turn(path, h, at), service_conflicts_turn(path, h + more, at)),
        stays(
            explained(rebase_in_progress_turn(path, h, at), "git rebase state check failed: "@),
            explained(
                rebase_in_progress_turn(path, h + more, at),
                "git rebase state check failed: "@,
            ),
        ),
        stays(
            service_abort_rebase_turn(path, h, at),
            service_abort_rebase_turn(path, h + more, at),
        ),
{
    lemma_conflict_op_stays(path, h, more, at);
    lemma_in_progress_stays(path, h, more, at);
}

/// Further replies do not change what was told of remotes.
pub proof fn law_remote_questions_stay(
    path: Seq<u8>,
    branch: Seq<char>,
    h: Seq<Reply>,
    more: Seq<Reply>,
    at: int,
)
    ensures
        stays(remote_name_turn(path, branch, h, at), remote_name_turn(path, branch, h + more, at)),
        stays(github_info_turn(path, h, at), github_info_turn(path, h + more, at)),
        stays(
            remote_has_branch_turn(path, branch, h, at),
            remote_has_branch_turn(path, branch, h + more, at),
        ),
{
}

/// Further replies do not change how a fetch went.
pub proof fn law_fetch_stays(
    repo: Seq<u8>,
    remote: RemoteInfo,
    branch: BranchInfo,
    refspec: Seq<char>,
    h: Seq<Reply>,
    more: Seq<Reply>,
    at: int,
)
    ensures
        stays(
            fetch_from_turn(repo, remote, refspec, h, at),
            fetch_from_turn(repo, remote, refspec, h + more, at),
        ),
        stays(fetch_all_turn(repo, remote, h, at), fetch_all_turn(repo, remote, h + more, at)),
        stays(
            fetch_branch_turn(repo, branch, h, at),
            fetch_branch_turn(repo, branch, h + more, at),
        ),
{
    lemma_fetch_stays(repo, branch, h, more, at);
}

/// Further replies do not change how far a branch was told to be ahead of and behind its remote.
pub proof fn law_remote_status_stays(
    path: Seq<u8>,
    name: Seq<char>,
    base: Option<Seq<char>>,
    h: Seq<Reply>,
    more: Seq<Reply>,
    at: int,
)
    ensures
        stays(
            remote_status_turn(path, name, base, h, at),
            remote_status_turn(path, name, base, h + more, at),
        ),
{
}

/// Further replies do not change how any one command went.
pub proof fn law_command_stays(command: CommandModel, h: Seq<Reply>, more: Seq<Reply>, at: int)
    ensures
        stays(run_turn(command, h, at), run_turn(command, h + more, at)),
        stays(text_turn(command, h, at), text_turn(command, h + more, at)),
{
}

/// Further replies do not change what commands told of a worktree or of a remote.
pub proof fn law_cli_questions_stay(
    dirs: Seq<Seq<char>>,
    dir: Seq<u8>,
    url: Seq<char>,
    a: Seq<char>,
    b: Seq<char>,
    h: Seq<Reply>,
    more: Seq<Reply>,
    at: int,
)
    ensures
        stays(has_changes_turn(dir, h, at), has_changes_turn(dir, h + more, at)),
        stays(has_staged_changes_turn(dir, h, at), has_staged_changes_turn(dir, h + more, at)),
        stays(
            worktree_status_turn(dirs, dir, h, at),
            worktree_status_turn(dirs, dir, h + more, at),
        ),
        stays(conflicted_files_turn(dir, h, at), conflicted_files_turn(dir, h + more, at)),
        stays(merge_base_turn(dir, a, b, h, at), merge_base_turn(dir, a, b, h + more, at)),
        stays(
            remote_branch_exists_turn(dir, url, a, h, at),
            remote_branch_exists_turn(dir, url, a, h + more, at),
        ),
{
    lemma_merge_base_stays(dir, a, b, h, more, at);
}

/// Further replies do not change what was found of an operation in progress.
pub proof fn law_progress_questions_stay(dir: Seq<u8>, h: Seq<Reply>, more: Seq<Reply>, at: int)
    ensures
        stays(rebase_in_progress_turn(dir, h, at), rebase_in_progress_turn(dir, h + more, at)),
        stays(merge_in_progress_turn(dir, h, at), merge_in_progress_turn(dir, h + more, at)),
        stays(
            cherry_pick_in_progress_turn(dir, h, at),
            cherry_pick_in_progress_turn(dir, h + more, at),
        ),
        stays(revert_in_progress_turn(dir, h, at), revert_in_progress_turn(dir, h + more, at)),
{
}

/// Further replies do not change what a comparison of a worktree with a commit found.
pub proof fn law_diff_status_stays(
    dirs: Seq<Seq<char>>,
    dir: Seq<u8>,
    base: Seq<u8>,
    filter: Option<Seq<Seq<char>>>,
    h: Seq<Reply>,
    more: Seq<Reply>,
    at: int,
)
    ensures
        stays(
            diff_status_turn(dirs, dir, base, filter, h, at),
            diff_status_turn(dirs, dir, base, filter, h + more, at),
        ),
{
    lemma_diff_status_stays(dirs, dir, base, filter, h, more, at);
}

/// Further replies do not change how commands that change a repository went.
pub proof fn law_cli_changes_stay(
    dirs: Seq<Seq<char>>,
    dir: Seq<u8>,
    a: Seq<char>,
    b: Seq<char>,
    c: Seq<char>,
    force: bool,
    envs: Seq<(Seq<u8>, Seq<u8>)>,
    h: Seq<Reply>,
    more: Seq<Reply>,
    at: int,
)
    ensures
        stays(add_all_turn(dirs, dir, h, at), add_all_turn(dirs, dir, h + more, at)),
        stays(cli_commit_turn(dir, a, h, at), cli_commit_turn(dir, a, h + more, at)),
        stays(fetch_turn(dir, a, b, h, at), fetch_turn(dir, a, b, h + more, at)),
        stays(push_turn(dir, a, b, force, h, at), push_turn(dir, a, b, force, h + more, at)),
        stays(
            push_refspec_turn(dir, a, b, envs, h, at),
            push_refspec_turn(dir, a, b, envs, h + more, at),
        ),
        stays(update_ref_turn(dir, a, b, h, at), update_ref_turn(dir, a, b, h + more, at)),
        stays(
            merge_squash_turn(dir, a, b, c, h, at),
            merge_squash_turn(dir, a, b, c, h + more, at),
        ),
        stays(rebase_onto_turn(dir, a, b, c, h, at), rebase_onto_turn(dir, a, b, c, h + more, at)),
{
    lemma_squash_command_stays(dir, a, b, c, h, more, at);
    lemma_rebase_command_stays(dir, a, b, c, h, more, at);
}

/// Further replies do not change how the end of one operation in progress went.
pub proof fn law_aborts_stay(dir: Seq<u8>, h: Seq<Reply>, more: Seq<Reply>, at: int)
    ensures
        stays(abort_rebase_turn(dir, h, at), abort_rebase_turn(dir, h + more, at)),
        stays(quit_rebase_turn(dir, h, at), quit_rebase_turn(dir, h + more, at)),
        stays(abort_merge_turn(dir, h, at), abort_merge_turn(dir, h + more, at)),
        stays(abort_cherry_pick_turn(dir, h, at), abort_cherry_pick_turn(dir, h + more, at)),
        stays(abort_revert_turn(dir, h, at), abort_revert_turn(dir, h + more, at)),
{
    lemma_aborts_stay(dir, h, more, at);
}

} // verus!
