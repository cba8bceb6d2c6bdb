//! What texts, statuses and failures come to, in terms of what was replied.
use vstd::prelude::*;

use crate::branches::{branch_commit_turn, branch_status_turn, find_branch_turn};
use crate::cli::{output_of, run_turn, text_turn, CliTurn};
use crate::commands::{
    abort_cherry_pick_turn, abort_merge_turn, abort_rebase_turn, abort_revert_turn,
    conflicted_files_turn, fetch_turn, has_staged_changes_turn, marker_exists_turn, push_turn,
    quit_rebase_turn, rebase_in_progress_turn,
};
use crate::dialogue::{CommandModel, Reply, RequestModel, StatusScope, Turn};
use crate::diff::{path_of_diff, DiffModel};
use crate::errors::{CliErrorModel, GitError, GitErrorModel, ServiceErrorModel};
use crate::merging::merge_changes_turn;
use crate::oid::Oid;
use crate::porcelain::{
    change_of_letter, classified, name_status_entries, name_status_entry, scan_lines,
    tracked_changes, untracked_files, worktrees_on, ChangeTypeModel, StatusEntryModel,
};
use crate::printed::{is_printable, law_status_read_back, printed_status};
use crate::raw::{utf8, RawText};
use crate::rebasing::{
    abort_conflicts_turn, conflict_op_turn, failed_rebase_turn, service_abort_rebase_turn,
    service_conflicts_turn, tells_conflict, ConflictOp,
};
use crate::records::{
    BranchInfo, BranchType, FileFlags, HeadRef, RemoteInfo, RunEnd, RunReport, StatusRecord,
    VersionReport,
};
use crate::remotes::fetch_from_turn;
use crate::service::ServiceTurn;
use crate::stats::{distinct_files, stats_map, FileEntry};
use crate::text::{
    ascii_lowered, decimal, first_at, has_part, is_white_space, joined, law_first_line,
    law_last_line, law_one_piece, lines_of, part_at, trimmed, trimmed_end, trimmed_start,
    unicode_lowered, utf8_lossy,
};
use crate::traces::{ended_well, leaves_out, lemma_left_out};
use crate::worktrees::{
    change_counts_turn, changed_files, check_clean_turn, current_branch_turn, head_info_turn,
    is_changed, is_clean_turn, law_changed_files, reconcile_turn, reset_turn, HeadModel,
    WorktreeResetOptions, WorktreeResetOutcome,
};

verus! {

// ---------------------------------------------------------------------------
// Commands
// ---------------------------------------------------------------------------

/// A command is run as it is given, once `git` was found to run at all. It succeeds exactly where
/// it ends with the exit code zero and all its input was written; then what it wrote is all of its
/// standard output.
pub proof fn law_command_answered(
    c: CommandModel,
    h: Seq<Reply>,
    at: int,
    v: VersionReport,
    r: RunReport,
)
    requires
        0 <= at <= h.len(),
        h.len() > at ==> h[at] == Reply::Version(v),
        h.len() > at + 1 ==> h[at + 1] == Reply::Ran(r),
    ensures
        h.len() == at ==> run_turn(c, h, at) == CliTurn::<Seq<u8>>::Ask(RequestModel::Version),
        h.len() > at && v != VersionReport::Ended(true) ==> run_turn(c, h, at) == CliTurn::<
            Seq<u8>,
        >::Failed(CliErrorModel::NotAvailable, at + 1),
        h.len() == at + 1 && v == VersionReport::Ended(true) ==> run_turn(c, h, at) == CliTurn::<
            Seq<u8>,
        >::Ask(RequestModel::Run(c)),
        h.len() > at + 1 && v == VersionReport::Ended(true) ==> match r {
            RunReport::Missing => run_turn(c, h, at) == CliTurn::<Seq<u8>>::Failed(
                CliErrorModel::NotAvailable,
                at + 2,
            ),
            RunReport::NotStarted(m) => run_turn(c, h, at) == CliTurn::<Seq<u8>>::Failed(
                CliErrorModel::CommandFailed(m@),
                at + 2,
            ),
            RunReport::Ended(end) => if ended_well(end) {
                &&& run_turn(c, h, at) == CliTurn::Done(end.stdout@, at + 2)
                &&& text_turn(c, h, at) == CliTurn::Done(utf8_lossy(end.stdout@), at + 2)
            } else {
                run_turn(c, h, at) matches Turn::Failed(CliErrorModel::CommandFailed(_), n) && n
                    == at + 2
            },
        },
{
}

/// A command that fails says what it wrote to standard error and to standard output, without the
/// white space around either.
pub proof fn law_failed_command_says(end: RunEnd)
    requires
        end.code != Some(0i32),
    ensures
        output_of(RunReport::Ended(end)) matches Err(CliErrorModel::CommandFailed(m)) && {
            &&& has_part(m, trimmed(utf8_lossy(end.stdout@)))
            &&& has_part(m, trimmed(utf8_lossy(end.stderr@)))
            &&& m.len() > 0
        },
{
    let out = trimmed(utf8_lossy(end.stdout@));
    let err = trimmed(utf8_lossy(end.stderr@));
    reveal_strlit("Command failed with no output");
    reveal_strlit("--- stdout\n");
    reveal_strlit("--- stderr\n");
    reveal_strlit("\n--- stdout\n");
    if let Err(CliErrorModel::CommandFailed(m)) = output_of(RunReport::Ended(end)) {
        if out.len() == 0 && err.len() == 0 {
            assert(m.subrange(0, 0) =~= out);
            assert(m.subrange(0, 0) =~= err);
            assert(part_at(m, out, 0));
            assert(part_at(m, err, 0));
        } else if out.len() == 0 {
            assert(m.subrange(11, 11int + err.len()) =~= err);
            assert(part_at(m, err, 11));
            assert(m.subrange(0, 0) =~= out);
            assert(part_at(m, out, 0));
        } else if err.len() == 0 {
            assert(m.subrange(11, 11int + out.len()) =~= out);
            assert(part_at(m, out, 11));
            assert(m.subrange(0, 0) =~= err);
            assert(part_at(m, err, 0));
        } else {
            assert(m.subrange(11, 11int + err.len()) =~= err);
            assert(part_at(m, err, 11));
            let i: int = 11int + err.len() + 12;
            assert(m.subrange(i, i + out.len()) =~= out);
            assert(part_at(m, out, i));
        }
    }
}

/// Whether anything is staged is what the exit code of `git diff --cached --quiet` tells: none
/// where it is zero, something where it is one; any other is a failure.
pub proof fn law_staged_changes_told(dir: Seq<u8>, h: Seq<Reply>, at: int, end: RunEnd)
    requires
        0 <= at <= h.len(),
        h.len() > at ==> h[at] == Reply::Ran(RunReport::Ended(end)),
    ensures
        h.len() == at ==> has_staged_changes_turn(dir, h, at) == CliTurn::<bool>::Ask(
            RequestModel::Run(
                CommandModel {
                    dir,
                    args: seq![utf8("diff"@), utf8("--cached"@), utf8("--quiet"@)],
                    envs: seq![],
                    stdin: None,
                },
            ),
        ),
        h.len() > at && end.code == Some(0i32) ==> has_staged_changes_turn(dir, h, at)
            == CliTurn::Done(false, at + 1),
        h.len() > at && end.code == Some(1i32) ==> has_staged_changes_turn(dir, h, at)
            == CliTurn::Done(true, at + 1),
        h.len() > at && end.code != Some(0i32) && end.code != Some(1i32)
            ==> has_staged_changes_turn(dir, h, at) is Failed,
{
}

/// Whether a message tells that the remote refused the credentials, whatever the case of its
/// letters.
pub open spec fn says_auth_failed(m: Seq<char>) -> bool {
    let low = ascii_lowered(m);
    ||| has_part(low, "could not read username"@)
    ||| has_part(low, "invalid username or password"@)
    ||| has_part(low, "authentication failed"@)
}

/// Whether a message tells that the remote refused a push, whatever the case of its letters.
pub open spec fn says_rejected(m: Seq<char>) -> bool {
    let low = ascii_lowered(m);
    ||| has_part(low, "fetch first"@)
    ||| has_part(low, "updates were rejected because the tip"@)
    ||| has_part(low, "failed to push some refs"@)
    ||| has_part(low, "non-fast-forward"@)
}

/// A push or a fetch whose command fails fails by the credentials exactly where the message says
/// so, else by a refusal exactly where it says that, and else as the command did; the message is
/// kept.
pub proof fn law_remote_failure_told(
    dir: Seq<u8>,
    url: Seq<char>,
    branch: Seq<char>,
    refspec: Seq<char>,
    force: bool,
    h: Seq<Reply>,
    at: int,
    end: RunEnd,
    m: Seq<char>,
)
    requires
        0 <= at,
        at + 1 < h.len(),
        h[at] == Reply::Version(VersionReport::Ended(true)),
        h[at + 1] == Reply::Ran(RunReport::Ended(end)),
        output_of(RunReport::Ended(end)) == Err::<Seq<u8>, CliErrorModel>(
            CliErrorModel::CommandFailed(m),
        ),
    ensures
        ({
            let e = if says_auth_failed(m) {
                CliErrorModel::AuthFailed(m)
            } else if says_rejected(m) {
                CliErrorModel::PushRejected(m)
            } else {
                CliErrorModel::CommandFailed(m)
            };
            &&& push_turn(dir, url, branch, force, h, at) == CliTurn::<()>::Failed(e, at + 2)
            &&& fetch_turn(dir, url, refspec, h, at) == CliTurn::<()>::Failed(e, at + 2)
            &&& classified(m) == e
        }),
{
}

// ---------------------------------------------------------------------------
// Statuses
// ---------------------------------------------------------------------------

/// Whether a file is tracked and differs: one of its flags is set that tells neither of an
/// untracked nor of an ignored file.
pub open spec fn differs(f: FileFlags) -> bool {
    !(!f.index_new && !f.index_modified && !f.index_deleted && !f.index_renamed
        && !f.index_typechange && !f.wt_modified && !f.wt_deleted && !f.wt_typechange
        && !f.wt_renamed && !f.conflicted)
}

proof fn lemma_files_that_differ(records: Seq<StatusRecord>)
    ensures
        changed_files(records) == records.filter(|r: StatusRecord| differs(r.flags)).map_values(
            |r: StatusRecord| utf8_lossy(r.path@),
        ),
    decreases records.len(),
{
    reveal(Seq::filter);
    let keep = |r: StatusRecord| differs(r.flags);
    let name = |r: StatusRecord| utf8_lossy(r.path@);
    if records.len() > 0 {
        lemma_files_that_differ(records.drop_last());
        let before = records.drop_last().filter(keep);
        if differs(records.last().flags) {
            assert(records.filter(keep) == before.push(records.last()));
            assert(before.push(records.last()).map_values(name) =~= before.map_values(name).push(
                name(records.last()),
            ));
        }
        assert(changed_files(records) =~= records.filter(keep).map_values(name));
    } else {
        assert(changed_files(records) =~= records.filter(keep).map_values(name));
    }
}

/// A worktree is clean exactly where no tracked file differs, in the index or in the worktree, or
/// is in conflict; only the status of tracked files is asked for. A check of one that is not clean
/// tells the branch and the names of exactly the files that differ, in order.
pub proof fn law_clean_exactly(
    path: Seq<u8>,
    h: Seq<Reply>,
    at: int,
    records: Vec<StatusRecord>,
    head: HeadRef,
    name: String,
)
    requires
        0 <= at <= h.len(),
        h.len() > at ==> h[at] == Reply::Unit(Ok::<(), GitError>(())),
        h.len() > at + 1 ==> h[at + 1] == Reply::Statuses(
            Ok::<Vec<StatusRecord>, GitError>(records),
        ),
        h.len() > at + 2 ==> h[at + 2] == Reply::Head(Ok::<HeadRef, GitError>(head)),
        head.shorthand == Some(name),
    ensures
        h.len() == at ==> is_clean_turn(path, h, at) == ServiceTurn::<bool>::Ask(
            RequestModel::OpenRepo(path),
        ),
        h.len() == at + 1 ==> is_clean_turn(path, h, at) == ServiceTurn::<bool>::Ask(
            RequestModel::Statuses(path, StatusScope { untracked: false, ignored: false }),
        ),
        h.len() >= at + 2 && (forall|i: int|
            0 <= i < records@.len() ==> !differs((#[trigger] records@[i]).flags)) ==> {
            &&& is_clean_turn(path, h, at) == ServiceTurn::Done(true, at + 2)
            &&& check_clean_turn(path, h, at + 1) == ServiceTurn::Done((), at + 2)
        },
        h.len() >= at + 3 && (exists|i: int|
            0 <= i < records@.len() && differs((#[trigger] records@[i]).flags)) ==> {
            &&& is_clean_turn(path, h, at) == ServiceTurn::Done(false, at + 3)
            &&& check_clean_turn(path, h, at + 1) == ServiceTurn::<()>::Failed(
                ServiceErrorModel::WorktreeDirty(
                    name@,
                    joined(
                        records@.filter(|r: StatusRecord| differs(r.flags)).map_values(
                            |r: StatusRecord| utf8_lossy(r.path@),
                        ),
                        ", "@,
                    ),
                ),
                at + 3,
            )
        },
{
    lemma_files_that_differ(records@);
    law_changed_files(records@, seq![]);
    if exists|i: int| 0 <= i < records@.len() && differs((#[trigger] records@[i]).flags) {
        let i = choose|i: int| 0 <= i < records@.len() && differs((#[trigger] records@[i]).flags);
        assert(is_changed(records@[i].flags));
    }
}

/// Whether an entry is of a tracked file that differs in the index or in the worktree.
pub open spec fn is_tracked_entry(e: StatusEntryModel) -> bool {
    (e.staged != ' ' || e.unstaged != ' ') && !(e.staged == '?' && e.unstaged == '?')
}

proof fn lemma_entries_counted(entries: Seq<StatusEntryModel>)
    requires
        forall|i: int| 0 <= i < entries.len() ==> is_printable(#[trigger] entries[i]),
    ensures
        tracked_changes(entries) == entries.filter(|e: StatusEntryModel| is_tracked_entry(e)).len(),
        untracked_files(entries) == entries.filter(
            |e: StatusEntryModel| e.staged == '?' && e.unstaged == '?',
        ).len(),
    decreases entries.len(),
{
    reveal(Seq::filter);
    if entries.len() > 0 {
        let before = entries.drop_last();
        assert forall|i: int| 0 <= i < before.len() implies is_printable(#[trigger] before[i]) by {
            assert(entries[i] == before[i]);
        }
        lemma_entries_counted(before);
        assert(is_printable(entries[entries.len() - 1]));
    }
}

/// The numbers of changes of a worktree count what `git status` prints: tracked files that differ,
/// and files that it marks as untracked.
pub proof fn law_changes_counted(
    dirs: Seq<Seq<char>>,
    path: Seq<u8>,
    h: Seq<Reply>,
    at: int,
    args: Seq<Seq<u8>>,
    end: RunEnd,
    entries: Seq<StatusEntryModel>,
)
    requires
        0 <= at <= h.len(),
        ended_well(end),
        end.stdout@ == printed_status(entries),
        forall|i: int| 0 <= i < entries.len() ==> is_printable(#[trigger] entries[i]),
        leaves_out(
            args,
            seq![
                utf8("--no-optional-locks"@),
                utf8("status"@),
                utf8("--porcelain"@),
                utf8("-z"@),
                utf8("--untracked-files=normal"@),
            ],
            dirs,
        ),
        h.len() > at ==> h[at] == Reply::Version(VersionReport::Ended(true)),
        h.len() > at + 1 ==> h[at + 1] == Reply::Ran(RunReport::Ended(end)),
    ensures
        h.len() == at + 1 ==> change_counts_turn(dirs, path, h, at) == ServiceTurn::<
            (int, int),
        >::Ask(RequestModel::Run(CommandModel { dir: path, args, envs: seq![], stdin: None })),
        h.len() >= at + 2 ==> change_counts_turn(dirs, path, h, at) == ServiceTurn::Done(
            (
                entries.filter(|e: StatusEntryModel| is_tracked_entry(e)).len() as int,
                entries.filter(
                    |e: StatusEntryModel| e.staged == '?' && e.unstaged == '?',
                ).len() as int,
            ),
            at + 2,
        ),
{
    law_status_read_back(entries);
    lemma_entries_counted(entries);
    lemma_left_out(
        args,
        seq![
            utf8("--no-optional-locks"@),
            utf8("status"@),
            utf8("--porcelain"@),
            utf8("-z"@),
            utf8("--untracked-files=normal"@),
        ],
        dirs,
    );
}

/// The letters of `git diff --name-status`.
pub proof fn law_letters(c: char)
    ensures
        change_of_letter('A') == ChangeTypeModel::Added,
        change_of_letter('M') == ChangeTypeModel::Modified,
        change_of_letter('D') == ChangeTypeModel::Deleted,
        change_of_letter('R') == ChangeTypeModel::Renamed,
        change_of_letter('C') == ChangeTypeModel::Copied,
        change_of_letter('T') == ChangeTypeModel::TypeChanged,
        change_of_letter('U') == ChangeTypeModel::Unmerged,
        !seq!['A', 'M', 'D', 'R', 'C', 'T', 'U'].contains(c) ==> change_of_letter(c)
            == ChangeTypeModel::Unknown(seq![c]),
{
    let all = seq!['A', 'M', 'D', 'R', 'C', 'T', 'U'];
    assert(all[0] == 'A' && all[1] == 'M' && all[2] == 'D' && all[3] == 'R' && all[4] == 'C'
        && all[5] == 'T' && all[6] == 'U');
}

// ---------------------------------------------------------------------------
// Operations in progress
// ---------------------------------------------------------------------------

/// Whether an operation came to a no, or failed, at a position.
pub open spec fn says_no(t: CliTurn<bool>, n: int) -> bool {
    match t {
        Turn::Done(b, m) => !b && m == n,
        Turn::Failed(_, m) => m == n,
        _ => false,
    }
}

/// A marker that `git` cannot resolve is not there.
pub proof fn law_marker_missing(
    dir: Seq<u8>,
    marker: Seq<char>,
    h: Seq<Reply>,
    at: int,
    end: RunEnd,
)
    requires
        0 <= at,
        at + 1 < h.len(),
        h[at] == Reply::Version(VersionReport::Ended(true)),
        h[at + 1] == Reply::Ran(RunReport::Ended(end)),
        end.code != Some(0i32),
    ensures
        marker_exists_turn(dir, marker, h, at) == CliTurn::Done(false, at + 2),
{
}

/// The operation in progress is a rebase where one is found; else a merge, a cherry-pick or a
/// revert, in this order, where its marker is found; and else none. What cannot be found out is
/// taken for a no.
pub proof fn law_operation_told(
    path: Seq<u8>,
    h: Seq<Reply>,
    at: int,
    n1: int,
    n2: int,
    n3: int,
    n4: int,
)
    ensures
        rebase_in_progress_turn(path, h, at) == CliTurn::Done(true, n1) ==> conflict_op_turn(
            path,
            h,
            at,
        ) == ServiceTurn::Done(Some(ConflictOp::Rebase), n1),
        says_no(rebase_in_progress_turn(path, h, at), n1) ==> {
            &&& marker_exists_turn(path, "MERGE_HEAD"@, h, n1) == CliTurn::Done(true, n2)
                ==> conflict_op_turn(path, h, at) == ServiceTurn::Done(Some(ConflictOp::Merge), n2)
            &&& says_no(marker_exists_turn(path, "MERGE_HEAD"@, h, n1), n2) ==> {
                &&& marker_exists_turn(path, "CHERRY_PICK_HEAD"@, h, n2) == CliTurn::Done(true, n3)
                    ==> conflict_op_turn(path, h, at) == ServiceTurn::Done(
                    Some(ConflictOp::CherryPick),
                    n3,
                )
                &&& says_no(marker_exists_turn(path, "CHERRY_PICK_HEAD"@, h, n2), n3) ==> {
                    &&& marker_exists_turn(path, "REVERT_HEAD"@, h, n3) == CliTurn::Done(true, n4)
                        ==> conflict_op_turn(path, h, at) == ServiceTurn::Done(
                        Some(ConflictOp::Revert),
                        n4,
                    )
                    &&& says_no(marker_exists_turn(path, "REVERT_HEAD"@, h, n3), n4)
                        ==> conflict_op_turn(path, h, at) == ServiceTurn::Done(
                        None::<ConflictOp>,
                        n4,
                    )
                }
            }
        },
{
}

/// Whether an operation of the service stands where an operation of the command stands.
pub open spec fn follows(t: ServiceTurn<()>, u: CliTurn<()>) -> bool {
    match u {
        Turn::Done(_, n) => t == ServiceTurn::Done((), n),
        Turn::Failed(_, n) => t matches Turn::Failed(_, m) && m == n,
        Turn::Ask(q) => t == ServiceTurn::<()>::Ask(q),
        Turn::OutOfStep => t is OutOfStep,
    }
}

/// Ending the operation in progress aborts the one that was found. A rebase is aborted where there
/// are files with conflicts, and else left where it is.
pub proof fn law_operation_ended(path: Seq<u8>, h: Seq<Reply>, at: int, op: ConflictOp, n: int)
    requires
        conflict_op_turn(path, h, at) == ServiceTurn::Done(Some(op), n),
    ensures
        op == ConflictOp::Merge ==> follows(
            abort_conflicts_turn(path, h, at),
            abort_merge_turn(path, h, n),
        ),
        op == ConflictOp::CherryPick ==> follows(
            abort_conflicts_turn(path, h, at),
            abort_cherry_pick_turn(path, h, n),
        ),
        op == ConflictOp::Revert ==> follows(
            abort_conflicts_turn(path, h, at),
            abort_revert_turn(path, h, n),
        ),
        op == ConflictOp::Rebase ==> match conflicted_files_turn(path, h, n) {
            Turn::Done(files, m) => follows(
                abort_conflicts_turn(path, h, at),
                if files.len() > 0 {
                    abort_rebase_turn(path, h, m)
                } else {
                    quit_rebase_turn(path, h, m)
                },
            ),
            Turn::Failed(_, m) => follows(
                abort_conflicts_turn(path, h, at),
                quit_rebase_turn(path, h, m),
            ),
            Turn::Ask(q) => abort_conflicts_turn(path, h, at) == ServiceTurn::<()>::Ask(q),
            Turn::OutOfStep => abort_conflicts_turn(path, h, at) is OutOfStep,
        },
{
}

/// A rebase that failed tells of conflicts exactly where its output does: it says `CONFLICT`, or
/// that something could not be applied, or, in letters of any case, to resolve all conflicts.
pub proof fn law_conflicts_recognised(output: Seq<char>)
    ensures
        tells_conflict(output, unicode_lowered(output)) <==> has_part(output, "CONFLICT"@)
            || has_part(output, "could not apply"@) || has_part(
            unicode_lowered(output),
            "resolve all conflicts"@,
        ),
{
}

/// What a rebase that met conflicts says names the branch, the new base and the files with
/// conflicts, all of them where there are at most ten; of more, the first ten and how many there
/// are.
pub proof fn law_conflicts_named(
    path: Seq<u8>,
    new_base: Seq<char>,
    output: Seq<char>,
    h: Seq<Reply>,
    at: int,
    head: HeadRef,
    name: String,
    files: Seq<Seq<char>>,
    n: int,
)
    requires
        0 <= at < h.len(),
        has_part(output, "CONFLICT"@),
        h[at] == Reply::Head(Ok::<HeadRef, GitError>(head)),
        head.shorthand == Some(name),
        conflicted_files_turn(path, h, at + 1) == CliTurn::Done(files, n),
    ensures
        failed_rebase_turn(path, new_base, output, h, at) == ServiceTurn::<Seq<char>>::Failed(
            ServiceErrorModel::MergeConflicts(
                "Rebase encountered merge conflicts while rebasing '"@ + name@ + "' onto '"@
                    + new_base + "'."@ + (if files.len() == 0 {
                    seq![]
                } else if files.len() <= 10 {
                    " Conflicted files: "@ + joined(files, ", "@) + "."@
                } else {
                    " Conflicted files (showing "@ + decimal(10) + " of "@ + decimal(files.len())
                        + "): "@ + joined(files.take(10), ", "@) + "."@
                }) + " Resolve conflicts and then continue or abort."@,
            ),
            n,
        ),
{
}

/// Bringing a worktree to a commit resets it to that commit, by force where that is wanted, exactly
/// where HEAD is elsewhere or there are uncommitted changes, a reset is wanted, and no uncommitted
/// changes stand against it. It was applied exactly where the reset succeeded.
pub proof fn law_worktree_reconciled(
    path: Seq<u8>,
    target: Seq<char>,
    options: WorktreeResetOptions,
    h: Seq<Reply>,
    at: int,
    head: HeadModel,
    n: int,
)
    requires
        head_info_turn(path, h, at) == ServiceTurn::Done(head, n),
    ensures
        ({
            let needed = head.oid != target || options.is_dirty;
            let wanted = options.perform_reset && !(options.is_dirty && !options.force_when_dirty);
            if needed && wanted {
                match reset_turn(path, target, options.force_when_dirty, h, n) {
                    Turn::Ask(q) => reconcile_turn(path, target, options, h, at) == ServiceTurn::<
                        WorktreeResetOutcome,
                    >::Ask(q),
                    Turn::Done(_, m) => reconcile_turn(path, target, options, h, at)
                        == ServiceTurn::Done(
                        WorktreeResetOutcome { needed: true, applied: true },
                        m,
                    ),
                    Turn::Failed(_, m) => reconcile_turn(path, target, options, h, at)
                        == ServiceTurn::Done(
                        WorktreeResetOutcome { needed: true, applied: false },
                        m,
                    ),
                    Turn::OutOfStep => true,
                }
            } else {
                reconcile_turn(path, target, options, h, at) == ServiceTurn::Done(
                    WorktreeResetOutcome { needed, applied: false },
                    n,
                )
            }
        }),
{
}

/// The commit that a branch leads to is asked for by the name and the kind of the branch that was
/// found.
pub proof fn law_branch_led_to(
    repo: Seq<u8>,
    name: Seq<char>,
    h: Seq<Reply>,
    at: int,
    b: (BranchType, BranchInfo),
    n: int,
    id: Oid,
)
    requires
        find_branch_turn(repo, name, h, at) == ServiceTurn::Done(b, n),
        0 <= n <= h.len(),
    ensures
        h.len() == n ==> branch_commit_turn(repo, name, h, at) == ServiceTurn::<Oid>::Ask(
            RequestModel::PeelBranch(repo, name, b.0),
        ),
        h.len() > n && h[n] == Reply::Id(Ok::<Oid, GitError>(id)) ==> branch_commit_turn(
            repo,
            name,
            h,
            at,
        ) == ServiceTurn::Done(id, n + 1),
{
}

// ---------------------------------------------------------------------------
// Texts
// ---------------------------------------------------------------------------

proof fn lemma_trimmed_start(s: Seq<char>)
    ensures
        trimmed_start(s).len() <= s.len(),
        s.skip(s.len() - trimmed_start(s).len()) == trimmed_start(s),
        forall|i: int|
            0 <= i < s.len() - trimmed_start(s).len() ==> is_white_space(#[trigger] s[i]),
        trimmed_start(s).len() > 0 ==> !is_white_space(trimmed_start(s)[0]),
    decreases s.len(),
{
    if s.len() > 0 && is_white_space(s[0]) {
        let tail = s.skip(1);
        lemma_trimmed_start(tail);
        let k = s.len() - trimmed_start(s).len();
        assert(s.skip(k) =~= tail.skip(k - 1));
        assert forall|i: int| 0 <= i < k implies is_white_space(#[trigger] s[i]) by {
            if i > 0 {
                assert(tail[i - 1] == s[i]);
            }
        }
    } else {
        assert(s.skip(0) =~= s);
    }
}

proof fn lemma_trimmed_end(s: Seq<char>)
    ensures
        trimmed_end(s).len() <= s.len(),
        s.take(trimmed_end(s).len() as int) == trimmed_end(s),
        forall|i: int| trimmed_end(s).len() <= i < s.len() ==> is_white_space(#[trigger] s[i]),
        trimmed_end(s).len() > 0 ==> !is_white_space(trimmed_end(s).last()),
    decreases s.len(),
{
    if s.len() > 0 && is_white_space(s.last()) {
        let front = s.drop_last();
        lemma_trimmed_end(front);
        let k = trimmed_end(s).len() as int;
        assert(s.take(k) =~= front.take(k));
        assert forall|i: int| k <= i < s.len() implies is_white_space(#[trigger] s[i]) by {
            if i < front.len() {
                assert(front[i] == s[i]);
            }
        }
    } else {
        assert(s.take(s.len() as int) =~= s);
    }
}

/// Trimming takes away white space at both ends of a text, all of it, and nothing else.
pub proof fn law_trimmed(s: Seq<char>) -> (r: (int, int))
    ensures
        0 <= r.0 <= r.1 <= s.len(),
        trimmed(s) == s.subrange(r.0, r.1),
        forall|i: int| 0 <= i < r.0 || r.1 <= i < s.len() ==> is_white_space(#[trigger] s[i]),
        r.0 < r.1 ==> !is_white_space(s[r.0]) && !is_white_space(s[r.1 - 1]),
{
    lemma_trimmed_start(s);
    let t = trimmed_start(s);
    lemma_trimmed_end(t);
    let a = s.len() - t.len();
    let b = a + trimmed_end(t).len();
    assert(trimmed(s) =~= s.subrange(a, b));
    assert forall|i: int| 0 <= i < a || b <= i < s.len() implies is_white_space(
        #[trigger] s[i],
    ) by {
        if i >= b {
            assert(t[i - a] == s[i]);
        }
    }
    if a < b {
        assert(t[0] == s[a]);
        assert(trimmed_end(t)[0] == t[0]);
        assert(trimmed_end(t).last() == s[b - 1]);
    }
    (a, b)
}

/// Joining puts the separator behind the first part and in front of the others, joined.
pub proof fn law_joined(first: Seq<char>, rest: Seq<Seq<char>>, sep: Seq<char>)
    ensures
        joined(seq![first], sep) == first,
        rest.len() > 0 ==> joined(seq![first] + rest, sep) == first + sep + joined(rest, sep),
        joined(Seq::<Seq<char>>::empty(), sep).len() == 0,
    decreases rest.len(),
{
    if rest.len() == 1 {
        let all = seq![first] + rest;
        assert(all.drop_last() =~= seq![first]);
        assert(rest.drop_last() =~= Seq::<Seq<char>>::empty());
        assert(joined(all, sep) == joined(seq![first], sep) + sep + rest[0]);
    } else if rest.len() > 1 {
        let all = seq![first] + rest;
        law_joined(first, rest.drop_last(), sep);
        assert(all.drop_last() =~= seq![first] + rest.drop_last());
        assert(joined(all, sep) =~= first + sep + joined(rest, sep));
    }
}

/// The number that some decimal digits spell.
pub open spec fn spelled(s: Seq<char>) -> int
    decreases s.len(),
{
    if s.len() == 0 {
        0
    } else {
        10 * spelled(s.drop_last()) + (s.last() as int - '0' as int)
    }
}

/// The decimal form of a number spells that number, in digits alone and without leading zeros.
pub proof fn law_decimal(n: nat)
    ensures
        spelled(decimal(n)) == n,
        forall|i: int| 0 <= i < decimal(n).len() ==> '0' <= #[trigger] decimal(n)[i] <= '9',
        decimal(n).len() > 0,
        n > 0 ==> decimal(n)[0] != '0',
    decreases n,
{
    if n < 10 {
        reveal_with_fuel(spelled, 2);
        assert(decimal(n).drop_last() =~= Seq::<char>::empty());
    } else {
        law_decimal(n / 10);
        let front = decimal(n / 10);
        assert(decimal(n).drop_last() =~= front);
        assert forall|i: int| 0 <= i < decimal(n).len() implies '0' <= #[trigger] decimal(n)[i]
            <= '9' by {
            if i < front.len() {
                assert(decimal(n)[i] == front[i]);
            }
        }
    }
}

/// What stands before a carriage return and a line feed is a line, without either.
pub proof fn law_first_line_of_two_characters(a: Seq<char>, rest: Seq<char>)
    requires
        !a.contains('\n'),
    ensures
        lines_of(a.push('\r').push('\n') + rest) == seq![a] + lines_of(rest),
{
    let s = a.push('\r').push('\n') + rest;
    lemma_first_at(s, a.len() + 1int);
    assert(s.take(a.len() + 1int).drop_last() =~= a);
    assert(s.skip(a.len() + 2int) =~= rest);
}

proof fn lemma_first_at(s: Seq<char>, k: int)
    requires
        0 <= k < s.len(),
        s[k] == '\n',
        forall|i: int| 0 <= i < k ==> #[trigger] s[i] != '\n',
    ensures
        first_at(s, '\n') == k,
    decreases k,
{
    if k > 0 {
        let tail = s.skip(1);
        assert forall|i: int| 0 <= i < k - 1 implies #[trigger] tail[i] != '\n' by {
            assert(s[i + 1] != '\n');
        }
        lemma_first_at(tail, k - 1);
    }
}

/// The path that a change is known by is where the file is now, or where it was if it is gone.
pub proof fn law_path_of_diff(d: DiffModel)
    ensures
        d.new_path is Some ==> path_of_diff(d) == d.new_path->0,
        d.new_path is None && d.old_path is Some ==> path_of_diff(d) == d.old_path->0,
{
}

/// A list of files in which none occurs twice stands for exactly these files, each with its own
/// statistics.
pub proof fn law_listed_statistics(files: Seq<FileEntry>, i: int)
    requires
        distinct_files(files),
        0 <= i < files.len(),
    ensures
        stats_map(files).contains_key(files[i].path@),
        stats_map(files)[files[i].path@] == files[i].stat,
    decreases files.len(),
{
    let front = files.drop_last();
    if i < files.len() - 1 {
        assert forall|a: int, b: int| 0 <= a < b < front.len() implies (#[trigger] front[a]).path@
            != (#[trigger] front[b]).path@ by {
            assert(files[a].path@ != files[b].path@);
        }
        law_listed_statistics(front, i);
        assert(front[i] == files[i]);
        assert(files[i].path@ != files[files.len() - 1].path@);
    }
}

/// A file that is not in a list is not among the statistics that the list stands for.
pub proof fn law_unlisted_statistics(files: Seq<FileEntry>, path: Seq<char>)
    requires
        forall|i: int| 0 <= i < files.len() ==> (#[trigger] files[i]).path@ != path,
    ensures
        !stats_map(files).contains_key(path),
    decreases files.len(),
{
    if files.len() > 0 {
        let front = files.drop_last();
        assert forall|i: int| 0 <= i < front.len() implies (#[trigger] front[i]).path@ != path by {
            assert(front[i] == files[i]);
        }
        assert(files[files.len() - 1].path@ != path);
        law_unlisted_statistics(front, path);
    }
}

// ---------------------------------------------------------------------------
// Lists that `git` prints
// ---------------------------------------------------------------------------

/// Whether a line of a list of worktrees says something that is not asked for: it is not blank, and
/// names neither a worktree nor its HEAD nor its branch.
pub open spec fn is_remark(line: Seq<char>) -> bool {
    let l = trimmed(line);
    l.len() > 0 && !"worktree "@.is_prefix_of(l) && !"HEAD "@.is_prefix_of(l)
        && !"branch "@.is_prefix_of(l)
}

proof fn lemma_remark_passed_over(a: Seq<Seq<char>>, line: Seq<char>, b: Seq<Seq<char>>)
    requires
        is_remark(line),
    ensures
        scan_lines(a.push(line) + b) == scan_lines(a + b),
    decreases b.len(),
{
    if b.len() == 0 {
        assert(a.push(line) + b =~= a.push(line));
        assert(a + b =~= a);
        assert(a.push(line).drop_last() =~= a);
    } else {
        lemma_remark_passed_over(a, line, b.drop_last());
        assert((a.push(line) + b).drop_last() =~= a.push(line) + b.drop_last());
        assert((a + b).drop_last() =~= a + b.drop_last());
    }
}

/// What else `git worktree list` says of a worktree, such as that it is bare or locked, changes
/// nothing.
pub proof fn law_remarks_passed_over(a: Seq<Seq<char>>, line: Seq<char>, b: Seq<Seq<char>>)
    requires
        is_remark(line),
    ensures
        worktrees_on(a.push(line) + b) == worktrees_on(a + b),
{
    lemma_remark_passed_over(a, line, b);
}

proof fn lemma_line_without_entry(a: Seq<Seq<char>>, line: Seq<char>, b: Seq<Seq<char>>)
    requires
        name_status_entry(line) is None,
    ensures
        name_status_entries(a.push(line) + b) == name_status_entries(a + b),
    decreases b.len(),
{
    if b.len() == 0 {
        assert(a.push(line) + b =~= a.push(line));
        assert(a + b =~= a);
        assert(a.push(line).drop_last() =~= a);
    } else {
        lemma_line_without_entry(a, line, b.drop_last());
        assert((a.push(line) + b).drop_last() =~= a.push(line) + b.drop_last());
        assert((a + b).drop_last() =~= a + b.drop_last());
    }
}

/// Lines that name no file, such as blank ones, tell nothing of changed files.
pub proof fn law_lines_without_file_passed_over(
    a: Seq<Seq<char>>,
    line: Seq<char>,
    b: Seq<Seq<char>>,
)
    requires
        !trimmed_end(line).contains('\t'),
    ensures
        name_status_entries(a.push(line) + b) == name_status_entries(a + b),
{
    law_one_piece(trimmed_end(line), '\t');
    lemma_line_without_entry(a, line, b);
}

// ---------------------------------------------------------------------------
// Refusals
// ---------------------------------------------------------------------------

/// A merge into a base branch that has moved on says so: it names both branches, and by how many
/// commits the base is ahead.
pub proof fn law_divergence_told(
    base_path: Seq<u8>,
    task_path: Seq<u8>,
    task: Seq<char>,
    base: Seq<char>,
    message: Seq<char>,
    h: Seq<Reply>,
    at: int,
    ahead: int,
    behind: int,
    n: int,
)
    requires
        0 <= at,
        at + 1 < h.len(),
        h[at] == Reply::Unit(Ok::<(), GitError>(())),
        h[at + 1] == Reply::Unit(Ok::<(), GitError>(())),
        branch_status_turn(base_path, task, base, h, at + 2) == ServiceTurn::Done(
            (ahead, behind),
            n,
        ),
        behind > 0,
    ensures
        merge_changes_turn(base_path, task_path, task, base, message, h, at) == ServiceTurn::<
            Seq<char>,
        >::Failed(
            ServiceErrorModel::BranchesDiverged(
                "Cannot merge: base branch '"@ + base + "' is "@ + decimal(behind as nat)
                    + " commits ahead of task branch '"@ + task
                    + "'. The base branch has moved forward since the task was created."@,
            ),
            n,
        ),
{
}

/// A rebase that failed without conflicts tells the first line of the output.
pub proof fn law_first_line_of_failure_told(
    path: Seq<u8>,
    new_base: Seq<char>,
    first: Seq<char>,
    rest: Seq<char>,
    h: Seq<Reply>,
    at: int,
)
    requires
        !first.contains('\n'),
        first.len() > 0 ==> first.last() != '\r',
        ({
            let output = first.push('\n') + rest;
            !has_part(output, "CONFLICT"@) && !has_part(output, "could not apply"@) && !has_part(
                unicode_lowered(output),
                "resolve all conflicts"@,
            )
        }),
    ensures
        failed_rebase_turn(path, new_base, first.push('\n') + rest, h, at) == ServiceTurn::<
            Seq<char>,
        >::Failed(ServiceErrorModel::InvalidRepository("Rebase failed: "@ + first), at),
{
    law_first_line(first, rest);
}

/// A rebase that failed without conflicts tells all of an output of one line.
pub proof fn law_one_line_of_failure_told(
    path: Seq<u8>,
    new_base: Seq<char>,
    output: Seq<char>,
    h: Seq<Reply>,
    at: int,
)
    requires
        !output.contains('\n'),
        !has_part(output, "CONFLICT"@),
        !has_part(output, "could not apply"@),
        !has_part(unicode_lowered(output), "resolve all conflicts"@),
    ensures
        failed_rebase_turn(path, new_base, output, h, at) == ServiceTurn::<Seq<char>>::Failed(
            ServiceErrorModel::InvalidRepository("Rebase failed: "@ + output),
            at,
        ),
{
    law_last_line(output);
    if output.len() == 0 {
        assert(output =~= seq![]);
    }
}

/// A fetch whose command fails fails as the command did.
pub proof fn law_failed_fetch_passed_on(
    repo: Seq<u8>,
    remote: RemoteInfo,
    refspec: Seq<char>,
    h: Seq<Reply>,
    at: int,
    dir: RawText,
    e: CliErrorModel,
    n: int,
)
    requires
        0 <= at < h.len(),
        remote.url is Some,
        h[at] == Reply::Bytes(Ok::<RawText, GitError>(dir)),
        fetch_turn(dir@, remote.url->0@, refspec, h, at + 1) == CliTurn::<()>::Failed(e, n),
    ensures
        fetch_from_turn(repo, remote, refspec, h, at) == ServiceTurn::<()>::Failed(
            ServiceErrorModel::GitCLI(e),
            n,
        ),
{
}

/// Aborting a rebase by the service does what the command does.
pub proof fn law_rebase_aborted_by_service(path: Seq<u8>, h: Seq<Reply>, at: int)
    ensures
        follows(service_abort_rebase_turn(path, h, at), abort_rebase_turn(path, h, at)),
{
}

/// The files with conflicts that the service tells are those that the command tells.
pub proof fn law_conflicts_told_by_service(path: Seq<u8>, h: Seq<Reply>, at: int)
    ensures
        conflicted_files_turn(path, h, at) matches Turn::Done(files, n) ==> service_conflicts_turn(
            path,
            h,
            at,
        ) == ServiceTurn::Done(files, n),
        conflicted_files_turn(path, h, at) matches Turn::Ask(q) ==> service_conflicts_turn(
            path,
            h,
            at,
        ) == ServiceTurn::<Seq<Seq<char>>>::Ask(q),
        conflicted_files_turn(path, h, at) is Failed ==> service_conflicts_turn(path, h, at)
            is Failed,
{
}

/// The branch that HEAD names is the one of where HEAD is told to be.
pub proof fn law_current_branch_named(
    path: Seq<u8>,
    h: Seq<Reply>,
    at: int,
    head: HeadModel,
    n: int,
)
    requires
        head_info_turn(path, h, at) == ServiceTurn::Done(head, n),
    ensures
        current_branch_turn(path, h, at) == Turn::<Seq<char>, GitErrorModel>::Done(head.branch, n),
{
}

} // verus!
