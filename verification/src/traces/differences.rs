//! What comparisons ask, and what they come to.
use vstd::prelude::*;

use crate::branches::branch_commit_turn;
use crate::cli::CliTurn;
use crate::commands::{diff_status_turn, staging_input, touched_paths, zero_ended};
use crate::comparing::{get_diffs_turn, TargetModel};
use crate::dialogue::{CommandModel, Reply, RequestModel, TreeDiffModel, Turn};
use crate::diff::{converted_turn, status_diffs_turn, DiffModel};
use crate::errors::{GitError, ServiceErrorModel};
use crate::model::Model;
use crate::oid::{oid_of_text, text_of_oid, Oid};
use crate::porcelain::{excludes_of, StatusDiffModel, StatusEntryModel};
use crate::printed::{
    is_line_for, is_printable, law_lines_read_back, law_name_status_lines_read_back,
    law_status_read_back, printed_status, text_of_lines,
};
use crate::raw::{utf8, RawText};
use crate::records::{ChangedPaths, CommitInfo, DiffRecord, RunEnd, RunReport, VersionReport};
use crate::service::ServiceTurn;
use crate::stats::{commit_changes_turn, CommitModel};
use crate::text::utf8_lossy;
use crate::traces::{ended_well, leaves_out, lemma_left_out, lemma_limited, limits_to};

verus! {

/// A diff of a branch compares the tree of its base branch with its own, limited to the paths of
/// the filter, with type changes and with a search for renames; what comes back is shown.
pub proof fn law_branch_compared(
    dirs: Seq<Seq<char>>,
    path: Seq<u8>,
    branch: Seq<char>,
    base: Seq<char>,
    filter: Option<Seq<Seq<char>>>,
    x: Oid,
    p: int,
    y: Oid,
    q: int,
    a: Oid,
    b: Oid,
    diff: DiffRecord,
    h: Seq<Reply>,
    at: int,
    k: int,
    e: GitError,
)
    requires
        0 <= at <= q <= h.len(),
        h[at] == Reply::Unit(Ok::<(), GitError>(())),
        branch_commit_turn(path, base, h, at + 1) == ServiceTurn::Done(x, p),
        at < p < h.len(),
        h[p] == Reply::Id(Ok::<Oid, GitError>(a)),
        branch_commit_turn(path, branch, h, p + 1) == ServiceTurn::Done(y, q),
        p < q,
        h.len() > q
            ==> h[q] == if k == 0 {
                Reply::Id(Err::<Oid, GitError>(e))
            } else {
                Reply::Id(Ok::<Oid, GitError>(b))
            },
        h.len() > q + 1
            ==> h[q + 1] == if k == 1 {
                Reply::Deltas(Err::<DiffRecord, GitError>(e))
            } else {
                Reply::Deltas(Ok::<DiffRecord, GitError>(diff))
            },
    ensures
        h.len() == q
            ==> get_diffs_turn(
                dirs,
                TargetModel::Branch { path, branch, base },
                filter,
                h,
                at,
            ) == ServiceTurn::<Seq<DiffModel>>::Ask(RequestModel::TreeOf(path, y@)),
        h.len() == q + 1 && !(0 <= k < 1)
            ==> get_diffs_turn(dirs, TargetModel::Branch { path, branch, base }, filter, h, at)
                == ServiceTurn::<Seq<DiffModel>>::Ask(
                    RequestModel::DiffTrees(
                        path,
                        TreeDiffModel {
                            old_tree: a@,
                            new_tree: b@,
                            pathspecs: if filter is Some { filter->0 } else { seq![] },
                            typechanges: true,
                            renames: true,
                        },
                    ),
                ),
        (k == 0 || k == 1) && h.len() > q + k
            ==> get_diffs_turn(dirs, TargetModel::Branch { path, branch, base }, filter, h, at)
                == ServiceTurn::<Seq<DiffModel>>::Failed(
                    ServiceErrorModel::Git(e.model()),
                    q + k + 1,
                ),
        h.len() >= q + 2 && !(0 <= k < 2)
            ==> get_diffs_turn(
                dirs,
                TargetModel::Branch { path, branch, base },
                filter,
                h,
                at,
            ) == converted_turn(path, diff, h, q + 2),
{
}

/// The base of a diff of a branch is the tree of the commit that the base branch leads to.
pub proof fn law_base_tree_asked(
    dirs: Seq<Seq<char>>,
    path: Seq<u8>,
    branch: Seq<char>,
    base: Seq<char>,
    filter: Option<Seq<Seq<char>>>,
    x: Oid,
    p: int,
    a: Oid,
    h: Seq<Reply>,
    at: int,
    k: int,
    e: GitError,
)
    requires
        0 <= at <= p <= h.len(),
        h[at] == Reply::Unit(Ok::<(), GitError>(())),
        branch_commit_turn(path, base, h, at + 1) == ServiceTurn::Done(x, p),
        at < p,
        h.len() > p
            ==> h[p] == if k == 0 {
                Reply::Id(Err::<Oid, GitError>(e))
            } else {
                Reply::Id(Ok::<Oid, GitError>(a))
            },
    ensures
        h.len() == p
            ==> get_diffs_turn(
                dirs,
                TargetModel::Branch { path, branch, base },
                filter,
                h,
                at,
            ) == ServiceTurn::<Seq<DiffModel>>::Ask(RequestModel::TreeOf(path, x@)),
        (k == 0) && h.len() > p + k
            ==> get_diffs_turn(dirs, TargetModel::Branch { path, branch, base }, filter, h, at)
                == ServiceTurn::<Seq<DiffModel>>::Failed(
                    ServiceErrorModel::Git(e.model()),
                    p + k + 1,
                ),
{
}

/// A diff of a commit compares the tree of its first parent with its own, limited to the paths of
/// the filter, with type changes and with a search for renames; what comes back is shown.
pub proof fn law_commit_shown(
    dirs: Seq<Seq<char>>,
    path: Seq<u8>,
    sha: Seq<char>,
    filter: Option<Seq<Seq<char>>>,
    info: CommitInfo,
    parent: Oid,
    a: Oid,
    b: Oid,
    diff: DiffRecord,
    h: Seq<Reply>,
    at: int,
    k: int,
    e: GitError,
)
    requires
        0 <= at <= h.len(),
        oid_of_text(sha) is Some,
        h.len() > at
            ==> h[at] == if k == 0 {
                Reply::Unit(Err::<(), GitError>(e))
            } else {
                Reply::Unit(Ok::<(), GitError>(()))
            },
        h.len() > at + 1
            ==> h[at + 1] == if k == 1 {
                Reply::Commit(Err::<CommitInfo, GitError>(e))
            } else {
                Reply::Commit(Ok::<CommitInfo, GitError>(info))
            },
        h.len() > at + 2
            ==> h[at + 2] == if k == 2 {
                Reply::Id(Err::<Oid, GitError>(e))
            } else {
                Reply::Id(Ok::<Oid, GitError>(parent))
            },
        h.len() > at + 3
            ==> h[at + 3] == if k == 3 {
                Reply::Id(Err::<Oid, GitError>(e))
            } else {
                Reply::Id(Ok::<Oid, GitError>(a))
            },
        h.len() > at + 4
            ==> h[at + 4] == if k == 4 {
                Reply::Id(Err::<Oid, GitError>(e))
            } else {
                Reply::Id(Ok::<Oid, GitError>(b))
            },
        h.len() > at + 5
            ==> h[at + 5] == if k == 5 {
                Reply::Deltas(Err::<DiffRecord, GitError>(e))
            } else {
                Reply::Deltas(Ok::<DiffRecord, GitError>(diff))
            },
    ensures
        h.len() == at
            ==> get_diffs_turn(
                dirs,
                TargetModel::Commit { path, sha },
                filter,
                h,
                at,
            ) == ServiceTurn::<Seq<DiffModel>>::Ask(RequestModel::OpenRepo(path)),
        h.len() == at + 1 && !(0 <= k < 1)
            ==> get_diffs_turn(dirs, TargetModel::Commit { path, sha }, filter, h, at)
                == ServiceTurn::<Seq<DiffModel>>::Ask(
                    RequestModel::FindCommit(path, oid_of_text(sha)->0),
                ),
        h.len() == at + 2 && !(0 <= k < 2)
            ==> get_diffs_turn(dirs, TargetModel::Commit { path, sha }, filter, h, at)
                == ServiceTurn::<Seq<DiffModel>>::Ask(
                    RequestModel::ParentOf(path, oid_of_text(sha)->0),
                ),
        h.len() == at + 3 && !(0 <= k < 3)
            ==> get_diffs_turn(
                dirs,
                TargetModel::Commit { path, sha },
                filter,
                h,
                at,
            ) == ServiceTurn::<Seq<DiffModel>>::Ask(RequestModel::TreeOf(path, parent@)),
        h.len() == at + 4 && !(0 <= k < 4)
            ==> get_diffs_turn(dirs, TargetModel::Commit { path, sha }, filter, h, at)
                == ServiceTurn::<Seq<DiffModel>>::Ask(
                    RequestModel::TreeOf(path, oid_of_text(sha)->0),
                ),
        h.len() == at + 5 && !(0 <= k < 5)
            ==> get_diffs_turn(dirs, TargetModel::Commit { path, sha }, filter, h, at)
                == ServiceTurn::<Seq<DiffModel>>::Ask(
                    RequestModel::DiffTrees(
                        path,
                        TreeDiffModel {
                            old_tree: a@,
                            new_tree: b@,
                            pathspecs: if filter is Some { filter->0 } else { seq![] },
                            typechanges: true,
                            renames: true,
                        },
                    ),
                ),
        (k == 0 || k == 1 || k == 3 || k == 4 || k == 5) && h.len() > at + k
            ==> get_diffs_turn(dirs, TargetModel::Commit { path, sha }, filter, h, at)
                == ServiceTurn::<Seq<DiffModel>>::Failed(
                    ServiceErrorModel::Git(e.model()),
                    at + k + 1,
                ),
        (k == 2) && h.len() > at + k
            ==> (
                get_diffs_turn(
                    dirs,
                    TargetModel::Commit { path, sha },
                    filter,
                    h,
                    at,
                ) matches Turn::Failed(_, m)
                    && m == at + k + 1
            ),
        h.len() >= at + 6 && !(0 <= k < 6)
            ==> get_diffs_turn(
                dirs,
                TargetModel::Commit { path, sha },
                filter,
                h,
                at,
            ) == converted_turn(path, diff, h, at + 6),
{
}

/// A diff of a worktree shows the files that differ from the base commit, against the tree of that
/// commit.
pub proof fn law_worktree_shown(
    dirs: Seq<Seq<char>>,
    path: Seq<u8>,
    base: Seq<u8>,
    filter: Option<Seq<Seq<char>>>,
    info: CommitInfo,
    tree: Oid,
    entries: Seq<StatusDiffModel>,
    p: int,
    h: Seq<Reply>,
    at: int,
    k: int,
    e: GitError,
)
    requires
        0 <= at <= h.len(),
        h.len() > at
            ==> h[at] == if k == 0 {
                Reply::Unit(Err::<(), GitError>(e))
            } else {
                Reply::Unit(Ok::<(), GitError>(()))
            },
        h.len() > at + 1
            ==> h[at + 1] == if k == 1 {
                Reply::Commit(Err::<CommitInfo, GitError>(e))
            } else {
                Reply::Commit(Ok::<CommitInfo, GitError>(info))
            },
        h.len() > at + 2
            ==> h[at + 2] == if k == 2 {
                Reply::Id(Err::<Oid, GitError>(e))
            } else {
                Reply::Id(Ok::<Oid, GitError>(tree))
            },
    ensures
        h.len() == at
            ==> get_diffs_turn(
                dirs,
                TargetModel::Worktree { path, base },
                filter,
                h,
                at,
            ) == ServiceTurn::<Seq<DiffModel>>::Ask(RequestModel::OpenRepo(path)),
        h.len() == at + 1 && !(0 <= k < 1)
            ==> get_diffs_turn(
                dirs,
                TargetModel::Worktree { path, base },
                filter,
                h,
                at,
            ) == ServiceTurn::<Seq<DiffModel>>::Ask(RequestModel::FindCommit(path, base)),
        h.len() == at + 2 && !(0 <= k < 2)
            ==> get_diffs_turn(
                dirs,
                TargetModel::Worktree { path, base },
                filter,
                h,
                at,
            ) == ServiceTurn::<Seq<DiffModel>>::Ask(RequestModel::TreeOf(path, base)),
        (k == 0 || k == 1) && h.len() > at + k
            ==> get_diffs_turn(dirs, TargetModel::Worktree { path, base }, filter, h, at)
                == ServiceTurn::<Seq<DiffModel>>::Failed(
                    ServiceErrorModel::Git(e.model()),
                    at + k + 1,
                ),
        (k == 2) && h.len() > at + k
            ==> (
                get_diffs_turn(
                    dirs,
                    TargetModel::Worktree { path, base },
                    filter,
                    h,
                    at,
                ) matches Turn::Failed(_, m)
                    && m == at + k + 1
            ),
        h.len() >= at + 3 && !(0 <= k < 3)
            ==> diff_status_turn(dirs, path, base, filter, h, at + 3) == CliTurn::Done(entries, p)
                ==> get_diffs_turn(
                    dirs,
                    TargetModel::Worktree { path, base },
                    filter,
                    h,
                    at,
                ) == status_diffs_turn(path, tree@, entries, 0, seq![], h, p),
        h.len() >= at + 3 && !(0 <= k < 3)
            ==> (
                diff_status_turn(dirs, path, base, filter, h, at + 3) matches Turn::Ask(q)
                    ==> get_diffs_turn(
                        dirs,
                        TargetModel::Worktree { path, base },
                        filter,
                        h,
                        at,
                    ) == ServiceTurn::<Seq<DiffModel>>::Ask(q)
            ),
{
}

/// Whether some bytes name files for staging: the path of each file that the status tells of,
/// followed by its original path where it has one, and then what leaves out each directory; each of
/// these ends in a zero byte.
pub open spec fn names_files(
    input: Seq<u8>,
    listed: Seq<StatusEntryModel>,
    dirs: Seq<Seq<char>>,
) -> bool
    decreases listed.len() + dirs.len(),
{
    if listed.len() > 0 {
        let front = match listed[0].orig_path {
            Some(p) => listed[0].path.push(0u8) + p.push(0u8),
            None => listed[0].path.push(0u8),
        };
        front.is_prefix_of(input)
            && names_files(input.skip(front.len() as int), listed.skip(1), dirs)
    } else if dirs.len() > 0 {
        let front = utf8(":(glob,exclude)**/"@ + dirs[0] + "/"@).push(0u8);
        front.is_prefix_of(input)
            && names_files(input.skip(front.len() as int), listed, dirs.skip(1))
    } else {
        input.len() == 0
    }
}

proof fn lemma_zero_ended_sum(a: Seq<Seq<u8>>, b: Seq<Seq<u8>>)
    ensures
        zero_ended(a + b) == zero_ended(a) + zero_ended(b),
    decreases b.len(),
{
    if b.len() == 0 {
        assert(a + b =~= a);
        assert(zero_ended(a) + zero_ended(b) =~= zero_ended(a));
    } else {
        assert((a + b).drop_last() =~= a + b.drop_last());
        lemma_zero_ended_sum(a, b.drop_last());
        assert(zero_ended(a + b) =~= zero_ended(a) + zero_ended(b));
    }
}

/// The paths of one file that the status tells of.
spec fn own_paths(e: StatusEntryModel) -> Seq<Seq<u8>> {
    match e.orig_path {
        Some(p) => seq![e.path, p],
        None => seq![e.path],
    }
}

proof fn lemma_touched_first(entries: Seq<StatusEntryModel>)
    requires
        entries.len() > 0,
    ensures
        touched_paths(entries) == own_paths(entries[0]) + touched_paths(entries.skip(1)),
    decreases entries.len(),
{
    let rest = entries.skip(1);
    let last = entries.last();
    if entries.len() == 1 {
        assert(entries.drop_last() =~= Seq::<StatusEntryModel>::empty());
        assert(rest =~= Seq::<StatusEntryModel>::empty());
        assert(touched_paths(entries) =~= own_paths(entries[0]) + touched_paths(rest));
    } else {
        let before = entries.drop_last();
        lemma_touched_first(before);
        assert(before.skip(1) =~= rest.drop_last());
        assert(rest.last() == last);
        assert(touched_paths(entries) =~= own_paths(entries[0]) + touched_paths(rest));
    }
}

proof fn lemma_one_ended(e: StatusEntryModel)
    ensures
        zero_ended(own_paths(e)) == match e.orig_path {
            Some(p) => e.path.push(0u8) + p.push(0u8),
            None => e.path.push(0u8),
        },
{
    let none = Seq::<Seq<u8>>::empty();
    let one = seq![e.path];
    assert(one.drop_last() =~= none);
    reveal_with_fuel(zero_ended, 2);
    assert(zero_ended(one) =~= e.path.push(0u8));
    if let Some(p) = e.orig_path {
        let two = seq![e.path, p];
        assert(two.drop_last() =~= one);
        assert(zero_ended(two) =~= e.path.push(0u8) + p.push(0u8));
    }
}

proof fn lemma_prefix_split(front: Seq<u8>, input: Seq<u8>)
    requires
        front.is_prefix_of(input),
    ensures
        input == front + input.skip(front.len() as int),
{
    assert(input =~= front + input.skip(front.len() as int));
}

proof fn lemma_named_for_staging(
    input: Seq<u8>,
    listed: Seq<StatusEntryModel>,
    dirs: Seq<Seq<char>>,
)
    requires
        names_files(input, listed, dirs),
    ensures
        input == staging_input(dirs, listed),
    decreases listed.len() + dirs.len(),
{
    let none = Seq::<Seq<u8>>::empty();
    let own = excludes_of(dirs);
    if listed.len() > 0 {
        let front = zero_ended(own_paths(listed[0]));
        lemma_one_ended(listed[0]);
        lemma_prefix_split(front, input);
        lemma_named_for_staging(input.skip(front.len() as int), listed.skip(1), dirs);
        lemma_touched_first(listed);
        let rest = touched_paths(listed.skip(1)) + own;
        assert(touched_paths(listed) + own =~= own_paths(listed[0]) + rest);
        lemma_zero_ended_sum(own_paths(listed[0]), rest);
    } else if dirs.len() > 0 {
        let first = utf8(":(glob,exclude)**/"@ + dirs[0] + "/"@);
        let front = first.push(0u8);
        let one = seq![first];
        assert(one.drop_last() =~= none);
        reveal_with_fuel(zero_ended, 2);
        assert(zero_ended(one) =~= front);
        lemma_prefix_split(front, input);
        lemma_named_for_staging(input.skip(front.len() as int), listed, dirs.skip(1));
        let rest = touched_paths(listed) + excludes_of(dirs.skip(1));
        assert(touched_paths(listed) =~= none);
        assert(excludes_of(dirs) =~= one + excludes_of(dirs.skip(1)));
        assert(touched_paths(listed) + own =~= one + rest);
        lemma_zero_ended_sum(one, rest);
    } else {
        assert(touched_paths(listed) + own =~= none);
        assert(input =~= Seq::<u8>::empty());
    }
}

/// What differs between a commit and a worktree is found with a temporary index: it is filled from
/// HEAD, all files that the status tells of are staged in it by their paths, and it is compared
/// with the commit, renames found. What `git diff` prints is what comes back.
pub proof fn law_worktree_compared(
    dirs: Seq<Seq<char>>,
    dir: Seq<u8>,
    base: Seq<u8>,
    filter: Option<Seq<Seq<char>>>,
    index: RawText,
    status: Seq<Seq<u8>>,
    diff: Seq<Seq<u8>>,
    lines: Seq<Seq<char>>,
    letters: Seq<char>,
    scores: Seq<Seq<char>>,
    entries: Seq<StatusDiffModel>,
    listed: Seq<StatusEntryModel>,
    input: Seq<u8>,
    end1: RunEnd,
    end2: RunEnd,
    end3: RunEnd,
    end4: RunEnd,
    h: Seq<Reply>,
    at: int,
    k: int,
    bad: RunEnd,
)
    requires
        0 <= at <= h.len(),
        leaves_out(
            status,
            seq![
                utf8("--no-optional-locks"@),
                utf8("status"@),
                utf8("--porcelain"@),
                utf8("-z"@),
                utf8("--untracked-files=normal"@)
            ],
            dirs,
        ),
        limits_to(
            diff,
            seq![
                utf8("-c"@),
                utf8("core.quotepath=false"@),
                utf8("diff"@),
                utf8("--cached"@),
                utf8("-M"@),
                utf8("--name-status"@),
                utf8(text_of_oid(base))
            ],
            dirs,
            filter,
        ),
        end2.stdout@ == printed_status(listed),
        forall|i: int| 0 <= i < listed.len() ==> is_printable(#[trigger] listed[i]),
        utf8_lossy(end4.stdout@) == text_of_lines(lines),
        lines.len() == entries.len(),
        letters.len() == entries.len(),
        scores.len() == entries.len(),
        forall|i: int|
            0 <= i < entries.len()
                ==> is_line_for(#[trigger] lines[i], letters[i], scores[i], entries[i])
                    && !lines[i].contains('\n'),
        listed.len() > 0,
        names_files(input, listed, dirs),
        ended_well(end1),
        ended_well(end2),
        ended_well(end3),
        ended_well(end4),
        bad.code != Some(0i32),
        k != 0,
        h.len() > at ==> h[at] == Reply::TempIndex(Ok::<RawText, String>(index)),
        h.len() > at + 1
            ==> h[at + 1] == if k == 1 {
                Reply::Version(VersionReport::Missing)
            } else {
                Reply::Version(VersionReport::Ended(true))
            },
        h.len() > at + 2
            ==> h[at + 2] == if k == 2 {
                Reply::Ran(RunReport::Ended(bad))
            } else {
                Reply::Ran(RunReport::Ended(end1))
            },
        h.len() > at + 3
            ==> h[at + 3] == if k == 3 {
                Reply::Version(VersionReport::Missing)
            } else {
                Reply::Version(VersionReport::Ended(true))
            },
        h.len() > at + 4
            ==> h[at + 4] == if k == 4 {
                Reply::Ran(RunReport::Ended(bad))
            } else {
                Reply::Ran(RunReport::Ended(end2))
            },
        h.len() > at + 5
            ==> h[at + 5] == if k == 5 {
                Reply::Version(VersionReport::Missing)
            } else {
                Reply::Version(VersionReport::Ended(true))
            },
        h.len() > at + 6
            ==> h[at + 6] == if k == 6 {
                Reply::Ran(RunReport::Ended(bad))
            } else {
                Reply::Ran(RunReport::Ended(end3))
            },
        h.len() > at + 7
            ==> h[at + 7] == if k == 7 {
                Reply::Version(VersionReport::Missing)
            } else {
                Reply::Version(VersionReport::Ended(true))
            },
        h.len() > at + 8
            ==> h[at + 8] == if k == 8 {
                Reply::Ran(RunReport::Ended(bad))
            } else {
                Reply::Ran(RunReport::Ended(end4))
            },
    ensures
        h.len() == at
            ==> diff_status_turn(
                dirs,
                dir,
                base,
                filter,
                h,
                at,
            ) == CliTurn::<Seq<StatusDiffModel>>::Ask(RequestModel::TempIndex),
        h.len() == at + 1 && !(0 <= k < 1)
            ==> diff_status_turn(
                dirs,
                dir,
                base,
                filter,
                h,
                at,
            ) == CliTurn::<Seq<StatusDiffModel>>::Ask(RequestModel::Version),
        h.len() == at + 2 && !(0 <= k < 2)
            ==> diff_status_turn(dirs, dir, base, filter, h, at)
                == CliTurn::<Seq<StatusDiffModel>>::Ask(
                    RequestModel::Run(
                        CommandModel {
                            dir: dir,
                            args: seq![utf8("read-tree"@), utf8("HEAD"@)],
                            envs: seq![(utf8("GIT_INDEX_FILE"@), index@)],
                            stdin: None,
                        },
                    ),
                ),
        h.len() == at + 3 && !(0 <= k < 3)
            ==> diff_status_turn(
                dirs,
                dir,
                base,
                filter,
                h,
                at,
            ) == CliTurn::<Seq<StatusDiffModel>>::Ask(RequestModel::Version),
        h.len() == at + 4 && !(0 <= k < 4)
            ==> diff_status_turn(dirs, dir, base, filter, h, at)
                == CliTurn::<Seq<StatusDiffModel>>::Ask(
                    RequestModel::Run(
                        CommandModel { dir: dir, args: status, envs: seq![], stdin: None },
                    ),
                ),
        h.len() == at + 5 && !(0 <= k < 5)
            ==> diff_status_turn(
                dirs,
                dir,
                base,
                filter,
                h,
                at,
            ) == CliTurn::<Seq<StatusDiffModel>>::Ask(RequestModel::Version),
        h.len() == at + 6 && !(0 <= k < 6)
            ==> diff_status_turn(dirs, dir, base, filter, h, at)
                == CliTurn::<Seq<StatusDiffModel>>::Ask(
                    RequestModel::Run(
                        CommandModel {
                            dir: dir,
                            args: seq![
                                utf8("add"@),
                                utf8("-A"@),
                                utf8("--pathspec-from-file=-"@),
                                utf8("--pathspec-file-nul"@)
                            ],
                            envs: seq![(utf8("GIT_INDEX_FILE"@), index@)],
                            stdin: Some(input),
                        },
                    ),
                ),
        h.len() == at + 7 && !(0 <= k < 7)
            ==> diff_status_turn(
                dirs,
                dir,
                base,
                filter,
                h,
                at,
            ) == CliTurn::<Seq<StatusDiffModel>>::Ask(RequestModel::Version),
        h.len() == at + 8 && !(0 <= k < 8)
            ==> diff_status_turn(dirs, dir, base, filter, h, at)
                == CliTurn::<Seq<StatusDiffModel>>::Ask(
                    RequestModel::Run(
                        CommandModel {
                            dir: dir,
                            args: diff,
                            envs: seq![(utf8("GIT_INDEX_FILE"@), index@)],
                            stdin: None,
                        },
                    ),
                ),
        (k == 1 || k == 2 || k == 3 || k == 4 || k == 5 || k == 6 || k == 7 || k == 8)
            && h.len() > at + k
            ==> (
                diff_status_turn(dirs, dir, base, filter, h, at) matches Turn::Failed(_, m)
                    && m == at + k + 1
            ),
        h.len() >= at + 9 && !(0 <= k < 9)
            ==> diff_status_turn(
                dirs,
                dir,
                base,
                filter,
                h,
                at,
            ) == CliTurn::<Seq<StatusDiffModel>>::Done(entries, at + 9),
{
    lemma_left_out(
        status,
        seq![
            utf8("--no-optional-locks"@),
            utf8("status"@),
            utf8("--porcelain"@),
            utf8("-z"@),
            utf8("--untracked-files=normal"@)
        ],
        dirs,
    );
    lemma_limited(
        diff,
        seq![
            utf8("-c"@),
            utf8("core.quotepath=false"@),
            utf8("diff"@),
            utf8("--cached"@),
            utf8("-M"@),
            utf8("--name-status"@),
            utf8(text_of_oid(base))
        ],
        dirs,
        filter,
    );
    law_status_read_back(listed);
    law_lines_read_back(lines);
    law_name_status_lines_read_back(lines, letters, scores, entries);
    lemma_named_for_staging(input, listed, dirs);
}

/// Where the status tells of no files, nothing is staged.
pub proof fn law_unchanged_worktree_compared(
    dirs: Seq<Seq<char>>,
    dir: Seq<u8>,
    base: Seq<u8>,
    filter: Option<Seq<Seq<char>>>,
    index: RawText,
    status: Seq<Seq<u8>>,
    diff: Seq<Seq<u8>>,
    lines: Seq<Seq<char>>,
    letters: Seq<char>,
    scores: Seq<Seq<char>>,
    entries: Seq<StatusDiffModel>,
    listed: Seq<StatusEntryModel>,
    end1: RunEnd,
    end2: RunEnd,
    end4: RunEnd,
    h: Seq<Reply>,
    at: int,
    k: int,
    bad: RunEnd,
)
    requires
        0 <= at <= h.len(),
        leaves_out(
            status,
            seq![
                utf8("--no-optional-locks"@),
                utf8("status"@),
                utf8("--porcelain"@),
                utf8("-z"@),
                utf8("--untracked-files=normal"@)
            ],
            dirs,
        ),
        limits_to(
            diff,
            seq![
                utf8("-c"@),
                utf8("core.quotepath=false"@),
                utf8("diff"@),
                utf8("--cached"@),
                utf8("-M"@),
                utf8("--name-status"@),
                utf8(text_of_oid(base))
            ],
            dirs,
            filter,
        ),
        end2.stdout@ == printed_status(listed),
        forall|i: int| 0 <= i < listed.len() ==> is_printable(#[trigger] listed[i]),
        utf8_lossy(end4.stdout@) == text_of_lines(lines),
        lines.len() == entries.len(),
        letters.len() == entries.len(),
        scores.len() == entries.len(),
        forall|i: int|
            0 <= i < entries.len()
                ==> is_line_for(#[trigger] lines[i], letters[i], scores[i], entries[i])
                    && !lines[i].contains('\n'),
        listed.len() == 0,
        ended_well(end1),
        ended_well(end2),
        ended_well(end4),
        bad.code != Some(0i32),
        k != 0,
        h.len() > at ==> h[at] == Reply::TempIndex(Ok::<RawText, String>(index)),
        h.len() > at + 1
            ==> h[at + 1] == if k == 1 {
                Reply::Version(VersionReport::Missing)
            } else {
                Reply::Version(VersionReport::Ended(true))
            },
        h.len() > at + 2
            ==> h[at + 2] == if k == 2 {
                Reply::Ran(RunReport::Ended(bad))
            } else {
                Reply::Ran(RunReport::Ended(end1))
            },
        h.len() > at + 3
            ==> h[at + 3] == if k == 3 {
                Reply::Version(VersionReport::Missing)
            } else {
                Reply::Version(VersionReport::Ended(true))
            },
        h.len() > at + 4
            ==> h[at + 4] == if k == 4 {
                Reply::Ran(RunReport::Ended(bad))
            } else {
                Reply::Ran(RunReport::Ended(end2))
            },
        h.len() > at + 5
            ==> h[at + 5] == if k == 5 {
                Reply::Version(VersionReport::Missing)
            } else {
                Reply::Version(VersionReport::Ended(true))
            },
        h.len() > at + 6
            ==> h[at + 6] == if k == 6 {
                Reply::Ran(RunReport::Ended(bad))
            } else {
                Reply::Ran(RunReport::Ended(end4))
            },
    ensures
        h.len() == at
            ==> diff_status_turn(
                dirs,
                dir,
                base,
                filter,
                h,
                at,
            ) == CliTurn::<Seq<StatusDiffModel>>::Ask(RequestModel::TempIndex),
        h.len() == at + 1 && !(0 <= k < 1)
            ==> diff_status_turn(
                dirs,
                dir,
                base,
                filter,
                h,
                at,
            ) == CliTurn::<Seq<StatusDiffModel>>::Ask(RequestModel::Version),
        h.len() == at + 2 && !(0 <= k < 2)
            ==> diff_status_turn(dirs, dir, base, filter, h, at)
                == CliTurn::<Seq<StatusDiffModel>>::Ask(
                    RequestModel::Run(
                        CommandModel {
                            dir: dir,
                            args: seq![utf8("read-tree"@), utf8("HEAD"@)],
                            envs: seq![(utf8("GIT_INDEX_FILE"@), index@)],
                            stdin: None,
                        },
                    ),
                ),
        h.len() == at + 3 && !(0 <= k < 3)
            ==> diff_status_turn(
                dirs,
                dir,
                base,
                filter,
                h,
                at,
            ) == CliTurn::<Seq<StatusDiffModel>>::Ask(RequestModel::Version),
        h.len() == at + 4 && !(0 <= k < 4)
            ==> diff_status_turn(dirs, dir, base, filter, h, at)
                == CliTurn::<Seq<StatusDiffModel>>::Ask(
                    RequestModel::Run(
                        CommandModel { dir: dir, args: status, envs: seq![], stdin: None },
                    ),
                ),
        h.len() == at + 5 && !(0 <= k < 5)
            ==> diff_status_turn(
                dirs,
                dir,
                base,
                filter,
                h,
                at,
            ) == CliTurn::<Seq<StatusDiffModel>>::Ask(RequestModel::Version),
        h.len() == at + 6 && !(0 <= k < 6)
            ==> diff_status_turn(dirs, dir, base, filter, h, at)
                == CliTurn::<Seq<StatusDiffModel>>::Ask(
                    RequestModel::Run(
                        CommandModel {
                            dir: dir,
                            args: diff,
                            envs: seq![(utf8("GIT_INDEX_FILE"@), index@)],
                            stdin: None,
                        },
                    ),
                ),
        (k == 1 || k == 2 || k == 3 || k == 4 || k == 5 || k == 6) && h.len() > at + k
            ==> (
                diff_status_turn(dirs, dir, base, filter, h, at) matches Turn::Failed(_, m)
                    && m == at + k + 1
            ),
        h.len() >= at + 7 && !(0 <= k < 7)
            ==> diff_status_turn(
                dirs,
                dir,
                base,
                filter,
                h,
                at,
            ) == CliTurn::<Seq<StatusDiffModel>>::Done(entries, at + 7),
{
    lemma_left_out(
        status,
        seq![
            utf8("--no-optional-locks"@),
            utf8("status"@),
            utf8("--porcelain"@),
            utf8("-z"@),
            utf8("--untracked-files=normal"@)
        ],
        dirs,
    );
    lemma_limited(
        diff,
        seq![
            utf8("-c"@),
            utf8("core.quotepath=false"@),
            utf8("diff"@),
            utf8("--cached"@),
            utf8("-M"@),
            utf8("--name-status"@),
            utf8(text_of_oid(base))
        ],
        dirs,
        filter,
    );
    law_status_read_back(listed);
    law_lines_read_back(lines);
    law_name_status_lines_read_back(lines, letters, scores, entries);
}

/// A commit that statistics tell of is found by its id, and so is its tree; it is compared with
/// the tree of its first parent.
pub proof fn law_commit_read(
    repo: Seq<u8>,
    id: Seq<u8>,
    info: CommitInfo,
    tree: Oid,
    parent: Oid,
    parent_tree: Oid,
    changes: Vec<ChangedPaths>,
    h: Seq<Reply>,
    at: int,
    k: int,
    e: GitError,
)
    requires
        0 <= at <= h.len(),
        info.parents > 0,
        h.len() > at
            ==> h[at] == if k == 0 {
                Reply::Commit(Err::<CommitInfo, GitError>(e))
            } else {
                Reply::Commit(Ok::<CommitInfo, GitError>(info))
            },
        h.len() > at + 1
            ==> h[at + 1] == if k == 1 {
                Reply::Id(Err::<Oid, GitError>(e))
            } else {
                Reply::Id(Ok::<Oid, GitError>(tree))
            },
        h.len() > at + 2
            ==> h[at + 2] == if k == 2 {
                Reply::Id(Err::<Oid, GitError>(e))
            } else {
                Reply::Id(Ok::<Oid, GitError>(parent))
            },
        h.len() > at + 3
            ==> h[at + 3] == if k == 3 {
                Reply::Id(Err::<Oid, GitError>(e))
            } else {
                Reply::Id(Ok::<Oid, GitError>(parent_tree))
            },
        h.len() > at + 4
            ==> h[at + 4] == if k == 4 {
                Reply::Paths(Err::<Vec<ChangedPaths>, GitError>(e))
            } else {
                Reply::Paths(Ok::<Vec<ChangedPaths>, GitError>(changes))
            },
    ensures
        h.len() == at
            ==> commit_changes_turn(repo, id, h, at) == ServiceTurn::<CommitModel>::Ask(
                RequestModel::FindCommit(repo, id),
            ),
        h.len() == at + 1 && !(0 <= k < 1)
            ==> commit_changes_turn(repo, id, h, at) == ServiceTurn::<CommitModel>::Ask(
                RequestModel::TreeOf(repo, id),
            ),
        h.len() == at + 2 && !(0 <= k < 2)
            ==> commit_changes_turn(repo, id, h, at) == ServiceTurn::<CommitModel>::Ask(
                RequestModel::ParentOf(repo, id),
            ),
        h.len() == at + 3 && !(0 <= k < 3)
            ==> commit_changes_turn(repo, id, h, at) == ServiceTurn::<CommitModel>::Ask(
                RequestModel::TreeOf(repo, parent@),
            ),
        h.len() == at + 4 && !(0 <= k < 4)
            ==> commit_changes_turn(repo, id, h, at) == ServiceTurn::<CommitModel>::Ask(
                RequestModel::ChangedFiles(repo, Some(parent_tree@), tree@),
            ),
        (k == 0 || k == 1 || k == 2 || k == 3 || k == 4) && h.len() > at + k
            ==> commit_changes_turn(repo, id, h, at) == ServiceTurn::<CommitModel>::Failed(
                ServiceErrorModel::Git(e.model()),
                at + k + 1,
            ),
        h.len() >= at + 5 && !(0 <= k < 5)
            ==> commit_changes_turn(repo, id, h, at) == ServiceTurn::<CommitModel>::Done(
                CommitModel { seconds: info.seconds, now: info.now, changes: changes@ },
                at + 5,
            ),
{
}

/// A commit without parents is compared with no files.
pub proof fn law_first_commit_read(
    repo: Seq<u8>,
    id: Seq<u8>,
    info: CommitInfo,
    tree: Oid,
    changes: Vec<ChangedPaths>,
    h: Seq<Reply>,
    at: int,
    k: int,
    e: GitError,
)
    requires
        0 <= at <= h.len(),
        info.parents == 0,
        h.len() > at
            ==> h[at] == if k == 0 {
                Reply::Commit(Err::<CommitInfo, GitError>(e))
            } else {
                Reply::Commit(Ok::<CommitInfo, GitError>(info))
            },
        h.len() > at + 1
            ==> h[at + 1] == if k == 1 {
                Reply::Id(Err::<Oid, GitError>(e))
            } else {
                Reply::Id(Ok::<Oid, GitError>(tree))
            },
        h.len() > at + 2
            ==> h[at + 2] == if k == 2 {
                Reply::Paths(Err::<Vec<ChangedPaths>, GitError>(e))
            } else {
                Reply::Paths(Ok::<Vec<ChangedPaths>, GitError>(changes))
            },
    ensures
        h.len() == at
            ==> commit_changes_turn(repo, id, h, at) == ServiceTurn::<CommitModel>::Ask(
                RequestModel::FindCommit(repo, id),
            ),
        h.len() == at + 1 && !(0 <= k < 1)
            ==> commit_changes_turn(repo, id, h, at) == ServiceTurn::<CommitModel>::Ask(
                RequestModel::TreeOf(repo, id),
            ),
        h.len() == at + 2 && !(0 <= k < 2)
            ==> commit_changes_turn(repo, id, h, at) == ServiceTurn::<CommitModel>::Ask(
                RequestModel::ChangedFiles(repo, None, tree@),
            ),
        (k == 0 || k == 1 || k == 2) && h.len() > at + k
            ==> commit_changes_turn(repo, id, h, at) == ServiceTurn::<CommitModel>::Failed(
                ServiceErrorModel::Git(e.model()),
                at + k + 1,
            ),
        h.len() >= at + 3 && !(0 <= k < 3)
            ==> commit_changes_turn(repo, id, h, at) == ServiceTurn::<CommitModel>::Done(
                CommitModel { seconds: info.seconds, now: info.now, changes: changes@ },
                at + 3,
            ),
{
}

} // verus!
