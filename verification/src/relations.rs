//! How operations relate to one another, and to what was done.
use vstd::prelude::*;

use crate::branches::{branch_commit_turn, branch_status_turn, find_branch_turn, peel_turn};
use crate::cli::{plain_command, CliTurn};
use crate::commands::{
    has_staged_changes_turn, merge_base_turn, merge_squash_turn, rebase_in_progress_turn,
    rebase_onto_turn, update_ref_turn,
};
use crate::comparing::{
    branch_diffs_turn, branch_tree_turn, commit_diffs_turn, get_diffs_turn, tree_diff,
    tree_diffs_turn, TargetModel,
};
use crate::dialogue::{and_then, explained, settled, Reply, RequestModel, Turn};
use crate::diff::{
    content_turn, converted_turn, counts_at, delta_turn, file_diffs_turn, oversize_turn,
    read_file_turn, side_turn, DiffModel,
};
use crate::errors::{CliErrorModel, GitError, ServiceErrorModel};
use crate::merging::{
    law_merged_branches_meet, merge_changes_turn, merge_checked_out_turn, merge_commits_turn,
    merge_references_turn, squash_update, task_update,
};
use crate::oid::{law_oid_text_round_trip, oid_of_text, text_of_oid, Oid};
use crate::raw::utf8;
use crate::rebasing::{believed, rebase_branch_turn, rebase_checked_turn, rebased_turn};
use crate::records::{
    BranchInfo, BranchType, CommitInfo, DeltaFile, DeltaRecord, DiffRecord, LineCounts, RunReport,
};
use crate::remotes::fetch_branch_turn;
use crate::safety::merge_status_turn;
use crate::service::{ensure_identity_turn, open_turn, ServiceTurn};
use crate::text::{trimmed, utf8_lossy};
use crate::worktrees::{
    check_clean_turn, checkout_path_turn, head_info_turn, reconcile_turn, reset_turn, HeadModel,
    WorktreeResetOptions, WorktreeResetOutcome,
};

verus! {

// ---------------------------------------------------------------------------
// Diffs of branches and of commits
// ---------------------------------------------------------------------------

/// How an operation stands that stands at `t`, where its record starts `d` replies later.
pub open spec fn moved<A, E>(t: Turn<A, E>, d: int) -> Turn<A, E> {
    match t {
        Turn::Done(a, n) => Turn::Done(a, n + d),
        Turn::Failed(e, n) => Turn::Failed(e, n + d),
        Turn::Ask(q) => Turn::Ask(q),
        Turn::OutOfStep => Turn::OutOfStep,
    }
}

/// Whether `g` holds from position `p + d` on what `h` holds from position `p` on.
pub open spec fn holds_later(h: Seq<Reply>, g: Seq<Reply>, p: int, d: int) -> bool {
    &&& 0 <= p
    &&& 0 <= p + d
    &&& g.len() == h.len() + d
    &&& forall|k: int| p <= k < h.len() ==> g[k + d] == #[trigger] h[k]
}

/// Whether an operation from position `p` on reads on, and stands at `u` where its record starts `d`
/// replies later.
pub open spec fn moves<A, E>(t: Turn<A, E>, u: Turn<A, E>, p: int, d: int) -> bool {
    &&& u == moved(t, d)
    &&& t matches Turn::Done(_, n) ==> p <= n
}

proof fn lemma_read_file_moves(
    repo: Seq<u8>,
    path: Seq<u8>,
    h: Seq<Reply>,
    g: Seq<Reply>,
    p: int,
    d: int,
)
    requires
        holds_later(h, g, p, d),
    ensures
        moves(read_file_turn(repo, path, h, p), read_file_turn(repo, path, g, p + d), p, d),
{
}

proof fn lemma_content_moves(
    repo: Seq<u8>,
    path: Seq<u8>,
    id: Seq<u8>,
    h: Seq<Reply>,
    g: Seq<Reply>,
    p: int,
    d: int,
)
    requires
        holds_later(h, g, p, d),
    ensures
        moves(content_turn(repo, path, id, h, p), content_turn(repo, path, id, g, p + d), p, d),
{
    lemma_read_file_moves(repo, path, h, g, p, d);
    lemma_read_file_moves(repo, path, h, g, p + 1, d);
}

proof fn lemma_side_moves(
    repo: Seq<u8>,
    absent: bool,
    omitted: bool,
    file: DeltaFile,
    h: Seq<Reply>,
    g: Seq<Reply>,
    p: int,
    d: int,
)
    requires
        holds_later(h, g, p, d),
    ensures
        moves(
            side_turn(repo, absent, omitted, file, h, p),
            side_turn(repo, absent, omitted, file, g, p + d),
            p,
            d,
        ),
{
    if file.path is Some {
        lemma_content_moves(repo, file.path->0@, file.id@, h, g, p, d);
    }
}

proof fn lemma_delta_moves(
    repo: Seq<u8>,
    delta: DeltaRecord,
    counts: Option<LineCounts>,
    h: Seq<Reply>,
    g: Seq<Reply>,
    p: int,
    d: int,
)
    requires
        holds_later(h, g, p, d),
    ensures
        moves(delta_turn(repo, delta, counts, h, p), delta_turn(repo, delta, counts, g, p + d), p, d),
{
    let added = delta.status is Added;
    let deleted = delta.status is Deleted;
    if let Turn::Done(old_over, n1) = oversize_turn(repo, added, delta.old_file.id@, h, p) {
        if let Turn::Done(new_over, n2) = oversize_turn(repo, deleted, delta.new_file.id@, h, n1) {
            let omitted = old_over || new_over;
            lemma_side_moves(repo, added, omitted, delta.old_file, h, g, n2, d);
            if let Turn::Done(_, n3) = side_turn(repo, added, omitted, delta.old_file, h, n2) {
                lemma_side_moves(repo, deleted, omitted, delta.new_file, h, g, n3, d);
            }
        }
    }
}

proof fn lemma_file_diffs_move(
    repo: Seq<u8>,
    deltas: Seq<DeltaRecord>,
    stats: Seq<Option<LineCounts>>,
    i: int,
    done: Seq<DiffModel>,
    h: Seq<Reply>,
    g: Seq<Reply>,
    p: int,
    d: int,
)
    requires
        holds_later(h, g, p, d),
    ensures
        file_diffs_turn(repo, deltas, stats, i, done, g, p + d) == moved(
            file_diffs_turn(repo, deltas, stats, i, done, h, p),
            d,
        ),
    decreases deltas.len() - i,
{
    if 0 <= i < deltas.len() {
        if deltas[i].status is Unreadable {
            lemma_file_diffs_move(repo, deltas, stats, i + 1, done, h, g, p, d);
        } else {
            let counts = counts_at(stats, done.len() as int);
            lemma_delta_moves(repo, deltas[i], counts, h, g, p, d);
            if let Turn::Done(m, n) = delta_turn(repo, deltas[i], counts, h, p) {
                lemma_file_diffs_move(repo, deltas, stats, i + 1, done.push(m), h, g, n, d);
            }
        }
    }
}

proof fn lemma_tree_diffs_move(
    repo: Seq<u8>,
    old_tree: Seq<u8>,
    new_tree: Seq<u8>,
    filter: Option<Seq<Seq<char>>>,
    h: Seq<Reply>,
    g: Seq<Reply>,
    p: int,
    d: int,
)
    requires
        holds_later(h, g, p, d),
    ensures
        tree_diffs_turn(repo, old_tree, new_tree, filter, g, p + d) == moved(
            tree_diffs_turn(repo, old_tree, new_tree, filter, h, p),
            d,
        ),
{
    assert forall|diff: DiffRecord|
        p + 1 <= h.len() implies #[trigger] converted_turn(repo, diff, g, p + d + 1) == moved(
        converted_turn(repo, diff, h, p + 1),
        d,
    ) by {
        lemma_file_diffs_move(
            repo,
            diff.deltas@,
            diff.line_stats@,
            0,
            Seq::<DiffModel>::empty(),
            h,
            g,
            p + 1,
            d,
        );
    }
}

proof fn lemma_branch_trees(
    path: Seq<u8>,
    branch: Seq<char>,
    base: Seq<char>,
    filter: Option<Seq<Seq<char>>>,
    h: Seq<Reply>,
    n1: int,
    n2: int,
    commit: Oid,
    parent: Oid,
    old_tree: Oid,
    new_tree: Oid,
)
    requires
        h.len() > 0,
        h[0] == Reply::Unit(Ok::<(), GitError>(())),
        branch_commit_turn(path, base, h, 1) == ServiceTurn::Done(parent, n1),
        n1 < h.len(),
        h[n1] == Reply::Id(Ok::<Oid, GitError>(old_tree)),
        branch_commit_turn(path, branch, h, n1 + 1) == ServiceTurn::Done(commit, n2),
        n2 < h.len(),
        h[n2] == Reply::Id(Ok::<Oid, GitError>(new_tree)),
    ensures
        branch_diffs_turn(path, branch, base, filter, h, 0) == tree_diffs_turn(
            path,
            old_tree@,
            new_tree@,
            filter,
            h,
            n2 + 1,
        ),
        n2 >= 6,
{
    assert(n1 >= 3);
    assert(branch_tree_turn(path, base, h, 1) == ServiceTurn::Done(old_tree, n1 + 1));
    assert(branch_tree_turn(path, branch, h, n1 + 1) == ServiceTurn::Done(new_tree, n2 + 1));
}

proof fn lemma_commit_trees(
    path: Seq<u8>,
    sha: Seq<char>,
    filter: Option<Seq<Seq<char>>>,
    g: Seq<Reply>,
    commit: Oid,
    parent: Oid,
    info: CommitInfo,
    old_tree: Oid,
    new_tree: Oid,
)
    requires
        oid_of_text(sha) == Some(commit@),
        g.len() >= 5,
        g[0] == Reply::Unit(Ok::<(), GitError>(())),
        g[1] == Reply::Commit(Ok::<CommitInfo, GitError>(info)),
        g[2] == Reply::Id(Ok::<Oid, GitError>(parent)),
        g[3] == Reply::Id(Ok::<Oid, GitError>(old_tree)),
        g[4] == Reply::Id(Ok::<Oid, GitError>(new_tree)),
    ensures
        commit_diffs_turn(path, sha, filter, g, 0) == tree_diffs_turn(
            path,
            old_tree@,
            new_tree@,
            filter,
            g,
            5,
        ),
{
}

proof fn lemma_same_rest(h: Seq<Reply>, p: int, g: Seq<Reply>, q: int)
    requires
        0 <= p <= h.len(),
        0 <= q <= g.len(),
        g.skip(q) == h.skip(p),
    ensures
        holds_later(h, g, p, q - p),
{
    assert(g.skip(q).len() == g.len() - q);
    assert(h.skip(p).len() == h.len() - p);
    assert forall|k: int| p <= k < h.len() implies g[k + (q - p)] == #[trigger] h[k] by {
        let j = k - p;
        assert(h.skip(p)[j] == h[p + j]);
        assert(g.skip(q)[j] == g[q + j]);
        assert(q + j == k + (q - p));
    }
}

/// The diff of a commit is the diff of a branch that leads to it against a branch that leads to its
/// first parent, under the same filter. `h` is the record of the branch diff, in which both branches
/// were found to lead to these commits and these to have their trees; `g` is that of the commit diff
/// in the same repository: the same parent, the same trees, and from there on the same replies.
pub proof fn law_commit_diff_is_branch_diff(
    dirs: Seq<Seq<char>>,
    path: Seq<u8>,
    branch: Seq<char>,
    base: Seq<char>,
    sha: Seq<char>,
    filter: Option<Seq<Seq<char>>>,
    h: Seq<Reply>,
    n1: int,
    n2: int,
    g: Seq<Reply>,
    commit: Oid,
    parent: Oid,
    info: CommitInfo,
    old_tree: Oid,
    new_tree: Oid,
)
    requires
        h.len() > 0,
        h[0] == Reply::Unit(Ok::<(), GitError>(())),
        branch_commit_turn(path, base, h, 1) == ServiceTurn::Done(parent, n1),
        n1 < h.len(),
        h[n1] == Reply::Id(Ok::<Oid, GitError>(old_tree)),
        branch_commit_turn(path, branch, h, n1 + 1) == ServiceTurn::Done(commit, n2),
        n2 < h.len(),
        h[n2] == Reply::Id(Ok::<Oid, GitError>(new_tree)),
        oid_of_text(sha) == Some(commit@),
        g.len() >= 5,
        g[0] == Reply::Unit(Ok::<(), GitError>(())),
        g[1] == Reply::Commit(Ok::<CommitInfo, GitError>(info)),
        g[2] == Reply::Id(Ok::<Oid, GitError>(parent)),
        g[3] == Reply::Id(Ok::<Oid, GitError>(old_tree)),
        g[4] == Reply::Id(Ok::<Oid, GitError>(new_tree)),
        g.skip(5) == h.skip(n2 + 1),
    ensures
        get_diffs_turn(dirs, TargetModel::Commit { path, sha }, filter, g, 0) == moved(
            get_diffs_turn(dirs, TargetModel::Branch { path, branch, base }, filter, h, 0),
            4 - n2,
        ),
{
    let d = 4 - n2;
    lemma_branch_trees(path, branch, base, filter, h, n1, n2, commit, parent, old_tree, new_tree);
    lemma_commit_trees(path, sha, filter, g, commit, parent, info, old_tree, new_tree);
    lemma_same_rest(h, n2 + 1, g, 5);
    lemma_tree_diffs_move(path, old_tree@, new_tree@, filter, h, g, n2 + 1, d);
}

/// A branch against itself: its tree is compared with itself, and where nothing differs there are no
/// changes.
pub proof fn law_branch_against_itself(
    dirs: Seq<Seq<char>>,
    path: Seq<u8>,
    branch: Seq<char>,
    filter: Option<Seq<Seq<char>>>,
    h: Seq<Reply>,
    n1: int,
    n2: int,
    commit: Oid,
    tree: Oid,
    diff: DiffRecord,
)
    requires
        h.len() > 0,
        h[0] == Reply::Unit(Ok::<(), GitError>(())),
        branch_commit_turn(path, branch, h, 1) == ServiceTurn::Done(commit, n1),
        n1 < h.len(),
        h[n1] == Reply::Id(Ok::<Oid, GitError>(tree)),
        branch_commit_turn(path, branch, h, n1 + 1) == ServiceTurn::Done(commit, n2),
        n2 < h.len(),
        h[n2] == Reply::Id(Ok::<Oid, GitError>(tree)),
    ensures
        h.len() == n2 + 1 ==> get_diffs_turn(
            dirs,
            TargetModel::Branch { path, branch, base: branch },
            filter,
            h,
            0,
        ) == ServiceTurn::<Seq<DiffModel>>::Ask(
            RequestModel::DiffTrees(path, tree_diff(tree@, tree@, filter)),
        ),
        h.len() > n2 + 1 && h[n2 + 1] == Reply::Deltas(Ok::<DiffRecord, GitError>(diff))
            && diff.deltas@.len() == 0 ==> get_diffs_turn(
            dirs,
            TargetModel::Branch { path, branch, base: branch },
            filter,
            h,
            0,
        ) == ServiceTurn::Done(Seq::<DiffModel>::empty(), n2 + 2),
{
    lemma_branch_trees(path, branch, branch, filter, h, n1, n2, commit, commit, tree, tree);
}

// ---------------------------------------------------------------------------
// Resets
// ---------------------------------------------------------------------------

/// Whether a record tells at position `k` that a command ran to its end and succeeded.
pub open spec fn succeeded_at(h: Seq<Reply>, k: int) -> bool {
    0 <= k < h.len() && (h[k] matches Reply::Ran(RunReport::Ended(end)) && end.code == Some(0i32))
}

/// The request that resets a worktree to a commit.
pub open spec fn reset_request(path: Seq<u8>, sha: Seq<char>) -> RequestModel {
    RequestModel::Run(plain_command(path, seq![utf8("reset"@), utf8("--hard"@), utf8(sha)]))
}

/// Whether a reset asked at position `k` of its record for the command that resets, and the command
/// succeeded.
pub open spec fn reset_at(
    path: Seq<u8>,
    sha: Seq<char>,
    force: bool,
    h: Seq<Reply>,
    at: int,
    k: int,
) -> bool {
    &&& at <= k
    &&& succeeded_at(h, k)
    &&& reset_turn(path, sha, force, h.take(k), at) == ServiceTurn::<()>::Ask(
        reset_request(path, sha),
    )
}

/// A reset that succeeds has run `git reset --hard` with that commit in that worktree, and the
/// command has succeeded.
pub proof fn law_reset_ran(
    path: Seq<u8>,
    sha: Seq<char>,
    force: bool,
    h: Seq<Reply>,
    at: int,
    n: int,
)
    requires
        0 <= at,
        reset_turn(path, sha, force, h, at) == ServiceTurn::Done((), n),
    ensures
        n <= h.len(),
        exists|k: int| k < n && #[trigger] reset_at(path, sha, force, h, at, k),
{
    let k = if force {
        at + 2
    } else {
        at + 3
    };
    assert(reset_at(path, sha, force, h, at, k));
}

/// Bringing a worktree to a commit that was applied has reset the worktree to that commit. Where HEAD
/// is at the commit from then on, as the reset leaves it, doing so again with no uncommitted changes
/// is not needed and does nothing, whatever the options are.
pub proof fn law_reconcile_settles(
    path: Seq<u8>,
    target: Seq<char>,
    options: WorktreeResetOptions,
    h: Seq<Reply>,
    at: int,
    n: int,
    again: WorktreeResetOptions,
    g: Seq<Reply>,
    head: HeadModel,
    m: int,
)
    requires
        0 <= at,
        reconcile_turn(path, target, options, h, at) == ServiceTurn::Done(
            WorktreeResetOutcome { needed: true, applied: true },
            n,
        ),
        (exists|from: int, k: int| #[trigger]
            reset_at(path, target, options.force_when_dirty, h, from, k)) ==> head_info_turn(
            path,
            g,
            0,
        ) == ServiceTurn::Done(head, m) && head.oid == target,
        !again.is_dirty,
    ensures
        exists|from: int, k: int| #[trigger]
            reset_at(path, target, options.force_when_dirty, h, from, k),
        reconcile_turn(path, target, again, g, 0) == ServiceTurn::Done(
            WorktreeResetOutcome { needed: false, applied: false },
            m,
        ),
{
    if let Turn::Done(_, from) = settled::<_, _, ServiceErrorModel>(head_info_turn(path, h, at)) {
        assert(from >= at);
        assert(reset_turn(path, target, options.force_when_dirty, h, from) is Done);
        law_reset_ran(path, target, options.force_when_dirty, h, from, n);
        let k = choose|k: int|
            k < n && #[trigger] reset_at(path, target, options.force_when_dirty, h, from, k);
        assert(reset_at(path, target, options.force_when_dirty, h, from, k));
    }
}

// ---------------------------------------------------------------------------
// Merges
// ---------------------------------------------------------------------------

/// Where a merge finds its base branch checked out, once its checks have passed.
pub open spec fn merge_place_turn(
    base_path: Seq<u8>,
    task_path: Seq<u8>,
    task: Seq<char>,
    base: Seq<char>,
    h: Seq<Reply>,
    at: int,
) -> ServiceTurn<Option<Seq<u8>>> {
    and_then(
        merge_status_turn(base_path, task_path, task, base, h, at),
        |status: (int, int), n: int| checkout_path_turn(base_path, base, h, n),
    )
}

/// A merge where the base branch is checked out.
#[verifier::opaque]
spec fn checked_out_turn(
    base_path: Seq<u8>,
    checkout: Seq<u8>,
    task: Seq<char>,
    base: Seq<char>,
    message: Seq<char>,
    h: Seq<Reply>,
    at: int,
) -> ServiceTurn<Seq<char>> {
    merge_checked_out_turn(base_path, checkout, task, base, message, h, at)
}

/// A merge.
#[verifier::opaque]
spec fn merge_turn(
    base_path: Seq<u8>,
    task_path: Seq<u8>,
    task: Seq<char>,
    base: Seq<char>,
    message: Seq<char>,
    h: Seq<Reply>,
    at: int,
) -> ServiceTurn<Seq<char>> {
    merge_changes_turn(base_path, task_path, task, base, message, h, at)
}

/// Where a merge finds its base branch checked out.
#[verifier::opaque]
spec fn place_turn(
    base_path: Seq<u8>,
    task_path: Seq<u8>,
    task: Seq<char>,
    base: Seq<char>,
    h: Seq<Reply>,
    at: int,
) -> ServiceTurn<Option<Seq<u8>>> {
    merge_place_turn(base_path, task_path, task, base, h, at)
}

/// What a merge does from where its base branch was looked for.
spec fn merge_at_turn(
    place: Option<Seq<u8>>,
    base_path: Seq<u8>,
    task_path: Seq<u8>,
    task: Seq<char>,
    base: Seq<char>,
    message: Seq<char>,
    h: Seq<Reply>,
    at: int,
) -> ServiceTurn<Seq<char>> {
    match place {
        Some(path) => checked_out_turn(base_path, path, task, base, message, h, at),
        None => merge_references_turn(base_path, task_path, task, base, message, h, at),
    }
}

proof fn lemma_status_within(
    path: Seq<u8>,
    name: Seq<char>,
    base: Seq<char>,
    h: Seq<Reply>,
    k: int,
    at: int,
)
    requires
        0 <= k <= h.len(),
    ensures
        within(
            branch_status_turn(path, name, base, h, at),
            branch_status_turn(path, name, base, h.take(k), at),
            k,
        ),
        branch_status_turn(path, name, base, h, at) matches Turn::Done(_, n) ==> at < n,
{
}

proof fn lemma_checkout_within(path: Seq<u8>, branch: Seq<char>, h: Seq<Reply>, k: int, at: int)
    requires
        0 <= k <= h.len(),
    ensures
        within(
            checkout_path_turn(path, branch, h, at),
            checkout_path_turn(path, branch, h.take(k), at),
            k,
        ),
        checkout_path_turn(path, branch, h, at) matches Turn::Done(_, n) ==> at < n,
{
}

proof fn lemma_merge_at(
    base_path: Seq<u8>,
    task_path: Seq<u8>,
    task: Seq<char>,
    base: Seq<char>,
    message: Seq<char>,
    h: Seq<Reply>,
    k: int,
    at: int,
    place: Option<Seq<u8>>,
    m: int,
)
    requires
        0 <= at,
        m <= k <= h.len(),
        merge_turn(base_path, task_path, task, base, message, h, at) is Done,
        place_turn(base_path, task_path, task, base, h, at) == ServiceTurn::Done(place, m),
    ensures
        at < m,
        merge_turn(base_path, task_path, task, base, message, h.take(k), at)
            == merge_at_turn(place, base_path, task_path, task, base, message, h.take(k), m),
{
    reveal(merge_turn);
    reveal(place_turn);
    reveal(checked_out_turn);
    if let Turn::Done(_, n1) = open_turn(task_path, h, at) {
        if let Turn::Done(_, n2) = open_turn(base_path, h, n1) {
            lemma_status_within(base_path, task, base, h, k, n2);
            if let Turn::Done(status, n3) = branch_status_turn(base_path, task, base, h, n2) {
                lemma_checkout_within(base_path, base, h, k, n3);
            }
        }
    }
}

/// The requests of a squash merge in a checkout, in order: check out the base branch, merge the task
/// branch without committing, commit, and read where HEAD is.
pub open spec fn squash_requests(
    dir: Seq<u8>,
    base: Seq<char>,
    from: Seq<char>,
    message: Seq<char>,
) -> Seq<RequestModel> {
    seq![
        RequestModel::Run(plain_command(dir, seq![utf8("checkout"@), utf8(base)])),
        RequestModel::Run(
            plain_command(
                dir,
                seq![utf8("merge"@), utf8("--squash"@), utf8("--no-commit"@), utf8(from)],
            ),
        ),
        RequestModel::Run(plain_command(dir, seq![utf8("commit"@), utf8("-m"@), utf8(message)])),
        RequestModel::Run(plain_command(dir, seq![utf8("rev-parse"@), utf8("HEAD"@)])),
    ]
}

/// Whether a record tells at position `k` that a command printed a text, but for white space around
/// it.
pub open spec fn printed_at(h: Seq<Reply>, k: int, text: Seq<char>) -> bool {
    0 <= k < h.len() && (h[k] matches Reply::Ran(RunReport::Ended(end)) && text == trimmed(
        utf8_lossy(end.stdout@),
    ))
}

proof fn lemma_squash_ran(
    dir: Seq<u8>,
    base: Seq<char>,
    from: Seq<char>,
    message: Seq<char>,
    h: Seq<Reply>,
    at: int,
    sha: Seq<char>,
    n: int,
)
    requires
        0 <= at,
        merge_squash_turn(dir, base, from, message, h, at) == CliTurn::Done(sha, n),
    ensures
        n == at + 8,
        n <= h.len(),
        printed_at(h, at + 7, sha),
        succeeded_at(h, at + 1),
        succeeded_at(h, at + 3),
        succeeded_at(h, at + 5),
        succeeded_at(h, at + 7),
        merge_squash_turn(dir, base, from, message, h.take(at + 1), at) == CliTurn::<
            Seq<char>,
        >::Ask(squash_requests(dir, base, from, message)[0]),
        merge_squash_turn(dir, base, from, message, h.take(at + 3), at) == CliTurn::<
            Seq<char>,
        >::Ask(squash_requests(dir, base, from, message)[1]),
        merge_squash_turn(dir, base, from, message, h.take(at + 5), at) == CliTurn::<
            Seq<char>,
        >::Ask(squash_requests(dir, base, from, message)[2]),
        merge_squash_turn(dir, base, from, message, h.take(at + 7), at) == CliTurn::<
            Seq<char>,
        >::Ask(squash_requests(dir, base, from, message)[3]),
        forall|k: int|
            n <= k <= h.len() ==> merge_squash_turn(
                dir,
                base,
                from,
                message,
                #[trigger] h.take(k),
                at,
            ) == CliTurn::Done(sha, n),
{
}

/// The command of a squash merge.
#[verifier::opaque]
spec fn squash_turn(
    dir: Seq<u8>,
    base: Seq<char>,
    from: Seq<char>,
    message: Seq<char>,
    h: Seq<Reply>,
    at: int,
) -> CliTurn<Seq<char>> {
    merge_squash_turn(dir, base, from, message, h, at)
}

/// What goes before a squash merge in a checkout.
#[verifier::opaque]
spec fn unstaged_turn(checkout: Seq<u8>, base: Seq<char>, h: Seq<Reply>, at: int) -> ServiceTurn<
    (),
> {
    and_then(
        explained(has_staged_changes_turn(checkout, h, at), "git diff --cached failed: "@),
        |staged: bool, n: int|
            if staged {
                Turn::Failed(ServiceErrorModel::WorktreeDirty(base, "staged changes present"@), n)
            } else {
                ensure_identity_turn(checkout, h, n)
            },
    )
}

proof fn lemma_unstaged_within(checkout: Seq<u8>, base: Seq<char>, h: Seq<Reply>, k: int, at: int)
    requires
        0 <= k <= h.len(),
    ensures
        within(unstaged_turn(checkout, base, h, at), unstaged_turn(checkout, base, h.take(k), at), k),
        unstaged_turn(checkout, base, h, at) matches Turn::Done(_, n) ==> at < n,
{
    reveal(unstaged_turn);
    if let Turn::Done(_, n) = has_staged_changes_turn(checkout, h, at) {
        lemma_identity_within(checkout, h, k, n);
    }
}

/// What follows a squash merge in a checkout.
spec fn follow_turn(
    base_path: Seq<u8>,
    task: Seq<char>,
    squashed: CliTurn<Seq<char>>,
    h: Seq<Reply>,
) -> ServiceTurn<Seq<char>> {
    and_then(
        explained(squashed, "CLI merge failed: "@),
        |sha: Seq<char>, n: int|
            and_then(
                explained(
                    update_ref_turn(base_path, "refs/heads/"@ + task, sha, h, n),
                    "git update-ref failed: "@,
                ),
                |u: (), n: int| Turn::Done(sha, n),
            ),
    )
}

proof fn lemma_checked_out_parts(
    base_path: Seq<u8>,
    checkout: Seq<u8>,
    task: Seq<char>,
    base: Seq<char>,
    message: Seq<char>,
    h: Seq<Reply>,
    at: int,
)
    ensures
        merge_checked_out_turn(base_path, checkout, task, base, message, h, at) == and_then(
            unstaged_turn(checkout, base, h, at),
            |u: (), n: int|
                follow_turn(base_path, task, squash_turn(checkout, base, task, message, h, n), h),
        ),
{
    reveal(unstaged_turn);
    reveal(squash_turn);
}

/// The request that lets a branch point at a commit.
pub open spec fn branch_request(dir: Seq<u8>, branch: Seq<char>, sha: Seq<char>) -> RequestModel {
    RequestModel::Run(
        plain_command(dir, seq![utf8("update-ref"@), utf8("refs/heads/"@ + branch), utf8(sha)]),
    )
}

proof fn lemma_follow_ran(
    base_path: Seq<u8>,
    task: Seq<char>,
    squashed: CliTurn<Seq<char>>,
    h: Seq<Reply>,
    sha: Seq<char>,
    n: int,
)
    requires
        squashed matches Turn::Done(_, m) ==> 0 <= m,
        follow_turn(base_path, task, squashed, h) == ServiceTurn::Done(sha, n),
    ensures
        squashed == CliTurn::Done(sha, n - 2),
        0 <= n - 2 && n <= h.len(),
        succeeded_at(h, n - 1),
        follow_turn(base_path, task, squashed, h.take(n - 1)) == ServiceTurn::<Seq<char>>::Ask(
            branch_request(base_path, task, sha),
        ),
{
}

proof fn lemma_squash_turn_ran(
    dir: Seq<u8>,
    base: Seq<char>,
    from: Seq<char>,
    message: Seq<char>,
    h: Seq<Reply>,
    at: int,
    sha: Seq<char>,
    n: int,
)
    requires
        0 <= at,
        squash_turn(dir, base, from, message, h, at) == CliTurn::Done(sha, n),
    ensures
        n == at + 8,
        n <= h.len(),
        printed_at(h, n - 1, sha),
        forall|i: int|
            0 <= i < 4 ==> succeeded_at(h, n - 7 + 2 * i) && squash_turn(
                dir,
                base,
                from,
                message,
                h.take(n - 7 + 2 * i),
                at,
            ) == CliTurn::<Seq<char>>::Ask(#[trigger] squash_requests(dir, base, from, message)[i]),
        forall|k: int|
            n <= k <= h.len() ==> squash_turn(dir, base, from, message, #[trigger] h.take(k), at)
                == CliTurn::Done(sha, n),
{
    reveal(squash_turn);
    lemma_squash_ran(dir, base, from, message, h, at, sha, n);
    let requests = squash_requests(dir, base, from, message);
    assert forall|i: int| 0 <= i < 4 implies succeeded_at(h, n - 7 + 2 * i) && squash_turn(
        dir,
        base,
        from,
        message,
        h.take(n - 7 + 2 * i),
        at,
    ) == CliTurn::<Seq<char>>::Ask(#[trigger] requests[i]) by {
        assert(i == 0 || i == 1 || i == 2 || i == 3);
    }
}

proof fn lemma_checked_out_at(
    base_path: Seq<u8>,
    checkout: Seq<u8>,
    task: Seq<char>,
    base: Seq<char>,
    message: Seq<char>,
    h: Seq<Reply>,
    k: int,
    at: int,
    m: int,
)
    requires
        0 <= at,
        m <= k <= h.len(),
        unstaged_turn(checkout, base, h, at) == ServiceTurn::Done((), m),
    ensures
        at < m,
        checked_out_turn(base_path, checkout, task, base, message, h.take(k), at) == follow_turn(
            base_path,
            task,
            squash_turn(checkout, base, task, message, h.take(k), m),
            h.take(k),
        ),
{
    reveal(checked_out_turn);
    lemma_unstaged_within(checkout, base, h, 0, at);
    lemma_unstaged_within(checkout, base, h, k, at);
    lemma_checked_out_parts(base_path, checkout, task, base, message, h.take(k), at);
}

proof fn lemma_checked_out_start(
    base_path: Seq<u8>,
    checkout: Seq<u8>,
    task: Seq<char>,
    base: Seq<char>,
    message: Seq<char>,
    h: Seq<Reply>,
    at: int,
) -> (m: int)
    requires
        0 <= at,
        checked_out_turn(base_path, checkout, task, base, message, h, at) is Done,
    ensures
        at < m,
        unstaged_turn(checkout, base, h, at) == ServiceTurn::Done((), m),
        checked_out_turn(base_path, checkout, task, base, message, h, at) == follow_turn(
            base_path,
            task,
            squash_turn(checkout, base, task, message, h, m),
            h,
        ),
{
    reveal(checked_out_turn);
    lemma_checked_out_parts(base_path, checkout, task, base, message, h, at);
    lemma_unstaged_within(checkout, base, h, 0, at);
    match unstaged_turn(checkout, base, h, at) {
        Turn::Done(_, m) => m,
        _ => 0,
    }
}

proof fn lemma_follow_asks(
    base_path: Seq<u8>,
    task: Seq<char>,
    q: RequestModel,
    h: Seq<Reply>,
)
    ensures
        follow_turn(base_path, task, CliTurn::<Seq<char>>::Ask(q), h) == ServiceTurn::<
            Seq<char>,
        >::Ask(q),
{
}

proof fn lemma_checked_out_ran(
    base_path: Seq<u8>,
    checkout: Seq<u8>,
    task: Seq<char>,
    base: Seq<char>,
    message: Seq<char>,
    h: Seq<Reply>,
    at: int,
    sha: Seq<char>,
    n: int,
)
    requires
        0 <= at,
        checked_out_turn(base_path, checkout, task, base, message, h, at) == ServiceTurn::Done(
            sha,
            n,
        ),
    ensures
        at + 10 < n <= h.len(),
        succeeded_at(h, n - 1),
        checked_out_turn(base_path, checkout, task, base, message, h.take(n - 1), at)
            == ServiceTurn::<Seq<char>>::Ask(branch_request(base_path, task, sha)),
        printed_at(h, n - 3, sha),
        forall|i: int|
            0 <= i < 4 ==> succeeded_at(h, n - 9 + 2 * i) && checked_out_turn(
                base_path,
                checkout,
                task,
                base,
                message,
                h.take(n - 9 + 2 * i),
                at,
            ) == ServiceTurn::<Seq<char>>::Ask(
                #[trigger] squash_requests(checkout, base, task, message)[i],
            ),
{
    let m = lemma_checked_out_start(base_path, checkout, task, base, message, h, at);
    let squashed = squash_turn(checkout, base, task, message, h, m);
    if let Turn::Done(s, e) = squashed {
        lemma_squash_turn_ran(checkout, base, task, message, h, m, s, e);
    }
    lemma_follow_ran(base_path, task, squashed, h, sha, n);
    lemma_checked_out_at(base_path, checkout, task, base, message, h, n - 1, at, m);
    let requests = squash_requests(checkout, base, task, message);
    assert forall|i: int| 0 <= i < 4 implies succeeded_at(h, n - 9 + 2 * i) && checked_out_turn(
        base_path,
        checkout,
        task,
        base,
        message,
        h.take(n - 9 + 2 * i),
        at,
    ) == ServiceTurn::<Seq<char>>::Ask(#[trigger] requests[i]) by {
        let k = n - 9 + 2 * i;
        lemma_checked_out_at(base_path, checkout, task, base, message, h, k, at, m);
        assert(k == (n - 2) - 7 + 2 * i);
        lemma_follow_asks(base_path, task, requests[i], h.take(k));
    }
}

proof fn lemma_merge_in_checkout_ran(
    base_path: Seq<u8>,
    task_path: Seq<u8>,
    task: Seq<char>,
    base: Seq<char>,
    message: Seq<char>,
    h: Seq<Reply>,
    at: int,
    sha: Seq<char>,
    n: int,
    checkout: Seq<u8>,
    m: int,
)
    requires
        0 <= at,
        merge_turn(base_path, task_path, task, base, message, h, at) == ServiceTurn::Done(
            sha,
            n,
        ),
        place_turn(base_path, task_path, task, base, h, at) == ServiceTurn::Done(
            Some(checkout),
            m,
        ),
    ensures
        m + 10 < n <= h.len(),
        succeeded_at(h, n - 1),
        merge_turn(base_path, task_path, task, base, message, h.take(n - 1), at)
            == ServiceTurn::<Seq<char>>::Ask(branch_request(base_path, task, sha)),
        printed_at(h, n - 3, sha),
        forall|i: int|
            0 <= i < 4 ==> succeeded_at(h, n - 9 + 2 * i) && merge_turn(
                base_path,
                task_path,
                task,
                base,
                message,
                h.take(n - 9 + 2 * i),
                at,
            ) == ServiceTurn::<Seq<char>>::Ask(
                #[trigger] squash_requests(checkout, base, task, message)[i],
            ),
{
    let place = Some(checkout);
    lemma_merge_ends_within(base_path, task_path, task, base, message, h, at, place, m);
    lemma_checked_out_ran(base_path, checkout, task, base, message, h, m, sha, n);
    lemma_merge_at(base_path, task_path, task, base, message, h, n - 1, at, place, m);
    let requests = squash_requests(checkout, base, task, message);
    assert forall|i: int| 0 <= i < 4 implies succeeded_at(h, n - 9 + 2 * i) && merge_turn(
        base_path,
        task_path,
        task,
        base,
        message,
        h.take(n - 9 + 2 * i),
        at,
    ) == ServiceTurn::<Seq<char>>::Ask(#[trigger] requests[i]) by {
        lemma_merge_at(base_path, task_path, task, base, message, h, n - 9 + 2 * i, at, place, m);
    }
}

/// A merge that succeeds where the base branch is checked out has carried out a squash merge there,
/// commit and all: the id that is returned is what HEAD was then read to be. Last it has let the task
/// branch point at that commit. Every one of these commands has succeeded.
pub proof fn law_merge_in_checkout_ran(
    base_path: Seq<u8>,
    task_path: Seq<u8>,
    task: Seq<char>,
    base: Seq<char>,
    message: Seq<char>,
    h: Seq<Reply>,
    at: int,
    sha: Seq<char>,
    n: int,
    checkout: Seq<u8>,
    m: int,
)
    requires
        0 <= at,
        merge_changes_turn(base_path, task_path, task, base, message, h, at) == ServiceTurn::Done(
            sha,
            n,
        ),
        merge_place_turn(base_path, task_path, task, base, h, at) == ServiceTurn::Done(
            Some(checkout),
            m,
        ),
    ensures
        m + 10 < n <= h.len(),
        succeeded_at(h, n - 1),
        merge_changes_turn(base_path, task_path, task, base, message, h.take(n - 1), at)
            == ServiceTurn::<Seq<char>>::Ask(branch_request(base_path, task, sha)),
        printed_at(h, n - 3, sha),
        forall|i: int|
            0 <= i < 4 ==> succeeded_at(h, n - 9 + 2 * i) && merge_changes_turn(
                base_path,
                task_path,
                task,
                base,
                message,
                h.take(n - 9 + 2 * i),
                at,
            ) == ServiceTurn::<Seq<char>>::Ask(
                #[trigger] squash_requests(checkout, base, task, message)[i],
            ),
{
    reveal(merge_turn);
    reveal(place_turn);
    lemma_merge_in_checkout_ran(
        base_path,
        task_path,
        task,
        base,
        message,
        h,
        at,
        sha,
        n,
        checkout,
        m,
    );
}

proof fn lemma_merge_ends_within(
    base_path: Seq<u8>,
    task_path: Seq<u8>,
    task: Seq<char>,
    base: Seq<char>,
    message: Seq<char>,
    h: Seq<Reply>,
    at: int,
    place: Option<Seq<u8>>,
    m: int,
)
    requires
        0 <= at,
        merge_turn(base_path, task_path, task, base, message, h, at) is Done,
        place_turn(base_path, task_path, task, base, h, at) == ServiceTurn::Done(place, m),
    ensures
        at < m <= h.len(),
        merge_turn(base_path, task_path, task, base, message, h, at) == merge_at_turn(
            place,
            base_path,
            task_path,
            task,
            base,
            message,
            h,
            m,
        ),
{
    reveal(merge_turn);
    reveal(place_turn);
    reveal(checked_out_turn);
    assert(h.take(h.len() as int) =~= h);
    assert(m <= h.len()) by {
        if let Turn::Done(_, n1) = open_turn(task_path, h, at) {
            if let Turn::Done(_, n2) = open_turn(base_path, h, n1) {
                lemma_status_within(base_path, task, base, h, 0, n2);
                if let Turn::Done(status, n3) = branch_status_turn(base_path, task, base, h, n2) {
                    assert(checkout_path_turn(base_path, base, h, n3) matches Turn::Done(_, e)
                        ==> e <= h.len());
                }
            }
        }
    }
    lemma_merge_at(
        base_path,
        task_path,
        task,
        base,
        message,
        h,
        h.len() as int,
        at,
        place,
        m,
    );
}

/// The commits that a merge by references merges.
pub open spec fn merge_commits_found_turn(
    task_path: Seq<u8>,
    task: Seq<char>,
    base: Seq<char>,
    h: Seq<Reply>,
    at: int,
) -> ServiceTurn<(Oid, Oid)> {
    and_then(
        find_branch_turn(task_path, task, h, at),
        |task_branch: (BranchType, BranchInfo), n: int|
            and_then(
                find_branch_turn(task_path, base, h, n),
                |base_branch: (BranchType, BranchInfo), n: int|
                    and_then(
                        peel_turn(task_path, base, base_branch.0, h, n),
                        |base_commit: Oid, n: int|
                            and_then(
                                peel_turn(task_path, task, task_branch.0, h, n),
                                |task_commit: Oid, n: int|
                                    Turn::Done((base_commit, task_commit), n),
                            ),
                    ),
            ),
    )
}

proof fn lemma_references_parts(
    base_path: Seq<u8>,
    task_path: Seq<u8>,
    task: Seq<char>,
    base: Seq<char>,
    message: Seq<char>,
    h: Seq<Reply>,
    at: int,
)
    ensures
        merge_references_turn(base_path, task_path, task, base, message, h, at) == and_then(
            merge_commits_found_turn(task_path, task, base, h, at),
            |c: (Oid, Oid), n: int|
                merge_commits_turn(base_path, task_path, task, base, message, c.0@, c.1@, h, n),
        ),
{
}

proof fn lemma_commits_found_within(
    task_path: Seq<u8>,
    task: Seq<char>,
    base: Seq<char>,
    h: Seq<Reply>,
    k: int,
    at: int,
)
    requires
        0 <= k <= h.len(),
    ensures
        within(
            merge_commits_found_turn(task_path, task, base, h, at),
            merge_commits_found_turn(task_path, task, base, h.take(k), at),
            k,
        ),
        merge_commits_found_turn(task_path, task, base, h, at) matches Turn::Done(_, n) ==> at < n,
{
}

proof fn lemma_merge_by_references_ran(
    base_path: Seq<u8>,
    task_path: Seq<u8>,
    task: Seq<char>,
    base: Seq<char>,
    message: Seq<char>,
    h: Seq<Reply>,
    at: int,
    sha: Seq<char>,
    n: int,
    m: int,
    commits: (Oid, Oid),
    e: int,
)
    requires
        0 <= at,
        merge_turn(base_path, task_path, task, base, message, h, at) == ServiceTurn::Done(
            sha,
            n,
        ),
        place_turn(base_path, task_path, task, base, h, at) == ServiceTurn::Done(
            None::<Seq<u8>>,
            m,
        ),
        merge_commits_found_turn(task_path, task, base, h, m) == ServiceTurn::Done(commits, e),
    ensures
        e + 3 <= n <= h.len(),
        h[n - 1] == Reply::Unit(Ok::<(), GitError>(())),
        h[n - 2] == Reply::Unit(Ok::<(), GitError>(())),
        h[n - 3] matches Reply::Id(Ok(made)) && {
            &&& sha == text_of_oid(made@)
            &&& merge_turn(base_path, task_path, task, base, message, h.take(n - 1), at)
                == ServiceTurn::<Seq<char>>::Ask(
                RequestModel::UpdateReference(base_path, task_update(task, made@)),
            )
            &&& merge_turn(base_path, task_path, task, base, message, h.take(n - 2), at)
                == ServiceTurn::<Seq<char>>::Ask(
                RequestModel::UpdateReference(task_path, squash_update(base, made@)),
            )
        },
        merge_turn(base_path, task_path, task, base, message, h.take(n - 3), at)
            matches Turn::Ask(RequestModel::CreateCommit(repo, commit)) && repo == task_path
            && commit.parents == seq![commits.0@] && commit.message == message && commit.update_ref
            is None,
{
    let place: Option<Seq<u8>> = None;
    lemma_merge_ends_within(base_path, task_path, task, base, message, h, at, place, m);
    lemma_references_parts(base_path, task_path, task, base, message, h, m);
    lemma_commits_found_within(task_path, task, base, h, 0, m);
    law_merged_branches_meet(
        base_path,
        task_path,
        task,
        base,
        message,
        commits.0@,
        commits.1@,
        h,
        e,
        sha,
        n,
    );
    lemma_commits_end(base_path, task_path, task, base, message, commits.0@, commits.1@, h, e);
    assert forall|k: int| n - 3 <= k <= h.len() implies merge_turn(
        base_path,
        task_path,
        task,
        base,
        message,
        #[trigger] h.take(k),
        at,
    ) == merge_commits_turn(
        base_path,
        task_path,
        task,
        base,
        message,
        commits.0@,
        commits.1@,
        h.take(k),
        e,
    ) by {
        lemma_merge_at(base_path, task_path, task, base, message, h, k, at, place, m);
        lemma_references_parts(base_path, task_path, task, base, message, h.take(k), m);
        lemma_commits_found_within(task_path, task, base, h, k, m);
    }
}

/// A merge that succeeds where the base branch is not checked out ends with three requests, which
/// succeed: for a commit with the message of the merge, whose only parent is the commit that the base
/// branch led to; for the base branch to point at it; and for the task branch to point at it. The id
/// of that commit is returned.
pub proof fn law_merge_by_references_ran(
    base_path: Seq<u8>,
    task_path: Seq<u8>,
    task: Seq<char>,
    base: Seq<char>,
    message: Seq<char>,
    h: Seq<Reply>,
    at: int,
    sha: Seq<char>,
    n: int,
    m: int,
    commits: (Oid, Oid),
    e: int,
)
    requires
        0 <= at,
        merge_changes_turn(base_path, task_path, task, base, message, h, at) == ServiceTurn::Done(
            sha,
            n,
        ),
        merge_place_turn(base_path, task_path, task, base, h, at) == ServiceTurn::Done(
            None::<Seq<u8>>,
            m,
        ),
        merge_commits_found_turn(task_path, task, base, h, m) == ServiceTurn::Done(commits, e),
    ensures
        e + 3 <= n <= h.len(),
        h[n - 1] == Reply::Unit(Ok::<(), GitError>(())),
        h[n - 2] == Reply::Unit(Ok::<(), GitError>(())),
        h[n - 3] matches Reply::Id(Ok(made)) && {
            &&& sha == text_of_oid(made@)
            &&& merge_changes_turn(base_path, task_path, task, base, message, h.take(n - 1), at)
                == ServiceTurn::<Seq<char>>::Ask(
                RequestModel::UpdateReference(base_path, task_update(task, made@)),
            )
            &&& merge_changes_turn(base_path, task_path, task, base, message, h.take(n - 2), at)
                == ServiceTurn::<Seq<char>>::Ask(
                RequestModel::UpdateReference(task_path, squash_update(base, made@)),
            )
        },
        merge_changes_turn(base_path, task_path, task, base, message, h.take(n - 3), at)
            matches Turn::Ask(RequestModel::CreateCommit(repo, commit)) && repo == task_path
            && commit.parents == seq![commits.0@] && commit.message == message && commit.update_ref
            is None,
{
    reveal(merge_turn);
    reveal(place_turn);
    lemma_merge_by_references_ran(
        base_path,
        task_path,
        task,
        base,
        message,
        h,
        at,
        sha,
        n,
        m,
        commits,
        e,
    );
}

proof fn lemma_commits_end(
    base_path: Seq<u8>,
    task_path: Seq<u8>,
    task: Seq<char>,
    base: Seq<char>,
    message: Seq<char>,
    base_commit: Seq<u8>,
    task_commit: Seq<u8>,
    h: Seq<Reply>,
    at: int,
)
    requires
        0 <= at,
    ensures
        merge_commits_turn(
            base_path,
            task_path,
            task,
            base,
            message,
            base_commit,
            task_commit,
            h,
            at,
        ) matches Turn::Done(_, n) ==> {
            &&& n >= at + 2
            &&& h[n - 1] == Reply::Unit(Ok::<(), GitError>(()))
            &&& h[n - 2] == Reply::Unit(Ok::<(), GitError>(()))
        },
{
}

/// Two branches that are found at the commit of one id, as a merge leaves them, are compared as one
/// commit with itself: neither is ahead where no commit is ahead of itself.
pub proof fn law_merged_branches_even(
    path: Seq<u8>,
    task: Seq<char>,
    base: Seq<char>,
    sha: Seq<char>,
    g: Seq<Reply>,
    task_branch: (BranchType, BranchInfo),
    base_branch: (BranchType, BranchInfo),
    x: Oid,
    y: Oid,
    n1: int,
    n2: int,
)
    requires
        g.len() > 0,
        g[0] == Reply::Unit(Ok::<(), GitError>(())),
        find_branch_turn(path, task, g, 1) == ServiceTurn::Done(task_branch, n1),
        find_branch_turn(path, base, g, n1) == ServiceTurn::Done(base_branch, n2),
        task_branch.1.target == Some(x),
        base_branch.1.target == Some(y),
        text_of_oid(x@) == sha,
        text_of_oid(y@) == sha,
    ensures
        x@ == y@,
        g.len() == n2 ==> branch_status_turn(path, task, base, g, 0) == ServiceTurn::<
            (int, int),
        >::Ask(RequestModel::AheadBehind(path, x@, x@)),
        g.len() > n2 && g[n2] == Reply::Counts(Ok::<(usize, usize), GitError>((0, 0)))
            ==> branch_status_turn(path, task, base, g, 0) == ServiceTurn::Done((0int, 0int), n2 + 1),
{
    law_oid_text_round_trip(x@);
    law_oid_text_round_trip(y@);
}

// ---------------------------------------------------------------------------
// Rebases
// ---------------------------------------------------------------------------

/// Whether an operation that came to a value within `k` replies comes to it with those replies alone.
pub open spec fn within<A, E>(t: Turn<A, E>, u: Turn<A, E>, k: int) -> bool {
    t matches Turn::Done(_, n) ==> n <= k ==> u == t
}

pub(crate) proof fn lemma_clean_within(path: Seq<u8>, h: Seq<Reply>, k: int, at: int)
    requires
        0 <= k <= h.len(),
    ensures
        within(check_clean_turn(path, h, at), check_clean_turn(path, h.take(k), at), k),
        check_clean_turn(path, h, at) matches Turn::Done(_, n) ==> at < n,
{
}

proof fn lemma_in_progress_within(path: Seq<u8>, h: Seq<Reply>, k: int, at: int)
    requires
        0 <= k <= h.len(),
    ensures
        within(
            settled::<_, _, CliErrorModel>(rebase_in_progress_turn(path, h, at)),
            settled::<_, _, CliErrorModel>(rebase_in_progress_turn(path, h.take(k), at)),
            k,
        ),
        settled::<_, _, CliErrorModel>(rebase_in_progress_turn(path, h, at)) matches Turn::Done(_, n)
            ==> at < n,
{
}

proof fn lemma_merge_base_within(
    path: Seq<u8>,
    a: Seq<char>,
    b: Seq<char>,
    h: Seq<Reply>,
    k: int,
    at: int,
)
    requires
        0 <= k <= h.len(),
    ensures
        within(
            settled::<_, _, CliErrorModel>(merge_base_turn(path, a, b, h, at)),
            settled::<_, _, CliErrorModel>(merge_base_turn(path, a, b, h.take(k), at)),
            k,
        ),
        settled::<_, _, CliErrorModel>(merge_base_turn(path, a, b, h, at)) matches Turn::Done(_, n)
            ==> at < n,
{
}

pub(crate) proof fn lemma_identity_within(path: Seq<u8>, h: Seq<Reply>, k: int, at: int)
    requires
        0 <= k <= h.len(),
    ensures
        within(ensure_identity_turn(path, h, at), ensure_identity_turn(path, h.take(k), at), k),
        ensure_identity_turn(path, h, at) matches Turn::Done(_, n) ==> at < n,
{
}

proof fn lemma_find_within(repo: Seq<u8>, name: Seq<char>, h: Seq<Reply>, k: int, at: int)
    requires
        0 <= k <= h.len(),
    ensures
        within(find_branch_turn(repo, name, h, at), find_branch_turn(repo, name, h.take(k), at), k),
        find_branch_turn(repo, name, h, at) matches Turn::Done(_, n) ==> at < n,
{
}

proof fn lemma_fetch_within(repo: Seq<u8>, branch: BranchInfo, h: Seq<Reply>, k: int, at: int)
    requires
        0 <= k <= h.len(),
    ensures
        within(
            fetch_branch_turn(repo, branch, h, at),
            fetch_branch_turn(repo, branch, h.take(k), at),
            k,
        ),
        fetch_branch_turn(repo, branch, h, at) matches Turn::Done(_, n) ==> at < n,
{
}

/// The request that rebases a branch from one base onto another.
pub open spec fn rebase_request(
    path: Seq<u8>,
    new_base: Seq<char>,
    from: Seq<char>,
    task: Seq<char>,
) -> RequestModel {
    RequestModel::Run(
        plain_command(
            path,
            seq![utf8("rebase"@), utf8("--onto"@), utf8(new_base), utf8(from), utf8(task)],
        ),
    )
}

proof fn lemma_rebase_onto_ran(
    path: Seq<u8>,
    new_base: Seq<char>,
    old_base: Seq<char>,
    task: Seq<char>,
    h: Seq<Reply>,
    at: int,
    n: int,
)
    requires
        0 <= at,
        rebase_onto_turn(path, new_base, old_base, task, h, at) == Turn::<(), CliErrorModel>::Done(
            (),
            n,
        ),
    ensures
        at < n <= h.len(),
        succeeded_at(h, n - 1),
        rebase_onto_turn(path, new_base, old_base, task, h.take(n), at) == Turn::<
            (),
            CliErrorModel,
        >::Done((), n),
        exists|from: Seq<char>|
            rebase_onto_turn(path, new_base, old_base, task, h.take(n - 1), at) == Turn::<
                (),
                CliErrorModel,
            >::Ask(#[trigger] rebase_request(path, new_base, from, task)),
{
    if let Turn::Done(_, n1) = settled::<_, _, CliErrorModel>(rebase_in_progress_turn(path, h, at)) {
        if let Turn::Done(found, n2) = settled::<_, _, CliErrorModel>(
            merge_base_turn(path, old_base, task, h, n1),
        ) {
            lemma_in_progress_within(path, h, n, at);
            lemma_in_progress_within(path, h, n - 1, at);
            lemma_merge_base_within(path, old_base, task, h, n, n1);
            lemma_merge_base_within(path, old_base, task, h, n - 1, n1);
            let from = match found {
                Ok(b) => b,
                Err(_) => old_base,
            };
            assert(n == n2 + 2);
            assert(rebase_onto_turn(path, new_base, old_base, task, h.take(n - 1), at) == Turn::<
                (),
                CliErrorModel,
            >::Ask(rebase_request(path, new_base, from, task)));
        }
    }
}

/// The command of a rebase, and what it asks before.
#[verifier::opaque]
spec fn onto_turn(
    path: Seq<u8>,
    new_base: Seq<char>,
    old_base: Seq<char>,
    task: Seq<char>,
    h: Seq<Reply>,
    at: int,
) -> CliTurn<()> {
    rebase_onto_turn(path, new_base, old_base, task, h, at)
}

proof fn lemma_onto_ran(
    path: Seq<u8>,
    new_base: Seq<char>,
    old_base: Seq<char>,
    task: Seq<char>,
    h: Seq<Reply>,
    at: int,
    n: int,
)
    requires
        0 <= at,
        onto_turn(path, new_base, old_base, task, h, at) == CliTurn::Done((), n),
    ensures
        at < n <= h.len(),
        succeeded_at(h, n - 1),
        onto_turn(path, new_base, old_base, task, h.take(n), at) == CliTurn::Done((), n),
        exists|from: Seq<char>|
            onto_turn(path, new_base, old_base, task, h.take(n - 1), at) == CliTurn::<()>::Ask(
                #[trigger] rebase_request(path, new_base, from, task),
            ),
{
    reveal(onto_turn);
    lemma_rebase_onto_ran(path, new_base, old_base, task, h, at, n);
}

/// A rebase from where all is ready for the command.
spec fn ready_turn(
    path: Seq<u8>,
    new_base: Seq<char>,
    old_base: Seq<char>,
    task: Seq<char>,
    h: Seq<Reply>,
    at: int,
) -> ServiceTurn<Seq<char>> {
    and_then(
        settled(onto_turn(path, new_base, old_base, task, h, at)),
        |result: Result<(), CliErrorModel>, n: int| rebased_turn(path, new_base, result, h, n),
    )
}

/// What goes before the command of a rebase.
spec fn prepared_turn(
    repo: Seq<u8>,
    path: Seq<u8>,
    new_base: Seq<char>,
    h: Seq<Reply>,
    at: int,
) -> ServiceTurn<()> {
    and_then(
        find_branch_turn(repo, new_base, h, at),
        |base: (BranchType, BranchInfo), n: int|
            and_then(
                if base.1.is_remote {
                    fetch_branch_turn(repo, base.1, h, n)
                } else {
                    Turn::Done((), n)
                },
                |u: (), n: int| ensure_identity_turn(path, h, n),
            ),
    )
}

proof fn lemma_prepared_within(
    repo: Seq<u8>,
    path: Seq<u8>,
    new_base: Seq<char>,
    h: Seq<Reply>,
    k: int,
    at: int,
)
    requires
        0 <= k <= h.len(),
    ensures
        within(
            prepared_turn(repo, path, new_base, h, at),
            prepared_turn(repo, path, new_base, h.take(k), at),
            k,
        ),
        prepared_turn(repo, path, new_base, h, at) matches Turn::Done(_, n) ==> at < n,
{
    lemma_find_within(repo, new_base, h, k, at);
    if let Turn::Done(base, n1) = find_branch_turn(repo, new_base, h, at) {
        lemma_fetch_within(repo, base.1, h, k, n1);
        let fetched: ServiceTurn<()> = if base.1.is_remote {
            fetch_branch_turn(repo, base.1, h, n1)
        } else {
            Turn::Done((), n1)
        };
        if let Turn::Done(_, n2) = fetched {
            lemma_identity_within(path, h, k, n2);
        }
    }
}

proof fn lemma_checked_parts(
    repo: Seq<u8>,
    path: Seq<u8>,
    new_base: Seq<char>,
    old_base: Seq<char>,
    task: Seq<char>,
    h: Seq<Reply>,
    at: int,
)
    ensures
        rebase_checked_turn(repo, path, new_base, old_base, task, h, at) == and_then(
            prepared_turn(repo, path, new_base, h, at),
            |u: (), n: int| ready_turn(path, new_base, old_base, task, h, n),
        ),
{
    reveal(onto_turn);
}

proof fn lemma_rebased_done(
    path: Seq<u8>,
    new_base: Seq<char>,
    result: Result<(), CliErrorModel>,
    h: Seq<Reply>,
    at: int,
)
    ensures
        rebased_turn(path, new_base, result, h, at) matches Turn::Done(sha, n) ==> {
            &&& result is Ok
            &&& n == at + 1
            &&& n <= h.len()
            &&& h[at] matches Reply::Id(Ok(id)) && sha == text_of_oid(id@)
        },
        result is Ok && 0 <= at <= h.len() ==> rebased_turn(
            path,
            new_base,
            result,
            h.take(at),
            at,
        ) == ServiceTurn::<Seq<char>>::Ask(RequestModel::HeadCommit(path)),
{
}

proof fn lemma_ready_ran(
    path: Seq<u8>,
    new_base: Seq<char>,
    old_base: Seq<char>,
    task: Seq<char>,
    h: Seq<Reply>,
    at: int,
    sha: Seq<char>,
    n: int,
)
    requires
        0 <= at,
        ready_turn(path, new_base, old_base, task, h, at) == ServiceTurn::Done(sha, n),
    ensures
        at + 2 <= n <= h.len(),
        h[n - 1] matches Reply::Id(Ok(id)) && sha == text_of_oid(id@),
        succeeded_at(h, n - 2),
        ready_turn(path, new_base, old_base, task, h.take(n - 1), at) == ServiceTurn::<
            Seq<char>,
        >::Ask(RequestModel::HeadCommit(path)),
        exists|from: Seq<char>|
            ready_turn(path, new_base, old_base, task, h.take(n - 2), at) == ServiceTurn::<
                Seq<char>,
            >::Ask(#[trigger] rebase_request(path, new_base, from, task)),
{
    let ran = onto_turn(path, new_base, old_base, task, h, at);
    match ran {
        Turn::Done(_, m) => {
            lemma_rebased_done(path, new_base, Ok(()), h, m);
        },
        Turn::Failed(e, m) => {
            lemma_rebased_done(path, new_base, Err(e), h, m);
        },
        _ => {},
    }
    lemma_onto_ran(path, new_base, old_base, task, h, at, n - 1);
    let from = choose|from: Seq<char>|
        onto_turn(path, new_base, old_base, task, h.take(n - 2), at) == CliTurn::<
            (),
        >::Ask(#[trigger] rebase_request(path, new_base, from, task));
    assert(ready_turn(path, new_base, old_base, task, h.take(n - 2), at) == ServiceTurn::<
        Seq<char>,
    >::Ask(rebase_request(path, new_base, from, task)));
}

proof fn lemma_rebase_checked_ran(
    repo: Seq<u8>,
    path: Seq<u8>,
    new_base: Seq<char>,
    old_base: Seq<char>,
    task: Seq<char>,
    h: Seq<Reply>,
    at: int,
    sha: Seq<char>,
    n: int,
)
    requires
        0 <= at,
        rebase_checked_turn(repo, path, new_base, old_base, task, h, at) == ServiceTurn::Done(
            sha,
            n,
        ),
    ensures
        at + 2 <= n <= h.len(),
        h[n - 1] matches Reply::Id(Ok(id)) && sha == text_of_oid(id@),
        succeeded_at(h, n - 2),
        rebase_checked_turn(repo, path, new_base, old_base, task, h.take(n - 1), at)
            == ServiceTurn::<Seq<char>>::Ask(RequestModel::HeadCommit(path)),
        exists|from: Seq<char>|
            rebase_checked_turn(repo, path, new_base, old_base, task, h.take(n - 2), at)
                == ServiceTurn::<Seq<char>>::Ask(
                #[trigger] rebase_request(path, new_base, from, task),
            ),
{
    lemma_checked_parts(repo, path, new_base, old_base, task, h, at);
    lemma_prepared_within(repo, path, new_base, h, 0, at);
    if let Turn::Done(_, m) = prepared_turn(repo, path, new_base, h, at) {
        lemma_ready_ran(path, new_base, old_base, task, h, m, sha, n);
        lemma_prepared_within(repo, path, new_base, h, n - 1, at);
        lemma_prepared_within(repo, path, new_base, h, n - 2, at);
        lemma_checked_parts(repo, path, new_base, old_base, task, h.take(n - 1), at);
        lemma_checked_parts(repo, path, new_base, old_base, task, h.take(n - 2), at);
        let from = choose|from: Seq<char>|
            ready_turn(path, new_base, old_base, task, h.take(n - 2), m) == ServiceTurn::<
                Seq<char>,
            >::Ask(#[trigger] rebase_request(path, new_base, from, task));
        assert(rebase_checked_turn(repo, path, new_base, old_base, task, h.take(n - 2), at)
            == ServiceTurn::<Seq<char>>::Ask(rebase_request(path, new_base, from, task)));
    }
}

/// A rebase that succeeds ends with two requests: for the command that rebases the task branch onto
/// the new base, which succeeds; and for the commit that HEAD of the worktree is then at, whose id is
/// returned.
pub proof fn law_rebase_ran(
    repo: Seq<u8>,
    path: Seq<u8>,
    new_base: Seq<char>,
    old_base: Seq<char>,
    task: Seq<char>,
    h: Seq<Reply>,
    at: int,
    sha: Seq<char>,
    n: int,
)
    requires
        0 <= at,
        rebase_branch_turn(repo, path, new_base, old_base, task, h, at) == ServiceTurn::Done(sha, n),
    ensures
        at + 2 <= n <= h.len(),
        h[n - 1] matches Reply::Id(Ok(id)) && sha == text_of_oid(id@),
        succeeded_at(h, n - 2),
        rebase_branch_turn(repo, path, new_base, old_base, task, h.take(n - 1), at)
            == ServiceTurn::<Seq<char>>::Ask(RequestModel::HeadCommit(path)),
        exists|from: Seq<char>|
            rebase_branch_turn(repo, path, new_base, old_base, task, h.take(n - 2), at)
                == ServiceTurn::<Seq<char>>::Ask(
                #[trigger] rebase_request(path, new_base, from, task),
            ),
{
    if let Turn::Done(_, n1) = open_turn(path, h, at) {
        if let Turn::Done(_, n2) = open_turn(repo, h, n1) {
            if let Turn::Done(_, n3) = check_clean_turn(path, h, n2) {
                lemma_clean_within(path, h, 0, n2);
                if let Turn::Done(_, n4) = believed(rebase_in_progress_turn(path, h, n3)) {
                    lemma_in_progress_within(path, h, 0, n3);
                    lemma_rebase_checked_ran(repo, path, new_base, old_base, task, h, n4, sha, n);
                    lemma_clean_within(path, h, n - 1, n2);
                    lemma_clean_within(path, h, n - 2, n2);
                    lemma_in_progress_within(path, h, n - 1, n3);
                    lemma_in_progress_within(path, h, n - 2, n3);
                    let from = choose|from: Seq<char>|
                        rebase_checked_turn(repo, path, new_base, old_base, task, h.take(n - 2), n4)
                            == ServiceTurn::<Seq<char>>::Ask(
                            #[trigger] rebase_request(path, new_base, from, task),
                        );
                    assert(rebase_branch_turn(
                        repo,
                        path,
                        new_base,
                        old_base,
                        task,
                        h.take(n - 2),
                        at,
                    ) == ServiceTurn::<Seq<char>>::Ask(rebase_request(path, new_base, from, task)));
                }
            }
        }
    }
}

} // verus!
