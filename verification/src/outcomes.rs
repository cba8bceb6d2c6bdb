//! What later questions find once an operation has succeeded.
use vstd::prelude::*;

use crate::branches::{branch_status_turn, find_branch_turn};
use crate::cli::plain_command;
use crate::commands::push_turn;
use crate::dialogue::{accepted, and_then, passed_on, unit_turn, Reply, RequestModel, Turn};
use crate::errors::{GitError, ServiceErrorModel};
use crate::merging::{merge_changes_turn, squash_update, task_update};
use crate::oid::{law_oid_text_round_trip, oid_of_text, text_of_oid, Oid};
use crate::porcelain::with_filter;
use crate::raw::utf8;
use crate::rebasing::rebase_branch_turn;
use crate::records::{BranchInfo, BranchType, HeadRef, RunReport, VersionReport};
use crate::relations::{
    branch_request, law_merge_by_references_ran, law_merge_in_checkout_ran, law_rebase_ran,
    law_reset_ran, lemma_clean_within, lemma_identity_within, merge_commits_found_turn,
    merge_place_turn, printed_at, rebase_request, reset_at, squash_requests, succeeded_at, within,
};
use crate::remotes::{default_url_turn, push_to_github_turn, tracking_update};
use crate::safety::only_reads;
use crate::service::{commit_all_turn, ensure_identity_turn, open_turn, ServiceTurn};
use crate::worktrees::{
    ahead_behind_ids_turn, check_clean_turn, head_info_turn, is_clean, is_clean_turn,
    law_clean_worktree, reset_turn,
};

verus! {

// ---------------------------------------------------------------------------
// What a record finds
// ---------------------------------------------------------------------------

/// Where two branches of a repository are found to point.
pub open spec fn targets_turn(
    path: Seq<u8>,
    a: Seq<char>,
    b: Seq<char>,
    h: Seq<Reply>,
    at: int,
) -> ServiceTurn<(Option<Oid>, Option<Oid>)> {
    and_then(
        open_turn(path, h, at),
        |u: (), n: int|
            and_then(
                find_branch_turn(path, a, h, n),
                |first: (BranchType, BranchInfo), n: int|
                    and_then(
                        find_branch_turn(path, b, h, n),
                        |second: (BranchType, BranchInfo), n: int|
                            Turn::Done((first.1.target, second.1.target), n),
                    ),
            ),
    )
}

/// Whether a record finds two branches at these commits and counts how far the first commit is ahead
/// of and behind the second.
pub open spec fn finds_counts(
    path: Seq<u8>,
    a: Seq<char>,
    b: Seq<char>,
    x: Oid,
    y: Oid,
    counts: (usize, usize),
    g: Seq<Reply>,
) -> bool {
    match targets_turn(path, a, b, g, 0) {
        Turn::Done(targets, n) => targets == (Some(x), Some(y)) && 0 <= n < g.len() && g[n]
            == Reply::Counts(Ok::<(usize, usize), GitError>(counts)),
        _ => false,
    }
}

/// Whether a record finds HEAD of a repository at the commit of this id.
pub open spec fn finds_head(sha: Seq<char>, g: Seq<Reply>) -> bool {
    g.len() > 1 && g[0] == Reply::Unit(Ok::<(), GitError>(())) && match g[1] {
        Reply::Head(Ok(head)) => head.target is Some && text_of_oid(head.target->0@) == sha,
        _ => false,
    }
}

/// Whether a record finds no change of a tracked file in a worktree.
pub open spec fn finds_clean(g: Seq<Reply>) -> bool {
    g.len() > 1 && g[0] == Reply::Unit(Ok::<(), GitError>(())) && match g[1] {
        Reply::Statuses(Ok(records)) => is_clean(records@),
        _ => false,
    }
}

/// Branches that a record finds at two commits are as far ahead and behind as it counts.
pub proof fn law_status_is_counted(
    path: Seq<u8>,
    a: Seq<char>,
    b: Seq<char>,
    x: Oid,
    y: Oid,
    counts: (usize, usize),
    g: Seq<Reply>,
)
    requires
        finds_counts(path, a, b, x, y, counts, g),
    ensures
        branch_status_turn(path, a, b, g, 0) matches Turn::Done(status, _) && status == (
            counts.0 as int,
            counts.1 as int,
        ),
{
}

proof fn lemma_head_found(path: Seq<u8>, sha: Seq<char>, g: Seq<Reply>)
    requires
        finds_head(sha, g),
    ensures
        head_info_turn(path, g, 0) matches Turn::Done(head, _) && head.oid == sha,
{
}

proof fn lemma_clean_found(path: Seq<u8>, g: Seq<Reply>)
    requires
        finds_clean(g),
    ensures
        is_clean_turn(path, g, 0) == ServiceTurn::Done(true, 2),
{
    if let Reply::Statuses(Ok(records)) = g[1] {
        let head: Result<HeadRef, GitError> = arbitrary();
        law_clean_worktree(path, g.take(2), 0, records, head);
    }
}

// ---------------------------------------------------------------------------
// Resets
// ---------------------------------------------------------------------------

/// After a reset that succeeds, where HEAD is at the commit and no tracked file differs, as
/// `git reset --hard` leaves them, that commit's id is what the head is told to be, and the worktree
/// is told to be clean.
pub proof fn law_reset_leaves_clean(
    path: Seq<u8>,
    sha: Seq<char>,
    force: bool,
    h: Seq<Reply>,
    at: int,
    n: int,
    of_head: Seq<Reply>,
    of_files: Seq<Reply>,
)
    requires
        0 <= at,
        reset_turn(path, sha, force, h, at) == ServiceTurn::Done((), n),
        (exists|k: int| #[trigger] reset_at(path, sha, force, h, at, k)) ==> finds_head(
            sha,
            of_head,
        ) && finds_clean(of_files),
    ensures
        exists|k: int| #[trigger] reset_at(path, sha, force, h, at, k),
        head_info_turn(path, of_head, 0) matches Turn::Done(head, _) && head.oid == sha,
        is_clean_turn(path, of_files, 0) == ServiceTurn::Done(true, 2),
{
    law_reset_ran(path, sha, force, h, at, n);
    let k = choose|k: int| k < n && #[trigger] reset_at(path, sha, force, h, at, k);
    assert(reset_at(path, sha, force, h, at, k));
    lemma_head_found(path, sha, of_head);
    lemma_clean_found(path, of_files);
}

// ---------------------------------------------------------------------------
// Rebases
// ---------------------------------------------------------------------------

/// Whether a rebase that ended after `n` replies has run the command that rebases the task branch onto
/// the new base, and the command has succeeded.
pub open spec fn rebased(
    repo: Seq<u8>,
    path: Seq<u8>,
    new_base: Seq<char>,
    old_base: Seq<char>,
    task: Seq<char>,
    h: Seq<Reply>,
    at: int,
    n: int,
) -> bool {
    &&& at + 2 <= n <= h.len()
    &&& succeeded_at(h, n - 2)
    &&& exists|from: Seq<char>|
        rebase_branch_turn(repo, path, new_base, old_base, task, h.take(n - 2), at)
            == ServiceTurn::<Seq<char>>::Ask(#[trigger] rebase_request(path, new_base, from, task))
}

/// After a rebase that succeeds, where HEAD is at the commit that was returned and the new base's tip
/// is below the task branch, as `git rebase --onto` leaves them, the head is told to be at that
/// commit, and the task branch is told to be no commits behind the new base.
pub proof fn law_rebased_branch_not_behind(
    repo: Seq<u8>,
    path: Seq<u8>,
    new_base: Seq<char>,
    old_base: Seq<char>,
    task: Seq<char>,
    h: Seq<Reply>,
    at: int,
    sha: Seq<char>,
    n: int,
    x: Oid,
    y: Oid,
    ahead: usize,
    of_head: Seq<Reply>,
    of_branches: Seq<Reply>,
)
    requires
        0 <= at,
        rebase_branch_turn(repo, path, new_base, old_base, task, h, at) == ServiceTurn::Done(sha, n),
        rebased(repo, path, new_base, old_base, task, h, at, n) ==> finds_head(sha, of_head)
            && finds_counts(path, task, new_base, x, y, (ahead, 0usize), of_branches),
    ensures
        rebased(repo, path, new_base, old_base, task, h, at, n),
        head_info_turn(path, of_head, 0) matches Turn::Done(head, _) && head.oid == sha,
        branch_status_turn(path, task, new_base, of_branches, 0) matches Turn::Done(status, _)
            && status == (ahead as int, 0int),
{
    assert(rebased(repo, path, new_base, old_base, task, h, at, n)) by {
        law_rebase_ran(repo, path, new_base, old_base, task, h, at, sha, n);
    }
    lemma_head_found(path, sha, of_head);
    law_status_is_counted(path, task, new_base, x, y, (ahead, 0usize), of_branches);
}

// ---------------------------------------------------------------------------
// Counts
// ---------------------------------------------------------------------------

/// Comparing two commits the other way round asks for them the other way round; where the numbers
/// come back exchanged, as the same commits give them, the result is exchanged too.
pub proof fn law_counts_exchange(
    path: Seq<u8>,
    from: Seq<char>,
    to: Seq<char>,
    h: Seq<Reply>,
    g: Seq<Reply>,
    counts: (usize, usize),
)
    requires
        oid_of_text(from) is Some,
        oid_of_text(to) is Some,
        h.len() > 0,
        g.len() > 0,
        h[0] == Reply::Unit(Ok::<(), GitError>(())),
        g[0] == Reply::Unit(Ok::<(), GitError>(())),
    ensures
        ahead_behind_ids_turn(path, from, to, h.take(1), 0) == ServiceTurn::<(int, int)>::Ask(
            RequestModel::AheadBehind(path, oid_of_text(from)->0, oid_of_text(to)->0),
        ),
        ahead_behind_ids_turn(path, to, from, g.take(1), 0) == ServiceTurn::<(int, int)>::Ask(
            RequestModel::AheadBehind(path, oid_of_text(to)->0, oid_of_text(from)->0),
        ),
        h.len() > 1 && g.len() > 1 && h[1] == Reply::Counts(
            Ok::<(usize, usize), GitError>(counts),
        ) && g[1] == Reply::Counts(Ok::<(usize, usize), GitError>((counts.1, counts.0))) ==> {
            &&& ahead_behind_ids_turn(path, from, to, h, 0) == ServiceTurn::Done(
                (counts.0 as int, counts.1 as int),
                2,
            )
            &&& ahead_behind_ids_turn(path, to, from, g, 0) == ServiceTurn::Done(
                (counts.1 as int, counts.0 as int),
                2,
            )
        },
{
}

/// A commit is compared with itself: it is neither ahead nor behind where no commit is ahead of
/// itself.
pub proof fn law_commit_even_with_itself(path: Seq<u8>, id: Seq<char>, h: Seq<Reply>)
    requires
        oid_of_text(id) is Some,
        h.len() > 0,
        h[0] == Reply::Unit(Ok::<(), GitError>(())),
    ensures
        ahead_behind_ids_turn(path, id, id, h.take(1), 0) == ServiceTurn::<(int, int)>::Ask(
            RequestModel::AheadBehind(path, oid_of_text(id)->0, oid_of_text(id)->0),
        ),
        h.len() > 1 && h[1] == Reply::Counts(Ok::<(usize, usize), GitError>((0, 0)))
            ==> ahead_behind_ids_turn(path, id, id, h, 0) == ServiceTurn::Done((0int, 0int), 2),
{
}

// ---------------------------------------------------------------------------
// Commits
// ---------------------------------------------------------------------------

/// The request that stages all changes, but for the directories that are left out.
pub open spec fn stage_request(dirs: Seq<Seq<char>>, path: Seq<u8>) -> RequestModel {
    RequestModel::Run(
        plain_command(path, with_filter(seq![utf8("add"@), utf8("-A"@)], dirs, None)),
    )
}

/// The request that commits what is staged, without hooks.
pub open spec fn commit_request(path: Seq<u8>, message: Seq<char>) -> RequestModel {
    RequestModel::Run(
        plain_command(
            path,
            seq![utf8("commit"@), utf8("--no-verify"@), utf8("-m"@), utf8(message)],
        ),
    )
}

/// Whether a commit that ended after `n` replies has staged all changes and committed them, and both
/// commands have succeeded.
pub open spec fn committed(
    dirs: Seq<Seq<char>>,
    path: Seq<u8>,
    message: Seq<char>,
    h: Seq<Reply>,
    at: int,
    n: int,
) -> bool {
    &&& at + 6 <= n <= h.len()
    &&& succeeded_at(h, at + 3)
    &&& succeeded_at(h, n - 1)
    &&& commit_all_turn(dirs, path, message, h.take(at + 3), at) == ServiceTurn::<bool>::Ask(
        stage_request(dirs, path),
    )
    &&& commit_all_turn(dirs, path, message, h.take(n - 1), at) == ServiceTurn::<bool>::Ask(
        commit_request(path, message),
    )
}

/// A commit that says it was made has staged all changes and committed them with its message.
pub proof fn law_commit_ran(
    dirs: Seq<Seq<char>>,
    path: Seq<u8>,
    message: Seq<char>,
    h: Seq<Reply>,
    at: int,
    n: int,
)
    requires
        0 <= at,
        commit_all_turn(dirs, path, message, h, at) == ServiceTurn::Done(true, n),
    ensures
        committed(dirs, path, message, h, at, n),
{
    if let Turn::Done(_, m) = ensure_identity_turn(path, h, at + 4) {
        lemma_identity_within(path, h, n - 1, at + 4);
    }
}

/// Whether a record finds nothing to commit: `git status` succeeds and prints nothing.
pub open spec fn finds_no_changes(g: Seq<Reply>) -> bool {
    g.len() > 1 && g[0] == Reply::Version(VersionReport::Ended(true)) && match g[1] {
        Reply::Ran(RunReport::Ended(end)) => end.code == Some(0i32) && end.stdin_error is None
            && end.stdout@.len() == 0,
        _ => false,
    }
}

/// A commit made right after one that was made, where that one has left nothing to commit, says that
/// none was made. On its way it only reads, so that HEAD stays.
pub proof fn law_second_commit_does_nothing(
    dirs: Seq<Seq<char>>,
    path: Seq<u8>,
    message: Seq<char>,
    h: Seq<Reply>,
    at: int,
    n: int,
    again: Seq<char>,
    g: Seq<Reply>,
)
    requires
        0 <= at,
        commit_all_turn(dirs, path, message, h, at) == ServiceTurn::Done(true, n),
        committed(dirs, path, message, h, at, n) ==> finds_no_changes(g),
    ensures
        committed(dirs, path, message, h, at, n),
        commit_all_turn(dirs, path, again, g, 0) == ServiceTurn::Done(false, 2),
        forall|k: int|
            0 <= k <= g.len() ==> only_reads(
                #[trigger] commit_all_turn(dirs, path, again, g.take(k), 0),
            ),
{
    law_commit_ran(dirs, path, message, h, at, n);
}

// ---------------------------------------------------------------------------
// Pushes
// ---------------------------------------------------------------------------

/// A push until the branch that was pushed is found again: the remote's name, and the branch.
pub open spec fn pushed_turn(
    path: Seq<u8>,
    branch: Seq<char>,
    force: bool,
    h: Seq<Reply>,
    at: int,
) -> ServiceTurn<(Seq<char>, (BranchType, BranchInfo))> {
    and_then(
        open_turn(path, h, at),
        |u: (), n: int|
            and_then(
                check_clean_turn(path, h, n),
                |u: (), n: int|
                    and_then(
                        default_url_turn(path, h, n),
                        |remote: (Seq<char>, Seq<char>), n: int|
                            and_then(
                                passed_on(push_turn(path, remote.1, branch, force, h, n)),
                                |u: (), n: int|
                                    and_then(
                                        find_branch_turn(path, branch, h, n),
                                        |found: (BranchType, BranchInfo), n: int|
                                            Turn::Done((remote.0, found), n),
                                    ),
                            ),
                    ),
            ),
    )
}

/// What a push asks once the branch was found again.
spec fn tracked_turn(
    path: Seq<u8>,
    branch: Seq<char>,
    remote: Seq<char>,
    found: (BranchType, BranchInfo),
    h: Seq<Reply>,
    at: int,
) -> ServiceTurn<()> {
    if found.1.is_remote {
        Turn::Done((), at)
    } else {
        and_then(
            match found.1.target {
                None => Turn::Done((), at),
                Some(id) => accepted(
                    unit_turn(
                        RequestModel::UpdateReference(path, tracking_update(remote, branch, id@)),
                        h,
                        at,
                    ),
                ),
            },
            |u: (), n: int|
                accepted(
                    unit_turn(
                        RequestModel::SetUpstream(path, branch, found.0, remote + "/"@ + branch),
                        h,
                        n,
                    ),
                ),
        )
    }
}

proof fn lemma_push_parts(path: Seq<u8>, branch: Seq<char>, force: bool, h: Seq<Reply>, at: int)
    ensures
        push_to_github_turn(path, branch, force, h, at) == and_then(
            pushed_turn(path, branch, force, h, at),
            |f: (Seq<char>, (BranchType, BranchInfo)), n: int|
                tracked_turn(path, branch, f.0, f.1, h, n),
        ),
{
}

proof fn lemma_url_within(path: Seq<u8>, h: Seq<Reply>, k: int, at: int)
    requires
        0 <= k <= h.len(),
    ensures
        within(default_url_turn(path, h, at), default_url_turn(path, h.take(k), at), k),
        default_url_turn(path, h, at) matches Turn::Done(_, n) ==> at < n,
{
}

proof fn lemma_push_within(
    path: Seq<u8>,
    url: Seq<char>,
    branch: Seq<char>,
    force: bool,
    h: Seq<Reply>,
    k: int,
    at: int,
)
    requires
        0 <= k <= h.len(),
    ensures
        within(
            push_turn(path, url, branch, force, h, at),
            push_turn(path, url, branch, force, h.take(k), at),
            k,
        ),
        push_turn(path, url, branch, force, h, at) matches Turn::Done(_, n) ==> at < n,
{
}

proof fn lemma_pushed_within(
    path: Seq<u8>,
    branch: Seq<char>,
    force: bool,
    h: Seq<Reply>,
    k: int,
    at: int,
)
    requires
        0 <= at,
        0 <= k <= h.len(),
    ensures
        within(
            pushed_turn(path, branch, force, h, at),
            pushed_turn(path, branch, force, h.take(k), at),
            k,
        ),
        pushed_turn(path, branch, force, h, at) matches Turn::Done(_, n) ==> at < n <= h.len(),
{
    if let Turn::Done(_, n1) = open_turn(path, h, at) {
        lemma_clean_within(path, h, k, n1);
        if let Turn::Done(_, n2) = check_clean_turn(path, h, n1) {
            lemma_url_within(path, h, k, n2);
            if let Turn::Done(remote, n3) = default_url_turn(path, h, n2) {
                lemma_push_within(path, remote.1, branch, force, h, k, n3);
            }
        }
    }
}

/// A push that succeeds has found the branch again after the command. Where that is a local branch
/// with a tip, it has then let the tracking reference of the remote point at that tip and set the
/// branch's upstream to its name on the remote, and both have succeeded.
pub proof fn law_pushed_branch_tracked(
    path: Seq<u8>,
    branch: Seq<char>,
    force: bool,
    h: Seq<Reply>,
    at: int,
    n: int,
)
    requires
        0 <= at,
        push_to_github_turn(path, branch, force, h, at) == ServiceTurn::Done((), n),
    ensures
        match pushed_turn(path, branch, force, h, at) {
            Turn::Done((remote, found), e) => at < e <= n <= h.len() && (!found.1.is_remote
                && found.1.target is Some ==> {
                &&& n == e + 2
                &&& push_to_github_turn(path, branch, force, h.take(e), at) == ServiceTurn::<
                    (),
                >::Ask(
                    RequestModel::UpdateReference(
                        path,
                        tracking_update(remote, branch, found.1.target->0@),
                    ),
                )
                &&& h[e] == Reply::Unit(Ok::<(), GitError>(()))
                &&& push_to_github_turn(path, branch, force, h.take(e + 1), at) == ServiceTurn::<
                    (),
                >::Ask(
                    RequestModel::SetUpstream(path, branch, found.0, remote + "/"@ + branch),
                )
                &&& h[e + 1] == Reply::Unit(Ok::<(), GitError>(()))
            }),
            _ => false,
        },
{
    lemma_push_parts(path, branch, force, h, at);
    lemma_pushed_within(path, branch, force, h, 0, at);
    if let Turn::Done(f, e) = pushed_turn(path, branch, force, h, at) {
        assert(tracked_turn(path, branch, f.0, f.1, h, e) == ServiceTurn::Done((), n));
        if !f.1.1.is_remote && f.1.1.target is Some {
            lemma_pushed_within(path, branch, force, h, e, at);
            lemma_pushed_within(path, branch, force, h, e + 1, at);
            lemma_push_parts(path, branch, force, h.take(e), at);
            lemma_push_parts(path, branch, force, h.take(e + 1), at);
        }
    }
}

/// A worktree that is told not to be clean is not pushed from: with the same replies a push fails and
/// says that the worktree is dirty.
pub proof fn law_unclean_worktree_not_pushed(
    path: Seq<u8>,
    branch: Seq<char>,
    force: bool,
    h: Seq<Reply>,
    at: int,
    n: int,
)
    requires
        is_clean_turn(path, h, at) == ServiceTurn::Done(false, n),
    ensures
        push_to_github_turn(path, branch, force, h, at) matches Turn::Failed(
            ServiceErrorModel::WorktreeDirty(_, _),
            m,
        ) && m == n,
{
}

// ---------------------------------------------------------------------------
// Merges
// ---------------------------------------------------------------------------

/// Whether a merge that ended after `n` replies has carried out a squash merge in a checkout of the
/// base branch and then let the task branch point at the commit of this id, and every one of these
/// commands has succeeded.
pub open spec fn merged_in_checkout(
    base_path: Seq<u8>,
    task_path: Seq<u8>,
    task: Seq<char>,
    base: Seq<char>,
    message: Seq<char>,
    checkout: Seq<u8>,
    h: Seq<Reply>,
    at: int,
    sha: Seq<char>,
    n: int,
) -> bool {
    &&& at + 10 < n <= h.len()
    &&& printed_at(h, n - 3, sha)
    &&& succeeded_at(h, n - 1)
    &&& merge_changes_turn(base_path, task_path, task, base, message, h.take(n - 1), at)
        == ServiceTurn::<Seq<char>>::Ask(branch_request(base_path, task, sha))
    &&& forall|i: int|
        0 <= i < 4 ==> succeeded_at(h, n - 9 + 2 * i) && merge_changes_turn(
            base_path,
            task_path,
            task,
            base,
            message,
            h.take(n - 9 + 2 * i),
            at,
        ) == ServiceTurn::<Seq<char>>::Ask(
            #[trigger] squash_requests(checkout, base, task, message)[i],
        )
}

/// Whether a merge that ended after `n` replies has made a commit of this id, whose only parent is
/// this commit, and then let both branches point at it, and all that has succeeded.
pub open spec fn merged_by_references(
    base_path: Seq<u8>,
    task_path: Seq<u8>,
    task: Seq<char>,
    base: Seq<char>,
    message: Seq<char>,
    parent: Seq<u8>,
    h: Seq<Reply>,
    at: int,
    sha: Seq<char>,
    n: int,
) -> bool {
    &&& at + 3 <= n <= h.len()
    &&& h[n - 1] == Reply::Unit(Ok::<(), GitError>(()))
    &&& h[n - 2] == Reply::Unit(Ok::<(), GitError>(()))
    &&& match h[n - 3] {
        Reply::Id(Ok(made)) => {
            &&& sha == text_of_oid(made@)
            &&& merge_changes_turn(base_path, task_path, task, base, message, h.take(n - 1), at)
                == ServiceTurn::<Seq<char>>::Ask(
                RequestModel::UpdateReference(base_path, task_update(task, made@)),
            )
            &&& merge_changes_turn(base_path, task_path, task, base, message, h.take(n - 2), at)
                == ServiceTurn::<Seq<char>>::Ask(
                RequestModel::UpdateReference(task_path, squash_update(base, made@)),
            )
        },
        _ => false,
    }
    &&& match merge_changes_turn(base_path, task_path, task, base, message, h.take(n - 3), at) {
        Turn::Ask(RequestModel::CreateCommit(repo, commit)) => repo == task_path && commit.parents
            == seq![parent] && commit.message == message && commit.update_ref is None,
        _ => false,
    }
}

/// Whether a merge that ended after `n` replies has been carried out: in a checkout where the base
/// branch is checked out, and else by references, on top of the commit that the base branch led to.
#[verifier::opaque]
pub open spec fn merged(
    base_path: Seq<u8>,
    task_path: Seq<u8>,
    task: Seq<char>,
    base: Seq<char>,
    message: Seq<char>,
    h: Seq<Reply>,
    at: int,
    sha: Seq<char>,
    n: int,
) -> bool {
    match merge_place_turn(base_path, task_path, task, base, h, at) {
        Turn::Done(Some(checkout), _) => merged_in_checkout(
            base_path,
            task_path,
            task,
            base,
            message,
            checkout,
            h,
            at,
            sha,
            n,
        ),
        Turn::Done(None, m) => match merge_commits_found_turn(task_path, task, base, h, m) {
            Turn::Done(commits, _) => merged_by_references(
                base_path,
                task_path,
                task,
                base,
                message,
                commits.0@,
                h,
                at,
                sha,
                n,
            ),
            _ => false,
        },
        _ => false,
    }
}

proof fn lemma_merge_placed(
    base_path: Seq<u8>,
    task_path: Seq<u8>,
    task: Seq<char>,
    base: Seq<char>,
    message: Seq<char>,
    h: Seq<Reply>,
    at: int,
)
    requires
        0 <= at,
        merge_changes_turn(base_path, task_path, task, base, message, h, at) is Done,
    ensures
        merge_place_turn(base_path, task_path, task, base, h, at) matches Turn::Done(place, m) && {
            &&& at < m
            &&& place is None ==> (merge_commits_found_turn(task_path, task, base, h, m)
                matches Turn::Done(_, e) && m < e)
        },
{
}

/// A merge that succeeds has been carried out, and returns the id of the commit that was made.
pub proof fn law_merge_ran(
    base_path: Seq<u8>,
    task_path: Seq<u8>,
    task: Seq<char>,
    base: Seq<char>,
    message: Seq<char>,
    h: Seq<Reply>,
    at: int,
    sha: Seq<char>,
    n: int,
)
    requires
        0 <= at,
        merge_changes_turn(base_path, task_path, task, base, message, h, at) == ServiceTurn::Done(
            sha,
            n,
        ),
    ensures
        merged(base_path, task_path, task, base, message, h, at, sha, n),
{
    reveal(merged);
    lemma_merge_placed(base_path, task_path, task, base, message, h, at);
    if let Turn::Done(place, m) = merge_place_turn(base_path, task_path, task, base, h, at) {
        if let Some(checkout) = place {
            law_merge_in_checkout_ran(
                base_path,
                task_path,
                task,
                base,
                message,
                h,
                at,
                sha,
                n,
                checkout,
                m,
            );
        } else if let Turn::Done(commits, e) = merge_commits_found_turn(
            task_path,
            task,
            base,
            h,
            m,
        ) {
            law_merge_by_references_ran(
                base_path,
                task_path,
                task,
                base,
                message,
                h,
                at,
                sha,
                n,
                m,
                commits,
                e,
            );
        }
    }
}

/// After a merge that succeeds, where both branches are at the commit whose id was returned, as the
/// merge leaves them, and no commit is ahead of itself, the task branch is told to be even with the
/// base branch.
pub proof fn law_merge_leaves_branches_even(
    base_path: Seq<u8>,
    task_path: Seq<u8>,
    task: Seq<char>,
    base: Seq<char>,
    message: Seq<char>,
    h: Seq<Reply>,
    at: int,
    sha: Seq<char>,
    n: int,
    x: Oid,
    y: Oid,
    counts: (usize, usize),
    g: Seq<Reply>,
)
    requires
        0 <= at,
        merge_changes_turn(base_path, task_path, task, base, message, h, at) == ServiceTurn::Done(
            sha,
            n,
        ),
        merged(base_path, task_path, task, base, message, h, at, sha, n) ==> text_of_oid(x@) == sha
            && text_of_oid(y@) == sha && finds_counts(base_path, task, base, x, y, counts, g),
        x@ == y@ ==> counts == (0usize, 0usize),
    ensures
        merged(base_path, task_path, task, base, message, h, at, sha, n),
        x@ == y@,
        branch_status_turn(base_path, task, base, g, 0) matches Turn::Done(status, _) && status == (
            0int,
            0int,
        ),
{
    law_merge_ran(base_path, task_path, task, base, message, h, at, sha, n);
    law_oid_text_round_trip(x@);
    law_oid_text_round_trip(y@);
    law_status_is_counted(base_path, task, base, x, y, counts, g);
}

} // verus!
