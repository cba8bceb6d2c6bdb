//! What questions for where branches and HEAD stand ask, and what they come to.
use vstd::prelude::*;

use crate::branches::{
    base_commit_turn, branch_exists_turn, branch_oid_turn, branch_status_turn, branch_type_turn,
    find_branch_turn, rename_branch_turn,
};
use crate::dialogue::{Reply, RequestModel, Turn};
use crate::errors::{GitError, ServiceErrorModel};
use crate::model::Model;
use crate::oid::{oid_of_text, text_of_oid, Oid};
use crate::records::{BranchInfo, BranchType, CommitInfo, HeadRef, RemoteInfo};
use crate::remotes::{fetch_all_turn, remote_of_ref_turn, remote_status_turn};
use crate::service::ServiceTurn;
use crate::worktrees::{ahead_behind_ids_turn, commit_subject_turn, head_info_turn, HeadModel};

verus! {

/// How far a branch is ahead of and behind a base on a remote is counted after all branches of
/// that remote were fetched, between what the two branches point at.
pub proof fn law_remote_status_counted(
    path: Seq<u8>,
    name: Seq<char>,
    base: Seq<char>,
    b: (BranchType, BranchInfo),
    p: int,
    c: (BranchType, BranchInfo),
    q: int,
    remote: RemoteInfo,
    r: int,
    s: int,
    x: Oid,
    y: Oid,
    v: (usize, usize),
    h: Seq<Reply>,
    at: int,
    k: int,
    e: GitError,
)
    requires
        0 <= at <= s <= h.len(),
        h[at] == Reply::Unit(Ok::<(), GitError>(())),
        at < s,
        find_branch_turn(path, name, h, at + 1) == ServiceTurn::Done(b, p),
        find_branch_turn(path, base, h, p) == ServiceTurn::Done(c, q),
        remote_of_ref_turn(path, c.1, h, q) == ServiceTurn::Done(remote, r),
        fetch_all_turn(path, remote, h, r) == ServiceTurn::Done((), s),
        b.1.target == Some(x),
        c.1.target == Some(y),
        h.len() > s
            ==> h[s] == if k == 0 {
                Reply::Counts(Err::<(usize, usize), GitError>(e))
            } else {
                Reply::Counts(Ok::<(usize, usize), GitError>(v))
            },
    ensures
        h.len() == s
            ==> remote_status_turn(path, name, Some(base), h, at) == ServiceTurn::<(int, int)>::Ask(
                RequestModel::AheadBehind(path, x@, y@),
            ),
        (k == 0) && h.len() > s + k
            ==> remote_status_turn(path, name, Some(base), h, at)
                == ServiceTurn::<(int, int)>::Failed(ServiceErrorModel::Git(e.model()), s + k + 1),
        h.len() >= s + 1 && !(0 <= k < 1)
            ==> remote_status_turn(path, name, Some(base), h, at)
                == ServiceTurn::<(int, int)>::Done((v.0 as int, v.1 as int), s + 1),
{
}

/// Without a base, a branch is compared with its upstream.
pub proof fn law_upstream_status_counted(
    path: Seq<u8>,
    name: Seq<char>,
    b: (BranchType, BranchInfo),
    p: int,
    c: BranchInfo,
    remote: RemoteInfo,
    r: int,
    s: int,
    x: Oid,
    y: Oid,
    own: BranchInfo,
    v: (usize, usize),
    h: Seq<Reply>,
    at: int,
    k: int,
    e: GitError,
)
    requires
        0 <= at <= s <= h.len(),
        h[at] == Reply::Unit(Ok::<(), GitError>(())),
        at < s,
        find_branch_turn(path, name, h, at + 1) == ServiceTurn::Done(b, p),
        0 <= p,
        p + 1 < h.len(),
        h[p] == Reply::Branch(Ok::<BranchInfo, GitError>(own)),
        h[p + 1] == Reply::Branch(Ok::<BranchInfo, GitError>(c)),
        remote_of_ref_turn(path, c, h, p + 2) == ServiceTurn::Done(remote, r),
        fetch_all_turn(path, remote, h, r) == ServiceTurn::Done((), s),
        b.1.target == Some(x),
        c.target == Some(y),
        h.len() > s
            ==> h[s] == if k == 0 {
                Reply::Counts(Err::<(usize, usize), GitError>(e))
            } else {
                Reply::Counts(Ok::<(usize, usize), GitError>(v))
            },
    ensures
        h.len() == s
            ==> remote_status_turn(path, name, None, h, at) == ServiceTurn::<(int, int)>::Ask(
                RequestModel::AheadBehind(path, x@, y@),
            ),
        (k == 0) && h.len() > s + k
            ==> remote_status_turn(path, name, None, h, at) == ServiceTurn::<(int, int)>::Failed(
                ServiceErrorModel::Git(e.model()),
                s + k + 1,
            ),
        h.len() >= s + 1 && !(0 <= k < 1)
            ==> remote_status_turn(path, name, None, h, at) == ServiceTurn::<(int, int)>::Done(
                (v.0 as int, v.1 as int),
                s + 1,
            ),
{
}

/// The upstream of a branch is asked for by the name of the branch.
pub proof fn law_upstream_asked(
    path: Seq<u8>,
    name: Seq<char>,
    b: (BranchType, BranchInfo),
    p: int,
    own: BranchInfo,
    h: Seq<Reply>,
    at: int,
    k: int,
    e: GitError,
)
    requires
        0 <= at <= p <= h.len(),
        h[at] == Reply::Unit(Ok::<(), GitError>(())),
        at < p,
        find_branch_turn(path, name, h, at + 1) == ServiceTurn::Done(b, p),
        h.len() > p
            ==> h[p] == if k == 0 {
                Reply::Branch(Err::<BranchInfo, GitError>(e))
            } else {
                Reply::Branch(Ok::<BranchInfo, GitError>(own))
            },
        h.len() > p + 1
            ==> h[p + 1] == if k == 1 {
                Reply::Branch(Err::<BranchInfo, GitError>(e))
            } else {
                Reply::Branch(Ok::<BranchInfo, GitError>(own))
            },
    ensures
        h.len() == p
            ==> remote_status_turn(path, name, None, h, at) == ServiceTurn::<(int, int)>::Ask(
                RequestModel::FindBranch(path, name, BranchType::Local),
            ),
        h.len() == p + 1 && !(0 <= k < 1)
            ==> remote_status_turn(path, name, None, h, at) == ServiceTurn::<(int, int)>::Ask(
                RequestModel::Upstream(path, name),
            ),
        (k == 0 || k == 1) && h.len() > p + k
            ==> remote_status_turn(path, name, None, h, at) == ServiceTurn::<(int, int)>::Failed(
                ServiceErrorModel::Git(e.model()),
                p + k + 1,
            ),
{
}

/// The status of a branch against a base is counted between what the two are found to point at.
pub proof fn law_status_asked(
    path: Seq<u8>,
    name: Seq<char>,
    base: Seq<char>,
    b: (BranchType, BranchInfo),
    p: int,
    c: (BranchType, BranchInfo),
    q: int,
    x: Oid,
    y: Oid,
    v: (usize, usize),
    h: Seq<Reply>,
    at: int,
    k: int,
    e: GitError,
)
    requires
        0 <= at <= q <= h.len(),
        h[at] == Reply::Unit(Ok::<(), GitError>(())),
        at < q,
        find_branch_turn(path, name, h, at + 1) == ServiceTurn::Done(b, p),
        find_branch_turn(path, base, h, p) == ServiceTurn::Done(c, q),
        b.1.target == Some(x),
        c.1.target == Some(y),
        h.len() > q
            ==> h[q] == if k == 0 {
                Reply::Counts(Err::<(usize, usize), GitError>(e))
            } else {
                Reply::Counts(Ok::<(usize, usize), GitError>(v))
            },
    ensures
        h.len() == q
            ==> branch_status_turn(path, name, base, h, at) == ServiceTurn::<(int, int)>::Ask(
                RequestModel::AheadBehind(path, x@, y@),
            ),
        (k == 0) && h.len() > q + k
            ==> branch_status_turn(path, name, base, h, at) == ServiceTurn::<(int, int)>::Failed(
                ServiceErrorModel::Git(e.model()),
                q + k + 1,
            ),
        h.len() >= q + 1 && !(0 <= k < 1)
            ==> branch_status_turn(path, name, base, h, at) == ServiceTurn::<(int, int)>::Done(
                (v.0 as int, v.1 as int),
                q + 1,
            ),
{
}

/// The base commit of a branch is the merge base of the commits that the branch and its base lead
/// to.
pub proof fn law_base_commit_found(
    path: Seq<u8>,
    name: Seq<char>,
    base: Seq<char>,
    b: (BranchType, BranchInfo),
    p: int,
    c: (BranchType, BranchInfo),
    q: int,
    x: Oid,
    y: Oid,
    id: Oid,
    h: Seq<Reply>,
    at: int,
    k: int,
    e: GitError,
)
    requires
        0 <= at <= q <= h.len(),
        h[at] == Reply::Unit(Ok::<(), GitError>(())),
        at < q,
        find_branch_turn(path, name, h, at + 1) == ServiceTurn::Done(b, p),
        find_branch_turn(path, base, h, p) == ServiceTurn::Done(c, q),
        h.len() > q
            ==> h[q] == if k == 0 {
                Reply::Id(Err::<Oid, GitError>(e))
            } else {
                Reply::Id(Ok::<Oid, GitError>(x))
            },
        h.len() > q + 1
            ==> h[q + 1] == if k == 1 {
                Reply::Id(Err::<Oid, GitError>(e))
            } else {
                Reply::Id(Ok::<Oid, GitError>(y))
            },
        h.len() > q + 2
            ==> h[q + 2] == if k == 2 {
                Reply::Id(Err::<Oid, GitError>(e))
            } else {
                Reply::Id(Ok::<Oid, GitError>(id))
            },
    ensures
        h.len() == q
            ==> base_commit_turn(path, name, base, h, at) == ServiceTurn::<Seq<u8>>::Ask(
                RequestModel::PeelBranch(path, name, b.0),
            ),
        h.len() == q + 1 && !(0 <= k < 1)
            ==> base_commit_turn(path, name, base, h, at) == ServiceTurn::<Seq<u8>>::Ask(
                RequestModel::PeelBranch(path, base, c.0),
            ),
        h.len() == q + 2 && !(0 <= k < 2)
            ==> base_commit_turn(path, name, base, h, at) == ServiceTurn::<Seq<u8>>::Ask(
                RequestModel::MergeBase(path, x@, y@),
            ),
        (k == 0 || k == 1 || k == 2) && h.len() > q + k
            ==> base_commit_turn(path, name, base, h, at) == ServiceTurn::<Seq<u8>>::Failed(
                ServiceErrorModel::Git(e.model()),
                q + k + 1,
            ),
        h.len() >= q + 3 && !(0 <= k < 3)
            ==> base_commit_turn(path, name, base, h, at) == ServiceTurn::<Seq<u8>>::Done(
                id@,
                q + 3,
            ),
{
}

/// The id of a branch is that of the commit that it leads to.
pub proof fn law_branch_id_told(
    path: Seq<u8>,
    name: Seq<char>,
    b: (BranchType, BranchInfo),
    p: int,
    x: Oid,
    h: Seq<Reply>,
    at: int,
    k: int,
    e: GitError,
)
    requires
        0 <= at <= p <= h.len(),
        h[at] == Reply::Unit(Ok::<(), GitError>(())),
        at < p,
        find_branch_turn(path, name, h, at + 1) == ServiceTurn::Done(b, p),
        h.len() > p
            ==> h[p] == if k == 0 {
                Reply::Id(Err::<Oid, GitError>(e))
            } else {
                Reply::Id(Ok::<Oid, GitError>(x))
            },
    ensures
        h.len() == p
            ==> branch_oid_turn(path, name, h, at) == ServiceTurn::<Seq<char>>::Ask(
                RequestModel::PeelBranch(path, name, b.0),
            ),
        (k == 0) && h.len() > p + k
            ==> branch_oid_turn(path, name, h, at) == ServiceTurn::<Seq<char>>::Failed(
                ServiceErrorModel::Git(e.model()),
                p + k + 1,
            ),
        h.len() >= p + 1 && !(0 <= k < 1)
            ==> branch_oid_turn(path, name, h, at) == ServiceTurn::<Seq<char>>::Done(
                text_of_oid(x@),
                p + 1,
            ),
{
}

/// A local branch gets another name without overwriting a branch of that name, and HEAD points at
/// it.
pub proof fn law_branch_renamed(
    path: Seq<u8>,
    old_name: Seq<char>,
    new_name: Seq<char>,
    info: BranchInfo,
    h: Seq<Reply>,
    at: int,
    k: int,
    e: GitError,
)
    requires
        0 <= at <= h.len(),
        k != 1,
        h.len() > at
            ==> h[at] == if k == 0 {
                Reply::Unit(Err::<(), GitError>(e))
            } else {
                Reply::Unit(Ok::<(), GitError>(()))
            },
        h.len() > at + 1 ==> h[at + 1] == Reply::Branch(Ok::<BranchInfo, GitError>(info)),
        h.len() > at + 2
            ==> h[at + 2] == if k == 2 {
                Reply::Unit(Err::<(), GitError>(e))
            } else {
                Reply::Unit(Ok::<(), GitError>(()))
            },
        h.len() > at + 3
            ==> h[at + 3] == if k == 3 {
                Reply::Unit(Err::<(), GitError>(e))
            } else {
                Reply::Unit(Ok::<(), GitError>(()))
            },
    ensures
        h.len() == at
            ==> rename_branch_turn(path, old_name, new_name, h, at) == ServiceTurn::<()>::Ask(
                RequestModel::OpenRepo(path),
            ),
        h.len() == at + 1 && !(0 <= k < 1)
            ==> rename_branch_turn(path, old_name, new_name, h, at) == ServiceTurn::<()>::Ask(
                RequestModel::FindBranch(path, old_name, BranchType::Local),
            ),
        h.len() == at + 2 && !(0 <= k < 2)
            ==> rename_branch_turn(path, old_name, new_name, h, at) == ServiceTurn::<()>::Ask(
                RequestModel::RenameBranch(path, old_name, new_name, false),
            ),
        h.len() == at + 3 && !(0 <= k < 3)
            ==> rename_branch_turn(path, old_name, new_name, h, at) == ServiceTurn::<()>::Ask(
                RequestModel::SetHead(path, "refs/heads/"@ + new_name),
            ),
        (k == 0 || k == 2 || k == 3) && h.len() > at + k
            ==> rename_branch_turn(path, old_name, new_name, h, at) == ServiceTurn::<()>::Failed(
                ServiceErrorModel::Git(e.model()),
                at + k + 1,
            ),
        h.len() >= at + 4 && !(0 <= k < 4)
            ==> rename_branch_turn(path, old_name, new_name, h, at) == ServiceTurn::<()>::Done(
                (),
                at + 4,
            ),
{
}

/// A branch is of the kind by which it was found, and exists exactly where it was found.
pub proof fn law_branch_kind_told(
    path: Seq<u8>,
    name: Seq<char>,
    h: Seq<Reply>,
    at: int,
    b: (BranchType, BranchInfo),
    p: int,
)
    requires
        0 <= at <= h.len(),
        h.len() > at ==> h[at] == Reply::Unit(Ok::<(), GitError>(())),
    ensures
        h.len() == at ==> branch_type_turn(path, name, h, at) == ServiceTurn::<BranchType>::Ask(
            RequestModel::OpenRepo(path),
        ),
        h.len() == at ==> branch_exists_turn(path, name, h, at) == ServiceTurn::<bool>::Ask(
            RequestModel::OpenRepo(path),
        ),
        h.len() > at && find_branch_turn(path, name, h, at + 1) == ServiceTurn::Done(b, p) ==> {
            &&& branch_type_turn(path, name, h, at) == ServiceTurn::Done(b.0, p)
            &&& branch_exists_turn(path, name, h, at) == ServiceTurn::Done(true, p)
        },
        h.len() > at ==> (find_branch_turn(path, name, h, at + 1) matches Turn::Failed(_, m)
            ==> branch_exists_turn(path, name, h, at) == ServiceTurn::Done(false, m)),
{
}

/// Where HEAD is told to be is the branch that it names, and the commit.
pub proof fn law_head_told(
    path: Seq<u8>,
    head: HeadRef,
    name: String,
    id: Oid,
    h: Seq<Reply>,
    at: int,
    k: int,
    e: GitError,
)
    requires
        0 <= at <= h.len(),
        head.shorthand == Some(name),
        head.target == Some(id),
        h.len() > at
            ==> h[at] == if k == 0 {
                Reply::Unit(Err::<(), GitError>(e))
            } else {
                Reply::Unit(Ok::<(), GitError>(()))
            },
        h.len() > at + 1
            ==> h[at + 1] == if k == 1 {
                Reply::Head(Err::<HeadRef, GitError>(e))
            } else {
                Reply::Head(Ok::<HeadRef, GitError>(head))
            },
    ensures
        h.len() == at
            ==> head_info_turn(path, h, at) == ServiceTurn::<HeadModel>::Ask(
                RequestModel::OpenRepo(path),
            ),
        h.len() == at + 1 && !(0 <= k < 1)
            ==> head_info_turn(path, h, at) == ServiceTurn::<HeadModel>::Ask(
                RequestModel::Head(path),
            ),
        (k == 0 || k == 1) && h.len() > at + k
            ==> head_info_turn(path, h, at) == ServiceTurn::<HeadModel>::Failed(
                ServiceErrorModel::Git(e.model()),
                at + k + 1,
            ),
        h.len() >= at + 2 && !(0 <= k < 2)
            ==> head_info_turn(path, h, at) == ServiceTurn::<HeadModel>::Done(
                HeadModel { branch: name@, oid: text_of_oid(id@) },
                at + 2,
            ),
{
}

/// Where HEAD names no branch, it is told to be at `HEAD`.
pub proof fn law_detached_head_told(
    path: Seq<u8>,
    head: HeadRef,
    id: Oid,
    h: Seq<Reply>,
    at: int,
    k: int,
    e: GitError,
)
    requires
        0 <= at <= h.len(),
        head.shorthand is None,
        head.target == Some(id),
        k != 1,
        h.len() > at
            ==> h[at] == if k == 0 {
                Reply::Unit(Err::<(), GitError>(e))
            } else {
                Reply::Unit(Ok::<(), GitError>(()))
            },
        h.len() > at + 1 ==> h[at + 1] == Reply::Head(Ok::<HeadRef, GitError>(head)),
    ensures
        h.len() == at
            ==> head_info_turn(path, h, at) == ServiceTurn::<HeadModel>::Ask(
                RequestModel::OpenRepo(path),
            ),
        h.len() == at + 1 && !(0 <= k < 1)
            ==> head_info_turn(path, h, at) == ServiceTurn::<HeadModel>::Ask(
                RequestModel::Head(path),
            ),
        (k == 0) && h.len() > at + k
            ==> head_info_turn(path, h, at) == ServiceTurn::<HeadModel>::Failed(
                ServiceErrorModel::Git(e.model()),
                at + k + 1,
            ),
        h.len() >= at + 2 && !(0 <= k < 2)
            ==> head_info_turn(path, h, at) == ServiceTurn::<HeadModel>::Done(
                HeadModel { branch: "HEAD"@, oid: text_of_oid(id@) },
                at + 2,
            ),
{
}

/// The subject of a commit is its summary.
pub proof fn law_subject_told(
    path: Seq<u8>,
    sha: Seq<char>,
    info: CommitInfo,
    s: String,
    h: Seq<Reply>,
    at: int,
    k: int,
    e: GitError,
)
    requires
        0 <= at <= h.len(),
        oid_of_text(sha) is Some,
        info.summary == Some(s),
        h.len() > at
            ==> h[at] == if k == 0 {
                Reply::Unit(Err::<(), GitError>(e))
            } else {
                Reply::Unit(Ok::<(), GitError>(()))
            },
        h.len() > at + 1
            ==> h[at + 1] == if k == 1 {
                Reply::Commit(Err::<CommitInfo, GitError>(e))
            } else {
                Reply::Commit(Ok::<CommitInfo, GitError>(info))
            },
    ensures
        h.len() == at
            ==> commit_subject_turn(path, sha, h, at) == ServiceTurn::<Seq<char>>::Ask(
                RequestModel::OpenRepo(path),
            ),
        h.len() == at + 1 && !(0 <= k < 1)
            ==> commit_subject_turn(path, sha, h, at) == ServiceTurn::<Seq<char>>::Ask(
                RequestModel::FindCommit(path, oid_of_text(sha)->0),
            ),
        (k == 0 || k == 1) && h.len() > at + k
            ==> commit_subject_turn(path, sha, h, at) == ServiceTurn::<Seq<char>>::Failed(
                ServiceErrorModel::Git(e.model()),
                at + k + 1,
            ),
        h.len() >= at + 2 && !(0 <= k < 2)
            ==> commit_subject_turn(path, sha, h, at) == ServiceTurn::<Seq<char>>::Done(s@, at + 2),
{
}

/// A commit without a summary has no subject.
pub proof fn law_missing_subject_told(
    path: Seq<u8>,
    sha: Seq<char>,
    info: CommitInfo,
    h: Seq<Reply>,
    at: int,
    k: int,
    e: GitError,
)
    requires
        0 <= at <= h.len(),
        oid_of_text(sha) is Some,
        info.summary is None,
        h.len() > at
            ==> h[at] == if k == 0 {
                Reply::Unit(Err::<(), GitError>(e))
            } else {
                Reply::Unit(Ok::<(), GitError>(()))
            },
        h.len() > at + 1
            ==> h[at + 1] == if k == 1 {
                Reply::Commit(Err::<CommitInfo, GitError>(e))
            } else {
                Reply::Commit(Ok::<CommitInfo, GitError>(info))
            },
    ensures
        h.len() == at
            ==> commit_subject_turn(path, sha, h, at) == ServiceTurn::<Seq<char>>::Ask(
                RequestModel::OpenRepo(path),
            ),
        h.len() == at + 1 && !(0 <= k < 1)
            ==> commit_subject_turn(path, sha, h, at) == ServiceTurn::<Seq<char>>::Ask(
                RequestModel::FindCommit(path, oid_of_text(sha)->0),
            ),
        (k == 0 || k == 1) && h.len() > at + k
            ==> commit_subject_turn(path, sha, h, at) == ServiceTurn::<Seq<char>>::Failed(
                ServiceErrorModel::Git(e.model()),
                at + k + 1,
            ),
        h.len() >= at + 2 && !(0 <= k < 2)
            ==> commit_subject_turn(path, sha, h, at) == ServiceTurn::<Seq<char>>::Done(
                "(no subject)"@,
                at + 2,
            ),
{
}

/// How far one commit is ahead of and behind another is counted from the first to the second, and
/// told as it was counted.
pub proof fn law_distance_between_ids_told(
    path: Seq<u8>,
    from: Seq<char>,
    to: Seq<char>,
    a: Seq<u8>,
    b: Seq<u8>,
    counts: Result<(usize, usize), GitError>,
    h: Seq<Reply>,
    at: int,
)
    requires
        0 <= at <= h.len(),
        oid_of_text(from) == Some(a),
        oid_of_text(to) == Some(b),
        h.len() > at ==> h[at] == Reply::Unit(Ok::<(), GitError>(())),
        h.len() > at + 1 ==> h[at + 1] == Reply::Counts(counts),
    ensures
        h.len() == at ==> ahead_behind_ids_turn(path, from, to, h, at) == ServiceTurn::<
            (int, int),
        >::Ask(RequestModel::OpenRepo(path)),
        h.len() == at + 1 ==> ahead_behind_ids_turn(path, from, to, h, at) == ServiceTurn::<
            (int, int),
        >::Ask(RequestModel::AheadBehind(path, a, b)),
        h.len() >= at + 2 ==> match counts {
            Ok(v) => ahead_behind_ids_turn(path, from, to, h, at) == ServiceTurn::Done(
                (v.0 as int, v.1 as int),
                at + 2,
            ),
            Err(e) => ahead_behind_ids_turn(path, from, to, h, at) == ServiceTurn::<
                (int, int),
            >::Failed(ServiceErrorModel::Git(e.model()), at + 2),
        },
{
}

} // verus!
