//! Branches: finding, comparing and listing them.
use vstd::prelude::*;

use crate::dialogue::{
    accept, accepted, and_then, branch_turn, counts_turn, id_turn, settle, settled, turn, turn_ref,
    unit_turn, Dialogue, Interrupt, Reply, Request, RequestModel, Turn,
};
use crate::errors::{GitError, GitServiceError, ServiceErrorModel};
use crate::model::{lemma_models_push, Model};
use crate::oid::{text_of_oid, Commit, Oid};
use crate::raw::RawText;
use crate::records::{BranchInfo, BranchType};
use crate::service::{open_turn, GitService, ServiceResult, ServiceTurn};
use crate::text::cat;

verus! {

broadcast use lemma_models_push;

// ---------------------------------------------------------------------------
// Names
// ---------------------------------------------------------------------------

/// What `git2::Branch::name_is_valid` says of a name: whether it is valid, or nothing where the
/// call fails.
pub uninterp spec fn branch_name_verdict(name: Seq<char>) -> Option<bool>;

/// `git2::Branch::name_is_valid`: the call fails on a name with a zero character; a name that
/// starts with a dash and the name `HEAD` are not valid. The other rules are those of a valid
/// reference name below `refs/heads/`, which are not spelled out: the result has the name
/// `branch_name_verdict`.
#[verifier::external_body]
fn git2_name_is_valid(name: &str) -> (r: Option<bool>)
    ensures
        r == branch_name_verdict(name@),
        name@.contains('\0') ==> r is None,
        !name@.contains('\0') && (name@ == "HEAD"@ || (name@.len() > 0 && name@[0] == '-')) ==> r
            == Some(false),
{
    git2::Branch::name_is_valid(name).ok()
}

/// Whether a name counts as valid: it does where the verdict on it is that it is.
pub fn is_valid_by(verdict: Option<bool>) -> (r: bool)
    ensures
        r == (verdict == Some(true)),
{
    match verdict {
        Some(valid) => valid,
        None => false,
    }
}

impl GitService {
    /// Whether a branch can have this name.
    pub fn is_branch_name_valid(&self, name: &str) -> (r: bool)
        ensures
            r == (branch_name_verdict(name@) == Some(true)),
            name@.contains('\0') || name@ == "HEAD"@ || (name@.len() > 0 && name@[0] == '-') ==> !r,
    {
        is_valid_by(git2_name_is_valid(name))
    }
}

// ---------------------------------------------------------------------------
// Finding branches
// ---------------------------------------------------------------------------

/// A branch that was found, and where it lives.
#[derive(Debug, Clone, Copy)]
pub struct Branch<'a> {
    pub kind: BranchType,
    pub info: &'a BranchInfo,
}

impl<'a> Model for Branch<'a> {
    type M = (BranchType, BranchInfo);

    open spec fn model(&self) -> (BranchType, BranchInfo) {
        (self.kind, *self.info)
    }
}

/// Find a branch: a local one, else a remote one.
pub open spec fn find_branch_turn(repo: Seq<u8>, name: Seq<char>, h: Seq<Reply>, at: int) ->
    ServiceTurn<(BranchType, BranchInfo)> {
    and_then(
        branch_turn(RequestModel::FindBranch(repo, name, BranchType::Local), h, at),
        |local: Result<BranchInfo, GitError>, n: int|
            match local {
                Ok(b) => Turn::Done((BranchType::Local, b), n),
                Err(_) => and_then(
                    branch_turn(RequestModel::FindBranch(repo, name, BranchType::Remote), h, n),
                    |remote: Result<BranchInfo, GitError>, n: int|
                        match remote {
                            Ok(b) => Turn::Done((BranchType::Remote, b), n),
                            Err(_) => Turn::Failed(ServiceErrorModel::BranchNotFound(name), n),
                        },
                ),
            },
    )
}

/// The commit that a branch which was found leads to.
pub open spec fn peel_turn(
    repo: Seq<u8>,
    name: Seq<char>,
    kind: BranchType,
    h: Seq<Reply>,
    at: int,
) -> ServiceTurn<Oid> {
    accepted(id_turn(RequestModel::PeelBranch(repo, name, kind), h, at))
}

/// The commit that a branch leads to.
pub open spec fn branch_commit_turn(repo: Seq<u8>, name: Seq<char>, h: Seq<Reply>, at: int) ->
    ServiceTurn<Oid> {
    and_then(
        find_branch_turn(repo, name, h, at),
        |b: (BranchType, BranchInfo), n: int| peel_turn(repo, name, b.0, h, n),
    )
}

/// Whether a branch is local or remote.
pub open spec fn branch_type_turn(path: Seq<u8>, name: Seq<char>, h: Seq<Reply>, at: int) ->
    ServiceTurn<BranchType> {
    and_then(
        open_turn(path, h, at),
        |u: (), n: int|
            and_then(
                find_branch_turn(path, name, h, n),
                |b: (BranchType, BranchInfo), n: int| Turn::Done(b.0, n),
            ),
    )
}

/// Whether there is a branch of some name.
pub open spec fn branch_exists_turn(path: Seq<u8>, name: Seq<char>, h: Seq<Reply>, at: int) ->
    ServiceTurn<bool> {
    and_then(
        open_turn(path, h, at),
        |u: (), n: int|
            and_then(
                settled(find_branch_turn(path, name, h, n)),
                |found: Result<(BranchType, BranchInfo), ServiceErrorModel>, n: int|
                    Turn::Done(found is Ok, n),
            ),
    )
}

/// How many commits one branch is ahead of and behind another, by what they point at.
pub open spec fn status_between_turn(
    repo: Seq<u8>,
    branch: BranchInfo,
    base: BranchInfo,
    h: Seq<Reply>,
    at: int,
) -> ServiceTurn<(int, int)> {
    if branch.target is None || base.target is None {
        Turn::Failed(ServiceErrorModel::BranchNotFound("Branch not found"@), at)
    } else {
        ahead_behind_turn(repo, branch.target->0@, base.target->0@, h, at)
    }
}

/// How many commits the first is ahead of and behind the second.
pub open spec fn ahead_behind_turn(
    repo: Seq<u8>,
    a: Seq<u8>,
    b: Seq<u8>,
    h: Seq<Reply>,
    at: int,
) -> ServiceTurn<(int, int)> {
    and_then(
        accepted(counts_turn(RequestModel::AheadBehind(repo, a, b), h, at)),
        |c: (usize, usize), n: int| Turn::Done((c.0 as int, c.1 as int), n),
    )
}

/// How many commits a branch is ahead of and behind a base branch.
pub open spec fn branch_status_turn(
    path: Seq<u8>,
    name: Seq<char>,
    base: Seq<char>,
    h: Seq<Reply>,
    at: int,
) -> ServiceTurn<(int, int)> {
    and_then(
        open_turn(path, h, at),
        |u: (), n: int|
            and_then(
                find_branch_turn(path, name, h, n),
                |branch: (BranchType, BranchInfo), n: int|
                    and_then(
                        find_branch_turn(path, base, h, n),
                        |base: (BranchType, BranchInfo), n: int|
                            status_between_turn(path, branch.1, base.1, h, n),
                    ),
            ),
    )
}

/// The commit at which a branch left a base branch.
pub open spec fn base_commit_turn(
    path: Seq<u8>,
    name: Seq<char>,
    base: Seq<char>,
    h: Seq<Reply>,
    at: int,
) -> ServiceTurn<Seq<u8>> {
    and_then(
        open_turn(path, h, at),
        |u: (), n: int|
            and_then(
                find_branch_turn(path, name, h, n),
                |branch: (BranchType, BranchInfo), n: int|
                    and_then(
                        find_branch_turn(path, base, h, n),
                        |base_branch: (BranchType, BranchInfo), n: int|
                            and_then(
                                peel_turn(path, name, branch.0, h, n),
                                |a: Oid, n: int|
                                    and_then(
                                        peel_turn(path, base, base_branch.0, h, n),
                                        |b: Oid, n: int|
                                            and_then(
                                                accepted(
                                                    id_turn(
                                                        RequestModel::MergeBase(path, a@, b@),
                                                        h,
                                                        n,
                                                    ),
                                                ),
                                                |id: Oid, n: int| Turn::Done(id@, n),
                                            ),
                                    ),
                            ),
                    ),
            ),
    )
}

/// The id of the commit that a branch leads to.
pub open spec fn branch_oid_turn(path: Seq<u8>, name: Seq<char>, h: Seq<Reply>, at: int) ->
    ServiceTurn<Seq<char>> {
    and_then(
        open_turn(path, h, at),
        |u: (), n: int|
            and_then(
                branch_commit_turn(path, name, h, n),
                |id: Oid, n: int| Turn::Done(text_of_oid(id@), n),
            ),
    )
}

/// Give a local branch another name, and let HEAD point at it.
pub open spec fn rename_branch_turn(
    path: Seq<u8>,
    old_name: Seq<char>,
    new_name: Seq<char>,
    h: Seq<Reply>,
    at: int,
) -> ServiceTurn<()> {
    and_then(
        open_turn(path, h, at),
        |u: (), n: int|
            and_then(
                branch_turn(RequestModel::FindBranch(path, old_name, BranchType::Local), h, n),
                |found: Result<BranchInfo, GitError>, n: int|
                    match found {
                        Err(_) => Turn::Failed(ServiceErrorModel::BranchNotFound(old_name), n),
                        Ok(_) => and_then(
                            accepted(
                                unit_turn(
                                    RequestModel::RenameBranch(path, old_name, new_name, false),
                                    h,
                                    n,
                                ),
                            ),
                            |u: (), n: int|
                                accepted(
                                    unit_turn(
                                        RequestModel::SetHead(path, "refs/heads/"@ + new_name),
                                        h,
                                        n,
                                    ),
                                ),
                        ),
                    },
            ),
    )
}

impl GitService {
    /// Find a branch: a local one, else a remote one.
    pub fn find_branch<'a>(repo: &RawText, branch_name: &str, io: &mut Dialogue<'a>) -> (r:
        ServiceResult<Branch<'a>>)
        ensures
            final(io).record() == old(io).record(),
            turn(r, final(io)) == find_branch_turn(
                repo@,
                branch_name@,
                old(io).record(),
                old(io).at(),
            ),
    {
        match io.branch(
            Request::FindBranch(repo.copy(), branch_name.to_owned(), BranchType::Local),
        )? {
            Ok(info) => Ok(Branch { kind: BranchType::Local, info }),
            Err(_) => match io.branch(
                Request::FindBranch(repo.copy(), branch_name.to_owned(), BranchType::Remote),
            )? {
                Ok(info) => Ok(Branch { kind: BranchType::Remote, info }),
                Err(_) => Err(
                    Interrupt::Failed(GitServiceError::BranchNotFound(branch_name.to_owned())),
                ),
            },
        }
    }

    /// The commit that a branch which was found leads to.
    pub(crate) fn peel<'a>(
        repo: &RawText,
        branch_name: &str,
        kind: BranchType,
        io: &mut Dialogue<'a>,
    ) -> (r: ServiceResult<&'a Oid>)
        ensures
            final(io).record() == old(io).record(),
            turn_ref(r, final(io)) == peel_turn(
                repo@,
                branch_name@,
                kind,
                old(io).record(),
                old(io).at(),
            ),
    {
        accept(io.id(Request::PeelBranch(repo.copy(), branch_name.to_owned(), kind)))
    }

    /// The commit that a branch leads to.
    pub(crate) fn branch_commit<'a>(repo: &RawText, branch_name: &str, io: &mut Dialogue<'a>) -> (r:
        ServiceResult<&'a Oid>)
        ensures
            final(io).record() == old(io).record(),
            turn_ref(r, final(io)) == branch_commit_turn(
                repo@,
                branch_name@,
                old(io).record(),
                old(io).at(),
            ),
    {
        let branch: Branch = GitService::find_branch(repo, branch_name, io)?;
        GitService::peel(repo, branch_name, branch.kind, io)
    }

    /// Whether a branch is local or remote.
    pub fn find_branch_type(&self, repo_path: &RawText, branch_name: &str, io: &mut Dialogue) -> (r:
        ServiceResult<BranchType>)
        ensures
            final(io).record() == old(io).record(),
            turn(r, final(io)) == branch_type_turn(
                repo_path@,
                branch_name@,
                old(io).record(),
                old(io).at(),
            ),
    {
        self.open_repo(repo_path, io)?;
        let branch: Branch = GitService::find_branch(repo_path, branch_name, io)?;
        Ok(branch.kind)
    }

    /// Whether there is a branch of this name.
    pub fn check_branch_exists(&self, repo_path: &RawText, branch_name: &str, io: &mut Dialogue) -> (
    r: ServiceResult<bool>)
        ensures
            final(io).record() == old(io).record(),
            turn(r, final(io)) == branch_exists_turn(
                repo_path@,
                branch_name@,
                old(io).record(),
                old(io).at(),
            ),
    {
        self.open_repo(repo_path, io)?;
        let found: ServiceResult<Result<Branch, GitServiceError>> = settle(
            GitService::find_branch(repo_path, branch_name, io),
        );
        match found? {
            Ok(_) => Ok(true),
            Err(_) => Ok(false),
        }
    }

    /// How many commits one branch is ahead of and behind another, by what they point at.
    pub fn get_branch_status_inner(
        &self,
        repo: &RawText,
        branch_ref: &BranchInfo,
        base_branch_ref: &BranchInfo,
        io: &mut Dialogue,
    ) -> (r: ServiceResult<(usize, usize)>)
        ensures
            final(io).record() == old(io).record(),
            turn(r, final(io)) == status_between_turn(
                repo@,
                *branch_ref,
                *base_branch_ref,
                old(io).record(),
                old(io).at(),
            ),
    {
        match (branch_ref.target, base_branch_ref.target) {
            (Some(a), Some(b)) => {
                let c: &(usize, usize) = accept(
                    io.counts(Request::AheadBehind(repo.copy(), a, b)),
                )?;
                Ok((c.0, c.1))
            },
            _ => Err(
                Interrupt::Failed(GitServiceError::BranchNotFound("Branch not found".to_owned())),
            ),
        }
    }

    /// How many commits a branch is ahead of and behind a base branch.
    pub fn get_branch_status(
        &self,
        repo_path: &RawText,
        branch_name: &str,
        base_branch_name: &str,
        io: &mut Dialogue,
    ) -> (r: ServiceResult<(usize, usize)>)
        ensures
            final(io).record() == old(io).record(),
            turn(r, final(io)) == branch_status_turn(
                repo_path@,
                branch_name@,
                base_branch_name@,
                old(io).record(),
                old(io).at(),
            ),
    {
        self.open_repo(repo_path, io)?;
        let branch: Branch = GitService::find_branch(repo_path, branch_name, io)?;
        let base: Branch = GitService::find_branch(repo_path, base_branch_name, io)?;
        self.get_branch_status_inner(repo_path, branch.info, base.info, io)
    }

    /// The commit at which a branch left a base branch.
    pub fn get_base_commit(
        &self,
        repo_path: &RawText,
        branch_name: &str,
        base_branch_name: &str,
        io: &mut Dialogue,
    ) -> (r: ServiceResult<Commit>)
        ensures
            final(io).record() == old(io).record(),
            turn(r, final(io)) == base_commit_turn(
                repo_path@,
                branch_name@,
                base_branch_name@,
                old(io).record(),
                old(io).at(),
            ),
    {
        self.open_repo(repo_path, io)?;
        let branch: Branch = GitService::find_branch(repo_path, branch_name, io)?;
        let base: Branch = GitService::find_branch(repo_path, base_branch_name, io)?;
        let a: &Oid = GitService::peel(repo_path, branch_name, branch.kind, io)?;
        let b: &Oid = GitService::peel(repo_path, base_branch_name, base.kind, io)?;
        let id: &Oid = accept(io.id(Request::MergeBase(repo_path.copy(), *a, *b)))?;
        Ok(Commit::new(*id))
    }

    /// The id of the commit that a branch leads to.
    pub fn get_branch_oid(&self, repo_path: &RawText, branch_name: &str, io: &mut Dialogue) -> (r:
        ServiceResult<String>)
        ensures
            final(io).record() == old(io).record(),
            turn(r, final(io)) == branch_oid_turn(
                repo_path@,
                branch_name@,
                old(io).record(),
                old(io).at(),
            ),
    {
        self.open_repo(repo_path, io)?;
        let id: &Oid = GitService::branch_commit(repo_path, branch_name, io)?;
        Ok(id.to_text())
    }

    /// Give a local branch another name, and let HEAD point at it.
    pub fn rename_local_branch(
        &self,
        worktree_path: &RawText,
        old_branch_name: &str,
        new_branch_name: &str,
        io: &mut Dialogue,
    ) -> (r: ServiceResult<()>)
        ensures
            final(io).record() == old(io).record(),
            turn(r, final(io)) == rename_branch_turn(
                worktree_path@,
                old_branch_name@,
                new_branch_name@,
                old(io).record(),
                old(io).at(),
            ),
    {
        self.open_repo(worktree_path, io)?;
        match io.branch(
            Request::FindBranch(
                worktree_path.copy(),
                old_branch_name.to_owned(),
                BranchType::Local,
            ),
        )? {
            Err(_) => Err(
                Interrupt::Failed(GitServiceError::BranchNotFound(old_branch_name.to_owned())),
            ),
            Ok(_) => {
                accept(
                    io.unit(
                        Request::RenameBranch(
                            worktree_path.copy(),
                            old_branch_name.to_owned(),
                            new_branch_name.to_owned(),
                            false,
                        ),
                    ),
                )?;
                let refname: String = cat("refs/heads/", new_branch_name);
                accept(io.unit(Request::SetHead(worktree_path.copy(), refname)))?;
                Ok(())
            },
        }
    }
}

// ---------------------------------------------------------------------------
// What is promised of finding branches
// ---------------------------------------------------------------------------

/// A local branch is found before a remote one of the same name, and without asking for that.
pub proof fn law_local_branch_first(
    repo: Seq<u8>,
    name: Seq<char>,
    h: Seq<Reply>,
    at: int,
    info: BranchInfo,
)
    requires
        0 <= at < h.len(),
        h[at] == Reply::Branch(Ok::<BranchInfo, GitError>(info)),
    ensures
        find_branch_turn(repo, name, h, at) == ServiceTurn::Done((BranchType::Local, info), at + 1),
{
}

/// Finding a branch fails only by not finding it, which names it; a branch is of some kind exactly
/// where it exists.
pub proof fn law_branch_found_or_not(path: Seq<u8>, name: Seq<char>, h: Seq<Reply>, at: int)
    ensures
        find_branch_turn(path, name, h, at) matches Turn::Failed(e, _) ==> e
            == ServiceErrorModel::BranchNotFound(name),
        branch_exists_turn(path, name, h, at) matches Turn::Done(b, n) ==> {
            &&& b <==> branch_type_turn(path, name, h, at) is Done
            &&& !b <==> branch_type_turn(path, name, h, at) == ServiceTurn::<BranchType>::Failed(
                ServiceErrorModel::BranchNotFound(name),
                n,
            )
        },
{
}

} // verus!
