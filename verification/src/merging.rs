//! Squash merges of a task branch into its base branch.
use vstd::prelude::*;

use crate::branches::{branch_status_turn, find_branch_turn, peel_turn, Branch};
use crate::cli::{plain_command, GitCli};
use crate::commands::{has_staged_changes_turn, merge_squash_turn, update_ref_turn};
use crate::dialogue::{
    accept, accepted, and_then, explain, explained, id_turn, merged_turn, turn, turn_ref, unit_turn,
    Dialogue, Interrupt, MergeSettings, NewCommit, NewCommitModel, RefUpdate, RefUpdateModel, Reply,
    Request, RequestModel, Turn,
};
use crate::errors::{GitError, GitServiceError, ServiceErrorModel};
use crate::model::{lemma_models_push, Model};
use crate::oid::{text_of_oid, Oid};
use crate::raw::{utf8, RawText};
use crate::records::{BranchInfo, BranchType, Identity};
use crate::service::{
    ensure_identity_turn, open_turn, signature_turn, GitService, ServiceResult, ServiceTurn,
};
use crate::text::{cat, cat3, decimal, decimal_text};
use crate::worktrees::checkout_path_turn;

verus! {

broadcast use lemma_models_push;

/// The commit that a squash merge makes: the merged tree on top of the base.
pub open spec fn squash_commit(
    identity: Identity,
    message: Seq<char>,
    tree: Seq<u8>,
    base: Seq<u8>,
) -> NewCommitModel {
    NewCommitModel { update_ref: None, identity, message, tree, parents: seq![base] }
}

/// How a squash merge merges: renames are searched for, and a conflict ends it.
pub open spec fn squash_settings() -> MergeSettings {
    MergeSettings { renames: true, fail_on_conflict: true }
}

/// Where the base branch is to point after a squash merge.
pub open spec fn squash_update(base_branch: Seq<char>, made: Seq<u8>) -> RefUpdateModel {
    RefUpdateModel {
        refname: "refs/heads/"@ + base_branch,
        target: made,
        force: true,
        log: "Squash merge"@,
    }
}

/// Where the task branch is to point after a squash merge.
pub open spec fn task_update(task_branch: Seq<char>, made: Seq<u8>) -> RefUpdateModel {
    RefUpdateModel {
        refname: "refs/heads/"@ + task_branch,
        target: made,
        force: true,
        log: "Reset task branch after squash merge"@,
    }
}

/// Merge a task commit into a base commit in memory, commit the result on top of the base and let
/// the base branch point at it. Conflicts end it before anything is written.
pub open spec fn squash_merge_turn(
    repo: Seq<u8>,
    base: Seq<u8>,
    task: Seq<u8>,
    identity: Identity,
    message: Seq<char>,
    base_branch: Seq<char>,
    h: Seq<Reply>,
    at: int,
) -> ServiceTurn<Oid> {
    and_then(
        accepted(merged_turn(RequestModel::MergeCommits(repo, base, task, squash_settings()), h, at)),
        |conflicts: bool, n: int|
            if conflicts {
                Turn::Failed(
                    ServiceErrorModel::MergeConflicts(
                        "Merge failed due to conflicts. Please resolve conflicts manually."@,
                    ),
                    n,
                )
            } else {
                and_then(
                    accepted(
                        id_turn(
                            RequestModel::WriteMergedTree(repo, base, task, squash_settings()),
                            h,
                            n,
                        ),
                    ),
                    |tree: Oid, n: int|
                        and_then(
                            accepted(unit_turn(RequestModel::FindTree(repo, tree@), h, n)),
                            |u: (), n: int|
                                and_then(
                                    accepted(
                                        id_turn(
                                            RequestModel::CreateCommit(
                                                repo,
                                                squash_commit(identity, message, tree@, base),
                                            ),
                                            h,
                                            n,
                                        ),
                                    ),
                                    |made: Oid, n: int|
                                        and_then(
                                            accepted(
                                                unit_turn(
                                                    RequestModel::UpdateReference(
                                                        repo,
                                                        squash_update(base_branch, made@),
                                                    ),
                                                    h,
                                                    n,
                                                ),
                                            ),
                                            |u: (), n: int| Turn::Done(made, n),
                                        ),
                                ),
                        ),
                )
            },
    )
}

/// Why a merge is refused where the base branch has moved on.
pub open spec fn diverged_text(base: Seq<char>, behind: nat, task: Seq<char>) -> Seq<char> {
    "Cannot merge: base branch '"@ + base + "' is "@ + decimal(behind)
        + " commits ahead of task branch '"@ + task
        + "'. The base branch has moved forward since the task was created."@
}

/// Merge where the base branch is checked out: only where nothing is staged there.
pub open spec fn merge_checked_out_turn(
    base_path: Seq<u8>,
    checkout: Seq<u8>,
    task: Seq<char>,
    base: Seq<char>,
    message: Seq<char>,
    h: Seq<Reply>,
    at: int,
) -> ServiceTurn<Seq<char>> {
    and_then(
        explained(has_staged_changes_turn(checkout, h, at), "git diff --cached failed: "@),
        |staged: bool, n: int|
            if staged {
                Turn::Failed(ServiceErrorModel::WorktreeDirty(base, "staged changes present"@), n)
            } else {
                and_then(
                    ensure_identity_turn(checkout, h, n),
                    |u: (), n: int|
                        and_then(
                            explained(
                                merge_squash_turn(checkout, base, task, message, h, n),
                                "CLI merge failed: "@,
                            ),
                            |sha: Seq<char>, n: int|
                                and_then(
                                    explained(
                                        update_ref_turn(
                                            base_path,
                                            "refs/heads/"@ + task,
                                            sha,
                                            h,
                                            n,
                                        ),
                                        "git update-ref failed: "@,
                                    ),
                                    |u: (), n: int| Turn::Done(sha, n),
                                ),
                        ),
                )
            },
    )
}

/// Merge where the base branch is not checked out: by references alone.
pub open spec fn merge_references_turn(
    base_path: Seq<u8>,
    task_path: Seq<u8>,
    task: Seq<char>,
    base: Seq<char>,
    message: Seq<char>,
    h: Seq<Reply>,
    at: int,
) -> ServiceTurn<Seq<char>> {
    and_then(
        find_branch_turn(task_path, task, h, at),
        |task_branch: (BranchType, BranchInfo), n: int|
            and_then(
                find_branch_turn(task_path, base, h, n),
                |base_branch: (BranchType, BranchInfo), n: int|
                    and_then(
                        peel_turn(task_path, base, base_branch.0, h, n),
                        |base_commit: Oid, n: int|
                            and_then(
                                peel_turn(task_path, task, task_branch.0, h, n),
                                |task_commit: Oid, n: int|
                                    merge_commits_turn(
                                        base_path,
                                        task_path,
                                        task,
                                        base,
                                        message,
                                        base_commit@,
                                        task_commit@,
                                        h,
                                        n,
                                    ),
                            ),
                    ),
            ),
    )
}

/// `merge_references_turn` from where both commits are known.
pub open spec fn merge_commits_turn(
    base_path: Seq<u8>,
    task_path: Seq<u8>,
    task: Seq<char>,
    base: Seq<char>,
    message: Seq<char>,
    base_commit: Seq<u8>,
    task_commit: Seq<u8>,
    h: Seq<Reply>,
    at: int,
) -> ServiceTurn<Seq<char>> {
    and_then(
        signature_turn(task_path, h, at),
        |identity: Identity, n: int|
            and_then(
                squash_merge_turn(
                    task_path,
                    base_commit,
                    task_commit,
                    identity,
                    message,
                    base,
                    h,
                    n,
                ),
                |made: Oid, n: int|
                    and_then(
                        accepted(
                            unit_turn(
                                RequestModel::UpdateReference(base_path, task_update(task, made@)),
                                h,
                                n,
                            ),
                        ),
                        |u: (), n: int| Turn::Done(text_of_oid(made@), n),
                    ),
            ),
    )
}

/// Merge a task branch into its base branch, unless the base has moved on.
pub open spec fn merge_changes_turn(
    base_path: Seq<u8>,
    task_path: Seq<u8>,
    task: Seq<char>,
    base: Seq<char>,
    message: Seq<char>,
    h: Seq<Reply>,
    at: int,
) -> ServiceTurn<Seq<char>> {
    and_then(
        open_turn(task_path, h, at),
        |u: (), n: int|
            and_then(
                open_turn(base_path, h, n),
                |u: (), n: int|
                    and_then(
                        branch_status_turn(base_path, task, base, h, n),
                        |status: (int, int), n: int|
                            if status.1 > 0 {
                                Turn::Failed(
                                    ServiceErrorModel::BranchesDiverged(
                                        diverged_text(base, status.1 as nat, task),
                                    ),
                                    n,
                                )
                            } else {
                                and_then(
                                    checkout_path_turn(base_path, base, h, n),
                                    |checkout: Option<Seq<u8>>, n: int|
                                        match checkout {
                                            Some(path) => merge_checked_out_turn(
                                                base_path,
                                                path,
                                                task,
                                                base,
                                                message,
                                                h,
                                                n,
                                            ),
                                            None => merge_references_turn(
                                                base_path,
                                                task_path,
                                                task,
                                                base,
                                                message,
                                                h,
                                                n,
                                            ),
                                        },
                                )
                            },
                    ),
            ),
    )
}

/// Why a merge is refused where the base branch has moved on.
pub fn diverged_message(base_branch_name: &str, task_behind: usize, task_branch_name: &str) -> (r:
    String)
    ensures
        r@ == diverged_text(base_branch_name@, task_behind as nat, task_branch_name@),
{
    let start: String = cat3("Cannot merge: base branch '", base_branch_name, "' is ");
    let middle: String = cat3(
        start.as_str(),
        decimal_text(task_behind).as_str(),
        " commits ahead of task branch '",
    );
    cat3(
        middle.as_str(),
        task_branch_name,
        "'. The base branch has moved forward since the task was created.",
    )
}

impl GitService {
    /// Merge a task commit into a base commit in memory, commit the result on top of the base and
    /// let the base branch point at it.
    pub fn perform_squash_merge<'a>(
        &self,
        repo: &RawText,
        base_commit: &Oid,
        task_commit: &Oid,
        identity: Identity,
        commit_message: &str,
        base_branch_name: &str,
        io: &mut Dialogue<'a>,
    ) -> (r: ServiceResult<&'a Oid>)
        ensures
            final(io).record() == old(io).record(),
            turn_ref(r, final(io)) == squash_merge_turn(
                repo@,
                base_commit@,
                task_commit@,
                identity,
                commit_message@,
                base_branch_name@,
                old(io).record(),
                old(io).at(),
            ),
    {
        let settings: MergeSettings = MergeSettings { renames: true, fail_on_conflict: true };
        let conflicts: bool = *accept(
            io.merged(Request::MergeCommits(repo.copy(), *base_commit, *task_commit, settings)),
        )?;
        if conflicts {
            return Err(
                Interrupt::Failed(
                    GitServiceError::MergeConflicts(
                        "Merge failed due to conflicts. Please resolve conflicts manually.".to_owned(),
                    ),
                ),
            );
        }
        let tree: &Oid = accept(
            io.id(Request::WriteMergedTree(repo.copy(), *base_commit, *task_commit, settings)),
        )?;
        accept(io.unit(Request::FindTree(repo.copy(), *tree)))?;
        let mut parents: Vec<Oid> = Vec::new();
        parents.push(*base_commit);
        assert(parents.model() =~= seq![base_commit@]);
        let commit: NewCommit = NewCommit {
            update_ref: None,
            identity,
            message: commit_message.to_owned(),
            tree: *tree,
            parents,
        };
        let made: &'a Oid = accept(io.id(Request::CreateCommit(repo.copy(), commit)))?;
        let update: RefUpdate = RefUpdate {
            refname: cat("refs/heads/", base_branch_name),
            target: *made,
            force: true,
            log: "Squash merge".to_owned(),
        };
        accept(io.unit(Request::UpdateReference(repo.copy(), update)))?;
        Ok(made)
    }

    fn merge_checked_out(
        &self,
        base_path: &RawText,
        checkout: &RawText,
        task: &str,
        base: &str,
        message: &str,
        io: &mut Dialogue,
    ) -> (r: ServiceResult<String>)
        ensures
            final(io).record() == old(io).record(),
            turn(r, final(io)) == merge_checked_out_turn(
                base_path@,
                checkout@,
                task@,
                base@,
                message@,
                old(io).record(),
                old(io).at(),
            ),
    {
        let git: &GitCli = self.cli();
        let staged: bool = explain(
            git.has_staged_changes(checkout, io),
            "git diff --cached failed: ",
        )?;
        if staged {
            return Err(
                Interrupt::Failed(
                    GitServiceError::WorktreeDirty(
                        base.to_owned(),
                        "staged changes present".to_owned(),
                    ),
                ),
            );
        }
        self.ensure_cli_commit_identity(checkout, io)?;
        let sha: String = explain(
            git.merge_squash_commit(checkout, base, task, message, io),
            "CLI merge failed: ",
        )?;
        let refname: String = cat("refs/heads/", task);
        explain(
            git.update_ref(base_path, refname.as_str(), sha.as_str(), io),
            "git update-ref failed: ",
        )?;
        Ok(sha)
    }

    fn merge_references(
        &self,
        base_path: &RawText,
        task_path: &RawText,
        task: &str,
        base: &str,
        message: &str,
        io: &mut Dialogue,
    ) -> (r: ServiceResult<String>)
        ensures
            final(io).record() == old(io).record(),
            turn(r, final(io)) == merge_references_turn(
                base_path@,
                task_path@,
                task@,
                base@,
                message@,
                old(io).record(),
                old(io).at(),
            ),
    {
        let task_branch: Branch = GitService::find_branch(task_path, task, io)?;
        let base_branch: Branch = GitService::find_branch(task_path, base, io)?;
        let base_commit: &Oid = GitService::peel(task_path, base, base_branch.kind, io)?;
        let task_commit: &Oid = GitService::peel(task_path, task, task_branch.kind, io)?;
        let identity: Identity = self.signature_with_fallback(task_path, io)?;
        let made: &Oid = self.perform_squash_merge(
            task_path,
            base_commit,
            task_commit,
            identity,
            message,
            base,
            io,
        )?;
        let update: RefUpdate = RefUpdate {
            refname: cat("refs/heads/", task),
            target: *made,
            force: true,
            log: "Reset task branch after squash merge".to_owned(),
        };
        accept(io.unit(Request::UpdateReference(base_path.copy(), update)))?;
        Ok(made.to_text())
    }

    /// Merge a task branch into its base branch, unless the base has moved on. Returns the id of
    /// the commit that was made.
    pub fn merge_changes(
        &self,
        base_worktree_path: &RawText,
        task_worktree_path: &RawText,
        task_branch_name: &str,
        base_branch_name: &str,
        commit_message: &str,
        io: &mut Dialogue,
    ) -> (r: ServiceResult<String>)
        ensures
            final(io).record() == old(io).record(),
            turn(r, final(io)) == merge_changes_turn(
                base_worktree_path@,
                task_worktree_path@,
                task_branch_name@,
                base_branch_name@,
                commit_message@,
                old(io).record(),
                old(io).at(),
            ),
    {
        self.open_repo(task_worktree_path, io)?;
        self.open_repo(base_worktree_path, io)?;
        let (_, task_behind) = self.get_branch_status(
            base_worktree_path,
            task_branch_name,
            base_branch_name,
            io,
        )?;
        if task_behind > 0 {
            return Err(
                Interrupt::Failed(
                    GitServiceError::BranchesDiverged(
                        diverged_message(base_branch_name, task_behind, task_branch_name),
                    ),
                ),
            );
        }
        match self.find_checkout_path_for_branch(base_worktree_path, base_branch_name, io)? {
            Some(checkout) => self.merge_checked_out(
                base_worktree_path,
                &checkout,
                task_branch_name,
                base_branch_name,
                commit_message,
                io,
            ),
            None => self.merge_references(
                base_worktree_path,
                task_worktree_path,
                task_branch_name,
                base_branch_name,
                commit_message,
                io,
            ),
        }
    }
}

// ---------------------------------------------------------------------------
// What is promised of merges
// ---------------------------------------------------------------------------

/// Conflicts end a merge in memory before anything is written.
pub proof fn law_conflicts_end_merge(
    repo: Seq<u8>,
    base: Seq<u8>,
    task: Seq<u8>,
    identity: Identity,
    message: Seq<char>,
    base_branch: Seq<char>,
    h: Seq<Reply>,
    at: int,
)
    requires
        0 <= at < h.len(),
        h[at] == Reply::Merged(Ok::<bool, GitError>(true)),
    ensures
        squash_merge_turn(repo, base, task, identity, message, base_branch, h, at) == ServiceTurn::<
            Oid,
        >::Failed(
            ServiceErrorModel::MergeConflicts(
                "Merge failed due to conflicts. Please resolve conflicts manually."@,
            ),
            at + 1,
        ),
{
}

/// A merge by references that succeeds ends with three requests: for the commit, whose only parent
/// is the base; for the base branch to point at it; and for the task branch to point at it. The id
/// that is returned is that of the commit.
pub proof fn law_merged_branches_meet(
    base_path: Seq<u8>,
    task_path: Seq<u8>,
    task: Seq<char>,
    base: Seq<char>,
    message: Seq<char>,
    base_commit: Seq<u8>,
    task_commit: Seq<u8>,
    h: Seq<Reply>,
    at: int,
    sha: Seq<char>,
    n: int,
)
    requires
        0 <= at,
        merge_commits_turn(
            base_path,
            task_path,
            task,
            base,
            message,
            base_commit,
            task_commit,
            h,
            at,
        ) == ServiceTurn::Done(sha, n),
    ensures
        at + 3 <= n <= h.len(),
        h[n - 3] matches Reply::Id(Ok(made)) && {
            &&& sha == text_of_oid(made@)
            &&& merge_commits_turn(
                base_path,
                task_path,
                task,
                base,
                message,
                base_commit,
                task_commit,
                h.take(n - 1),
                at,
            ) == ServiceTurn::<Seq<char>>::Ask(
                RequestModel::UpdateReference(base_path, task_update(task, made@)),
            )
            &&& merge_commits_turn(
                base_path,
                task_path,
                task,
                base,
                message,
                base_commit,
                task_commit,
                h.take(n - 2),
                at,
            ) == ServiceTurn::<Seq<char>>::Ask(
                RequestModel::UpdateReference(task_path, squash_update(base, made@)),
            )
        },
        merge_commits_turn(
            base_path,
            task_path,
            task,
            base,
            message,
            base_commit,
            task_commit,
            h.take(n - 3),
            at,
        ) matches Turn::Ask(RequestModel::CreateCommit(repo, commit)) && repo == task_path
            && commit.parents == seq![base_commit] && commit.message == message
            && commit.update_ref is None,
{
}

/// A merge where the base branch is checked out ends with the request that the task branch point at
/// the commit whose id is returned.
pub proof fn law_merged_task_branch_follows(
    base_path: Seq<u8>,
    checkout: Seq<u8>,
    task: Seq<char>,
    base: Seq<char>,
    message: Seq<char>,
    h: Seq<Reply>,
    at: int,
    sha: Seq<char>,
    n: int,
)
    requires
        0 <= at,
        merge_checked_out_turn(base_path, checkout, task, base, message, h, at)
            == ServiceTurn::Done(sha, n),
    ensures
        0 < n <= h.len(),
        merge_checked_out_turn(base_path, checkout, task, base, message, h.take(n - 1), at)
            == ServiceTurn::<Seq<char>>::Ask(
            RequestModel::Run(
                plain_command(
                    base_path,
                    seq![utf8("update-ref"@), utf8("refs/heads/"@ + task), utf8(sha)],
                ),
            ),
        ),
{
}

} // verus!
