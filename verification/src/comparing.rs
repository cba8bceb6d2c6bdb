//! Diffs of worktrees, branches and commits.
use vstd::prelude::*;

use crate::branches::branch_commit_turn;
use crate::commands::diff_status_turn;
use crate::dialogue::{
    accept, accepted, and_then, commit_turn, deltas_turn, explain, explained, id_turn, turn,
    turn_ref, Dialogue, Interrupt, Reply, Request, RequestModel, TreeDiff, TreeDiffModel, Turn,
};
use crate::diff::{converted_turn, status_diffs_turn, Diff, DiffModel};
use crate::errors::{GitError, GitServiceError, ServiceErrorModel};
use crate::model::{lemma_models_push, Model};
use crate::oid::{oid_of_text, Commit, Oid};
use crate::porcelain::{StatusDiffEntry, StatusDiffModel, StatusDiffOptions};
use crate::raw::RawText;
use crate::records::{CommitInfo, DiffRecord};
use crate::service::{open_turn, GitService, ServiceResult, ServiceTurn};
use crate::text::{cat, copied_texts};

verus! {

broadcast use lemma_models_push;

/// What a diff is made of.
pub enum DiffTarget<'p> {
    /// The worktree against a commit, uncommitted changes counted in.
    Worktree { worktree_path: &'p RawText, base_commit: &'p Commit },
    /// A branch against its base branch.
    Branch { repo_path: &'p RawText, branch_name: &'p str, base_branch: &'p str },
    /// A commit against its first parent.
    Commit { repo_path: &'p RawText, commit_sha: &'p str },
}

/// What a `DiffTarget` stands for.
pub enum TargetModel {
    Worktree { path: Seq<u8>, base: Seq<u8> },
    Branch { path: Seq<u8>, branch: Seq<char>, base: Seq<char> },
    Commit { path: Seq<u8>, sha: Seq<char> },
}

impl<'p> Model for DiffTarget<'p> {
    type M = TargetModel;

    open spec fn model(&self) -> TargetModel {
        match self {
            DiffTarget::Worktree { worktree_path, base_commit } => TargetModel::Worktree {
                path: worktree_path@,
                base: base_commit@,
            },
            DiffTarget::Branch { repo_path, branch_name, base_branch } => TargetModel::Branch {
                path: repo_path@,
                branch: branch_name@,
                base: base_branch@,
            },
            DiffTarget::Commit { repo_path, commit_sha } => TargetModel::Commit {
                path: repo_path@,
                sha: commit_sha@,
            },
        }
    }
}

/// The tree of a commit.
pub open spec fn tree_turn(repo: Seq<u8>, commit: Seq<u8>, h: Seq<Reply>, at: int) -> ServiceTurn<
    Oid,
> {
    accepted(id_turn(RequestModel::TreeOf(repo, commit), h, at))
}

/// The tree of the commit that a branch leads to.
pub open spec fn branch_tree_turn(repo: Seq<u8>, name: Seq<char>, h: Seq<Reply>, at: int) ->
    ServiceTurn<Oid> {
    and_then(
        branch_commit_turn(repo, name, h, at),
        |commit: Oid, n: int| tree_turn(repo, commit@, h, n),
    )
}

/// The paths that a diff is limited to; none limit it where no filter is given.
pub open spec fn limits(filter: Option<Seq<Seq<char>>>) -> Seq<Seq<char>> {
    match filter {
        Some(paths) => paths,
        None => seq![],
    }
}

/// How two trees are compared: type changes are reported, and renames are searched for.
pub open spec fn tree_diff(
    old_tree: Seq<u8>,
    new_tree: Seq<u8>,
    filter: Option<Seq<Seq<char>>>,
) -> TreeDiffModel {
    TreeDiffModel {
        old_tree,
        new_tree,
        pathspecs: limits(filter),
        typechanges: true,
        renames: true,
    }
}

/// The changes between two trees.
pub open spec fn tree_diffs_turn(
    repo: Seq<u8>,
    old_tree: Seq<u8>,
    new_tree: Seq<u8>,
    filter: Option<Seq<Seq<char>>>,
    h: Seq<Reply>,
    at: int,
) -> ServiceTurn<Seq<DiffModel>> {
    and_then(
        accepted(
            deltas_turn(
                RequestModel::DiffTrees(repo, tree_diff(old_tree, new_tree, filter)),
                h,
                at,
            ),
        ),
        |diff: DiffRecord, n: int| converted_turn(repo, diff, h, n),
    )
}

/// The changes of a worktree against a commit.
pub open spec fn worktree_diffs_turn(
    dirs: Seq<Seq<char>>,
    path: Seq<u8>,
    base: Seq<u8>,
    filter: Option<Seq<Seq<char>>>,
    h: Seq<Reply>,
    at: int,
) -> ServiceTurn<Seq<DiffModel>> {
    and_then(
        open_turn(path, h, at),
        |u: (), n: int|
            and_then(
                accepted(commit_turn(RequestModel::FindCommit(path, base), h, n)),
                |c: CommitInfo, n: int|
                    and_then(
                        id_turn(RequestModel::TreeOf(path, base), h, n),
                        |tree: Result<Oid, GitError>, n: int|
                            match tree {
                                Err(e) => Turn::Failed(
                                    ServiceErrorModel::InvalidRepository(
                                        "Failed to find base commit tree: "@ + e.shown@,
                                    ),
                                    n,
                                ),
                                Ok(id) => and_then(
                                    explained(
                                        diff_status_turn(dirs, path, base, filter, h, n),
                                        "git diff failed: "@,
                                    ),
                                    |entries: Seq<StatusDiffModel>, n: int|
                                        status_diffs_turn(path, id@, entries, 0, seq![], h, n),
                                ),
                            },
                    ),
            ),
    )
}

/// The changes of a branch against its base branch.
pub open spec fn branch_diffs_turn(
    path: Seq<u8>,
    branch: Seq<char>,
    base: Seq<char>,
    filter: Option<Seq<Seq<char>>>,
    h: Seq<Reply>,
    at: int,
) -> ServiceTurn<Seq<DiffModel>> {
    and_then(
        open_turn(path, h, at),
        |u: (), n: int|
            and_then(
                branch_tree_turn(path, base, h, n),
                |base_tree: Oid, n: int|
                    and_then(
                        branch_tree_turn(path, branch, h, n),
                        |branch_tree: Oid, n: int|
                            tree_diffs_turn(path, base_tree@, branch_tree@, filter, h, n),
                    ),
            ),
    )
}

/// The first parent of a commit.
pub open spec fn parent_turn(repo: Seq<u8>, commit: Seq<u8>, h: Seq<Reply>, at: int) -> ServiceTurn<
    Oid,
> {
    and_then(
        id_turn(RequestModel::ParentOf(repo, commit), h, at),
        |parent: Result<Oid, GitError>, n: int|
            match parent {
                Ok(id) => Turn::Done(id, n),
                Err(_) => Turn::Failed(
                    ServiceErrorModel::InvalidRepository(
                        "Commit has no parent; cannot diff a squash merge without a baseline"@,
                    ),
                    n,
                ),
            },
    )
}

/// The changes of a commit against its first parent.
pub open spec fn commit_diffs_turn(
    path: Seq<u8>,
    sha: Seq<char>,
    filter: Option<Seq<Seq<char>>>,
    h: Seq<Reply>,
    at: int,
) -> ServiceTurn<Seq<DiffModel>> {
    and_then(
        open_turn(path, h, at),
        |u: (), n: int|
            match oid_of_text(sha) {
                None => Turn::Failed(
                    ServiceErrorModel::InvalidRepository("Invalid commit SHA: "@ + sha),
                    n,
                ),
                Some(id) => and_then(
                    accepted(commit_turn(RequestModel::FindCommit(path, id), h, n)),
                    |c: CommitInfo, n: int|
                        and_then(
                            parent_turn(path, id, h, n),
                            |parent: Oid, n: int|
                                and_then(
                                    tree_turn(path, parent@, h, n),
                                    |parent_tree: Oid, n: int|
                                        and_then(
                                            tree_turn(path, id, h, n),
                                            |tree: Oid, n: int|
                                                tree_diffs_turn(
                                                    path,
                                                    parent_tree@,
                                                    tree@,
                                                    filter,
                                                    h,
                                                    n,
                                                ),
                                        ),
                                ),
                        ),
                ),
            },
    )
}

/// The changes that a target stands for, limited to the paths of a filter.
pub open spec fn get_diffs_turn(
    dirs: Seq<Seq<char>>,
    target: TargetModel,
    filter: Option<Seq<Seq<char>>>,
    h: Seq<Reply>,
    at: int,
) -> ServiceTurn<Seq<DiffModel>> {
    match target {
        TargetModel::Worktree { path, base } => worktree_diffs_turn(dirs, path, base, filter, h, at),
        TargetModel::Branch { path, branch, base } => branch_diffs_turn(
            path,
            branch,
            base,
            filter,
            h,
            at,
        ),
        TargetModel::Commit { path, sha } => commit_diffs_turn(path, sha, filter, h, at),
    }
}

impl GitService {
    /// The changes that a target stands for, limited to the paths of `path_filter`.
    pub fn get_diffs(
        &self,
        target: DiffTarget,
        path_filter: Option<&Vec<String>>,
        io: &mut Dialogue,
    ) -> (r: ServiceResult<Vec<Diff>>)
        ensures
            final(io).record() == old(io).record(),
            turn(r, final(io)) == get_diffs_turn(
                self.dirs(),
                target.model(),
                match path_filter {
                    Some(v) => Some(v.model()),
                    None => None,
                },
                old(io).record(),
                old(io).at(),
            ),
    {
        match target {
            DiffTarget::Worktree { worktree_path, base_commit } => self.worktree_diffs(
                worktree_path,
                base_commit,
                path_filter,
                io,
            ),
            DiffTarget::Branch { repo_path, branch_name, base_branch } => self.branch_diffs(
                repo_path,
                branch_name,
                base_branch,
                path_filter,
                io,
            ),
            DiffTarget::Commit { repo_path, commit_sha } => self.commit_diffs(
                repo_path,
                commit_sha,
                path_filter,
                io,
            ),
        }
    }

    fn worktree_diffs(
        &self,
        worktree_path: &RawText,
        base_commit: &Commit,
        path_filter: Option<&Vec<String>>,
        io: &mut Dialogue,
    ) -> (r: ServiceResult<Vec<Diff>>)
        ensures
            final(io).record() == old(io).record(),
            turn(r, final(io)) == worktree_diffs_turn(
                self.dirs(),
                worktree_path@,
                base_commit@,
                match path_filter {
                    Some(v) => Some(v.model()),
                    None => None,
                },
                old(io).record(),
                old(io).at(),
            ),
    {
        self.open_repo(worktree_path, io)?;
        accept(io.commit(Request::FindCommit(worktree_path.copy(), base_commit.as_oid())))?;
        let base_tree: &Oid = match io.id(
            Request::TreeOf(worktree_path.copy(), base_commit.as_oid()),
        )? {
            Ok(tree) => tree,
            Err(e) => {
                return Err(
                    Interrupt::Failed(
                        GitServiceError::InvalidRepository(
                            cat("Failed to find base commit tree: ", e.shown.as_str()),
                        ),
                    ),
                );
            },
        };
        let opts: StatusDiffOptions = StatusDiffOptions {
            path_filter: match path_filter {
                Some(paths) => Some(copied_texts(paths)),
                None => None,
            },
        };
        let entries: Vec<StatusDiffEntry> = explain(
            self.cli().diff_status(worktree_path, base_commit, &opts, io),
            "git diff failed: ",
        )?;
        GitService::status_entries_to_diffs(worktree_path, base_tree, &entries, io)
    }

    fn branch_tree<'a>(repo: &RawText, branch_name: &str, io: &mut Dialogue<'a>) -> (r:
        ServiceResult<&'a Oid>)
        ensures
            final(io).record() == old(io).record(),
            turn_ref(r, final(io)) == branch_tree_turn(
                repo@,
                branch_name@,
                old(io).record(),
                old(io).at(),
            ),
    {
        let commit: &Oid = GitService::branch_commit(repo, branch_name, io)?;
        accept(io.id(Request::TreeOf(repo.copy(), *commit)))
    }

    fn tree_diffs(
        &self,
        repo: &RawText,
        old_tree: &Oid,
        new_tree: &Oid,
        path_filter: Option<&Vec<String>>,
        io: &mut Dialogue,
    ) -> (r: ServiceResult<Vec<Diff>>)
        ensures
            final(io).record() == old(io).record(),
            turn(r, final(io)) == tree_diffs_turn(
                repo@,
                old_tree@,
                new_tree@,
                match path_filter {
                    Some(v) => Some(v.model()),
                    None => None,
                },
                old(io).record(),
                old(io).at(),
            ),
    {
        let pathspecs: Vec<String> = match path_filter {
            Some(paths) => copied_texts(paths),
            None => Vec::new(),
        };
        assert(path_filter is None ==> pathspecs.model() =~= seq![]);
        let request: TreeDiff = TreeDiff {
            old_tree: *old_tree,
            new_tree: *new_tree,
            pathspecs,
            typechanges: true,
            renames: true,
        };
        let diff: &DiffRecord = accept(io.deltas(Request::DiffTrees(repo.copy(), request)))?;
        self.convert_diff_to_file_diffs(diff, repo, io)
    }

    fn branch_diffs(
        &self,
        repo_path: &RawText,
        branch_name: &str,
        base_branch: &str,
        path_filter: Option<&Vec<String>>,
        io: &mut Dialogue,
    ) -> (r: ServiceResult<Vec<Diff>>)
        ensures
            final(io).record() == old(io).record(),
            turn(r, final(io)) == branch_diffs_turn(
                repo_path@,
                branch_name@,
                base_branch@,
                match path_filter {
                    Some(v) => Some(v.model()),
                    None => None,
                },
                old(io).record(),
                old(io).at(),
            ),
    {
        self.open_repo(repo_path, io)?;
        let base_tree: &Oid = GitService::branch_tree(repo_path, base_branch, io)?;
        let branch_tree: &Oid = GitService::branch_tree(repo_path, branch_name, io)?;
        self.tree_diffs(repo_path, base_tree, branch_tree, path_filter, io)
    }

    fn commit_diffs(
        &self,
        repo_path: &RawText,
        commit_sha: &str,
        path_filter: Option<&Vec<String>>,
        io: &mut Dialogue,
    ) -> (r: ServiceResult<Vec<Diff>>)
        ensures
            final(io).record() == old(io).record(),
            turn(r, final(io)) == commit_diffs_turn(
                repo_path@,
                commit_sha@,
                match path_filter {
                    Some(v) => Some(v.model()),
                    None => None,
                },
                old(io).record(),
                old(io).at(),
            ),
    {
        self.open_repo(repo_path, io)?;
        let id: Oid = match Oid::parse(commit_sha) {
            Some(id) => id,
            None => {
                return Err(
                    Interrupt::Failed(
                        GitServiceError::InvalidRepository(
                            cat("Invalid commit SHA: ", commit_sha),
                        ),
                    ),
                );
            },
        };
        accept(io.commit(Request::FindCommit(repo_path.copy(), id)))?;
        let parent: &Oid = match io.id(Request::ParentOf(repo_path.copy(), id))? {
            Ok(parent) => parent,
            Err(_) => {
                return Err(
                    Interrupt::Failed(
                        GitServiceError::InvalidRepository(
                            "Commit has no parent; cannot diff a squash merge without a baseline".to_owned(),
                        ),
                    ),
                );
            },
        };
        let parent_tree: &Oid = accept(io.id(Request::TreeOf(repo_path.copy(), *parent)))?;
        let commit_tree: &Oid = accept(io.id(Request::TreeOf(repo_path.copy(), id)))?;
        self.tree_diffs(repo_path, parent_tree, commit_tree, path_filter, io)
    }
}

} // verus!
