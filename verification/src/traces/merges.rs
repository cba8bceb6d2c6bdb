//! What merges and rebases ask, and what they come to.
use vstd::prelude::*;

use crate::branches::{branch_status_turn, find_branch_turn};
use crate::cli::CliTurn;
use crate::commands::{merge_base_turn, rebase_in_progress_turn, rebase_onto_turn};
use crate::dialogue::{
    settled, CommandModel, MergeSettings, NewCommitModel, RefUpdateModel, Reply, RequestModel, Turn,
};
use crate::errors::{CliErrorModel, GitError, ServiceErrorModel};
use crate::merging::{
    merge_changes_turn, merge_checked_out_turn, merge_commits_turn, merge_references_turn,
};
use crate::model::Model;
use crate::oid::{text_of_oid, Oid};
use crate::raw::utf8;
use crate::rebasing::{failed_rebase_turn, rebase_branch_turn, rebase_checked_turn, rebased_turn};
use crate::records::{BranchInfo, BranchType, Identity, RunEnd, RunReport, VersionReport};
use crate::remotes::fetch_branch_turn;
use crate::service::{ensure_identity_turn, signature_turn, ServiceTurn};
use crate::text::{trimmed, utf8_lossy};
use crate::traces::ended_well;
use crate::worktrees::{check_clean_turn, checkout_path_turn};

verus! {

/// A branch is looked for by its name, first as a local one; where there is one, it is found.
pub proof fn law_branch_found_locally(
    repo: Seq<u8>,
    name: Seq<char>,
    info: BranchInfo,
    h: Seq<Reply>,
    at: int,
)
    requires
        0 <= at <= h.len(),
        h.len() > at ==> h[at] == Reply::Branch(Ok::<BranchInfo, GitError>(info)),
    ensures
        h.len() == at
            ==> find_branch_turn(repo, name, h, at) == ServiceTurn::<(BranchType, BranchInfo)>::Ask(
                RequestModel::FindBranch(repo, name, BranchType::Local),
            ),
        h.len() >= at + 1
            ==> find_branch_turn(repo, name, h, at)
                == ServiceTurn::<(BranchType, BranchInfo)>::Done((BranchType::Local, info), at + 1),
{
}

/// Where there is no local branch of a name, the remote one of that name is found.
pub proof fn law_branch_found_remotely(
    repo: Seq<u8>,
    name: Seq<char>,
    x: GitError,
    info: BranchInfo,
    h: Seq<Reply>,
    at: int,
)
    requires
        0 <= at <= h.len(),
        h.len() > at ==> h[at] == Reply::Branch(Err::<BranchInfo, GitError>(x)),
        h.len() > at + 1 ==> h[at + 1] == Reply::Branch(Ok::<BranchInfo, GitError>(info)),
    ensures
        h.len() == at
            ==> find_branch_turn(repo, name, h, at) == ServiceTurn::<(BranchType, BranchInfo)>::Ask(
                RequestModel::FindBranch(repo, name, BranchType::Local),
            ),
        h.len() == at + 1
            ==> find_branch_turn(repo, name, h, at) == ServiceTurn::<(BranchType, BranchInfo)>::Ask(
                RequestModel::FindBranch(repo, name, BranchType::Remote),
            ),
        h.len() >= at + 2
            ==> find_branch_turn(repo, name, h, at)
                == ServiceTurn::<(BranchType, BranchInfo)>::Done(
                    (BranchType::Remote, info),
                    at + 2,
                ),
{
}

/// A merge by references merges the task commit into the base commit. The tree of the new commit
/// is that very merge, its only parent is the base commit, and it carries the identity that the
/// signature gave; then both branches point at it. Any step that fails ends the merge with that
/// failure.
pub proof fn law_commits_merged_by_configured(
    base_path: Seq<u8>,
    task_path: Seq<u8>,
    task: Seq<char>,
    base: Seq<char>,
    message: Seq<char>,
    base_commit: Seq<u8>,
    task_commit: Seq<u8>,
    tree: Oid,
    made: Oid,
    h: Seq<Reply>,
    at: int,
    k: int,
    e: GitError,
)
    requires
        0 <= at <= h.len(),
        k != 0,
        h.len() > at ==> h[at] == Reply::Unit(Ok::<(), GitError>(())),
        h.len() > at + 1
            ==> h[at + 1] == if k == 1 {
                Reply::Merged(Err::<bool, GitError>(e))
            } else {
                Reply::Merged(Ok::<bool, GitError>(false))
            },
        h.len() > at + 2
            ==> h[at + 2] == if k == 2 {
                Reply::Id(Err::<Oid, GitError>(e))
            } else {
                Reply::Id(Ok::<Oid, GitError>(tree))
            },
        h.len() > at + 3
            ==> h[at + 3] == if k == 3 {
                Reply::Unit(Err::<(), GitError>(e))
            } else {
                Reply::Unit(Ok::<(), GitError>(()))
            },
        h.len() > at + 4
            ==> h[at + 4] == if k == 4 {
                Reply::Id(Err::<Oid, GitError>(e))
            } else {
                Reply::Id(Ok::<Oid, GitError>(made))
            },
        h.len() > at + 5
            ==> h[at + 5] == if k == 5 {
                Reply::Unit(Err::<(), GitError>(e))
            } else {
                Reply::Unit(Ok::<(), GitError>(()))
            },
        h.len() > at + 6
            ==> h[at + 6] == if k == 6 {
                Reply::Unit(Err::<(), GitError>(e))
            } else {
                Reply::Unit(Ok::<(), GitError>(()))
            },
    ensures
        h.len() == at
            ==> merge_commits_turn(
                base_path,
                task_path,
                task,
                base,
                message,
                base_commit,
                task_commit,
                h,
                at,
            ) == ServiceTurn::<Seq<char>>::Ask(RequestModel::Signature(task_path)),
        h.len() == at + 1 && !(0 <= k < 1)
            ==> merge_commits_turn(
                base_path,
                task_path,
                task,
                base,
                message,
                base_commit,
                task_commit,
                h,
                at,
            )
                == ServiceTurn::<Seq<char>>::Ask(
                    RequestModel::MergeCommits(
                        task_path,
                        base_commit,
                        task_commit,
                        MergeSettings { renames: true, fail_on_conflict: true },
                    ),
                ),
        h.len() == at + 2 && !(0 <= k < 2)
            ==> merge_commits_turn(
                base_path,
                task_path,
                task,
                base,
                message,
                base_commit,
                task_commit,
                h,
                at,
            )
                == ServiceTurn::<Seq<char>>::Ask(
                    RequestModel::WriteMergedTree(
                        task_path,
                        base_commit,
                        task_commit,
                        MergeSettings { renames: true, fail_on_conflict: true },
                    ),
                ),
        h.len() == at + 3 && !(0 <= k < 3)
            ==> merge_commits_turn(
                base_path,
                task_path,
                task,
                base,
                message,
                base_commit,
                task_commit,
                h,
                at,
            ) == ServiceTurn::<Seq<char>>::Ask(RequestModel::FindTree(task_path, tree@)),
        h.len() == at + 4 && !(0 <= k < 4)
            ==> merge_commits_turn(
                base_path,
                task_path,
                task,
                base,
                message,
                base_commit,
                task_commit,
                h,
                at,
            )
                == ServiceTurn::<Seq<char>>::Ask(
                    RequestModel::CreateCommit(
                        task_path,
                        NewCommitModel {
                            update_ref: None,
                            identity: Identity::Configured,
                            message,
                            tree: tree@,
                            parents: seq![base_commit],
                        },
                    ),
                ),
        h.len() == at + 5 && !(0 <= k < 5)
            ==> merge_commits_turn(
                base_path,
                task_path,
                task,
                base,
                message,
                base_commit,
                task_commit,
                h,
                at,
            )
                == ServiceTurn::<Seq<char>>::Ask(
                    RequestModel::UpdateReference(
                        task_path,
                        RefUpdateModel {
                            refname: "refs/heads/"@ + base,
                            target: made@,
                            force: true,
                            log: "Squash merge"@,
                        },
                    ),
                ),
        h.len() == at + 6 && !(0 <= k < 6)
            ==> merge_commits_turn(
                base_path,
                task_path,
                task,
                base,
                message,
                base_commit,
                task_commit,
                h,
                at,
            )
                == ServiceTurn::<Seq<char>>::Ask(
                    RequestModel::UpdateReference(
                        base_path,
                        RefUpdateModel {
                            refname: "refs/heads/"@ + task,
                            target: made@,
                            force: true,
                            log: "Reset task branch after squash merge"@,
                        },
                    ),
                ),
        (k == 1 || k == 2 || k == 3 || k == 4 || k == 5 || k == 6) && h.len() > at + k
            ==> merge_commits_turn(
                base_path,
                task_path,
                task,
                base,
                message,
                base_commit,
                task_commit,
                h,
                at,
            ) == ServiceTurn::<Seq<char>>::Failed(ServiceErrorModel::Git(e.model()), at + k + 1),
        h.len() >= at + 7 && !(0 <= k < 7)
            ==> merge_commits_turn(
                base_path,
                task_path,
                task,
                base,
                message,
                base_commit,
                task_commit,
                h,
                at,
            ) == ServiceTurn::<Seq<char>>::Done(text_of_oid(made@), at + 7),
{
}

/// Where the repository has no signature, a merge by references goes the same way, with the
/// identity of the service on its commit.
pub proof fn law_commits_merged_by_fallback(
    base_path: Seq<u8>,
    task_path: Seq<u8>,
    task: Seq<char>,
    base: Seq<char>,
    message: Seq<char>,
    base_commit: Seq<u8>,
    task_commit: Seq<u8>,
    tree: Oid,
    made: Oid,
    x: GitError,
    h: Seq<Reply>,
    at: int,
    k: int,
    e: GitError,
)
    requires
        0 <= at <= h.len(),
        k != 0,
        h.len() > at ==> h[at] == Reply::Unit(Err::<(), GitError>(x)),
        h.len() > at + 1
            ==> h[at + 1] == if k == 1 {
                Reply::Unit(Err::<(), GitError>(e))
            } else {
                Reply::Unit(Ok::<(), GitError>(()))
            },
        h.len() > at + 2
            ==> h[at + 2] == if k == 2 {
                Reply::Merged(Err::<bool, GitError>(e))
            } else {
                Reply::Merged(Ok::<bool, GitError>(false))
            },
        h.len() > at + 3
            ==> h[at + 3] == if k == 3 {
                Reply::Id(Err::<Oid, GitError>(e))
            } else {
                Reply::Id(Ok::<Oid, GitError>(tree))
            },
        h.len() > at + 4
            ==> h[at + 4] == if k == 4 {
                Reply::Unit(Err::<(), GitError>(e))
            } else {
                Reply::Unit(Ok::<(), GitError>(()))
            },
        h.len() > at + 5
            ==> h[at + 5] == if k == 5 {
                Reply::Id(Err::<Oid, GitError>(e))
            } else {
                Reply::Id(Ok::<Oid, GitError>(made))
            },
        h.len() > at + 6
            ==> h[at + 6] == if k == 6 {
                Reply::Unit(Err::<(), GitError>(e))
            } else {
                Reply::Unit(Ok::<(), GitError>(()))
            },
        h.len() > at + 7
            ==> h[at + 7] == if k == 7 {
                Reply::Unit(Err::<(), GitError>(e))
            } else {
                Reply::Unit(Ok::<(), GitError>(()))
            },
    ensures
        h.len() == at
            ==> merge_commits_turn(
                base_path,
                task_path,
                task,
                base,
                message,
                base_commit,
                task_commit,
                h,
                at,
            ) == ServiceTurn::<Seq<char>>::Ask(RequestModel::Signature(task_path)),
        h.len() == at + 1 && !(0 <= k < 1)
            ==> merge_commits_turn(
                base_path,
                task_path,
                task,
                base,
                message,
                base_commit,
                task_commit,
                h,
                at,
            )
                == ServiceTurn::<Seq<char>>::Ask(
                    RequestModel::NewSignature("Vibe Kanban"@, "noreply@vibekanban.com"@),
                ),
        h.len() == at + 2 && !(0 <= k < 2)
            ==> merge_commits_turn(
                base_path,
                task_path,
                task,
                base,
                message,
                base_commit,
                task_commit,
                h,
                at,
            )
                == ServiceTurn::<Seq<char>>::Ask(
                    RequestModel::MergeCommits(
                        task_path,
                        base_commit,
                        task_commit,
                        MergeSettings { renames: true, fail_on_conflict: true },
                    ),
                ),
        h.len() == at + 3 && !(0 <= k < 3)
            ==> merge_commits_turn(
                base_path,
                task_path,
                task,
                base,
                message,
                base_commit,
                task_commit,
                h,
                at,
            )
                == ServiceTurn::<Seq<char>>::Ask(
                    RequestModel::WriteMergedTree(
                        task_path,
                        base_commit,
                        task_commit,
                        MergeSettings { renames: true, fail_on_conflict: true },
                    ),
                ),
        h.len() == at + 4 && !(0 <= k < 4)
            ==> merge_commits_turn(
                base_path,
                task_path,
                task,
                base,
                message,
                base_commit,
                task_commit,
                h,
                at,
            ) == ServiceTurn::<Seq<char>>::Ask(RequestModel::FindTree(task_path, tree@)),
        h.len() == at + 5 && !(0 <= k < 5)
            ==> merge_commits_turn(
                base_path,
                task_path,
                task,
                base,
                message,
                base_commit,
                task_commit,
                h,
                at,
            )
                == ServiceTurn::<Seq<char>>::Ask(
                    RequestModel::CreateCommit(
                        task_path,
                        NewCommitModel {
                            update_ref: None,
                            identity: Identity::Fallback,
                            message,
                            tree: tree@,
                            parents: seq![base_commit],
                        },
                    ),
                ),
        h.len() == at + 6 && !(0 <= k < 6)
            ==> merge_commits_turn(
                base_path,
                task_path,
                task,
                base,
                message,
                base_commit,
                task_commit,
                h,
                at,
            )
                == ServiceTurn::<Seq<char>>::Ask(
                    RequestModel::UpdateReference(
                        task_path,
                        RefUpdateModel {
                            refname: "refs/heads/"@ + base,
                            target: made@,
                            force: true,
                            log: "Squash merge"@,
                        },
                    ),
                ),
        h.len() == at + 7 && !(0 <= k < 7)
            ==> merge_commits_turn(
                base_path,
                task_path,
                task,
                base,
                message,
                base_commit,
                task_commit,
                h,
                at,
            )
                == ServiceTurn::<Seq<char>>::Ask(
                    RequestModel::UpdateReference(
                        base_path,
                        RefUpdateModel {
                            refname: "refs/heads/"@ + task,
                            target: made@,
                            force: true,
                            log: "Reset task branch after squash merge"@,
                        },
                    ),
                ),
        (k == 1 || k == 2 || k == 3 || k == 4 || k == 5 || k == 6 || k == 7) && h.len() > at + k
            ==> merge_commits_turn(
                base_path,
                task_path,
                task,
                base,
                message,
                base_commit,
                task_commit,
                h,
                at,
            ) == ServiceTurn::<Seq<char>>::Failed(ServiceErrorModel::Git(e.model()), at + k + 1),
        h.len() >= at + 8 && !(0 <= k < 8)
            ==> merge_commits_turn(
                base_path,
                task_path,
                task,
                base,
                message,
                base_commit,
                task_commit,
                h,
                at,
            ) == ServiceTurn::<Seq<char>>::Done(text_of_oid(made@), at + 8),
{
}

/// A merge where the base branch is checked out, with nothing staged there, checks out the base
/// branch, merges the task branch into it without committing, commits with the message, reads
/// where HEAD is, and lets the task branch point there; that id is returned. A command that fails
/// ends the merge.
pub proof fn law_checkout_merged(
    base_path: Seq<u8>,
    checkout: Seq<u8>,
    task: Seq<char>,
    base: Seq<char>,
    message: Seq<char>,
    end0: RunEnd,
    end1: RunEnd,
    end2: RunEnd,
    end3: RunEnd,
    end4: RunEnd,
    end5: RunEnd,
    h: Seq<Reply>,
    at: int,
    k: int,
    e: GitError,
    bad: RunEnd,
)
    requires
        0 <= at <= h.len(),
        ended_well(end0),
        ended_well(end1),
        ended_well(end2),
        ended_well(end3),
        ended_well(end4),
        ended_well(end5),
        bad.code != Some(0i32),
        k != 0,
        k != 3,
        k != 4,
        h.len() > at ==> h[at] == Reply::Ran(RunReport::Ended(end0)),
        h.len() > at + 1
            ==> h[at + 1] == if k == 1 {
                Reply::Unit(Err::<(), GitError>(e))
            } else {
                Reply::Unit(Ok::<(), GitError>(()))
            },
        h.len() > at + 2
            ==> h[at + 2] == if k == 2 {
                Reply::Unit(Err::<(), GitError>(e))
            } else {
                Reply::Unit(Ok::<(), GitError>(()))
            },
        h.len() > at + 3 ==> h[at + 3] == Reply::Flag(true),
        h.len() > at + 4 ==> h[at + 4] == Reply::Flag(true),
        h.len() > at + 5
            ==> h[at + 5] == if k == 5 {
                Reply::Version(VersionReport::Missing)
            } else {
                Reply::Version(VersionReport::Ended(true))
            },
        h.len() > at + 6
            ==> h[at + 6] == if k == 6 {
                Reply::Ran(RunReport::Ended(bad))
            } else {
                Reply::Ran(RunReport::Ended(end1))
            },
        h.len() > at + 7
            ==> h[at + 7] == if k == 7 {
                Reply::Version(VersionReport::Missing)
            } else {
                Reply::Version(VersionReport::Ended(true))
            },
        h.len() > at + 8
            ==> h[at + 8] == if k == 8 {
                Reply::Ran(RunReport::Ended(bad))
            } else {
                Reply::Ran(RunReport::Ended(end2))
            },
        h.len() > at + 9
            ==> h[at + 9] == if k == 9 {
                Reply::Version(VersionReport::Missing)
            } else {
                Reply::Version(VersionReport::Ended(true))
            },
        h.len() > at + 10
            ==> h[at + 10] == if k == 10 {
                Reply::Ran(RunReport::Ended(bad))
            } else {
                Reply::Ran(RunReport::Ended(end3))
            },
        h.len() > at + 11
            ==> h[at + 11] == if k == 11 {
                Reply::Version(VersionReport::Missing)
            } else {
                Reply::Version(VersionReport::Ended(true))
            },
        h.len() > at + 12
            ==> h[at + 12] == if k == 12 {
                Reply::Ran(RunReport::Ended(bad))
            } else {
                Reply::Ran(RunReport::Ended(end4))
            },
        h.len() > at + 13
            ==> h[at + 13] == if k == 13 {
                Reply::Version(VersionReport::Missing)
            } else {
                Reply::Version(VersionReport::Ended(true))
            },
        h.len() > at + 14
            ==> h[at + 14] == if k == 14 {
                Reply::Ran(RunReport::Ended(bad))
            } else {
                Reply::Ran(RunReport::Ended(end5))
            },
    ensures
        h.len() == at
            ==> merge_checked_out_turn(base_path, checkout, task, base, message, h, at)
                == ServiceTurn::<Seq<char>>::Ask(
                    RequestModel::Run(
                        CommandModel {
                            dir: checkout,
                            args: seq![utf8("diff"@), utf8("--cached"@), utf8("--quiet"@)],
                            envs: seq![],
                            stdin: None,
                        },
                    ),
                ),
        h.len() == at + 1 && !(0 <= k < 1)
            ==> merge_checked_out_turn(
                base_path,
                checkout,
                task,
                base,
                message,
                h,
                at,
            ) == ServiceTurn::<Seq<char>>::Ask(RequestModel::OpenRepo(checkout)),
        h.len() == at + 2 && !(0 <= k < 2)
            ==> merge_checked_out_turn(
                base_path,
                checkout,
                task,
                base,
                message,
                h,
                at,
            ) == ServiceTurn::<Seq<char>>::Ask(RequestModel::OpenConfig(checkout)),
        h.len() == at + 3 && !(0 <= k < 3)
            ==> merge_checked_out_turn(
                base_path,
                checkout,
                task,
                base,
                message,
                h,
                at,
            ) == ServiceTurn::<Seq<char>>::Ask(RequestModel::ConfigHas(checkout, "user.name"@)),
        h.len() == at + 4 && !(0 <= k < 4)
            ==> merge_checked_out_turn(base_path, checkout, task, base, message, h, at)
                == ServiceTurn::<Seq<char>>::Ask(RequestModel::ConfigHas(checkout, "user.email"@)),
        h.len() == at + 5 && !(0 <= k < 5)
            ==> merge_checked_out_turn(
                base_path,
                checkout,
                task,
                base,
                message,
                h,
                at,
            ) == ServiceTurn::<Seq<char>>::Ask(RequestModel::Version),
        h.len() == at + 6 && !(0 <= k < 6)
            ==> merge_checked_out_turn(base_path, checkout, task, base, message, h, at)
                == ServiceTurn::<Seq<char>>::Ask(
                    RequestModel::Run(
                        CommandModel {
                            dir: checkout,
                            args: seq![utf8("checkout"@), utf8(base)],
                            envs: seq![],
                            stdin: None,
                        },
                    ),
                ),
        h.len() == at + 7 && !(0 <= k < 7)
            ==> merge_checked_out_turn(
                base_path,
                checkout,
                task,
                base,
                message,
                h,
                at,
            ) == ServiceTurn::<Seq<char>>::Ask(RequestModel::Version),
        h.len() == at + 8 && !(0 <= k < 8)
            ==> merge_checked_out_turn(base_path, checkout, task, base, message, h, at)
                == ServiceTurn::<Seq<char>>::Ask(
                    RequestModel::Run(
                        CommandModel {
                            dir: checkout,
                            args: seq![
                                utf8("merge"@),
                                utf8("--squash"@),
                                utf8("--no-commit"@),
                                utf8(task)
                            ],
                            envs: seq![],
                            stdin: None,
                        },
                    ),
                ),
        h.len() == at + 9 && !(0 <= k < 9)
            ==> merge_checked_out_turn(
                base_path,
                checkout,
                task,
                base,
                message,
                h,
                at,
            ) == ServiceTurn::<Seq<char>>::Ask(RequestModel::Version),
        h.len() == at + 10 && !(0 <= k < 10)
            ==> merge_checked_out_turn(base_path, checkout, task, base, message, h, at)
                == ServiceTurn::<Seq<char>>::Ask(
                    RequestModel::Run(
                        CommandModel {
                            dir: checkout,
                            args: seq![utf8("commit"@), utf8("-m"@), utf8(message)],
                            envs: seq![],
                            stdin: None,
                        },
                    ),
                ),
        h.len() == at + 11 && !(0 <= k < 11)
            ==> merge_checked_out_turn(
                base_path,
                checkout,
                task,
                base,
                message,
                h,
                at,
            ) == ServiceTurn::<Seq<char>>::Ask(RequestModel::Version),
        h.len() == at + 12 && !(0 <= k < 12)
            ==> merge_checked_out_turn(base_path, checkout, task, base, message, h, at)
                == ServiceTurn::<Seq<char>>::Ask(
                    RequestModel::Run(
                        CommandModel {
                            dir: checkout,
                            args: seq![utf8("rev-parse"@), utf8("HEAD"@)],
                            envs: seq![],
                            stdin: None,
                        },
                    ),
                ),
        h.len() == at + 13 && !(0 <= k < 13)
            ==> merge_checked_out_turn(
                base_path,
                checkout,
                task,
                base,
                message,
                h,
                at,
            ) == ServiceTurn::<Seq<char>>::Ask(RequestModel::Version),
        h.len() == at + 14 && !(0 <= k < 14)
            ==> merge_checked_out_turn(base_path, checkout, task, base, message, h, at)
                == ServiceTurn::<Seq<char>>::Ask(
                    RequestModel::Run(
                        CommandModel {
                            dir: base_path,
                            args: seq![
                                utf8("update-ref"@),
                                utf8("refs/heads/"@ + task),
                                utf8(trimmed(utf8_lossy(end4.stdout@)))
                            ],
                            envs: seq![],
                            stdin: None,
                        },
                    ),
                ),
        (k == 1 || k == 2) && h.len() > at + k
            ==> merge_checked_out_turn(
                base_path,
                checkout,
                task,
                base,
                message,
                h,
                at,
            ) == ServiceTurn::<Seq<char>>::Failed(ServiceErrorModel::Git(e.model()), at + k + 1),
        (
            k == 5 || k == 6 || k == 7 || k == 8 || k == 9 || k == 10 || k == 11 || k == 12
                || k == 13 || k == 14
        )
            && h.len() > at + k
            ==> (
                merge_checked_out_turn(
                    base_path,
                    checkout,
                    task,
                    base,
                    message,
                    h,
                    at,
                ) matches Turn::Failed(_, m)
                    && m == at + k + 1
            ),
        h.len() >= at + 15 && !(0 <= k < 15)
            ==> merge_checked_out_turn(
                base_path,
                checkout,
                task,
                base,
                message,
                h,
                at,
            ) == ServiceTurn::<Seq<char>>::Done(trimmed(utf8_lossy(end4.stdout@)), at + 15),
{
}

/// Commits that conflict are not merged: the merge ends there, and nothing is written.
pub proof fn law_conflicting_commits_not_merged(
    base_path: Seq<u8>,
    task_path: Seq<u8>,
    task: Seq<char>,
    base: Seq<char>,
    message: Seq<char>,
    base_commit: Seq<u8>,
    task_commit: Seq<u8>,
    who: Identity,
    p: int,
    h: Seq<Reply>,
    at: int,
)
    requires
        0 <= at <= p <= h.len(),
        signature_turn(task_path, h, at) == ServiceTurn::Done(who, p),
        h.len() > p ==> h[p] == Reply::Merged(Ok::<bool, GitError>(true)),
    ensures
        h.len() == p
            ==> merge_commits_turn(
                base_path,
                task_path,
                task,
                base,
                message,
                base_commit,
                task_commit,
                h,
                at,
            )
                == ServiceTurn::<Seq<char>>::Ask(
                    RequestModel::MergeCommits(
                        task_path,
                        base_commit,
                        task_commit,
                        MergeSettings { renames: true, fail_on_conflict: true },
                    ),
                ),
        h.len() >= p + 1
            ==> merge_commits_turn(
                base_path,
                task_path,
                task,
                base,
                message,
                base_commit,
                task_commit,
                h,
                at,
            )
                == ServiceTurn::<Seq<char>>::Failed(
                    ServiceErrorModel::MergeConflicts(
                        "Merge failed due to conflicts. Please resolve conflicts manually."@,
                    ),
                    p + 1,
                ),
{
}

/// The merge base of two refs is the fork point, where `git` finds one: what it prints, but for
/// white space around it.
pub proof fn law_fork_point_found(
    dir: Seq<u8>,
    a: Seq<char>,
    b: Seq<char>,
    end: RunEnd,
    h: Seq<Reply>,
    at: int,
)
    requires
        0 <= at <= h.len(),
        ended_well(end),
        h.len() > at ==> h[at] == Reply::Version(VersionReport::Ended(true)),
        h.len() > at + 1 ==> h[at + 1] == Reply::Ran(RunReport::Ended(end)),
    ensures
        h.len() == at
            ==> merge_base_turn(dir, a, b, h, at) == CliTurn::<Seq<char>>::Ask(
                RequestModel::Version,
            ),
        h.len() == at + 1
            ==> merge_base_turn(dir, a, b, h, at) == CliTurn::<Seq<char>>::Ask(
                RequestModel::Run(
                    CommandModel {
                        dir: dir,
                        args: seq![utf8("merge-base"@), utf8("--fork-point"@), utf8(a), utf8(b)],
                        envs: seq![],
                        stdin: None,
                    },
                ),
            ),
        h.len() >= at + 2
            ==> merge_base_turn(dir, a, b, h, at) == CliTurn::<Seq<char>>::Done(
                trimmed(utf8_lossy(end.stdout@)),
                at + 2,
            ),
{
}

/// Where `git` finds no fork point, the merge base is the plain one.
pub proof fn law_plain_merge_base_found(
    dir: Seq<u8>,
    a: Seq<char>,
    b: Seq<char>,
    none: RunEnd,
    end: RunEnd,
    h: Seq<Reply>,
    at: int,
    k: int,
    bad: RunEnd,
)
    requires
        0 <= at <= h.len(),
        none.code != Some(0i32),
        ended_well(end),
        bad.code != Some(0i32),
        k != 0,
        k != 1,
        h.len() > at ==> h[at] == Reply::Version(VersionReport::Ended(true)),
        h.len() > at + 1 ==> h[at + 1] == Reply::Ran(RunReport::Ended(none)),
        h.len() > at + 2
            ==> h[at + 2] == if k == 2 {
                Reply::Version(VersionReport::Missing)
            } else {
                Reply::Version(VersionReport::Ended(true))
            },
        h.len() > at + 3
            ==> h[at + 3] == if k == 3 {
                Reply::Ran(RunReport::Ended(bad))
            } else {
                Reply::Ran(RunReport::Ended(end))
            },
    ensures
        h.len() == at
            ==> merge_base_turn(dir, a, b, h, at) == CliTurn::<Seq<char>>::Ask(
                RequestModel::Version,
            ),
        h.len() == at + 1 && !(0 <= k < 1)
            ==> merge_base_turn(dir, a, b, h, at) == CliTurn::<Seq<char>>::Ask(
                RequestModel::Run(
                    CommandModel {
                        dir,
                        args: seq![utf8("merge-base"@), utf8("--fork-point"@), utf8(a), utf8(b)],
                        envs: seq![],
                        stdin: None,
                    },
                ),
            ),
        h.len() == at + 2 && !(0 <= k < 2)
            ==> merge_base_turn(dir, a, b, h, at) == CliTurn::<Seq<char>>::Ask(
                RequestModel::Version,
            ),
        h.len() == at + 3 && !(0 <= k < 3)
            ==> merge_base_turn(dir, a, b, h, at) == CliTurn::<Seq<char>>::Ask(
                RequestModel::Run(
                    CommandModel {
                        dir: dir,
                        args: seq![utf8("merge-base"@), utf8(a), utf8(b)],
                        envs: seq![],
                        stdin: None,
                    },
                ),
            ),
        (k == 2 || k == 3) && h.len() > at + k
            ==> (merge_base_turn(dir, a, b, h, at) matches Turn::Failed(_, m) && m == at + k + 1),
        h.len() >= at + 4 && !(0 <= k < 4)
            ==> merge_base_turn(dir, a, b, h, at) == CliTurn::<Seq<char>>::Done(
                trimmed(utf8_lossy(end.stdout@)),
                at + 4,
            ),
{
}

/// A rebase is in progress exactly where one of the two directories exists that `git` names for
/// it.
pub proof fn law_rebase_looked_for(
    dir: Seq<u8>,
    x: bool,
    y: bool,
    end1: RunEnd,
    end2: RunEnd,
    h: Seq<Reply>,
    at: int,
    k: int,
    bad: RunEnd,
)
    requires
        0 <= at <= h.len(),
        ended_well(end1),
        ended_well(end2),
        bad.code != Some(0i32),
        k != 4,
        k != 5,
        h.len() > at
            ==> h[at] == if k == 0 {
                Reply::Version(VersionReport::Missing)
            } else {
                Reply::Version(VersionReport::Ended(true))
            },
        h.len() > at + 1
            ==> h[at + 1] == if k == 1 {
                Reply::Ran(RunReport::Ended(bad))
            } else {
                Reply::Ran(RunReport::Ended(end1))
            },
        h.len() > at + 2
            ==> h[at + 2] == if k == 2 {
                Reply::Version(VersionReport::Missing)
            } else {
                Reply::Version(VersionReport::Ended(true))
            },
        h.len() > at + 3
            ==> h[at + 3] == if k == 3 {
                Reply::Ran(RunReport::Ended(bad))
            } else {
                Reply::Ran(RunReport::Ended(end2))
            },
        h.len() > at + 4 ==> h[at + 4] == Reply::Flag(x),
        h.len() > at + 5 ==> h[at + 5] == Reply::Flag(y),
    ensures
        h.len() == at
            ==> rebase_in_progress_turn(dir, h, at) == CliTurn::<bool>::Ask(RequestModel::Version),
        h.len() == at + 1 && !(0 <= k < 1)
            ==> rebase_in_progress_turn(dir, h, at) == CliTurn::<bool>::Ask(
                RequestModel::Run(
                    CommandModel {
                        dir: dir,
                        args: seq![utf8("rev-parse"@), utf8("--git-path"@), utf8("rebase-merge"@)],
                        envs: seq![],
                        stdin: None,
                    },
                ),
            ),
        h.len() == at + 2 && !(0 <= k < 2)
            ==> rebase_in_progress_turn(dir, h, at) == CliTurn::<bool>::Ask(RequestModel::Version),
        h.len() == at + 3 && !(0 <= k < 3)
            ==> rebase_in_progress_turn(dir, h, at) == CliTurn::<bool>::Ask(
                RequestModel::Run(
                    CommandModel {
                        dir: dir,
                        args: seq![utf8("rev-parse"@), utf8("--git-path"@), utf8("rebase-apply"@)],
                        envs: seq![],
                        stdin: None,
                    },
                ),
            ),
        h.len() == at + 4 && !(0 <= k < 4)
            ==> rebase_in_progress_turn(dir, h, at) == CliTurn::<bool>::Ask(
                RequestModel::PathExistsIn(dir, utf8(trimmed(utf8_lossy(end1.stdout@)))),
            ),
        h.len() == at + 5 && !(0 <= k < 5)
            ==> rebase_in_progress_turn(dir, h, at) == CliTurn::<bool>::Ask(
                RequestModel::PathExistsIn(dir, utf8(trimmed(utf8_lossy(end2.stdout@)))),
            ),
        (k == 0 || k == 1 || k == 2 || k == 3) && h.len() > at + k
            ==> (rebase_in_progress_turn(dir, h, at) matches Turn::Failed(_, m) && m == at + k + 1),
        h.len() >= at + 6 && !(0 <= k < 6)
            ==> rebase_in_progress_turn(dir, h, at) == CliTurn::<bool>::Done(x || y, at + 6),
{
}

/// Once no rebase was found in progress, a rebase takes the commits of the task branch since the
/// merge base of the old base and the task branch, or since the old base where no merge base was
/// found, and puts them on the new base, whatever the names of the bases are.
pub proof fn law_rebase_upstream(
    dir: Seq<u8>,
    new_base: Seq<char>,
    old_base: Seq<char>,
    task: Seq<char>,
    progress: Result<bool, CliErrorModel>,
    p: int,
    found: Result<Seq<char>, CliErrorModel>,
    q: int,
    end: RunEnd,
    h: Seq<Reply>,
    at: int,
    k: int,
    bad: RunEnd,
)
    requires
        0 <= at <= q <= h.len(),
        settled::<_, _, CliErrorModel>(
            rebase_in_progress_turn(dir, h, at),
        ) == Turn::<Result<bool, CliErrorModel>, CliErrorModel>::Done(progress, p),
        progress != Ok::<bool, CliErrorModel>(true),
        settled::<_, _, CliErrorModel>(
            merge_base_turn(dir, old_base, task, h, p),
        ) == Turn::<Result<Seq<char>, CliErrorModel>, CliErrorModel>::Done(found, q),
        ended_well(end),
        bad.code != Some(0i32),
        h.len() > q
            ==> h[q] == if k == 0 {
                Reply::Version(VersionReport::Missing)
            } else {
                Reply::Version(VersionReport::Ended(true))
            },
        h.len() > q + 1
            ==> h[q + 1] == if k == 1 {
                Reply::Ran(RunReport::Ended(bad))
            } else {
                Reply::Ran(RunReport::Ended(end))
            },
    ensures
        h.len() == q
            ==> rebase_onto_turn(dir, new_base, old_base, task, h, at) == CliTurn::<()>::Ask(
                RequestModel::Version,
            ),
        h.len() == q + 1 && !(0 <= k < 1)
            ==> rebase_onto_turn(dir, new_base, old_base, task, h, at) == CliTurn::<()>::Ask(
                RequestModel::Run(
                    CommandModel {
                        dir: dir,
                        args: seq![
                            utf8("rebase"@),
                            utf8("--onto"@),
                            utf8(new_base),
                            utf8(if found is Ok { found->Ok_0 } else { old_base }),
                            utf8(task)
                        ],
                        envs: seq![],
                        stdin: None,
                    },
                ),
            ),
        (k == 0 || k == 1) && h.len() > q + k
            ==> (
                rebase_onto_turn(dir, new_base, old_base, task, h, at) matches Turn::Failed(_, m)
                    && m == q + k + 1
            ),
        h.len() >= q + 2 && !(0 <= k < 2)
            ==> rebase_onto_turn(dir, new_base, old_base, task, h, at) == CliTurn::<()>::Done(
                (),
                q + 2,
            ),
{
}

/// A rebase of a branch, once its worktree was found clean and no rebase in progress, finds the new
/// base and fetches it where it is remote, makes sure of an identity, and then rebases the task
/// branch from the old base onto the new one. It ends with the commit that HEAD of the worktree is
/// at.
pub proof fn law_branch_rebased(
    repo: Seq<u8>,
    path: Seq<u8>,
    new_base: Seq<char>,
    old_base: Seq<char>,
    task: Seq<char>,
    h: Seq<Reply>,
    at: int,
    n1: int,
    n2: int,
    base: (BranchType, BranchInfo),
    n3: int,
    n4: int,
    n5: int,
    n6: int,
    id: Oid,
)
    requires
        0 <= at,
        at + 1 < h.len(),
        h[at] == Reply::Unit(Ok::<(), GitError>(())),
        h[at + 1] == Reply::Unit(Ok::<(), GitError>(())),
        check_clean_turn(path, h, at + 2) == ServiceTurn::Done((), n1),
        rebase_in_progress_turn(path, h, n1) == CliTurn::Done(false, n2),
        find_branch_turn(repo, new_base, h, n2) == ServiceTurn::Done(base, n3),
        if base.1.is_remote {
            fetch_branch_turn(repo, base.1, h, n3) == ServiceTurn::Done((), n4)
        } else {
            n4 == n3
        },
        ensure_identity_turn(path, h, n4) == ServiceTurn::Done((), n5),
    ensures
        rebase_onto_turn(path, new_base, old_base, task, h, n5) matches Turn::Ask(q)
            ==> rebase_branch_turn(repo, path, new_base, old_base, task, h, at) == ServiceTurn::<
            Seq<char>,
        >::Ask(q),
        rebase_onto_turn(path, new_base, old_base, task, h, n5) == CliTurn::Done((), n6) && 0 <= n6
            ==> {
            &&& h.len() == n6 ==> rebase_branch_turn(repo, path, new_base, old_base, task, h, at)
                == ServiceTurn::<Seq<char>>::Ask(RequestModel::HeadCommit(path))
            &&& h.len() > n6 && h[n6] == Reply::Id(Ok::<Oid, GitError>(id)) ==> rebase_branch_turn(
                repo,
                path,
                new_base,
                old_base,
                task,
                h,
                at,
            ) == ServiceTurn::Done(text_of_oid(id@), n6 + 1)
        },
        rebase_onto_turn(path, new_base, old_base, task, h, n5) is Failed ==> !(rebase_branch_turn(
            repo,
            path,
            new_base,
            old_base,
            task,
            h,
            at,
        ) is Done),
{
}

/// A branch that points at no commit cannot be compared.
pub proof fn law_branches_without_tip_refused(
    path: Seq<u8>,
    name: Seq<char>,
    base: Seq<char>,
    h: Seq<Reply>,
    at: int,
    b: (BranchType, BranchInfo),
    p: int,
    c: (BranchType, BranchInfo),
    q: int,
)
    requires
        0 <= at < h.len(),
        h[at] == Reply::Unit(Ok::<(), GitError>(())),
        find_branch_turn(path, name, h, at + 1) == ServiceTurn::Done(b, p),
        find_branch_turn(path, base, h, p) == ServiceTurn::Done(c, q),
        b.1.target is None || c.1.target is None,
    ensures
        branch_status_turn(path, name, base, h, at) matches Turn::Failed(
            ServiceErrorModel::BranchNotFound(_),
            m,
        ) && m == q,
{
}

/// The commits that a merge by references merges are those of the two branches, the base first.
pub proof fn law_commits_to_merge_found(
    base_path: Seq<u8>,
    task_path: Seq<u8>,
    task: Seq<char>,
    base: Seq<char>,
    message: Seq<char>,
    b: (BranchType, BranchInfo),
    c: (BranchType, BranchInfo),
    x: Oid,
    y: Oid,
    p: int,
    q: int,
    h: Seq<Reply>,
    at: int,
)
    requires
        find_branch_turn(task_path, task, h, at) == ServiceTurn::Done(b, p),
        find_branch_turn(task_path, base, h, p) == ServiceTurn::Done(c, q),
        0 <= q <= h.len(),
        h.len() > q ==> h[q] == Reply::Id(Ok::<Oid, GitError>(x)),
        h.len() > q + 1 ==> h[q + 1] == Reply::Id(Ok::<Oid, GitError>(y)),
    ensures
        h.len() == q
            ==> merge_references_turn(
                base_path,
                task_path,
                task,
                base,
                message,
                h,
                at,
            ) == ServiceTurn::<Seq<char>>::Ask(RequestModel::PeelBranch(task_path, base, c.0)),
        h.len() == q + 1
            ==> merge_references_turn(
                base_path,
                task_path,
                task,
                base,
                message,
                h,
                at,
            ) == ServiceTurn::<Seq<char>>::Ask(RequestModel::PeelBranch(task_path, task, b.0)),
        h.len() >= q + 2
            ==> merge_references_turn(base_path, task_path, task, base, message, h, at)
                == merge_commits_turn(base_path, task_path, task, base, message, x@, y@, h, q + 2),
{
}

/// A merge opens both repositories and counts how far the branches have gone in the one of the
/// base. Where the base has not moved on, the merge is made in the checkout of the base, or by
/// references where there is none.
pub proof fn law_merge_made_in_place(
    base_path: Seq<u8>,
    task_path: Seq<u8>,
    task: Seq<char>,
    base: Seq<char>,
    message: Seq<char>,
    ahead: int,
    place: Option<Seq<u8>>,
    p: int,
    m: int,
    h: Seq<Reply>,
    at: int,
)
    requires
        0 <= at <= h.len(),
        h.len() > at ==> h[at] == Reply::Unit(Ok::<(), GitError>(())),
        h.len() > at + 1 ==> h[at + 1] == Reply::Unit(Ok::<(), GitError>(())),
    ensures
        h.len() == at
            ==> merge_changes_turn(
                base_path,
                task_path,
                task,
                base,
                message,
                h,
                at,
            ) == ServiceTurn::<Seq<char>>::Ask(RequestModel::OpenRepo(task_path)),
        h.len() == at + 1
            ==> merge_changes_turn(
                base_path,
                task_path,
                task,
                base,
                message,
                h,
                at,
            ) == ServiceTurn::<Seq<char>>::Ask(RequestModel::OpenRepo(base_path)),
        h.len() >= at + 2
            && branch_status_turn(base_path, task, base, h, at + 2) == ServiceTurn::Done(
                (ahead, 0int),
                p,
            )
            && checkout_path_turn(base_path, base, h, p) == ServiceTurn::Done(place, m)
            ==> merge_changes_turn(base_path, task_path, task, base, message, h, at) == if place is Some {
                merge_checked_out_turn(base_path, place->0, task, base, message, h, m)
            } else {
                merge_references_turn(base_path, task_path, task, base, message, h, m)
            },
{
}

/// What the command of a rebase comes to decides what the rebase comes to; the output of a command
/// that failed is searched for conflicts.
pub proof fn law_rebase_follows_command(
    repo: Seq<u8>,
    path: Seq<u8>,
    new_base: Seq<char>,
    old_base: Seq<char>,
    task: Seq<char>,
    kind: BranchType,
    info: BranchInfo,
    output: Seq<char>,
    p: int,
    q: int,
    r: int,
    h: Seq<Reply>,
    at: int,
    e: CliErrorModel,
    n: int,
)
    requires
        find_branch_turn(repo, new_base, h, at) == ServiceTurn::Done((kind, info), p),
        if info.is_remote {
            fetch_branch_turn(repo, info, h, p) == ServiceTurn::Done((), q)
        } else {
            q == p
        },
        ensure_identity_turn(path, h, q) == ServiceTurn::Done((), r),
    ensures
        rebase_onto_turn(path, new_base, old_base, task, h, r) == CliTurn::Done((), n)
            ==> rebase_checked_turn(repo, path, new_base, old_base, task, h, at) == rebased_turn(
                path,
                new_base,
                Ok::<(), CliErrorModel>(()),
                h,
                n,
            ),
        rebase_onto_turn(path, new_base, old_base, task, h, r) == CliTurn::<()>::Failed(e, n)
            ==> rebase_checked_turn(repo, path, new_base, old_base, task, h, at) == rebased_turn(
                path,
                new_base,
                Err::<(), CliErrorModel>(e),
                h,
                n,
            ),
        rebased_turn(
            path,
            new_base,
            Err::<(), CliErrorModel>(CliErrorModel::CommandFailed(output)),
            h,
            at,
        ) == failed_rebase_turn(path, new_base, output, h, at),
{
}

/// What comes of the command of a rebase: the new HEAD, that a rebase was in progress, or why it
/// could not be run.
pub proof fn law_rebase_result_told(
    path: Seq<u8>,
    new_base: Seq<char>,
    id: Oid,
    h: Seq<Reply>,
    at: int,
)
    requires
        0 <= at <= h.len(),
        h.len() > at ==> h[at] == Reply::Id(Ok::<Oid, GitError>(id)),
    ensures
        h.len() == at
            ==> rebased_turn(
                path,
                new_base,
                Ok::<(), CliErrorModel>(()),
                h,
                at,
            ) == ServiceTurn::<Seq<char>>::Ask(RequestModel::HeadCommit(path)),
        h.len() > at
            ==> rebased_turn(
                path,
                new_base,
                Ok::<(), CliErrorModel>(()),
                h,
                at,
            ) == ServiceTurn::Done(text_of_oid(id@), at + 1),
        rebased_turn(
            path,
            new_base,
            Err::<(), CliErrorModel>(CliErrorModel::RebaseInProgress),
            h,
            at,
        ) == ServiceTurn::<Seq<char>>::Failed(ServiceErrorModel::RebaseInProgress, at),
        rebased_turn(path, new_base, Err::<(), CliErrorModel>(CliErrorModel::NotAvailable), h, at)
            == ServiceTurn::<Seq<char>>::Failed(
                ServiceErrorModel::InvalidRepository(
                    "git rebase failed: git executable not found or not runnable"@,
                ),
                at,
            ),
{
    reveal_strlit("git rebase failed: ");
    reveal_strlit("git executable not found or not runnable");
    reveal_strlit("git rebase failed: git executable not found or not runnable");
    assert("git rebase failed: "@ + "git executable not found or not runnable"@
        =~= "git rebase failed: git executable not found or not runnable"@);
}

} // verus!
