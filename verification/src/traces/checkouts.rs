//! What resets, commits and commands on worktrees ask, and what they come to.
use vstd::prelude::*;

use crate::cli::CliTurn;
use crate::commands::{
    abort_cherry_pick_turn, abort_merge_turn, abort_rebase_turn, abort_revert_turn,
    conflicted_files_turn, list_worktrees_turn, marker_exists_turn, quit_rebase_turn,
    rebase_in_progress_turn, worktree_add_turn, worktree_move_turn, worktree_prune_turn,
    worktree_remove_turn,
};
use crate::dialogue::{CommandModel, Reply, RequestModel, Turn};
use crate::errors::{GitError, ServiceErrorModel};
use crate::model::Model;
use crate::porcelain::{filled_lines, WorktreeModel};
use crate::printed::{
    is_printable_worktree, law_lines_read_back, law_worktrees_read_back, text_of_lines,
    worktree_list,
};
use crate::raw::{strict_text, utf8};
use crate::records::{RunEnd, RunReport, VersionReport};
use crate::service::{commit_all_turn, ServiceTurn};
use crate::text::{is_white_space, law_trimmed_kept, lines_of, utf8_lossy};
use crate::traces::{ended_well, leaves_out, lemma_left_out};
use crate::worktrees::{
    check_clean_turn, checkout_of, checkout_path_turn, head_info_turn, law_checkout_found,
    reconcile_report_turn, reset_turn, HeadModel, WorktreeResetOptions, WorktreeResetOutcome,
};

verus! {

/// A forced reset runs `git reset --hard` with the commit in the worktree, and then reapplies the
/// sparse checkout.
pub proof fn law_forced_reset(
    path: Seq<u8>,
    sha: Seq<char>,
    end1: RunEnd,
    end2: RunEnd,
    h: Seq<Reply>,
    at: int,
    k: int,
    e: GitError,
    bad: RunEnd,
)
    requires
        0 <= at <= h.len(),
        ended_well(end1),
        ended_well(end2),
        bad.code != Some(0i32),
        k != 3,
        k != 4,
        h.len() > at
            ==> h[at] == if k == 0 {
                Reply::Unit(Err::<(), GitError>(e))
            } else {
                Reply::Unit(Ok::<(), GitError>(()))
            },
        h.len() > at + 1
            ==> h[at + 1] == if k == 1 {
                Reply::Version(VersionReport::Missing)
            } else {
                Reply::Version(VersionReport::Ended(true))
            },
        h.len() > at + 2
            ==> h[at + 2] == if k == 2 {
                Reply::Ran(RunReport::Ended(bad))
            } else {
                Reply::Ran(RunReport::Ended(end1))
            },
        h.len() > at + 3 ==> h[at + 3] == Reply::Version(VersionReport::Ended(true)),
        h.len() > at + 4 ==> h[at + 4] == Reply::Ran(RunReport::Ended(end2)),
    ensures
        h.len() == at
            ==> reset_turn(path, sha, true, h, at) == ServiceTurn::<()>::Ask(
                RequestModel::OpenRepo(path),
            ),
        h.len() == at + 1 && !(0 <= k < 1)
            ==> reset_turn(path, sha, true, h, at) == ServiceTurn::<()>::Ask(RequestModel::Version),
        h.len() == at + 2 && !(0 <= k < 2)
            ==> reset_turn(path, sha, true, h, at) == ServiceTurn::<()>::Ask(
                RequestModel::Run(
                    CommandModel {
                        dir: path,
                        args: seq![utf8("reset"@), utf8("--hard"@), utf8(sha)],
                        envs: seq![],
                        stdin: None,
                    },
                ),
            ),
        h.len() == at + 3 && !(0 <= k < 3)
            ==> reset_turn(path, sha, true, h, at) == ServiceTurn::<()>::Ask(RequestModel::Version),
        h.len() == at + 4 && !(0 <= k < 4)
            ==> reset_turn(path, sha, true, h, at) == ServiceTurn::<()>::Ask(
                RequestModel::Run(
                    CommandModel {
                        dir: path,
                        args: seq![utf8("sparse-checkout"@), utf8("reapply"@)],
                        envs: seq![],
                        stdin: None,
                    },
                ),
            ),
        (k == 0) && h.len() > at + k
            ==> reset_turn(path, sha, true, h, at) == ServiceTurn::<()>::Failed(
                ServiceErrorModel::Git(e.model()),
                at + k + 1,
            ),
        (k == 1 || k == 2) && h.len() > at + k
            ==> (reset_turn(path, sha, true, h, at) matches Turn::Failed(_, m) && m == at + k + 1),
        h.len() >= at + 5 && !(0 <= k < 5)
            ==> reset_turn(path, sha, true, h, at) == ServiceTurn::<()>::Done((), at + 5),
{
}

/// A reset that is not forced does the same, once the worktree was found clean.
pub proof fn law_clean_reset(
    path: Seq<u8>,
    sha: Seq<char>,
    p: int,
    end1: RunEnd,
    end2: RunEnd,
    h: Seq<Reply>,
    at: int,
    k: int,
    bad: RunEnd,
)
    requires
        0 <= at <= p <= h.len(),
        h[at] == Reply::Unit(Ok::<(), GitError>(())),
        check_clean_turn(path, h, at + 1) == ServiceTurn::Done((), p),
        at + 1 <= p,
        ended_well(end1),
        ended_well(end2),
        bad.code != Some(0i32),
        k != 2,
        k != 3,
        h.len() > p
            ==> h[p] == if k == 0 {
                Reply::Version(VersionReport::Missing)
            } else {
                Reply::Version(VersionReport::Ended(true))
            },
        h.len() > p + 1
            ==> h[p + 1] == if k == 1 {
                Reply::Ran(RunReport::Ended(bad))
            } else {
                Reply::Ran(RunReport::Ended(end1))
            },
        h.len() > p + 2 ==> h[p + 2] == Reply::Version(VersionReport::Ended(true)),
        h.len() > p + 3 ==> h[p + 3] == Reply::Ran(RunReport::Ended(end2)),
    ensures
        h.len() == p
            ==> reset_turn(path, sha, false, h, at) == ServiceTurn::<()>::Ask(
                RequestModel::Version,
            ),
        h.len() == p + 1 && !(0 <= k < 1)
            ==> reset_turn(path, sha, false, h, at) == ServiceTurn::<()>::Ask(
                RequestModel::Run(
                    CommandModel {
                        dir: path,
                        args: seq![utf8("reset"@), utf8("--hard"@), utf8(sha)],
                        envs: seq![],
                        stdin: None,
                    },
                ),
            ),
        h.len() == p + 2 && !(0 <= k < 2)
            ==> reset_turn(path, sha, false, h, at) == ServiceTurn::<()>::Ask(
                RequestModel::Version,
            ),
        h.len() == p + 3 && !(0 <= k < 3)
            ==> reset_turn(path, sha, false, h, at) == ServiceTurn::<()>::Ask(
                RequestModel::Run(
                    CommandModel {
                        dir: path,
                        args: seq![utf8("sparse-checkout"@), utf8("reapply"@)],
                        envs: seq![],
                        stdin: None,
                    },
                ),
            ),
        (k == 0 || k == 1) && h.len() > p + k
            ==> (reset_turn(path, sha, false, h, at) matches Turn::Failed(_, m) && m == p + k + 1),
        h.len() >= p + 4 && !(0 <= k < 4)
            ==> reset_turn(path, sha, false, h, at) == ServiceTurn::<()>::Done((), p + 4),
{
}

/// A commit of changes stages all of them but those in the directories that are left out, and
/// commits them with the message, without hooks.
pub proof fn law_changes_committed(
    dirs: Seq<Seq<char>>,
    path: Seq<u8>,
    message: Seq<char>,
    args: Seq<Seq<u8>>,
    end1: RunEnd,
    end2: RunEnd,
    end3: RunEnd,
    h: Seq<Reply>,
    at: int,
    k: int,
    e: GitError,
    bad: RunEnd,
)
    requires
        0 <= at <= h.len(),
        end1.stdout@.len() > 0,
        leaves_out(args, seq![utf8("add"@), utf8("-A"@)], dirs),
        ended_well(end1),
        ended_well(end2),
        ended_well(end3),
        bad.code != Some(0i32),
        k != 6,
        k != 7,
        h.len() > at
            ==> h[at] == if k == 0 {
                Reply::Version(VersionReport::Missing)
            } else {
                Reply::Version(VersionReport::Ended(true))
            },
        h.len() > at + 1
            ==> h[at + 1] == if k == 1 {
                Reply::Ran(RunReport::Ended(bad))
            } else {
                Reply::Ran(RunReport::Ended(end1))
            },
        h.len() > at + 2
            ==> h[at + 2] == if k == 2 {
                Reply::Version(VersionReport::Missing)
            } else {
                Reply::Version(VersionReport::Ended(true))
            },
        h.len() > at + 3
            ==> h[at + 3] == if k == 3 {
                Reply::Ran(RunReport::Ended(bad))
            } else {
                Reply::Ran(RunReport::Ended(end2))
            },
        h.len() > at + 4
            ==> h[at + 4] == if k == 4 {
                Reply::Unit(Err::<(), GitError>(e))
            } else {
                Reply::Unit(Ok::<(), GitError>(()))
            },
        h.len() > at + 5
            ==> h[at + 5] == if k == 5 {
                Reply::Unit(Err::<(), GitError>(e))
            } else {
                Reply::Unit(Ok::<(), GitError>(()))
            },
        h.len() > at + 6 ==> h[at + 6] == Reply::Flag(true),
        h.len() > at + 7 ==> h[at + 7] == Reply::Flag(true),
        h.len() > at + 8
            ==> h[at + 8] == if k == 8 {
                Reply::Version(VersionReport::Missing)
            } else {
                Reply::Version(VersionReport::Ended(true))
            },
        h.len() > at + 9
            ==> h[at + 9] == if k == 9 {
                Reply::Ran(RunReport::Ended(bad))
            } else {
                Reply::Ran(RunReport::Ended(end3))
            },
    ensures
        h.len() == at
            ==> commit_all_turn(dirs, path, message, h, at) == ServiceTurn::<bool>::Ask(
                RequestModel::Version,
            ),
        h.len() == at + 1 && !(0 <= k < 1)
            ==> commit_all_turn(dirs, path, message, h, at) == ServiceTurn::<bool>::Ask(
                RequestModel::Run(
                    CommandModel {
                        dir: path,
                        args: seq![
                            utf8("--no-optional-locks"@),
                            utf8("status"@),
                            utf8("--porcelain"@)
                        ],
                        envs: seq![],
                        stdin: None,
                    },
                ),
            ),
        h.len() == at + 2 && !(0 <= k < 2)
            ==> commit_all_turn(dirs, path, message, h, at) == ServiceTurn::<bool>::Ask(
                RequestModel::Version,
            ),
        h.len() == at + 3 && !(0 <= k < 3)
            ==> commit_all_turn(dirs, path, message, h, at) == ServiceTurn::<bool>::Ask(
                RequestModel::Run(
                    CommandModel { dir: path, args: args, envs: seq![], stdin: None },
                ),
            ),
        h.len() == at + 4 && !(0 <= k < 4)
            ==> commit_all_turn(dirs, path, message, h, at) == ServiceTurn::<bool>::Ask(
                RequestModel::OpenRepo(path),
            ),
        h.len() == at + 5 && !(0 <= k < 5)
            ==> commit_all_turn(dirs, path, message, h, at) == ServiceTurn::<bool>::Ask(
                RequestModel::OpenConfig(path),
            ),
        h.len() == at + 6 && !(0 <= k < 6)
            ==> commit_all_turn(dirs, path, message, h, at) == ServiceTurn::<bool>::Ask(
                RequestModel::ConfigHas(path, "user.name"@),
            ),
        h.len() == at + 7 && !(0 <= k < 7)
            ==> commit_all_turn(dirs, path, message, h, at) == ServiceTurn::<bool>::Ask(
                RequestModel::ConfigHas(path, "user.email"@),
            ),
        h.len() == at + 8 && !(0 <= k < 8)
            ==> commit_all_turn(dirs, path, message, h, at) == ServiceTurn::<bool>::Ask(
                RequestModel::Version,
            ),
        h.len() == at + 9 && !(0 <= k < 9)
            ==> commit_all_turn(dirs, path, message, h, at) == ServiceTurn::<bool>::Ask(
                RequestModel::Run(
                    CommandModel {
                        dir: path,
                        args: seq![
                            utf8("commit"@),
                            utf8("--no-verify"@),
                            utf8("-m"@),
                            utf8(message)
                        ],
                        envs: seq![],
                        stdin: None,
                    },
                ),
            ),
        (k == 4 || k == 5) && h.len() > at + k
            ==> commit_all_turn(dirs, path, message, h, at) == ServiceTurn::<bool>::Failed(
                ServiceErrorModel::Git(e.model()),
                at + k + 1,
            ),
        (k == 0 || k == 1 || k == 2 || k == 3 || k == 8 || k == 9) && h.len() > at + k
            ==> (
                commit_all_turn(dirs, path, message, h, at) matches Turn::Failed(_, m)
                    && m == at + k + 1
            ),
        h.len() >= at + 10 && !(0 <= k < 10)
            ==> commit_all_turn(dirs, path, message, h, at) == ServiceTurn::<bool>::Done(
                true,
                at + 10,
            ),
{
    lemma_left_out(args, seq![utf8("add"@), utf8("-A"@)], dirs);
}

/// Adding a worktree for a new branch makes that branch there, from where HEAD is.
pub proof fn law_worktree_added_for_new_branch(
    dir: Seq<u8>,
    path: Seq<u8>,
    branch: Seq<char>,
    end1: RunEnd,
    end2: RunEnd,
    h: Seq<Reply>,
    at: int,
    k: int,
    bad: RunEnd,
)
    requires
        0 <= at <= h.len(),
        ended_well(end1),
        ended_well(end2),
        bad.code != Some(0i32),
        k != 3,
        k != 4,
        h.len() > at
            ==> h[at] == if k == 0 {
                Reply::Version(VersionReport::Missing)
            } else {
                Reply::Version(VersionReport::Ended(true))
            },
        h.len() > at + 1
            ==> h[at + 1] == if k == 1 {
                Reply::Version(VersionReport::Missing)
            } else {
                Reply::Version(VersionReport::Ended(true))
            },
        h.len() > at + 2
            ==> h[at + 2] == if k == 2 {
                Reply::Ran(RunReport::Ended(bad))
            } else {
                Reply::Ran(RunReport::Ended(end1))
            },
        h.len() > at + 3 ==> h[at + 3] == Reply::Version(VersionReport::Ended(true)),
        h.len() > at + 4 ==> h[at + 4] == Reply::Ran(RunReport::Ended(end2)),
    ensures
        h.len() == at
            ==> worktree_add_turn(dir, path, branch, true, h, at) == CliTurn::<()>::Ask(
                RequestModel::Version,
            ),
        h.len() == at + 1 && !(0 <= k < 1)
            ==> worktree_add_turn(dir, path, branch, true, h, at) == CliTurn::<()>::Ask(
                RequestModel::Version,
            ),
        h.len() == at + 2 && !(0 <= k < 2)
            ==> worktree_add_turn(dir, path, branch, true, h, at) == CliTurn::<()>::Ask(
                RequestModel::Run(
                    CommandModel {
                        dir: dir,
                        args: seq![
                            utf8("worktree"@),
                            utf8("add"@),
                            utf8("-b"@),
                            utf8(branch),
                            path
                        ],
                        envs: seq![],
                        stdin: None,
                    },
                ),
            ),
        h.len() == at + 3 && !(0 <= k < 3)
            ==> worktree_add_turn(dir, path, branch, true, h, at) == CliTurn::<()>::Ask(
                RequestModel::Version,
            ),
        h.len() == at + 4 && !(0 <= k < 4)
            ==> worktree_add_turn(dir, path, branch, true, h, at) == CliTurn::<()>::Ask(
                RequestModel::Run(
                    CommandModel {
                        dir: path,
                        args: seq![utf8("sparse-checkout"@), utf8("reapply"@)],
                        envs: seq![],
                        stdin: None,
                    },
                ),
            ),
        (k == 0 || k == 1 || k == 2) && h.len() > at + k
            ==> (
                worktree_add_turn(dir, path, branch, true, h, at) matches Turn::Failed(_, m)
                    && m == at + k + 1
            ),
        h.len() >= at + 5 && !(0 <= k < 5)
            ==> worktree_add_turn(dir, path, branch, true, h, at) == CliTurn::<()>::Done(
                (),
                at + 5,
            ),
{
}

/// Adding a worktree for a branch that is there checks that branch out.
pub proof fn law_worktree_added_for_branch(
    dir: Seq<u8>,
    path: Seq<u8>,
    branch: Seq<char>,
    end1: RunEnd,
    end2: RunEnd,
    h: Seq<Reply>,
    at: int,
    k: int,
    bad: RunEnd,
)
    requires
        0 <= at <= h.len(),
        ended_well(end1),
        ended_well(end2),
        bad.code != Some(0i32),
        k != 3,
        k != 4,
        h.len() > at
            ==> h[at] == if k == 0 {
                Reply::Version(VersionReport::Missing)
            } else {
                Reply::Version(VersionReport::Ended(true))
            },
        h.len() > at + 1
            ==> h[at + 1] == if k == 1 {
                Reply::Version(VersionReport::Missing)
            } else {
                Reply::Version(VersionReport::Ended(true))
            },
        h.len() > at + 2
            ==> h[at + 2] == if k == 2 {
                Reply::Ran(RunReport::Ended(bad))
            } else {
                Reply::Ran(RunReport::Ended(end1))
            },
        h.len() > at + 3 ==> h[at + 3] == Reply::Version(VersionReport::Ended(true)),
        h.len() > at + 4 ==> h[at + 4] == Reply::Ran(RunReport::Ended(end2)),
    ensures
        h.len() == at
            ==> worktree_add_turn(dir, path, branch, false, h, at) == CliTurn::<()>::Ask(
                RequestModel::Version,
            ),
        h.len() == at + 1 && !(0 <= k < 1)
            ==> worktree_add_turn(dir, path, branch, false, h, at) == CliTurn::<()>::Ask(
                RequestModel::Version,
            ),
        h.len() == at + 2 && !(0 <= k < 2)
            ==> worktree_add_turn(dir, path, branch, false, h, at) == CliTurn::<()>::Ask(
                RequestModel::Run(
                    CommandModel {
                        dir: dir,
                        args: seq![utf8("worktree"@), utf8("add"@), path, utf8(branch)],
                        envs: seq![],
                        stdin: None,
                    },
                ),
            ),
        h.len() == at + 3 && !(0 <= k < 3)
            ==> worktree_add_turn(dir, path, branch, false, h, at) == CliTurn::<()>::Ask(
                RequestModel::Version,
            ),
        h.len() == at + 4 && !(0 <= k < 4)
            ==> worktree_add_turn(dir, path, branch, false, h, at) == CliTurn::<()>::Ask(
                RequestModel::Run(
                    CommandModel {
                        dir: path,
                        args: seq![utf8("sparse-checkout"@), utf8("reapply"@)],
                        envs: seq![],
                        stdin: None,
                    },
                ),
            ),
        (k == 0 || k == 1 || k == 2) && h.len() > at + k
            ==> (
                worktree_add_turn(dir, path, branch, false, h, at) matches Turn::Failed(_, m)
                    && m == at + k + 1
            ),
        h.len() >= at + 5 && !(0 <= k < 5)
            ==> worktree_add_turn(dir, path, branch, false, h, at) == CliTurn::<()>::Done(
                (),
                at + 5,
            ),
{
}

/// Removing a worktree removes the one at this path, by force exactly where that is wanted.
pub proof fn law_worktree_removed(
    dir: Seq<u8>,
    path: Seq<u8>,
    force: bool,
    end1: RunEnd,
    h: Seq<Reply>,
    at: int,
    k: int,
    bad: RunEnd,
)
    requires
        0 <= at <= h.len(),
        ended_well(end1),
        bad.code != Some(0i32),
        h.len() > at
            ==> h[at] == if k == 0 {
                Reply::Version(VersionReport::Missing)
            } else {
                Reply::Version(VersionReport::Ended(true))
            },
        h.len() > at + 1
            ==> h[at + 1] == if k == 1 {
                Reply::Version(VersionReport::Missing)
            } else {
                Reply::Version(VersionReport::Ended(true))
            },
        h.len() > at + 2
            ==> h[at + 2] == if k == 2 {
                Reply::Ran(RunReport::Ended(bad))
            } else {
                Reply::Ran(RunReport::Ended(end1))
            },
    ensures
        h.len() == at
            ==> worktree_remove_turn(dir, path, force, h, at) == CliTurn::<()>::Ask(
                RequestModel::Version,
            ),
        h.len() == at + 1 && !(0 <= k < 1)
            ==> worktree_remove_turn(dir, path, force, h, at) == CliTurn::<()>::Ask(
                RequestModel::Version,
            ),
        h.len() == at + 2 && !(0 <= k < 2)
            ==> worktree_remove_turn(dir, path, force, h, at) == CliTurn::<()>::Ask(
                RequestModel::Run(
                    CommandModel {
                        dir: dir,
                        args: if force {
                            seq![utf8("worktree"@), utf8("remove"@), utf8("--force"@), path]
                        } else { seq![utf8("worktree"@), utf8("remove"@), path] },
                        envs: seq![],
                        stdin: None,
                    },
                ),
            ),
        (k == 0 || k == 1 || k == 2) && h.len() > at + k
            ==> (
                worktree_remove_turn(dir, path, force, h, at) matches Turn::Failed(_, m)
                    && m == at + k + 1
            ),
        h.len() >= at + 3 && !(0 <= k < 3)
            ==> worktree_remove_turn(dir, path, force, h, at) == CliTurn::<()>::Done((), at + 3),
{
}

/// Moving a worktree moves it from the old path to the new one, where both are text.
pub proof fn law_worktree_moved(
    dir: Seq<u8>,
    old_path: Seq<u8>,
    new_path: Seq<u8>,
    end1: RunEnd,
    h: Seq<Reply>,
    at: int,
    k: int,
    bad: RunEnd,
)
    requires
        0 <= at <= h.len(),
        strict_text(old_path) is Some,
        strict_text(new_path) is Some,
        ended_well(end1),
        bad.code != Some(0i32),
        h.len() > at
            ==> h[at] == if k == 0 {
                Reply::Version(VersionReport::Missing)
            } else {
                Reply::Version(VersionReport::Ended(true))
            },
        h.len() > at + 1
            ==> h[at + 1] == if k == 1 {
                Reply::Version(VersionReport::Missing)
            } else {
                Reply::Version(VersionReport::Ended(true))
            },
        h.len() > at + 2
            ==> h[at + 2] == if k == 2 {
                Reply::Ran(RunReport::Ended(bad))
            } else {
                Reply::Ran(RunReport::Ended(end1))
            },
    ensures
        h.len() == at
            ==> worktree_move_turn(dir, old_path, new_path, h, at) == CliTurn::<()>::Ask(
                RequestModel::Version,
            ),
        h.len() == at + 1 && !(0 <= k < 1)
            ==> worktree_move_turn(dir, old_path, new_path, h, at) == CliTurn::<()>::Ask(
                RequestModel::Version,
            ),
        h.len() == at + 2 && !(0 <= k < 2)
            ==> worktree_move_turn(dir, old_path, new_path, h, at) == CliTurn::<()>::Ask(
                RequestModel::Run(
                    CommandModel {
                        dir: dir,
                        args: seq![utf8("worktree"@), utf8("move"@), old_path, new_path],
                        envs: seq![],
                        stdin: None,
                    },
                ),
            ),
        (k == 0 || k == 1 || k == 2) && h.len() > at + k
            ==> (
                worktree_move_turn(dir, old_path, new_path, h, at) matches Turn::Failed(_, m)
                    && m == at + k + 1
            ),
        h.len() >= at + 3 && !(0 <= k < 3)
            ==> worktree_move_turn(dir, old_path, new_path, h, at) == CliTurn::<()>::Done(
                (),
                at + 3,
            ),
{
}

/// Pruning forgets the worktrees whose directories are gone.
pub proof fn law_worktrees_pruned(
    dir: Seq<u8>,
    end1: RunEnd,
    h: Seq<Reply>,
    at: int,
    k: int,
    bad: RunEnd,
)
    requires
        0 <= at <= h.len(),
        ended_well(end1),
        bad.code != Some(0i32),
        h.len() > at
            ==> h[at] == if k == 0 {
                Reply::Version(VersionReport::Missing)
            } else {
                Reply::Version(VersionReport::Ended(true))
            },
        h.len() > at + 1
            ==> h[at + 1] == if k == 1 {
                Reply::Ran(RunReport::Ended(bad))
            } else {
                Reply::Ran(RunReport::Ended(end1))
            },
    ensures
        h.len() == at
            ==> worktree_prune_turn(dir, h, at) == CliTurn::<()>::Ask(RequestModel::Version),
        h.len() == at + 1 && !(0 <= k < 1)
            ==> worktree_prune_turn(dir, h, at) == CliTurn::<()>::Ask(
                RequestModel::Run(
                    CommandModel {
                        dir: dir,
                        args: seq![utf8("worktree"@), utf8("prune"@)],
                        envs: seq![],
                        stdin: None,
                    },
                ),
            ),
        (k == 0 || k == 1) && h.len() > at + k
            ==> (worktree_prune_turn(dir, h, at) matches Turn::Failed(_, m) && m == at + k + 1),
        h.len() >= at + 2 && !(0 <= k < 2)
            ==> worktree_prune_turn(dir, h, at) == CliTurn::<()>::Done((), at + 2),
{
}

/// The worktrees of a repository are those that `git worktree list` prints.
pub proof fn law_worktrees_listed(
    dir: Seq<u8>,
    ws: Seq<WorktreeModel>,
    ids: Seq<Seq<char>>,
    end: RunEnd,
    h: Seq<Reply>,
    at: int,
    k: int,
    bad: RunEnd,
)
    requires
        0 <= at <= h.len(),
        ids.len() == ws.len(),
        forall|i: int| 0 <= i < ws.len() ==> is_printable_worktree(#[trigger] ws[i], ids[i]),
        utf8_lossy(end.stdout@) == text_of_lines(worktree_list(ws, ids)),
        ended_well(end),
        bad.code != Some(0i32),
        h.len() > at
            ==> h[at] == if k == 0 {
                Reply::Version(VersionReport::Missing)
            } else {
                Reply::Version(VersionReport::Ended(true))
            },
        h.len() > at + 1
            ==> h[at + 1] == if k == 1 {
                Reply::Ran(RunReport::Ended(bad))
            } else {
                Reply::Ran(RunReport::Ended(end))
            },
    ensures
        h.len() == at
            ==> list_worktrees_turn(dir, h, at) == CliTurn::<Seq<WorktreeModel>>::Ask(
                RequestModel::Version,
            ),
        h.len() == at + 1 && !(0 <= k < 1)
            ==> list_worktrees_turn(dir, h, at) == CliTurn::<Seq<WorktreeModel>>::Ask(
                RequestModel::Run(
                    CommandModel {
                        dir: dir,
                        args: seq![utf8("worktree"@), utf8("list"@), utf8("--porcelain"@)],
                        envs: seq![],
                        stdin: None,
                    },
                ),
            ),
        (k == 0 || k == 1) && h.len() > at + k
            ==> (list_worktrees_turn(dir, h, at) matches Turn::Failed(_, m) && m == at + k + 1),
        h.len() >= at + 2 && !(0 <= k < 2)
            ==> list_worktrees_turn(dir, h, at) == CliTurn::<Seq<WorktreeModel>>::Done(ws, at + 2),
{
    law_worktrees_read_back(ws, ids);
}

/// Where a branch is checked out is the path of the first worktree that `git worktree list` prints
/// with that branch.
pub proof fn law_checkout_path_found(
    dir: Seq<u8>,
    branch: Seq<char>,
    ws: Seq<WorktreeModel>,
    ids: Seq<Seq<char>>,
    i: int,
    end: RunEnd,
    h: Seq<Reply>,
    at: int,
    k: int,
    bad: RunEnd,
)
    requires
        0 <= at <= h.len(),
        ids.len() == ws.len(),
        forall|j: int| 0 <= j < ws.len() ==> is_printable_worktree(#[trigger] ws[j], ids[j]),
        utf8_lossy(end.stdout@) == text_of_lines(worktree_list(ws, ids)),
        0 <= i <= ws.len(),
        forall|j: int| 0 <= j < i ==> (#[trigger] ws[j]).branch != Some(branch),
        i < ws.len() ==> ws[i].branch == Some(branch),
        ended_well(end),
        bad.code != Some(0i32),
        h.len() > at
            ==> h[at] == if k == 0 {
                Reply::Version(VersionReport::Missing)
            } else {
                Reply::Version(VersionReport::Ended(true))
            },
        h.len() > at + 1
            ==> h[at + 1] == if k == 1 {
                Reply::Ran(RunReport::Ended(bad))
            } else {
                Reply::Ran(RunReport::Ended(end))
            },
    ensures
        h.len() == at
            ==> checkout_path_turn(dir, branch, h, at) == ServiceTurn::<Option<Seq<u8>>>::Ask(
                RequestModel::Version,
            ),
        h.len() == at + 1 && !(0 <= k < 1)
            ==> checkout_path_turn(dir, branch, h, at) == ServiceTurn::<Option<Seq<u8>>>::Ask(
                RequestModel::Run(
                    CommandModel {
                        dir: dir,
                        args: seq![utf8("worktree"@), utf8("list"@), utf8("--porcelain"@)],
                        envs: seq![],
                        stdin: None,
                    },
                ),
            ),
        (k == 0 || k == 1) && h.len() > at + k
            ==> (
                checkout_path_turn(dir, branch, h, at) matches Turn::Failed(_, m) && m == at + k + 1
            ),
        h.len() >= at + 2 && !(0 <= k < 2)
            ==> checkout_path_turn(dir, branch, h, at) == ServiceTurn::<Option<Seq<u8>>>::Done(
                if i < ws.len() { Some(utf8(ws[i].path)) } else { None },
                at + 2,
            ),
{
    law_worktrees_read_back(ws, ids);
    law_checkout_found(ws, branch);
    if let Some(p) = checkout_of(ws, branch) {
        let k = choose|k: int|
            0 <= k < ws.len() && (#[trigger] ws[k]).branch == Some(branch) && ws[k].path == p && (
            forall|j: int| 0 <= j < k ==> (#[trigger] ws[j]).branch != Some(branch));
        assert(ws[k].branch == Some(branch));
        if i < ws.len() {
            assert(ws[i].branch == Some(branch));
        }
    } else if i < ws.len() {
        assert(ws[i].branch == Some(branch));
    }
}

/// An operation is in progress exactly where `git` can resolve the marker that it leaves.
pub proof fn law_marker_found(
    dir: Seq<u8>,
    marker: Seq<char>,
    end: RunEnd,
    h: Seq<Reply>,
    at: int,
)
    requires
        0 <= at <= h.len(),
        ended_well(end),
        h.len() > at ==> h[at] == Reply::Version(VersionReport::Ended(true)),
        h.len() > at + 1 ==> h[at + 1] == Reply::Ran(RunReport::Ended(end)),
    ensures
        h.len() == at
            ==> marker_exists_turn(dir, marker, h, at) == CliTurn::<bool>::Ask(
                RequestModel::Version,
            ),
        h.len() == at + 1
            ==> marker_exists_turn(dir, marker, h, at) == CliTurn::<bool>::Ask(
                RequestModel::Run(
                    CommandModel {
                        dir: dir,
                        args: seq![utf8("rev-parse"@), utf8("--verify"@), utf8(marker)],
                        envs: seq![],
                        stdin: None,
                    },
                ),
            ),
        h.len() >= at + 2
            ==> marker_exists_turn(dir, marker, h, at) == CliTurn::<bool>::Done(true, at + 2),
{
}

/// Whether a line names a file that can be read back.
pub open spec fn is_file_line(s: Seq<char>) -> bool {
    s.len() > 0 && !s.contains('\n') && !is_white_space(s[0]) && !is_white_space(s.last())
}

proof fn lemma_filled_kept(files: Seq<Seq<char>>)
    requires
        forall|i: int| 0 <= i < files.len() ==> is_file_line(#[trigger] files[i]),
    ensures
        filled_lines(files) == files,
    decreases files.len(),
{
    if files.len() > 0 {
        let before = files.drop_last();
        assert forall|i: int| 0 <= i < before.len() implies is_file_line(#[trigger] before[i]) by {
            assert(files[i] == before[i]);
        }
        lemma_filled_kept(before);
        let last = files[files.len() - 1];
        assert(is_file_line(last));
        law_trimmed_kept(last);
        assert(before.push(last) =~= files);
    }
}

proof fn lemma_files_read_back(files: Seq<Seq<char>>)
    requires
        forall|i: int| 0 <= i < files.len() ==> is_file_line(#[trigger] files[i]),
    ensures
        filled_lines(lines_of(text_of_lines(files))) == files,
{
    assert forall|i: int| 0 <= i < files.len() implies !(#[trigger] files[i]).contains('\n') && (
    files[i].len() > 0 ==> files[i].last() != '\r') by {
        assert(is_file_line(files[i]));
    }
    law_lines_read_back(files);
    lemma_filled_kept(files);
}

/// The files with conflicts are the lines that `git diff` prints for unmerged files.
pub proof fn law_conflicted_files_listed(
    dir: Seq<u8>,
    files: Seq<Seq<char>>,
    end: RunEnd,
    h: Seq<Reply>,
    at: int,
    k: int,
    bad: RunEnd,
)
    requires
        0 <= at <= h.len(),
        utf8_lossy(end.stdout@) == text_of_lines(files),
        forall|i: int| 0 <= i < files.len() ==> is_file_line(#[trigger] files[i]),
        ended_well(end),
        bad.code != Some(0i32),
        h.len() > at
            ==> h[at] == if k == 0 {
                Reply::Version(VersionReport::Missing)
            } else {
                Reply::Version(VersionReport::Ended(true))
            },
        h.len() > at + 1
            ==> h[at + 1] == if k == 1 {
                Reply::Ran(RunReport::Ended(bad))
            } else {
                Reply::Ran(RunReport::Ended(end))
            },
    ensures
        h.len() == at
            ==> conflicted_files_turn(dir, h, at) == CliTurn::<Seq<Seq<char>>>::Ask(
                RequestModel::Version,
            ),
        h.len() == at + 1 && !(0 <= k < 1)
            ==> conflicted_files_turn(dir, h, at) == CliTurn::<Seq<Seq<char>>>::Ask(
                RequestModel::Run(
                    CommandModel {
                        dir: dir,
                        args: seq![utf8("diff"@), utf8("--name-only"@), utf8("--diff-filter=U"@)],
                        envs: seq![],
                        stdin: None,
                    },
                ),
            ),
        (k == 0 || k == 1) && h.len() > at + k
            ==> (conflicted_files_turn(dir, h, at) matches Turn::Failed(_, m) && m == at + k + 1),
        h.len() >= at + 2 && !(0 <= k < 2)
            ==> conflicted_files_turn(dir, h, at) == CliTurn::<Seq<Seq<char>>>::Done(files, at + 2),
{
    lemma_files_read_back(files);
}

/// Where a merge is in progress, aborting it runs `git merge --abort`.
pub proof fn law_merge_aborted(
    dir: Seq<u8>,
    end1: RunEnd,
    end2: RunEnd,
    h: Seq<Reply>,
    at: int,
    k: int,
    bad: RunEnd,
)
    requires
        0 <= at <= h.len(),
        ended_well(end1),
        ended_well(end2),
        bad.code != Some(0i32),
        k != 0,
        k != 1,
        h.len() > at ==> h[at] == Reply::Version(VersionReport::Ended(true)),
        h.len() > at + 1 ==> h[at + 1] == Reply::Ran(RunReport::Ended(end1)),
        h.len() > at + 2
            ==> h[at + 2] == if k == 2 {
                Reply::Version(VersionReport::Missing)
            } else {
                Reply::Version(VersionReport::Ended(true))
            },
        h.len() > at + 3
            ==> h[at + 3] == if k == 3 {
                Reply::Ran(RunReport::Ended(bad))
            } else {
                Reply::Ran(RunReport::Ended(end2))
            },
    ensures
        h.len() == at ==> abort_merge_turn(dir, h, at) == CliTurn::<()>::Ask(RequestModel::Version),
        h.len() == at + 1 && !(0 <= k < 1)
            ==> abort_merge_turn(dir, h, at) == CliTurn::<()>::Ask(
                RequestModel::Run(
                    CommandModel {
                        dir: dir,
                        args: seq![utf8("rev-parse"@), utf8("--verify"@), utf8("MERGE_HEAD"@)],
                        envs: seq![],
                        stdin: None,
                    },
                ),
            ),
        h.len() == at + 2 && !(0 <= k < 2)
            ==> abort_merge_turn(dir, h, at) == CliTurn::<()>::Ask(RequestModel::Version),
        h.len() == at + 3 && !(0 <= k < 3)
            ==> abort_merge_turn(dir, h, at) == CliTurn::<()>::Ask(
                RequestModel::Run(
                    CommandModel {
                        dir: dir,
                        args: seq![utf8("merge"@), utf8("--abort"@)],
                        envs: seq![],
                        stdin: None,
                    },
                ),
            ),
        (k == 2 || k == 3) && h.len() > at + k
            ==> (abort_merge_turn(dir, h, at) matches Turn::Failed(_, m) && m == at + k + 1),
        h.len() >= at + 4 && !(0 <= k < 4)
            ==> abort_merge_turn(dir, h, at) == CliTurn::<()>::Done((), at + 4),
{
}

/// Where a cherry-pick is in progress, aborting it runs `git cherry-pick --abort`.
pub proof fn law_cherry_pick_aborted(
    dir: Seq<u8>,
    end1: RunEnd,
    end2: RunEnd,
    h: Seq<Reply>,
    at: int,
    k: int,
    bad: RunEnd,
)
    requires
        0 <= at <= h.len(),
        ended_well(end1),
        ended_well(end2),
        bad.code != Some(0i32),
        k != 0,
        k != 1,
        h.len() > at ==> h[at] == Reply::Version(VersionReport::Ended(true)),
        h.len() > at + 1 ==> h[at + 1] == Reply::Ran(RunReport::Ended(end1)),
        h.len() > at + 2
            ==> h[at + 2] == if k == 2 {
                Reply::Version(VersionReport::Missing)
            } else {
                Reply::Version(VersionReport::Ended(true))
            },
        h.len() > at + 3
            ==> h[at + 3] == if k == 3 {
                Reply::Ran(RunReport::Ended(bad))
            } else {
                Reply::Ran(RunReport::Ended(end2))
            },
    ensures
        h.len() == at
            ==> abort_cherry_pick_turn(dir, h, at) == CliTurn::<()>::Ask(RequestModel::Version),
        h.len() == at + 1 && !(0 <= k < 1)
            ==> abort_cherry_pick_turn(dir, h, at) == CliTurn::<()>::Ask(
                RequestModel::Run(
                    CommandModel {
                        dir: dir,
                        args: seq![
                            utf8("rev-parse"@),
                            utf8("--verify"@),
                            utf8("CHERRY_PICK_HEAD"@)
                        ],
                        envs: seq![],
                        stdin: None,
                    },
                ),
            ),
        h.len() == at + 2 && !(0 <= k < 2)
            ==> abort_cherry_pick_turn(dir, h, at) == CliTurn::<()>::Ask(RequestModel::Version),
        h.len() == at + 3 && !(0 <= k < 3)
            ==> abort_cherry_pick_turn(dir, h, at) == CliTurn::<()>::Ask(
                RequestModel::Run(
                    CommandModel {
                        dir: dir,
                        args: seq![utf8("cherry-pick"@), utf8("--abort"@)],
                        envs: seq![],
                        stdin: None,
                    },
                ),
            ),
        (k == 2 || k == 3) && h.len() > at + k
            ==> (abort_cherry_pick_turn(dir, h, at) matches Turn::Failed(_, m) && m == at + k + 1),
        h.len() >= at + 4 && !(0 <= k < 4)
            ==> abort_cherry_pick_turn(dir, h, at) == CliTurn::<()>::Done((), at + 4),
{
}

/// Where a revert is in progress, aborting it runs `git revert --abort`.
pub proof fn law_revert_aborted(
    dir: Seq<u8>,
    end1: RunEnd,
    end2: RunEnd,
    h: Seq<Reply>,
    at: int,
    k: int,
    bad: RunEnd,
)
    requires
        0 <= at <= h.len(),
        ended_well(end1),
        ended_well(end2),
        bad.code != Some(0i32),
        k != 0,
        k != 1,
        h.len() > at ==> h[at] == Reply::Version(VersionReport::Ended(true)),
        h.len() > at + 1 ==> h[at + 1] == Reply::Ran(RunReport::Ended(end1)),
        h.len() > at + 2
            ==> h[at + 2] == if k == 2 {
                Reply::Version(VersionReport::Missing)
            } else {
                Reply::Version(VersionReport::Ended(true))
            },
        h.len() > at + 3
            ==> h[at + 3] == if k == 3 {
                Reply::Ran(RunReport::Ended(bad))
            } else {
                Reply::Ran(RunReport::Ended(end2))
            },
    ensures
        h.len() == at
            ==> abort_revert_turn(dir, h, at) == CliTurn::<()>::Ask(RequestModel::Version),
        h.len() == at + 1 && !(0 <= k < 1)
            ==> abort_revert_turn(dir, h, at) == CliTurn::<()>::Ask(
                RequestModel::Run(
                    CommandModel {
                        dir: dir,
                        args: seq![utf8("rev-parse"@), utf8("--verify"@), utf8("REVERT_HEAD"@)],
                        envs: seq![],
                        stdin: None,
                    },
                ),
            ),
        h.len() == at + 2 && !(0 <= k < 2)
            ==> abort_revert_turn(dir, h, at) == CliTurn::<()>::Ask(RequestModel::Version),
        h.len() == at + 3 && !(0 <= k < 3)
            ==> abort_revert_turn(dir, h, at) == CliTurn::<()>::Ask(
                RequestModel::Run(
                    CommandModel {
                        dir: dir,
                        args: seq![utf8("revert"@), utf8("--abort"@)],
                        envs: seq![],
                        stdin: None,
                    },
                ),
            ),
        (k == 2 || k == 3) && h.len() > at + k
            ==> (abort_revert_turn(dir, h, at) matches Turn::Failed(_, m) && m == at + k + 1),
        h.len() >= at + 4 && !(0 <= k < 4)
            ==> abort_revert_turn(dir, h, at) == CliTurn::<()>::Done((), at + 4),
{
}

/// Where a rebase is in progress, it is ended by `git rebase --abort`.
pub proof fn law_rebase_aborted(
    dir: Seq<u8>,
    p: int,
    end: RunEnd,
    h: Seq<Reply>,
    at: int,
    k: int,
    bad: RunEnd,
)
    requires
        0 <= at <= p <= h.len(),
        rebase_in_progress_turn(dir, h, at) == CliTurn::Done(true, p),
        ended_well(end),
        bad.code != Some(0i32),
        h.len() > p
            ==> h[p] == if k == 0 {
                Reply::Version(VersionReport::Missing)
            } else {
                Reply::Version(VersionReport::Ended(true))
            },
        h.len() > p + 1
            ==> h[p + 1] == if k == 1 {
                Reply::Ran(RunReport::Ended(bad))
            } else {
                Reply::Ran(RunReport::Ended(end))
            },
    ensures
        h.len() == p ==> abort_rebase_turn(dir, h, at) == CliTurn::<()>::Ask(RequestModel::Version),
        h.len() == p + 1 && !(0 <= k < 1)
            ==> abort_rebase_turn(dir, h, at) == CliTurn::<()>::Ask(
                RequestModel::Run(
                    CommandModel {
                        dir: dir,
                        args: seq![utf8("rebase"@), utf8("--abort"@)],
                        envs: seq![],
                        stdin: None,
                    },
                ),
            ),
        (k == 0 || k == 1) && h.len() > p + k
            ==> (abort_rebase_turn(dir, h, at) matches Turn::Failed(_, m) && m == p + k + 1),
        h.len() >= p + 2 && !(0 <= k < 2)
            ==> abort_rebase_turn(dir, h, at) == CliTurn::<()>::Done((), p + 2),
{
}

/// Where a rebase is in progress, it is ended by `git rebase --quit`.
pub proof fn law_rebase_quit(
    dir: Seq<u8>,
    p: int,
    end: RunEnd,
    h: Seq<Reply>,
    at: int,
    k: int,
    bad: RunEnd,
)
    requires
        0 <= at <= p <= h.len(),
        rebase_in_progress_turn(dir, h, at) == CliTurn::Done(true, p),
        ended_well(end),
        bad.code != Some(0i32),
        h.len() > p
            ==> h[p] == if k == 0 {
                Reply::Version(VersionReport::Missing)
            } else {
                Reply::Version(VersionReport::Ended(true))
            },
        h.len() > p + 1
            ==> h[p + 1] == if k == 1 {
                Reply::Ran(RunReport::Ended(bad))
            } else {
                Reply::Ran(RunReport::Ended(end))
            },
    ensures
        h.len() == p ==> quit_rebase_turn(dir, h, at) == CliTurn::<()>::Ask(RequestModel::Version),
        h.len() == p + 1 && !(0 <= k < 1)
            ==> quit_rebase_turn(dir, h, at) == CliTurn::<()>::Ask(
                RequestModel::Run(
                    CommandModel {
                        dir: dir,
                        args: seq![utf8("rebase"@), utf8("--quit"@)],
                        envs: seq![],
                        stdin: None,
                    },
                ),
            ),
        (k == 0 || k == 1) && h.len() > p + k
            ==> (quit_rebase_turn(dir, h, at) matches Turn::Failed(_, m) && m == p + k + 1),
        h.len() >= p + 2 && !(0 <= k < 2)
            ==> quit_rebase_turn(dir, h, at) == CliTurn::<()>::Done((), p + 2),
{
}

/// A worktree whose reset failed is told not to be brought to the commit, with the failure of the
/// reset.
pub proof fn law_failed_reset_reported(
    path: Seq<u8>,
    target: Seq<char>,
    options: WorktreeResetOptions,
    h: Seq<Reply>,
    at: int,
    head: HeadModel,
    n: int,
    e: ServiceErrorModel,
    m: int,
)
    requires
        head_info_turn(path, h, at) == ServiceTurn::Done(head, n),
        head.oid != target,
        options.perform_reset,
        !options.is_dirty,
        reset_turn(path, target, options.force_when_dirty, h, n) == ServiceTurn::<()>::Failed(e, m),
    ensures
        reconcile_report_turn(path, target, options, h, at) == ServiceTurn::Done(
            (WorktreeResetOutcome { needed: true, applied: false }, Some(e)),
            m,
        ),
{
}

} // verus!
