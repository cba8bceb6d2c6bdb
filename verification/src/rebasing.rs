//! Rebases, and operations that conflicts interrupted.
use vstd::prelude::*;

use crate::branches::{find_branch_turn, Branch};
use crate::cli::{CliResult, CliTurn, GitCli};
use crate::commands::{
    abort_cherry_pick_turn, abort_merge_turn, abort_rebase_turn, abort_revert_turn,
    cherry_pick_in_progress_turn, conflicted_files_turn, merge_in_progress_turn, quit_rebase_turn,
    rebase_in_progress_turn, rebase_onto_turn, revert_in_progress_turn,
};
use crate::dialogue::{
    accept, accepted, and_then, explain, explained, head_turn, id_turn, settle, settled, turn,
    Dialogue, Interrupt, Reply, Request, RequestModel, Turn,
};
use crate::errors::{
    cli_error_text, CliErrorModel, GitCliError, GitError, GitServiceError, ServiceErrorModel,
};
use crate::model::{lemma_models_push, Model};
use crate::oid::{text_of_oid, Oid};
use crate::raw::RawText;
use crate::records::{BranchInfo, BranchType, HeadRef};
use crate::remotes::fetch_branch_turn;
use crate::service::{ensure_identity_turn, open_turn, GitService, ServiceResult, ServiceTurn};
use crate::text::{
    all_ascii, ascii_lowered, cat, cat3, contains, decimal, decimal_text, has_part, join, joined,
    lines, lines_of, texts, to_lower, unicode_lowered,
};
use crate::worktrees::{check_clean_turn, head_name, head_name_or};

verus! {

broadcast use lemma_models_push;

/// `t`, with a failure taken for a no.
pub open spec fn believed(t: CliTurn<bool>) -> ServiceTurn<bool> {
    and_then(
        settled(t),
        |r: Result<bool, CliErrorModel>, n: int|
            match r {
                Ok(b) => Turn::Done(b, n),
                Err(_) => Turn::Done(false, n),
            },
    )
}

/// `believed`, on what an operation returned.
fn believe(r: CliResult<bool>) -> (s: ServiceResult<bool>)
    ensures
        forall|io: &Dialogue| turn(s, io) == believed(#[trigger] turn(r, io)),
{
    match r {
        Ok(b) => Ok(b),
        Err(Interrupt::Failed(_)) => Ok(false),
        Err(Interrupt::Ask(q)) => Err(Interrupt::Ask(q)),
        Err(Interrupt::OutOfStep) => Err(Interrupt::OutOfStep),
    }
}

// ---------------------------------------------------------------------------
// Rebasing
// ---------------------------------------------------------------------------

/// Whether the output of a rebase, given with its lower-case form, tells of conflicts.
pub open spec fn tells_conflict(output: Seq<char>, lowered: Seq<char>) -> bool {
    has_part(output, "could not apply"@) || has_part(output, "CONFLICT"@) || has_part(
        lowered,
        "resolve all conflicts"@,
    )
}

/// How many files with conflicts are named at most.
pub const MAX_NAMED_CONFLICTS: usize = 10;

/// What is said of the files with conflicts: up to ten of them are named.
pub open spec fn conflict_files_text(files: Seq<Seq<char>>) -> Seq<char> {
    if files.len() == 0 {
        seq![]
    } else if files.len() > MAX_NAMED_CONFLICTS {
        " Conflicted files (showing "@ + decimal(MAX_NAMED_CONFLICTS as nat) + " of "@ + decimal(
            files.len(),
        ) + "): "@ + joined(files.take(MAX_NAMED_CONFLICTS as int), ", "@) + "."@
    } else {
        " Conflicted files: "@ + joined(files, ", "@) + "."@
    }
}

/// What is said of a rebase that met conflicts.
pub open spec fn rebase_conflict_text(
    branch: Seq<char>,
    new_base: Seq<char>,
    files: Seq<Seq<char>>,
) -> Seq<char> {
    "Rebase encountered merge conflicts while rebasing '"@ + branch + "' onto '"@ + new_base
        + "'."@ + conflict_files_text(files) + " Resolve conflicts and then continue or abort."@
}

/// The first line of some text.
pub open spec fn first_line(s: Seq<char>) -> Seq<char> {
    if lines_of(s).len() > 0 {
        lines_of(s)[0]
    } else {
        seq![]
    }
}

/// How a rebase that a command failed to carry out ends: with the conflicts, or the first line of
/// the output.
pub open spec fn failed_rebase_turn(
    path: Seq<u8>,
    new_base: Seq<char>,
    output: Seq<char>,
    h: Seq<Reply>,
    at: int,
) -> ServiceTurn<Seq<char>> {
    if tells_conflict(output, unicode_lowered(output)) {
        and_then(
            head_turn(RequestModel::Head(path), h, at),
            |head: Result<HeadRef, GitError>, n: int|
                and_then(
                    settled(conflicted_files_turn(path, h, n)),
                    |files: Result<Seq<Seq<char>>, CliErrorModel>, n: int|
                        {
                            let listed = match files {
                                Ok(v) => v,
                                Err(_) => seq![],
                            };
                            Turn::Failed(
                                ServiceErrorModel::MergeConflicts(
                                    rebase_conflict_text(
                                        head_name(head, "(unknown)"@),
                                        new_base,
                                        listed,
                                    ),
                                ),
                                n,
                            )
                        },
                ),
        )
    } else {
        Turn::Failed(
            ServiceErrorModel::InvalidRepository("Rebase failed: "@ + first_line(output)),
            at,
        )
    }
}

/// What follows a rebase: the commit that HEAD is at, or why the rebase failed.
pub open spec fn rebased_turn(
    path: Seq<u8>,
    new_base: Seq<char>,
    result: Result<(), CliErrorModel>,
    h: Seq<Reply>,
    at: int,
) -> ServiceTurn<Seq<char>> {
    match result {
        Ok(_) => and_then(
            accepted(id_turn(RequestModel::HeadCommit(path), h, at)),
            |id: Oid, n: int| Turn::Done(text_of_oid(id@), n),
        ),
        Err(CliErrorModel::RebaseInProgress) => Turn::Failed(
            ServiceErrorModel::RebaseInProgress,
            at,
        ),
        Err(CliErrorModel::CommandFailed(output)) => failed_rebase_turn(
            path,
            new_base,
            output,
            h,
            at,
        ),
        Err(e) => Turn::Failed(
            ServiceErrorModel::InvalidRepository("git rebase failed: "@ + cli_error_text(e)),
            at,
        ),
    }
}

/// Rebase a branch, once its worktree was found fit for it. A remote base is fetched first.
pub open spec fn rebase_checked_turn(
    repo: Seq<u8>,
    path: Seq<u8>,
    new_base: Seq<char>,
    old_base: Seq<char>,
    task: Seq<char>,
    h: Seq<Reply>,
    at: int,
) -> ServiceTurn<Seq<char>> {
    and_then(
        find_branch_turn(repo, new_base, h, at),
        |base: (BranchType, BranchInfo), n: int|
            and_then(
                if base.1.is_remote {
                    fetch_branch_turn(repo, base.1, h, n)
                } else {
                    Turn::Done((), n)
                },
                |u: (), n: int|
                    and_then(
                        ensure_identity_turn(path, h, n),
                        |u: (), n: int|
                            and_then(
                                settled(rebase_onto_turn(path, new_base, old_base, task, h, n)),
                                |result: Result<(), CliErrorModel>, n: int|
                                    rebased_turn(path, new_base, result, h, n),
                            ),
                    ),
            ),
    )
}

/// Rebase a branch in its worktree: only a clean one, in which no rebase is in progress.
pub open spec fn rebase_branch_turn(
    repo: Seq<u8>,
    path: Seq<u8>,
    new_base: Seq<char>,
    old_base: Seq<char>,
    task: Seq<char>,
    h: Seq<Reply>,
    at: int,
) -> ServiceTurn<Seq<char>> {
    and_then(
        open_turn(path, h, at),
        |u: (), n: int|
            and_then(
                open_turn(repo, h, n),
                |u: (), n: int|
                    and_then(
                        check_clean_turn(path, h, n),
                        |u: (), n: int|
                            and_then(
                                believed(rebase_in_progress_turn(path, h, n)),
                                |in_progress: bool, n: int|
                                    if in_progress {
                                        Turn::Failed(ServiceErrorModel::RebaseInProgress, n)
                                    } else {
                                        rebase_checked_turn(
                                            repo,
                                            path,
                                            new_base,
                                            old_base,
                                            task,
                                            h,
                                            n,
                                        )
                                    },
                            ),
                    ),
            ),
    )
}

/// Whether the output of a rebase, given with its lower-case form, tells of conflicts.
pub fn looks_like_conflict(output: &str, lowered: &str) -> (r: bool)
    ensures
        r == tells_conflict(output@, lowered@),
{
    contains(output, "could not apply") || contains(output, "CONFLICT") || contains(
        lowered,
        "resolve all conflicts",
    )
}

/// Whether the output of a rebase tells of conflicts. One of the phrases is found whatever the case
/// of its letters is.
pub fn output_tells_conflict(output: &str) -> (r: bool)
    ensures
        r == tells_conflict(output@, unicode_lowered(output@)),
        all_ascii(output@) ==> r == tells_conflict(output@, ascii_lowered(output@)),
{
    let lowered: String = to_lower(output);
    looks_like_conflict(output, lowered.as_str())
}

/// What is said of the files with conflicts: up to ten of them are named.
pub fn conflict_files_part(files: &Vec<String>) -> (r: String)
    ensures
        r@ == conflict_files_text(files.model()),
{
    if files.len() == 0 {
        let none: String = String::new();
        assert(none@ =~= seq![]);
        return none;
    }
    if files.len() > MAX_NAMED_CONFLICTS {
        let mut sample: Vec<String> = Vec::new();
        let mut i: usize = 0;
        assert(sample.model() =~= files.model().take(0));
        while i < MAX_NAMED_CONFLICTS
            invariant
                i <= MAX_NAMED_CONFLICTS < files@.len(),
                sample.model() == files.model().take(i as int),
            decreases MAX_NAMED_CONFLICTS - i,
        {
            sample.push(files[i].clone());
            assert(files.model().take(i + 1) =~= files.model().take(i as int).push(
                files@[i as int]@,
            ));
            i = i + 1;
        }
        let shown: String = cat3(
            " Conflicted files (showing ",
            decimal_text(MAX_NAMED_CONFLICTS).as_str(),
            " of ",
        );
        let counted: String = cat3(shown.as_str(), decimal_text(files.len()).as_str(), "): ");
        cat3(counted.as_str(), join(&sample, ", ").as_str(), ".")
    } else {
        cat3(" Conflicted files: ", join(files, ", ").as_str(), ".")
    }
}

/// What is said of a rebase that met conflicts.
pub fn rebase_conflict_message(branch: &str, new_base: &str, files: &Vec<String>) -> (r: String)
    ensures
        r@ == rebase_conflict_text(branch@, new_base@, files.model()),
{
    let start: String = cat3(
        "Rebase encountered merge conflicts while rebasing '",
        branch,
        "' onto '",
    );
    let onto: String = cat3(start.as_str(), new_base, "'.");
    cat3(
        onto.as_str(),
        conflict_files_part(files).as_str(),
        " Resolve conflicts and then continue or abort.",
    )
}

fn first_line_of(s: &str) -> (r: String)
    ensures
        r@ == first_line(s@),
{
    let all: Vec<String> = lines(s);
    if all.len() > 0 {
        assert(texts(all@)[0] == all@[0]@);
        all[0].clone()
    } else {
        let none: String = String::new();
        assert(none@ =~= seq![]);
        none
    }
}

impl GitService {
    fn fail_rebase(
        &self,
        worktree_path: &RawText,
        new_base_branch: &str,
        output: &str,
        io: &mut Dialogue,
    ) -> (r: ServiceResult<String>)
        ensures
            final(io).record() == old(io).record(),
            turn(r, final(io)) == failed_rebase_turn(
                worktree_path@,
                new_base_branch@,
                output@,
                old(io).record(),
                old(io).at(),
            ),
    {
        if output_tells_conflict(output) {
            let head: &Result<HeadRef, GitError> = io.head(Request::Head(worktree_path.copy()))?;
            let branch: String = head_name_or(head, "(unknown)");
            let found: ServiceResult<Result<Vec<String>, GitCliError>> = settle(
                self.cli().get_conflicted_files(worktree_path, io),
            );
            let files: Vec<String> = match found? {
                Ok(files) => files,
                Err(_) => Vec::new(),
            };
            assert(files@.len() == 0 ==> files.model() =~= seq![]);
            let msg: String = rebase_conflict_message(branch.as_str(), new_base_branch, &files);
            return Err(Interrupt::Failed(GitServiceError::MergeConflicts(msg)));
        }
        Err(
            Interrupt::Failed(
                GitServiceError::InvalidRepository(
                    cat("Rebase failed: ", first_line_of(output).as_str()),
                ),
            ),
        )
    }

    /// Rebase a branch in its worktree onto a new base. Nothing is done where the worktree has
    /// uncommitted changes to tracked files, or a rebase is in progress. Returns the id of the
    /// commit that HEAD is at.
    pub fn rebase_branch(
        &self,
        repo_path: &RawText,
        worktree_path: &RawText,
        new_base_branch: &str,
        old_base_branch: &str,
        task_branch: &str,
        io: &mut Dialogue,
    ) -> (r: ServiceResult<String>)
        ensures
            final(io).record() == old(io).record(),
            turn(r, final(io)) == rebase_branch_turn(
                repo_path@,
                worktree_path@,
                new_base_branch@,
                old_base_branch@,
                task_branch@,
                old(io).record(),
                old(io).at(),
            ),
    {
        self.open_repo(worktree_path, io)?;
        self.open_repo(repo_path, io)?;
        self.check_worktree_clean(worktree_path, io)?;
        let git: &GitCli = self.cli();
        if believe(git.is_rebase_in_progress(worktree_path, io))? {
            return Err(Interrupt::Failed(GitServiceError::RebaseInProgress));
        }
        let base: Branch = GitService::find_branch(repo_path, new_base_branch, io)?;
        if base.info.is_remote {
            self.fetch_branch_from_remote(repo_path, base.info, io)?;
        }
        self.ensure_cli_commit_identity(worktree_path, io)?;
        let result: ServiceResult<Result<(), GitCliError>> = settle(
            git.rebase_onto(worktree_path, new_base_branch, old_base_branch, task_branch, io),
        );
        match result? {
            Ok(_) => {
                let id: &Oid = accept(io.id(Request::HeadCommit(worktree_path.copy())))?;
                Ok(id.to_text())
            },
            Err(GitCliError::RebaseInProgress) => Err(
                Interrupt::Failed(GitServiceError::RebaseInProgress),
            ),
            Err(GitCliError::CommandFailed(output)) => self.fail_rebase(
                worktree_path,
                new_base_branch,
                output.as_str(),
                io,
            ),
            Err(e) => Err(
                Interrupt::Failed(
                    GitServiceError::InvalidRepository(
                        cat("git rebase failed: ", e.to_text().as_str()),
                    ),
                ),
            ),
        }
    }

    /// Whether a rebase is in progress.
    pub fn is_rebase_in_progress(&self, worktree_path: &RawText, io: &mut Dialogue) -> (r:
        ServiceResult<bool>)
        ensures
            final(io).record() == old(io).record(),
            turn(r, final(io)) == explained(
                rebase_in_progress_turn(worktree_path@, old(io).record(), old(io).at()),
                "git rebase state check failed: "@,
            ),
    {
        explain(
            self.cli().is_rebase_in_progress(worktree_path, io),
            "git rebase state check failed: ",
        )
    }
}

// ---------------------------------------------------------------------------
// Conflicts
// ---------------------------------------------------------------------------

/// An operation that conflicts can interrupt.
#[derive(Debug, Clone, Copy, PartialEq, Eq, Structural)]
pub enum ConflictOp {
    Rebase,
    Merge,
    CherryPick,
    Revert,
}

impl Model for ConflictOp {
    type M = ConflictOp;

    open spec fn model(&self) -> ConflictOp {
        *self
    }
}

/// Which operation is in progress: the first of a rebase, a merge, a cherry-pick and a revert.
pub open spec fn conflict_op_turn(path: Seq<u8>, h: Seq<Reply>, at: int) -> ServiceTurn<
    Option<ConflictOp>,
> {
    and_then(
        believed(rebase_in_progress_turn(path, h, at)),
        |rebase: bool, n: int|
            if rebase {
                Turn::Done(Some(ConflictOp::Rebase), n)
            } else {
                and_then(
                    believed(merge_in_progress_turn(path, h, n)),
                    |merge: bool, n: int|
                        if merge {
                            Turn::Done(Some(ConflictOp::Merge), n)
                        } else {
                            and_then(
                                believed(cherry_pick_in_progress_turn(path, h, n)),
                                |pick: bool, n: int|
                                    if pick {
                                        Turn::Done(Some(ConflictOp::CherryPick), n)
                                    } else {
                                        and_then(
                                            believed(revert_in_progress_turn(path, h, n)),
                                            |revert: bool, n: int|
                                                Turn::Done(
                                                    if revert {
                                                        Some(ConflictOp::Revert)
                                                    } else {
                                                        None
                                                    },
                                                    n,
                                                ),
                                        )
                                    },
                            )
                        },
                )
            },
    )
}

/// The files that have conflicts.
pub open spec fn service_conflicts_turn(path: Seq<u8>, h: Seq<Reply>, at: int) -> ServiceTurn<
    Seq<Seq<char>>,
> {
    explained(conflicted_files_turn(path, h, at), "git diff for conflicts failed: "@)
}

/// Abort a rebase that is in progress.
pub open spec fn service_abort_rebase_turn(path: Seq<u8>, h: Seq<Reply>, at: int) -> ServiceTurn<
    (),
> {
    explained(abort_rebase_turn(path, h, at), "git rebase --abort failed: "@)
}

/// End a rebase: abort it where there are files with conflicts, else leave it where it is.
pub open spec fn end_rebase_turn(path: Seq<u8>, h: Seq<Reply>, at: int) -> ServiceTurn<()> {
    and_then(
        settled(service_conflicts_turn(path, h, at)),
        |files: Result<Seq<Seq<char>>, ServiceErrorModel>, n: int|
            if files is Ok && files->Ok_0.len() > 0 {
                service_abort_rebase_turn(path, h, n)
            } else {
                explained(quit_rebase_turn(path, h, n), "git rebase --quit failed: "@)
            },
    )
}

/// End the operation that is in progress; nothing where none is.
pub open spec fn abort_conflicts_turn(path: Seq<u8>, h: Seq<Reply>, at: int) -> ServiceTurn<()> {
    and_then(
        conflict_op_turn(path, h, at),
        |op: Option<ConflictOp>, n: int|
            match op {
                Some(ConflictOp::Rebase) => end_rebase_turn(path, h, n),
                Some(ConflictOp::Merge) => explained(
                    abort_merge_turn(path, h, n),
                    "git merge --abort failed: "@,
                ),
                Some(ConflictOp::CherryPick) => explained(
                    abort_cherry_pick_turn(path, h, n),
                    "git cherry-pick --abort failed: "@,
                ),
                Some(ConflictOp::Revert) => explained(
                    abort_revert_turn(path, h, n),
                    "git revert --abort failed: "@,
                ),
                None => Turn::Done((), n),
            },
    )
}

impl GitService {
    /// Which operation is in progress: the first of a rebase, a merge, a cherry-pick and a revert.
    pub fn detect_conflict_op(&self, worktree_path: &RawText, io: &mut Dialogue) -> (r:
        ServiceResult<Option<ConflictOp>>)
        ensures
            final(io).record() == old(io).record(),
            turn(r, final(io)) == conflict_op_turn(
                worktree_path@,
                old(io).record(),
                old(io).at(),
            ),
    {
        let git: &GitCli = self.cli();
        if believe(git.is_rebase_in_progress(worktree_path, io))? {
            return Ok(Some(ConflictOp::Rebase));
        }
        if believe(git.is_merge_in_progress(worktree_path, io))? {
            return Ok(Some(ConflictOp::Merge));
        }
        if believe(git.is_cherry_pick_in_progress(worktree_path, io))? {
            return Ok(Some(ConflictOp::CherryPick));
        }
        if believe(git.is_revert_in_progress(worktree_path, io))? {
            return Ok(Some(ConflictOp::Revert));
        }
        Ok(None)
    }

    /// The files that have conflicts.
    pub fn get_conflicted_files(&self, worktree_path: &RawText, io: &mut Dialogue) -> (r:
        ServiceResult<Vec<String>>)
        ensures
            final(io).record() == old(io).record(),
            turn(r, final(io)) == service_conflicts_turn(
                worktree_path@,
                old(io).record(),
                old(io).at(),
            ),
    {
        explain(
            self.cli().get_conflicted_files(worktree_path, io),
            "git diff for conflicts failed: ",
        )
    }

    /// Abort a rebase. Nothing is done where none is in progress.
    pub fn abort_rebase(&self, worktree_path: &RawText, io: &mut Dialogue) -> (r: ServiceResult<()>)
        ensures
            final(io).record() == old(io).record(),
            turn(r, final(io)) == service_abort_rebase_turn(
                worktree_path@,
                old(io).record(),
                old(io).at(),
            ),
    {
        explain(self.cli().abort_rebase(worktree_path, io), "git rebase --abort failed: ")
    }

    /// End the operation that is in progress. Nothing is done where none is. A rebase is aborted
    /// where there are files with conflicts, else left where it is.
    pub fn abort_conflicts(&self, worktree_path: &RawText, io: &mut Dialogue) -> (r: ServiceResult<
        (),
    >)
        ensures
            final(io).record() == old(io).record(),
            turn(r, final(io)) == abort_conflicts_turn(
                worktree_path@,
                old(io).record(),
                old(io).at(),
            ),
    {
        let git: &GitCli = self.cli();
        match self.detect_conflict_op(worktree_path, io)? {
            Some(ConflictOp::Rebase) => {
                let found: ServiceResult<Result<Vec<String>, GitServiceError>> = settle(
                    self.get_conflicted_files(worktree_path, io),
                );
                let has_conflicts: bool = match found? {
                    Ok(files) => files.len() > 0,
                    Err(_) => false,
                };
                if has_conflicts {
                    self.abort_rebase(worktree_path, io)
                } else {
                    explain(git.quit_rebase(worktree_path, io), "git rebase --quit failed: ")
                }
            },
            Some(ConflictOp::Merge) => explain(
                git.abort_merge(worktree_path, io),
                "git merge --abort failed: ",
            ),
            Some(ConflictOp::CherryPick) => explain(
                git.abort_cherry_pick(worktree_path, io),
                "git cherry-pick --abort failed: ",
            ),
            Some(ConflictOp::Revert) => explain(
                git.abort_revert(worktree_path, io),
                "git revert --abort failed: ",
            ),
            None => Ok(()),
        }
    }
}

// ---------------------------------------------------------------------------
// What is promised of rebases
// ---------------------------------------------------------------------------

/// A remote base is fetched before the rebase: where that fails, the rebase fails in the same way.
pub proof fn law_remote_base_is_fetched(
    repo: Seq<u8>,
    path: Seq<u8>,
    new_base: Seq<char>,
    old_base: Seq<char>,
    task: Seq<char>,
    h: Seq<Reply>,
    at: int,
    base: (BranchType, BranchInfo),
    n: int,
)
    requires
        find_branch_turn(repo, new_base, h, at) == ServiceTurn::Done(base, n),
        base.1.is_remote,
    ensures
        fetch_branch_turn(repo, base.1, h, n) matches Turn::Failed(e, m) ==> rebase_checked_turn(
            repo,
            path,
            new_base,
            old_base,
            task,
            h,
            at,
        ) == ServiceTurn::<Seq<char>>::Failed(e, m),
        fetch_branch_turn(repo, base.1, h, n) matches Turn::Ask(q) ==> rebase_checked_turn(
            repo,
            path,
            new_base,
            old_base,
            task,
            h,
            at,
        ) == ServiceTurn::<Seq<char>>::Ask(q),
{
}

/// A rebase that a command failed to carry out fails: with the conflicts where the output tells of
/// them, else with the first line of the output.
pub proof fn law_conflicts_are_told(
    path: Seq<u8>,
    new_base: Seq<char>,
    output: Seq<char>,
    h: Seq<Reply>,
    at: int,
)
    ensures
        failed_rebase_turn(path, new_base, output, h, at) matches Turn::Failed(e, _) ==> if (
        tells_conflict(output, unicode_lowered(output))) {
            e is MergeConflicts
        } else {
            e == ServiceErrorModel::InvalidRepository("Rebase failed: "@ + first_line(output))
        },
        !(failed_rebase_turn(path, new_base, output, h, at) is Done),
{
}

} // verus!
