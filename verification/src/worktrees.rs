//! Worktrees: where HEAD is, what is uncommitted, and resetting to a commit.
use vstd::prelude::*;

use crate::branches::ahead_behind_turn;
use crate::cli::{finished, git_turn, GitCli};
use crate::commands::{
    list_worktrees_turn, worktree_add_turn, worktree_move_turn, worktree_prune_turn,
    worktree_remove_turn, worktree_status_turn,
};
use crate::dialogue::{
    accept, accepted, and_then, commit_turn, explain, explained, head_turn, refailed, settle,
    settled, statuses_turn, tell, told, turn, Dialogue, Interrupt, Reply, Request, RequestModel,
    StatusScope, Turn,
};
use crate::errors::{
    plain_git_error, GitCliError, GitError, GitErrorModel, GitServiceError, ServiceErrorModel,
};
use crate::model::{lemma_models_push, Model};
use crate::oid::{oid_of_text, text_of_oid, Oid};
use crate::porcelain::{WorktreeEntry, WorktreeModel, WorktreeStatus, WorktreeStatusModel};
use crate::raw::{argv2, argv3, utf8, RawText};
use crate::records::{CommitInfo, FileFlags, HeadRef, StatusRecord};
use crate::service::{open_turn, GitService, ServiceResult, ServiceTurn};
use crate::text::{join, joined, same, utf8_lossy};

verus! {

broadcast use lemma_models_push;

// ---------------------------------------------------------------------------
// HEAD
// ---------------------------------------------------------------------------

/// Where HEAD is.
#[derive(Debug, Clone)]
pub struct HeadInfo {
    pub branch: String,
    /// The id of the commit.
    pub oid: String,
}

/// What a `HeadInfo` stands for.
pub struct HeadModel {
    pub branch: Seq<char>,
    pub oid: Seq<char>,
}

impl Model for HeadInfo {
    type M = HeadModel;

    open spec fn model(&self) -> HeadModel {
        HeadModel { branch: self.branch@, oid: self.oid@ }
    }
}

/// Where HEAD is: the branch it names, or `HEAD`, and the commit.
pub open spec fn head_info_turn(path: Seq<u8>, h: Seq<Reply>, at: int) -> ServiceTurn<HeadModel> {
    and_then(
        open_turn(path, h, at),
        |u: (), n: int|
            and_then(
                accepted(head_turn(RequestModel::Head(path), h, n)),
                |head: HeadRef, n: int|
                    match head.target {
                        None => Turn::Failed(
                            ServiceErrorModel::InvalidRepository(
                                "Repository HEAD has no target commit"@,
                            ),
                            n,
                        ),
                        Some(id) => Turn::Done(
                            HeadModel {
                                branch: match head.shorthand {
                                    Some(s) => s@,
                                    None => "HEAD"@,
                                },
                                oid: text_of_oid(id@),
                            },
                            n,
                        ),
                    },
            ),
    )
}

/// What is left of a failure of the service where only libgit2's failures can be told.
pub open spec fn git_failure(e: ServiceErrorModel) -> GitErrorModel {
    match e {
        ServiceErrorModel::Git(g) => g,
        _ => plain_git_error("Failed to get head info"@),
    }
}

/// The branch that HEAD names.
pub open spec fn current_branch_turn(path: Seq<u8>, h: Seq<Reply>, at: int) -> Turn<
    Seq<char>,
    GitErrorModel,
> {
    and_then(
        refailed(head_info_turn(path, h, at), |e: ServiceErrorModel| git_failure(e)),
        |info: HeadModel, n: int| Turn::Done(info.branch, n),
    )
}

/// The branch that HEAD names, as a reply tells it; other words where it tells none.
pub open spec fn head_name(head: Result<HeadRef, GitError>, otherwise: Seq<char>) -> Seq<char> {
    match head {
        Ok(r) => match r.shorthand {
            Some(s) => s@,
            None => otherwise,
        },
        Err(_) => otherwise,
    }
}

/// The branch that HEAD names, as a reply tells it; other words where it tells none.
pub fn head_name_or(head: &Result<HeadRef, GitError>, otherwise: &str) -> (r: String)
    ensures
        r@ == head_name(*head, otherwise@),
{
    match head {
        Ok(reference) => match &reference.shorthand {
            Some(s) => s.clone(),
            None => otherwise.to_owned(),
        },
        Err(_) => otherwise.to_owned(),
    }
}

/// The first line of a commit's message.
pub open spec fn commit_subject_turn(path: Seq<u8>, sha: Seq<char>, h: Seq<Reply>, at: int) ->
    ServiceTurn<Seq<char>> {
    and_then(
        open_turn(path, h, at),
        |u: (), n: int|
            match oid_of_text(sha) {
                None => Turn::Failed(
                    ServiceErrorModel::InvalidRepository("Invalid commit SHA"@),
                    n,
                ),
                Some(id) => and_then(
                    accepted(commit_turn(RequestModel::FindCommit(path, id), h, n)),
                    |c: CommitInfo, n: int|
                        Turn::Done(
                            match c.summary {
                                Some(s) => s@,
                                None => "(no subject)"@,
                            },
                            n,
                        ),
                ),
            },
    )
}

/// How many commits one id is ahead of and behind another.
pub open spec fn ahead_behind_ids_turn(
    path: Seq<u8>,
    from: Seq<char>,
    to: Seq<char>,
    h: Seq<Reply>,
    at: int,
) -> ServiceTurn<(int, int)> {
    and_then(
        open_turn(path, h, at),
        |u: (), n: int|
            if oid_of_text(from) is None {
                Turn::Failed(ServiceErrorModel::InvalidRepository("Invalid from OID"@), n)
            } else if oid_of_text(to) is None {
                Turn::Failed(ServiceErrorModel::InvalidRepository("Invalid to OID"@), n)
            } else {
                ahead_behind_turn(path, oid_of_text(from)->0, oid_of_text(to)->0, h, n)
            },
    )
}

impl GitService {
    /// Where HEAD is.
    pub fn get_head_info(&self, repo_path: &RawText, io: &mut Dialogue) -> (r: ServiceResult<
        HeadInfo,
    >)
        ensures
            final(io).record() == old(io).record(),
            turn(r, final(io)) == head_info_turn(repo_path@, old(io).record(), old(io).at()),
    {
        self.open_repo(repo_path, io)?;
        let head: &HeadRef = accept(io.head(Request::Head(repo_path.copy())))?;
        let branch: String = match &head.shorthand {
            Some(name) => name.clone(),
            None => "HEAD".to_owned(),
        };
        match head.target {
            Some(id) => Ok(HeadInfo { branch, oid: id.to_text() }),
            None => Err(
                Interrupt::Failed(
                    GitServiceError::InvalidRepository(
                        "Repository HEAD has no target commit".to_owned(),
                    ),
                ),
            ),
        }
    }

    /// The branch that HEAD names.
    pub fn get_current_branch(&self, repo_path: &RawText, io: &mut Dialogue) -> (r: Result<
        String,
        Interrupt<GitError>,
    >)
        ensures
            final(io).record() == old(io).record(),
            turn(r, final(io)) == current_branch_turn(repo_path@, old(io).record(), old(io).at()),
    {
        match self.get_head_info(repo_path, io) {
            Ok(info) => Ok(info.branch),
            Err(Interrupt::Failed(GitServiceError::Git(e))) => Err(Interrupt::Failed(e)),
            Err(Interrupt::Failed(_)) => Err(
                Interrupt::Failed(GitError::from_str("Failed to get head info")),
            ),
            Err(Interrupt::Ask(q)) => Err(Interrupt::Ask(q)),
            Err(Interrupt::OutOfStep) => Err(Interrupt::OutOfStep),
        }
    }

    /// The first line of a commit's message.
    pub fn get_commit_subject(&self, repo_path: &RawText, commit_sha: &str, io: &mut Dialogue) -> (r:
        ServiceResult<String>)
        ensures
            final(io).record() == old(io).record(),
            turn(r, final(io)) == commit_subject_turn(
                repo_path@,
                commit_sha@,
                old(io).record(),
                old(io).at(),
            ),
    {
        self.open_repo(repo_path, io)?;
        match Oid::parse(commit_sha) {
            None => Err(
                Interrupt::Failed(
                    GitServiceError::InvalidRepository("Invalid commit SHA".to_owned()),
                ),
            ),
            Some(id) => {
                let commit: &CommitInfo = accept(
                    io.commit(Request::FindCommit(repo_path.copy(), id)),
                )?;
                match &commit.summary {
                    Some(s) => Ok(s.clone()),
                    None => Ok("(no subject)".to_owned()),
                }
            },
        }
    }

    /// How many commits `from_oid` is ahead of and behind `to_oid`.
    pub fn ahead_behind_commits_by_oid(
        &self,
        repo_path: &RawText,
        from_oid: &str,
        to_oid: &str,
        io: &mut Dialogue,
    ) -> (r: ServiceResult<(usize, usize)>)
        ensures
            final(io).record() == old(io).record(),
            turn(r, final(io)) == ahead_behind_ids_turn(
                repo_path@,
                from_oid@,
                to_oid@,
                old(io).record(),
                old(io).at(),
            ),
    {
        self.open_repo(repo_path, io)?;
        let from: Oid = match Oid::parse(from_oid) {
            Some(id) => id,
            None => {
                return Err(
                    Interrupt::Failed(
                        GitServiceError::InvalidRepository("Invalid from OID".to_owned()),
                    ),
                );
            },
        };
        let to: Oid = match Oid::parse(to_oid) {
            Some(id) => id,
            None => {
                return Err(
                    Interrupt::Failed(
                        GitServiceError::InvalidRepository("Invalid to OID".to_owned()),
                    ),
                );
            },
        };
        let c: &(usize, usize) = accept(
            io.counts(Request::AheadBehind(repo_path.copy(), from, to)),
        )?;
        Ok((c.0, c.1))
    }
}

// ---------------------------------------------------------------------------
// Uncommitted changes
// ---------------------------------------------------------------------------

/// Whether a tracked file differs in the index or in the worktree, or is in conflict.
pub open spec fn is_changed(f: FileFlags) -> bool {
    f.index_modified || f.index_new || f.index_deleted || f.index_renamed || f.index_typechange
        || f.wt_modified || f.wt_deleted || f.wt_renamed || f.wt_typechange || f.conflicted
}

/// The paths of the tracked files that differ; what is not text in a path is replaced.
pub open spec fn changed_files(records: Seq<StatusRecord>) -> Seq<Seq<char>>
    decreases records.len(),
{
    if records.len() == 0 {
        seq![]
    } else {
        let before = changed_files(records.drop_last());
        if is_changed(records.last().flags) {
            before.push(utf8_lossy(records.last().path@))
        } else {
            before
        }
    }
}

/// The scope that holds the tracked files alone.
pub open spec fn tracked_only() -> StatusScope {
    StatusScope { untracked: false, ignored: false }
}

/// Succeeds where no tracked file has uncommitted changes; else it fails with the branch and the
/// files.
pub open spec fn check_clean_turn(repo: Seq<u8>, h: Seq<Reply>, at: int) -> ServiceTurn<()> {
    and_then(
        accepted(statuses_turn(RequestModel::Statuses(repo, tracked_only()), h, at)),
        |records: Vec<StatusRecord>, n: int|
            if changed_files(records@).len() == 0 {
                Turn::Done((), n)
            } else {
                and_then(
                    head_turn(RequestModel::Head(repo), h, n),
                    |head: Result<HeadRef, GitError>, n: int|
                        Turn::Failed(
                            ServiceErrorModel::WorktreeDirty(
                                head_name(head, "unknown branch"@),
                                joined(changed_files(records@), ", "@),
                            ),
                            n,
                        ),
                )
            },
    )
}

/// Whether no tracked file of a worktree has uncommitted changes.
pub open spec fn is_clean_turn(path: Seq<u8>, h: Seq<Reply>, at: int) -> ServiceTurn<bool> {
    and_then(
        open_turn(path, h, at),
        |u: (), n: int|
            and_then(
                settled(check_clean_turn(path, h, n)),
                |clean: Result<(), ServiceErrorModel>, n: int|
                    match clean {
                        Ok(_) => Turn::Done(true, n),
                        Err(ServiceErrorModel::WorktreeDirty(_, _)) => Turn::Done(false, n),
                        Err(e) => Turn::Failed(e, n),
                    },
            ),
    )
}

/// How many tracked files of a worktree have changes, and how many files are untracked.
pub open spec fn change_counts_turn(
    dirs: Seq<Seq<char>>,
    path: Seq<u8>,
    h: Seq<Reply>,
    at: int,
) -> ServiceTurn<(int, int)> {
    and_then(
        explained(worktree_status_turn(dirs, path, h, at), "git status failed: "@),
        |status: WorktreeStatusModel, n: int|
            Turn::Done((status.uncommitted_tracked, status.untracked), n),
    )
}

fn changed(f: &FileFlags) -> (r: bool)
    ensures
        r == is_changed(*f),
{
    f.index_modified || f.index_new || f.index_deleted || f.index_renamed || f.index_typechange
        || f.wt_modified || f.wt_deleted || f.wt_renamed || f.wt_typechange || f.conflicted
}

/// The paths of the tracked files that differ; what is not text in a path is replaced.
pub fn dirty_files(records: &Vec<StatusRecord>) -> (r: Vec<String>)
    ensures
        r.model() == changed_files(records@),
{
    let mut files: Vec<String> = Vec::new();
    let mut i: usize = 0;
    assert(files.model() =~= changed_files(records@.take(0)));
    while i < records.len()
        invariant
            i <= records@.len(),
            files.model() == changed_files(records@.take(i as int)),
        decreases records@.len() - i,
    {
        assert(records@.take(i + 1).drop_last() =~= records@.take(i as int));
        assert(records@.take(i + 1).last() == records@[i as int]);
        if changed(&records[i].flags) {
            files.push(records[i].path.to_text());
        }
        i = i + 1;
    }
    assert(records@.take(i as int) =~= records@);
    files
}

impl GitService {
    /// The scope that holds the tracked files alone.
pub open spec fn tracked_only() -> StatusScope {
    StatusScope { untracked: false, ignored: false }
}

/// Succeeds where no tracked file has uncommitted changes; else it fails with the branch and
    /// the files.
    pub fn check_worktree_clean(&self, repo: &RawText, io: &mut Dialogue) -> (r: ServiceResult<()>)
        ensures
            final(io).record() == old(io).record(),
            turn(r, final(io)) == check_clean_turn(repo@, old(io).record(), old(io).at()),
    {
        let scope: StatusScope = StatusScope { untracked: false, ignored: false };
        let records: &Vec<StatusRecord> = accept(
            io.statuses(Request::Statuses(repo.copy(), scope)),
        )?;
        let files: Vec<String> = dirty_files(records);
        if files.len() > 0 {
            let head: &Result<HeadRef, GitError> = io.head(Request::Head(repo.copy()))?;
            let branch: String = head_name_or(head, "unknown branch");
            let list: String = join(&files, ", ");
            return Err(Interrupt::Failed(GitServiceError::WorktreeDirty(branch, list)));
        }
        Ok(())
    }

    /// Whether no tracked file of a worktree has uncommitted changes.
    pub fn is_worktree_clean(&self, worktree_path: &RawText, io: &mut Dialogue) -> (r:
        ServiceResult<bool>)
        ensures
            final(io).record() == old(io).record(),
            turn(r, final(io)) == is_clean_turn(worktree_path@, old(io).record(), old(io).at()),
    {
        self.open_repo(worktree_path, io)?;
        let clean: ServiceResult<Result<(), GitServiceError>> = settle(
            self.check_worktree_clean(worktree_path, io),
        );
        match clean? {
            Ok(_) => Ok(true),
            Err(GitServiceError::WorktreeDirty(_, _)) => Ok(false),
            Err(e) => Err(Interrupt::Failed(e)),
        }
    }

    /// How many tracked files of a worktree have changes, and how many files are untracked.
    pub fn get_worktree_change_counts(&self, worktree_path: &RawText, io: &mut Dialogue) -> (r:
        ServiceResult<(usize, usize)>)
        ensures
            final(io).record() == old(io).record(),
            turn(r, final(io)) == change_counts_turn(
                self.dirs(),
                worktree_path@,
                old(io).record(),
                old(io).at(),
            ),
    {
        let status: WorktreeStatus = explain(
            self.cli().get_worktree_status(worktree_path, io),
            "git status failed: ",
        )?;
        Ok((status.uncommitted_tracked, status.untracked))
    }
}

// ---------------------------------------------------------------------------
// Resetting
// ---------------------------------------------------------------------------

/// How a worktree is to be brought to a commit.
#[derive(Debug, Clone, Copy)]
pub struct WorktreeResetOptions {
    /// Whether to reset, or only to tell whether that is needed.
    pub perform_reset: bool,
    pub force_when_dirty: bool,
    pub is_dirty: bool,
    /// Whether it is worth a word in the log that a dirty worktree is left as it is.
    pub log_skip_when_dirty: bool,
}

impl WorktreeResetOptions {
    /// These options.
    pub fn new(
        perform_reset: bool,
        force_when_dirty: bool,
        is_dirty: bool,
        log_skip_when_dirty: bool,
    ) -> (r: WorktreeResetOptions)
        ensures
            r == (WorktreeResetOptions {
                perform_reset,
                force_when_dirty,
                is_dirty,
                log_skip_when_dirty,
            }),
    {
        WorktreeResetOptions { perform_reset, force_when_dirty, is_dirty, log_skip_when_dirty }
    }
}

/// What came of bringing a worktree to a commit.
#[derive(Debug, Clone, Copy)]
pub struct WorktreeResetOutcome {
    pub needed: bool,
    pub applied: bool,
}

impl Default for WorktreeResetOutcome {
    /// Nothing was needed and nothing was done.
    fn default() -> (r: WorktreeResetOutcome)
        ensures
            r == (WorktreeResetOutcome { needed: false, applied: false }),
    {
        WorktreeResetOutcome { needed: false, applied: false }
    }
}

impl Model for WorktreeResetOutcome {
    type M = WorktreeResetOutcome;

    open spec fn model(&self) -> WorktreeResetOutcome {
        *self
    }
}

/// Reset a worktree to a commit: where it is not forced, only a clean one. The sparse checkout is
/// reapplied, which may fail.
pub open spec fn reset_turn(path: Seq<u8>, sha: Seq<char>, force: bool, h: Seq<Reply>, at: int) ->
    ServiceTurn<()> {
    and_then(
        open_turn(path, h, at),
        |u: (), n: int|
            and_then(
                if force {
                    Turn::Done((), n)
                } else {
                    check_clean_turn(path, h, n)
                },
                |u: (), n: int|
                    and_then(
                        explained(
                            git_turn(
                                path,
                                seq![utf8("reset"@), utf8("--hard"@), utf8(sha)],
                                h,
                                n,
                            ),
                            "git reset --hard failed: "@,
                        ),
                        |out: Seq<char>, n: int|
                            finished(
                                settled::<_, _, ServiceErrorModel>(
                                    git_turn(
                                        path,
                                        seq![utf8("sparse-checkout"@), utf8("reapply"@)],
                                        h,
                                        n,
                                    ),
                                ),
                            ),
                    ),
            ),
    )
}

/// Whether a worktree has to be reset: HEAD is elsewhere, or there are uncommitted changes.
pub open spec fn reset_needed(
    head: Result<HeadModel, ServiceErrorModel>,
    target: Seq<char>,
    is_dirty: bool,
) -> bool {
    is_dirty || head is Err || head->Ok_0.oid != target
}

/// Bring a worktree to a commit where that is needed, wanted, and no uncommitted changes stand
/// against it; what came of it, and the failure of a reset that failed.
pub open spec fn reconcile_report_turn(
    path: Seq<u8>,
    target: Seq<char>,
    options: WorktreeResetOptions,
    h: Seq<Reply>,
    at: int,
) -> ServiceTurn<(WorktreeResetOutcome, Option<ServiceErrorModel>)> {
    and_then(
        settled(head_info_turn(path, h, at)),
        |head: Result<HeadModel, ServiceErrorModel>, n: int|
            {
                let needed = reset_needed(head, target, options.is_dirty);
                if needed && options.perform_reset && (options.force_when_dirty
                    || !options.is_dirty) {
                    and_then(
                        settled(reset_turn(path, target, options.force_when_dirty, h, n)),
                        |done: Result<(), ServiceErrorModel>, n: int|
                            Turn::Done(
                                (
                                    WorktreeResetOutcome { needed, applied: done is Ok },
                                    match done {
                                        Ok(_) => None,
                                        Err(e) => Some(e),
                                    },
                                ),
                                n,
                            ),
                    )
                } else {
                    Turn::Done((WorktreeResetOutcome { needed, applied: false }, None), n)
                }
            },
    )
}

/// Bring a worktree to a commit where that is needed, wanted, and no uncommitted changes stand
/// against it.
pub open spec fn reconcile_turn(
    path: Seq<u8>,
    target: Seq<char>,
    options: WorktreeResetOptions,
    h: Seq<Reply>,
    at: int,
) -> ServiceTurn<WorktreeResetOutcome> {
    and_then(
        reconcile_report_turn(path, target, options, h, at),
        |report: (WorktreeResetOutcome, Option<ServiceErrorModel>), n: int|
            Turn::Done(report.0, n),
    )
}

impl GitService {
    /// Bring a worktree to a commit where that is needed, wanted, and no uncommitted changes stand
    /// against it.
    pub fn reconcile_worktree_to_commit(
        &self,
        worktree_path: &RawText,
        target_commit_oid: &str,
        options: WorktreeResetOptions,
        io: &mut Dialogue,
    ) -> (r: ServiceResult<WorktreeResetOutcome>)
        ensures
            final(io).record() == old(io).record(),
            turn(r, final(io)) == reconcile_turn(
                worktree_path@,
                target_commit_oid@,
                options,
                old(io).record(),
                old(io).at(),
            ),
    {
        let report: (WorktreeResetOutcome, Option<GitServiceError>) =
            self.reconcile_worktree_reporting(worktree_path, target_commit_oid, options, io)?;
        Ok(report.0)
    }

    /// `reconcile_worktree_to_commit`, with the failure of a reset that failed.
    pub fn reconcile_worktree_reporting(
        &self,
        worktree_path: &RawText,
        target_commit_oid: &str,
        options: WorktreeResetOptions,
        io: &mut Dialogue,
    ) -> (r: ServiceResult<(WorktreeResetOutcome, Option<GitServiceError>)>)
        ensures
            final(io).record() == old(io).record(),
            turn(r, final(io)) == reconcile_report_turn(
                worktree_path@,
                target_commit_oid@,
                options,
                old(io).record(),
                old(io).at(),
            ),
    {
        let found: ServiceResult<Result<HeadInfo, GitServiceError>> = settle(
            self.get_head_info(worktree_path, io),
        );
        let at_target: bool = match found? {
            Ok(head) => same(head.oid.as_str(), target_commit_oid),
            Err(_) => false,
        };
        let mut outcome: WorktreeResetOutcome = WorktreeResetOutcome::default();
        let mut cause: Option<GitServiceError> = None;
        if !at_target || options.is_dirty {
            outcome.needed = true;
            if options.perform_reset {
                if options.is_dirty && !options.force_when_dirty {
                    return Ok((outcome, None));
                }
                let done: ServiceResult<Result<(), GitServiceError>> = settle(
                    self.reset_worktree_to_commit(
                        worktree_path,
                        target_commit_oid,
                        options.force_when_dirty,
                        io,
                    ),
                );
                match done? {
                    Ok(_) => {
                        outcome.applied = true;
                    },
                    Err(e) => {
                        cause = Some(e);
                    },
                }
            }
        }
        Ok((outcome, cause))
    }

    /// Reset a worktree to a commit: where it is not forced, only a clean one.
    pub fn reset_worktree_to_commit(
        &self,
        worktree_path: &RawText,
        commit_sha: &str,
        force: bool,
        io: &mut Dialogue,
    ) -> (r: ServiceResult<()>)
        ensures
            final(io).record() == old(io).record(),
            turn(r, final(io)) == reset_turn(
                worktree_path@,
                commit_sha@,
                force,
                old(io).record(),
                old(io).at(),
            ),
    {
        self.open_repo(worktree_path, io)?;
        if !force {
            self.check_worktree_clean(worktree_path, io)?;
        }
        let cli: &GitCli = self.cli();
        explain(
            cli.git(worktree_path, argv3("reset", "--hard", commit_sha), io),
            "git reset --hard failed: ",
        )?;
        let reapplied: ServiceResult<Result<String, GitCliError>> = settle(
            cli.git(worktree_path, argv2("sparse-checkout", "reapply"), io),
        );
        reapplied?;
        Ok(())
    }

    /// Add a worktree for a branch, which is created where `create_branch` says so.
    pub fn add_worktree(
        &self,
        repo_path: &RawText,
        worktree_path: &RawText,
        branch: &str,
        create_branch: bool,
        io: &mut Dialogue,
    ) -> (r: ServiceResult<()>)
        ensures
            final(io).record() == old(io).record(),
            turn(r, final(io)) == told(
                worktree_add_turn(
                    repo_path@,
                    worktree_path@,
                    branch@,
                    create_branch,
                    old(io).record(),
                    old(io).at(),
                ),
            ),
    {
        tell(self.cli().worktree_add(repo_path, worktree_path, branch, create_branch, io))
    }

    /// Remove a worktree.
    pub fn remove_worktree(
        &self,
        repo_path: &RawText,
        worktree_path: &RawText,
        force: bool,
        io: &mut Dialogue,
    ) -> (r: ServiceResult<()>)
        ensures
            final(io).record() == old(io).record(),
            turn(r, final(io)) == told(
                worktree_remove_turn(
                    repo_path@,
                    worktree_path@,
                    force,
                    old(io).record(),
                    old(io).at(),
                ),
            ),
    {
        tell(self.cli().worktree_remove(repo_path, worktree_path, force, io))
    }

    /// Move a worktree.
    pub fn move_worktree(
        &self,
        repo_path: &RawText,
        old_path: &RawText,
        new_path: &RawText,
        io: &mut Dialogue,
    ) -> (r: ServiceResult<()>)
        ensures
            final(io).record() == old(io).record(),
            turn(r, final(io)) == told(
                worktree_move_turn(
                    repo_path@,
                    old_path@,
                    new_path@,
                    old(io).record(),
                    old(io).at(),
                ),
            ),
    {
        tell(self.cli().worktree_move(repo_path, old_path, new_path, io))
    }

    /// Forget the worktrees whose directories are gone.
    pub fn prune_worktrees(&self, repo_path: &RawText, io: &mut Dialogue) -> (r: ServiceResult<()>)
        ensures
            final(io).record() == old(io).record(),
            turn(r, final(io)) == told(
                worktree_prune_turn(repo_path@, old(io).record(), old(io).at()),
            ),
    {
        tell(self.cli().worktree_prune(repo_path, io))
    }
}

// ---------------------------------------------------------------------------
// Where a branch is checked out
// ---------------------------------------------------------------------------

/// The path of the first worktree that has a branch checked out.
pub open spec fn checkout_of(worktrees: Seq<WorktreeModel>, branch: Seq<char>) -> Option<Seq<char>>
    decreases worktrees.len(),
{
    if worktrees.len() == 0 {
        None
    } else if worktrees[0].branch == Some(branch) {
        Some(worktrees[0].path)
    } else {
        checkout_of(worktrees.skip(1), branch)
    }
}

/// Where a branch is checked out.
pub open spec fn checkout_path_turn(path: Seq<u8>, branch: Seq<char>, h: Seq<Reply>, at: int) ->
    ServiceTurn<Option<Seq<u8>>> {
    and_then(
        explained(list_worktrees_turn(path, h, at), "git worktree list failed: "@),
        |worktrees: Seq<WorktreeModel>, n: int|
            Turn::Done(
                match checkout_of(worktrees, branch) {
                    Some(p) => Some(utf8(p)),
                    None => None,
                },
                n,
            ),
    )
}

/// The path of the first worktree that has a branch checked out.
pub fn find_checkout(worktrees: &Vec<WorktreeEntry>, branch_name: &str) -> (r: Option<String>)
    ensures
        r.model() == checkout_of(worktrees.model(), branch_name@),
{
    let ghost ws = worktrees.model();
    let mut i: usize = 0;
    assert(ws.skip(0) =~= ws);
    while i < worktrees.len()
        invariant
            i <= worktrees@.len(),
            ws == worktrees.model(),
            checkout_of(ws.skip(i as int), branch_name@) == checkout_of(ws, branch_name@),
        decreases worktrees@.len() - i,
    {
        assert(ws.skip(i as int)[0] == worktrees@[i as int].model());
        assert(ws.skip(i as int).skip(1) =~= ws.skip(i + 1));
        if let Some(branch) = &worktrees[i].branch {
            if same(branch.as_str(), branch_name) {
                return Some(worktrees[i].path.clone());
            }
        }
        i = i + 1;
    }
    None
}

impl GitService {
    /// Where a branch is checked out.
    pub fn find_checkout_path_for_branch(
        &self,
        repo_path: &RawText,
        branch_name: &str,
        io: &mut Dialogue,
    ) -> (r: ServiceResult<Option<RawText>>)
        ensures
            final(io).record() == old(io).record(),
            turn(r, final(io)) == checkout_path_turn(
                repo_path@,
                branch_name@,
                old(io).record(),
                old(io).at(),
            ),
    {
        let worktrees: Vec<WorktreeEntry> = explain(
            self.cli().list_worktrees(repo_path, io),
            "git worktree list failed: ",
        )?;
        match find_checkout(&worktrees, branch_name) {
            Some(path) => Ok(Some(RawText::of(path.as_str()))),
            None => Ok(None),
        }
    }
}

// ---------------------------------------------------------------------------
// What is promised of worktrees
// ---------------------------------------------------------------------------

/// The files that are told are exactly those with a change.
pub proof fn law_changed_files(records: Seq<StatusRecord>, path: Seq<char>)
    ensures
        changed_files(records).contains(path) <==> exists|i: int|
            0 <= i < records.len() && is_changed((#[trigger] records[i]).flags) && utf8_lossy(
                records[i].path@,
            ) == path,
        changed_files(records).len() == 0 <==> is_clean(records),
    decreases records.len(),
{
    if records.len() > 0 {
        let before = records.drop_last();
        law_changed_files(before, path);
        let earlier = changed_files(before);
        let all = changed_files(records);
        let last = records.len() - 1;
        assert(records[last] == records.last());
        assert forall|i: int| 0 <= i < last implies before[i] == #[trigger] records[i] by {}
        if all.contains(path) {
            let k = choose|k: int| 0 <= k < all.len() && all[k] == path;
            if k < earlier.len() {
                assert(earlier[k] == path);
                let i = choose|i: int|
                    0 <= i < before.len() && is_changed((#[trigger] before[i]).flags) && utf8_lossy(
                        before[i].path@,
                    ) == path;
                assert(records[i] == before[i]);
            }
        }
        if exists|i: int|
            0 <= i < records.len() && is_changed((#[trigger] records[i]).flags) && utf8_lossy(
                records[i].path@,
            ) == path {
            let i = choose|i: int|
                0 <= i < records.len() && is_changed((#[trigger] records[i]).flags) && utf8_lossy(
                    records[i].path@,
                ) == path;
            if i < last {
                assert(before[i] == records[i]);
                let k = choose|k: int| 0 <= k < earlier.len() && earlier[k] == path;
                assert(all[k] == path);
            } else {
                assert(all[earlier.len() as int] == path);
            }
        }
        if earlier.len() > 0 {
            let i = choose|i: int| 0 <= i < before.len() && is_changed((#[trigger] before[i]).flags);
            assert(is_changed(records[i].flags));
        } else if all.len() == 0 {
            assert forall|i: int| 0 <= i < records.len() implies !is_changed(
                (#[trigger] records[i]).flags,
            ) by {
                if i < last {
                    assert(!is_changed(before[i].flags));
                }
            }
        }
    }
}

/// Whether no record tells a change of a tracked file.
pub open spec fn is_clean(records: Seq<StatusRecord>) -> bool {
    forall|i: int| 0 <= i < records.len() ==> !is_changed((#[trigger] records[i]).flags)
}

/// A worktree is clean exactly if no record tells a change of a tracked file, whatever its path is;
/// what is untracked or ignored does not count. The check succeeds exactly then, and else fails with
/// the branch and the files.
pub proof fn law_clean_worktree(
    path: Seq<u8>,
    h: Seq<Reply>,
    at: int,
    records: Vec<StatusRecord>,
    head: Result<HeadRef, GitError>,
)
    requires
        0 <= at,
        at + 1 < h.len(),
        h[at] == Reply::Unit(Ok::<(), GitError>(())),
        h[at + 1] == Reply::Statuses(Ok::<Vec<StatusRecord>, GitError>(records)),
        at + 2 < h.len() ==> h[at + 2] == Reply::Head(head),
    ensures
        is_clean(records@) ==> {
            &&& is_clean_turn(path, h, at) == ServiceTurn::Done(true, at + 2)
            &&& check_clean_turn(path, h, at + 1) == ServiceTurn::Done((), at + 2)
        },
        !is_clean(records@) && h.len() == at + 2 ==> {
            &&& is_clean_turn(path, h, at) == ServiceTurn::<bool>::Ask(RequestModel::Head(path))
            &&& check_clean_turn(path, h, at + 1) == ServiceTurn::<()>::Ask(
                RequestModel::Head(path),
            )
        },
        !is_clean(records@) && h.len() > at + 2 ==> {
            &&& is_clean_turn(path, h, at) == ServiceTurn::Done(false, at + 3)
            &&& check_clean_turn(path, h, at + 1) == ServiceTurn::<()>::Failed(
                ServiceErrorModel::WorktreeDirty(
                    head_name(head, "unknown branch"@),
                    joined(changed_files(records@), ", "@),
                ),
                at + 3,
            )
        },
{
    law_changed_files(records@, seq![]);
}

/// The checkout that is found has the branch checked out, and none before it has.
pub proof fn law_checkout_found(worktrees: Seq<WorktreeModel>, branch: Seq<char>)
    ensures
        checkout_of(worktrees, branch) matches Some(p) ==> exists|i: int|
            0 <= i < worktrees.len() && (#[trigger] worktrees[i]).branch == Some(branch)
                && worktrees[i].path == p && (forall|j: int|
                0 <= j < i ==> (#[trigger] worktrees[j]).branch != Some(branch)),
        checkout_of(worktrees, branch) is None ==> forall|i: int|
            0 <= i < worktrees.len() ==> (#[trigger] worktrees[i]).branch != Some(branch),
    decreases worktrees.len(),
{
    if worktrees.len() > 0 && worktrees[0].branch != Some(branch) {
        let rest = worktrees.skip(1);
        law_checkout_found(rest, branch);
        if let Some(p) = checkout_of(rest, branch) {
            let i = choose|i: int|
                0 <= i < rest.len() && (#[trigger] rest[i]).branch == Some(branch) && rest[i].path
                    == p && (forall|j: int|
                    0 <= j < i ==> (#[trigger] rest[j]).branch != Some(branch));
            assert(worktrees[i + 1] == rest[i]);
            assert forall|j: int| 0 <= j < i + 1 implies (#[trigger] worktrees[j]).branch != Some(
                branch,
            ) by {
                if j > 0 {
                    assert(worktrees[j] == rest[j - 1]);
                }
            }
        } else {
            assert forall|i: int| 0 <= i < worktrees.len() implies (#[trigger] worktrees[i]).branch
                != Some(branch) by {
                if i > 0 {
                    assert(worktrees[i] == rest[i - 1]);
                }
            }
        }
    }
}

} // verus!
