//! The operations that the service needs of the `git` command.
use vstd::prelude::*;

use crate::cli::{
    available_turn, differences_of, finished, found_differences, git_turn, no_envs, one_env,
    plain_command, run_turn, text_turn, CliResult, CliTurn, GitCli,
};
use crate::dialogue::{
    and_then, flag_turn, ran_turn, refailed, settle, settled, temp_index_turn, turn, Command,
    CommandModel, Dialogue, Interrupt, Reply, Request, RequestModel, Turn,
};
use crate::errors::{CliErrorModel, GitCliError};
use crate::model::{lemma_models_push, Model};
use crate::oid::{text_of_oid, Commit};
use crate::porcelain::{
    classified, excludes_of, filled_lines, name_status_entries, status_of, with_filter,
    worktrees_on, StatusDiffEntry, StatusDiffModel, StatusDiffOptions, StatusEntry,
    StatusEntryModel, WorktreeEntry, WorktreeModel, WorktreeStatus, WorktreeStatusModel,
};
use crate::raw::{argv2, argv3, argv4, argv5, strict_text, utf8, RawText};
use crate::records::RunReport;
use crate::text::{cat, cat3, law_first_piece, law_one_piece, lines_of, pieces, trim, trimmed};

verus! {

broadcast use lemma_models_push;

// ---------------------------------------------------------------------------
// Worktrees
// ---------------------------------------------------------------------------

/// The arguments that add a worktree, for a new branch where `create` says so. A new branch starts
/// at HEAD.
pub open spec fn worktree_add_args(path: Seq<u8>, branch: Seq<char>, create: bool) -> Seq<Seq<u8>> {
    if create {
        seq![utf8("worktree"@), utf8("add"@), utf8("-b"@), utf8(branch), path]
    } else {
        seq![utf8("worktree"@), utf8("add"@), path, utf8(branch)]
    }
}

/// Add a worktree, and reapply its sparse checkout, which may fail.
pub open spec fn worktree_add_turn(
    dir: Seq<u8>,
    path: Seq<u8>,
    branch: Seq<char>,
    create: bool,
    h: Seq<Reply>,
    at: int,
) -> CliTurn<()> {
    and_then(
        available_turn(h, at),
        |u: (), n: int|
            and_then(
                git_turn(dir, worktree_add_args(path, branch, create), h, n),
                |out: Seq<char>, n: int|
                    finished(
                        settled::<_, _, CliErrorModel>(
                            git_turn(
                                path,
                                seq![utf8("sparse-checkout"@), utf8("reapply"@)],
                                h,
                                n,
                            ),
                        ),
                    ),
            ),
    )
}

/// The arguments that remove a worktree.
pub open spec fn worktree_remove_args(path: Seq<u8>, force: bool) -> Seq<Seq<u8>> {
    if force {
        seq![utf8("worktree"@), utf8("remove"@), utf8("--force"@), path]
    } else {
        seq![utf8("worktree"@), utf8("remove"@), path]
    }
}

/// Remove a worktree.
pub open spec fn worktree_remove_turn(
    dir: Seq<u8>,
    path: Seq<u8>,
    force: bool,
    h: Seq<Reply>,
    at: int,
) -> CliTurn<()> {
    and_then(
        available_turn(h, at),
        |u: (), n: int| finished(git_turn(dir, worktree_remove_args(path, force), h, n)),
    )
}

/// Move a worktree, where both paths are text.
pub open spec fn worktree_move_turn(
    dir: Seq<u8>,
    old_path: Seq<u8>,
    new_path: Seq<u8>,
    h: Seq<Reply>,
    at: int,
) -> CliTurn<()> {
    and_then(
        available_turn(h, at),
        |u: (), n: int|
            if strict_text(old_path) is None {
                Turn::Failed(CliErrorModel::CommandFailed("Invalid old worktree path"@), n)
            } else if strict_text(new_path) is None {
                Turn::Failed(CliErrorModel::CommandFailed("Invalid new worktree path"@), n)
            } else {
                finished(
                    git_turn(
                        dir,
                        seq![utf8("worktree"@), utf8("move"@), old_path, new_path],
                        h,
                        n,
                    ),
                )
            },
    )
}

/// Forget the worktrees whose directories are gone.
pub open spec fn worktree_prune_turn(dir: Seq<u8>, h: Seq<Reply>, at: int) -> CliTurn<()> {
    finished(git_turn(dir, seq![utf8("worktree"@), utf8("prune"@)], h, at))
}

/// The worktrees of a repository.
pub open spec fn list_worktrees_turn(dir: Seq<u8>, h: Seq<Reply>, at: int) -> CliTurn<
    Seq<WorktreeModel>,
> {
    and_then(
        git_turn(dir, seq![utf8("worktree"@), utf8("list"@), utf8("--porcelain"@)], h, at),
        |out: Seq<char>, n: int| Turn::Done(worktrees_on(lines_of(out)), n),
    )
}

impl GitCli {
    /// Add a worktree at `worktree_path` for `branch`, which is created at HEAD where
    /// `create_branch` says so.
    pub fn worktree_add(
        &self,
        repo_path: &RawText,
        worktree_path: &RawText,
        branch: &str,
        create_branch: bool,
        io: &mut Dialogue,
    ) -> (r: CliResult<()>)
        ensures
            final(io).record() == old(io).record(),
            turn(r, final(io)) == worktree_add_turn(
                repo_path@,
                worktree_path@,
                branch@,
                create_branch,
                old(io).record(),
                old(io).at(),
            ),
    {
        self.ensure_available(io)?;
        let mut args: Vec<RawText> = argv2("worktree", "add");
        if create_branch {
            args.push(RawText::of("-b"));
            args.push(RawText::of(branch));
        }
        args.push(worktree_path.copy());
        if !create_branch {
            args.push(RawText::of(branch));
        }
        assert(args.model() =~= worktree_add_args(worktree_path@, branch@, create_branch));
        self.git(repo_path, args, io)?;
        let reapplied: CliResult<Result<String, GitCliError>> = settle(
            self.git(worktree_path, argv2("sparse-checkout", "reapply"), io),
        );
        reapplied?;
        Ok(())
    }

    /// Remove the worktree at `worktree_path`.
    pub fn worktree_remove(
        &self,
        repo_path: &RawText,
        worktree_path: &RawText,
        force: bool,
        io: &mut Dialogue,
    ) -> (r: CliResult<()>)
        ensures
            final(io).record() == old(io).record(),
            turn(r, final(io)) == worktree_remove_turn(
                repo_path@,
                worktree_path@,
                force,
                old(io).record(),
                old(io).at(),
            ),
    {
        self.ensure_available(io)?;
        let mut args: Vec<RawText> = argv2("worktree", "remove");
        if force {
            args.push(RawText::of("--force"));
        }
        args.push(worktree_path.copy());
        assert(args.model() =~= worktree_remove_args(worktree_path@, force));
        self.git(repo_path, args, io)?;
        Ok(())
    }

    /// Move the worktree at `old_path` to `new_path`.
    pub fn worktree_move(
        &self,
        repo_path: &RawText,
        old_path: &RawText,
        new_path: &RawText,
        io: &mut Dialogue,
    ) -> (r: CliResult<()>)
        ensures
            final(io).record() == old(io).record(),
            turn(r, final(io)) == worktree_move_turn(
                repo_path@,
                old_path@,
                new_path@,
                old(io).record(),
                old(io).at(),
            ),
    {
        self.ensure_available(io)?;
        if old_path.as_text().is_none() {
            return Err(
                Interrupt::Failed(
                    GitCliError::CommandFailed("Invalid old worktree path".to_owned()),
                ),
            );
        }
        if new_path.as_text().is_none() {
            return Err(
                Interrupt::Failed(
                    GitCliError::CommandFailed("Invalid new worktree path".to_owned()),
                ),
            );
        }
        let mut args: Vec<RawText> = argv2("worktree", "move");
        args.push(old_path.copy());
        args.push(new_path.copy());
        assert(args.model() =~= seq![utf8("worktree"@), utf8("move"@), old_path@, new_path@]);
        self.git(repo_path, args, io)?;
        Ok(())
    }

    /// Forget the worktrees whose directories are gone.
    pub fn worktree_prune(&self, repo_path: &RawText, io: &mut Dialogue) -> (r: CliResult<()>)
        ensures
            final(io).record() == old(io).record(),
            turn(r, final(io)) == worktree_prune_turn(
                repo_path@,
                old(io).record(),
                old(io).at(),
            ),
    {
        self.git(repo_path, argv2("worktree", "prune"), io)?;
        Ok(())
    }

    /// The worktrees of a repository.
    pub fn list_worktrees(&self, repo_path: &RawText, io: &mut Dialogue) -> (r: CliResult<
        Vec<WorktreeEntry>,
    >)
        ensures
            final(io).record() == old(io).record(),
            turn(r, final(io)) == list_worktrees_turn(
                repo_path@,
                old(io).record(),
                old(io).at(),
            ),
    {
        let out: String = self.git(repo_path, argv3("worktree", "list", "--porcelain"), io)?;
        Ok(GitCli::parse_worktrees(out.as_str()))
    }
}

// ---------------------------------------------------------------------------
// Status, staging and committing
// ---------------------------------------------------------------------------

/// Whether anything in the working tree is changed or untracked.
pub open spec fn has_changes_turn(dir: Seq<u8>, h: Seq<Reply>, at: int) -> CliTurn<bool> {
    and_then(
        run_turn(
            plain_command(
                dir,
                seq![utf8("--no-optional-locks"@), utf8("status"@), utf8("--porcelain"@)],
            ),
            h,
            at,
        ),
        |out: Seq<u8>, n: int| Turn::Done(out.len() > 0, n),
    )
}

/// The arguments that ask for the status.
pub open spec fn status_args(dirs: Seq<Seq<char>>) -> Seq<Seq<u8>> {
    with_filter(
        seq![
            utf8("--no-optional-locks"@),
            utf8("status"@),
            utf8("--porcelain"@),
            utf8("-z"@),
            utf8("--untracked-files=normal"@),
        ],
        dirs,
        None,
    )
}

/// The status of a worktree, without the skipped directories.
pub open spec fn worktree_status_turn(
    dirs: Seq<Seq<char>>,
    dir: Seq<u8>,
    h: Seq<Reply>,
    at: int,
) -> CliTurn<WorktreeStatusModel> {
    and_then(
        run_turn(
            (CommandModel { dir, args: status_args(dirs), envs: seq![], stdin: None }),
            h,
            at,
        ),
        |out: Seq<u8>, n: int| Turn::Done(status_of(out), n),
    )
}

/// Stage all changes but those in the skipped directories.
pub open spec fn add_all_turn(
    dirs: Seq<Seq<char>>,
    dir: Seq<u8>,
    h: Seq<Reply>,
    at: int,
) -> CliTurn<()> {
    finished(git_turn(dir, with_filter(seq![utf8("add"@), utf8("-A"@)], dirs, None), h, at))
}

/// Commit what is staged, without hooks.
pub open spec fn cli_commit_turn(
    dir: Seq<u8>,
    message: Seq<char>,
    h: Seq<Reply>,
    at: int,
) -> CliTurn<()> {
    finished(
        git_turn(
            dir,
            seq![utf8("commit"@), utf8("--no-verify"@), utf8("-m"@), utf8(message)],
            h,
            at,
        ),
    )
}

/// Whether the index differs from HEAD.
pub open spec fn has_staged_changes_turn(dir: Seq<u8>, h: Seq<Reply>, at: int) -> CliTurn<bool> {
    and_then(
        ran_turn(
            RequestModel::Run(
                CommandModel {
                    dir,
                    args: seq![utf8("diff"@), utf8("--cached"@), utf8("--quiet"@)],
                    envs: seq![],
                    stdin: None,
                },
            ),
            h,
            at,
        ),
        |r: RunReport, n: int|
            match differences_of(r) {
                Ok(b) => Turn::Done(b, n),
                Err(e) => Turn::Failed(e, n),
            },
    )
}

/// The paths of some entries, each followed by its original path where it has one.
pub open spec fn touched_paths(entries: Seq<StatusEntryModel>) -> Seq<Seq<u8>>
    decreases entries.len(),
{
    if entries.len() == 0 {
        seq![]
    } else {
        let with_path = touched_paths(entries.drop_last()).push(entries.last().path);
        match entries.last().orig_path {
            Some(p) => with_path.push(p),
            None => with_path,
        }
    }
}

/// Each of some paths, followed by a zero byte.
pub open spec fn zero_ended(paths: Seq<Seq<u8>>) -> Seq<u8>
    decreases paths.len(),
{
    if paths.len() == 0 {
        seq![]
    } else {
        (zero_ended(paths.drop_last()) + paths.last()).push(0u8)
    }
}

/// What names the files to stage: the paths of the entries, and what leaves out the skipped
/// directories.
pub open spec fn staging_input(dirs: Seq<Seq<char>>, entries: Seq<StatusEntryModel>) -> Seq<u8> {
    zero_ended(touched_paths(entries) + excludes_of(dirs))
}

/// Stage the files of some entries in an index of their own; nothing where there are none.
pub open spec fn stage_entries_turn(
    dirs: Seq<Seq<char>>,
    dir: Seq<u8>,
    envs: Seq<(Seq<u8>, Seq<u8>)>,
    entries: Seq<StatusEntryModel>,
    h: Seq<Reply>,
    at: int,
) -> CliTurn<()> {
    if entries.len() > 0 {
        finished(
            text_turn(
                (CommandModel {
                    dir,
                    args: seq![
                        utf8("add"@),
                        utf8("-A"@),
                        utf8("--pathspec-from-file=-"@),
                        utf8("--pathspec-file-nul"@),
                    ],
                    envs,
                    stdin: Some(staging_input(dirs, entries)),
                }),
                h,
                at,
            ),
        )
    } else {
        Turn::Done((), at)
    }
}

/// The arguments that compare an index with a commit.
pub open spec fn name_status_args(
    dirs: Seq<Seq<char>>,
    base: Seq<u8>,
    filter: Option<Seq<Seq<char>>>,
) -> Seq<Seq<u8>> {
    with_filter(
        seq![
            utf8("-c"@),
            utf8("core.quotepath=false"@),
            utf8("diff"@),
            utf8("--cached"@),
            utf8("-M"@),
            utf8("--name-status"@),
            utf8(text_of_oid(base)),
        ],
        dirs,
        filter,
    )
}

/// What differs between a commit and a worktree, untracked files counted in. A temporary index
/// starts from HEAD and gets all changes; that index is compared with the commit.
pub open spec fn diff_status_turn(
    dirs: Seq<Seq<char>>,
    dir: Seq<u8>,
    base: Seq<u8>,
    filter: Option<Seq<Seq<char>>>,
    h: Seq<Reply>,
    at: int,
) -> CliTurn<Seq<StatusDiffModel>> {
    and_then(
        temp_index_turn(RequestModel::TempIndex, h, at),
        |made: Result<RawText, String>, n: int|
            match made {
                Err(e) => Turn::Failed(
                    CliErrorModel::CommandFailed("temp dir create failed: "@ + e@),
                    n,
                ),
                Ok(index) => diff_against_turn(
                    dirs,
                    dir,
                    base,
                    filter,
                    seq![(utf8("GIT_INDEX_FILE"@), index@)],
                    h,
                    n,
                ),
            },
    )
}

/// `diff_status_turn` from where the temporary index is named by the environment.
pub open spec fn diff_against_turn(
    dirs: Seq<Seq<char>>,
    dir: Seq<u8>,
    base: Seq<u8>,
    filter: Option<Seq<Seq<char>>>,
    envs: Seq<(Seq<u8>, Seq<u8>)>,
    h: Seq<Reply>,
    at: int,
) -> CliTurn<Seq<StatusDiffModel>> {
    and_then(
        text_turn(
            (CommandModel {
                dir,
                args: seq![utf8("read-tree"@), utf8("HEAD"@)],
                envs,
                stdin: None,
            }),
            h,
            at,
        ),
        |out: Seq<char>, n: int|
            and_then(
                worktree_status_turn(dirs, dir, h, n),
                |status: WorktreeStatusModel, n: int|
                    and_then(
                        stage_entries_turn(dirs, dir, envs, status.entries, h, n),
                        |u: (), n: int|
                            and_then(
                                text_turn(
                                    (CommandModel {
                                        dir,
                                        args: name_status_args(dirs, base, filter),
                                        envs,
                                        stdin: None,
                                    }),
                                    h,
                                    n,
                                ),
                                |out: Seq<char>, n: int|
                                    Turn::Done(name_status_entries(lines_of(out)), n),
                            ),
                    ),
            ),
    )
}

/// Appends `path` and a zero byte.
fn push_zero_ended(input: &mut Vec<u8>, path: &Vec<u8>)
    ensures
        final(input)@ == (old(input)@ + path@).push(0u8),
{
    let ghost start = input@;
    let mut i: usize = 0;
    assert(start + path@.take(0) =~= start);
    while i < path.len()
        invariant
            i <= path@.len(),
            input@ == start + path@.take(i as int),
        decreases path@.len() - i,
    {
        input.push(path[i]);
        assert(start + path@.take(i + 1) =~= (start + path@.take(i as int)).push(path@[i as int]));
        i = i + 1;
    }
    assert(path@.take(i as int) =~= path@);
    input.push(0);
}

proof fn lemma_zero_ended_push(paths: Seq<Seq<u8>>, p: Seq<u8>)
    ensures
        zero_ended(paths.push(p)) == (zero_ended(paths) + p).push(0u8),
{
    assert(paths.push(p).drop_last() =~= paths);
}

impl GitCli {
    /// Whether anything in the working tree is changed or untracked.
    pub fn has_changes(&self, worktree_path: &RawText, io: &mut Dialogue) -> (r: CliResult<bool>)
        ensures
            final(io).record() == old(io).record(),
            turn(r, final(io)) == has_changes_turn(
                worktree_path@,
                old(io).record(),
                old(io).at(),
            ),
    {
        let out: RawText = self.git_impl(
            worktree_path,
            argv3("--no-optional-locks", "status", "--porcelain"),
            no_envs(),
            None,
            io,
        )?;
        Ok(out.bytes.len() > 0)
    }

    /// What names the files of some entries for staging.
    pub fn staging_list(&self, entries: &Vec<StatusEntry>) -> (r: RawText)
        ensures
            r@ == staging_input(self.dirs(), entries.model()),
    {
        let ghost es = entries.model();
        let mut input: Vec<u8> = Vec::new();
        let mut i: usize = 0;
        assert(input@ =~= zero_ended(touched_paths(es.take(0))));
        while i < entries.len()
            invariant
                i <= entries@.len(),
                es == entries.model(),
                input@ == zero_ended(touched_paths(es.take(i as int))),
            decreases entries@.len() - i,
        {
            let ghost before = touched_paths(es.take(i as int));
            assert(es.take(i + 1).drop_last() =~= es.take(i as int));
            assert(es.take(i + 1).last() == entries@[i as int].model());
            push_zero_ended(&mut input, &entries[i].path);
            proof {
                lemma_zero_ended_push(before, entries@[i as int].path@);
            }
            match &entries[i].orig_path {
                Some(p) => {
                    push_zero_ended(&mut input, p);
                    proof {
                        lemma_zero_ended_push(before.push(entries@[i as int].path@), p@);
                    }
                },
                None => {},
            }
            i = i + 1;
        }
        assert(es.take(i as int) =~= es);
        let excludes: Vec<RawText> = self.get_default_pathspec_excludes();
        let ghost touched = touched_paths(es);
        let ghost xs = excludes.model();
        let mut j: usize = 0;
        assert(touched + xs.take(0) =~= touched);
        while j < excludes.len()
            invariant
                j <= excludes@.len(),
                xs == excludes.model(),
                input@ == zero_ended(touched + xs.take(j as int)),
            decreases excludes@.len() - j,
        {
            push_zero_ended(&mut input, &excludes[j].bytes);
            proof {
                lemma_zero_ended_push(touched + xs.take(j as int), xs[j as int]);
                assert((touched + xs.take(j as int)).push(xs[j as int]) =~= touched + xs.take(
                    j + 1,
                ));
            }
            j = j + 1;
        }
        assert(xs.take(j as int) =~= xs);
        RawText { bytes: input }
    }

    /// What differs between `base_commit` and the worktree, untracked files counted in.
    pub fn diff_status(
        &self,
        worktree_path: &RawText,
        base_commit: &Commit,
        opts: &StatusDiffOptions,
        io: &mut Dialogue,
    ) -> (r: CliResult<Vec<StatusDiffEntry>>)
        ensures
            final(io).record() == old(io).record(),
            turn(r, final(io)) == diff_status_turn(
                self.dirs(),
                worktree_path@,
                base_commit@,
                opts.path_filter.model(),
                old(io).record(),
                old(io).at(),
            ),
    {
        let index: &RawText = match io.temp_index(Request::TempIndex)? {
            Ok(index) => index,
            Err(e) => {
                return Err(
                    Interrupt::Failed(
                        GitCliError::CommandFailed(cat("temp dir create failed: ", e.as_str())),
                    ),
                );
            },
        };
        self.git_with_env(
            worktree_path,
            argv2("read-tree", "HEAD"),
            one_env("GIT_INDEX_FILE", index.copy()),
            io,
        )?;
        let status: WorktreeStatus = self.get_worktree_status(worktree_path, io)?;
        if status.entries.len() > 0 {
            self.git_with_stdin(
                worktree_path,
                argv4("add", "-A", "--pathspec-from-file=-", "--pathspec-file-nul"),
                one_env("GIT_INDEX_FILE", index.copy()),
                self.staging_list(&status.entries),
                io,
            )?;
        }
        let mut args: Vec<RawText> = argv5("-c", "core.quotepath=false", "diff", "--cached", "-M");
        args.push(RawText::of("--name-status"));
        args.push(RawText::of(base_commit.to_text().as_str()));
        assert(args.model() =~= seq![
            utf8("-c"@),
            utf8("core.quotepath=false"@),
            utf8("diff"@),
            utf8("--cached"@),
            utf8("-M"@),
            utf8("--name-status"@),
            utf8(text_of_oid(base_commit@)),
        ]);
        let args: Vec<RawText> = self.apply_pathspec_filter(args, opts.path_filter.as_ref());
        let out: String = self.git_with_env(
            worktree_path,
            args,
            one_env("GIT_INDEX_FILE", index.copy()),
            io,
        )?;
        Ok(GitCli::parse_name_status(out.as_str()))
    }

    /// The status of a worktree.
    pub fn get_worktree_status(&self, worktree_path: &RawText, io: &mut Dialogue) -> (r: CliResult<
        WorktreeStatus,
    >)
        ensures
            final(io).record() == old(io).record(),
            turn(r, final(io)) == worktree_status_turn(
                self.dirs(),
                worktree_path@,
                old(io).record(),
                old(io).at(),
            ),
    {
        let args: Vec<RawText> = self.apply_default_excludes(
            argv5("--no-optional-locks", "status", "--porcelain", "-z", "--untracked-files=normal"),
        );
        let out: RawText = self.git_impl(worktree_path, args, no_envs(), None, io)?;
        Ok(GitCli::parse_status(&out))
    }

    /// Stage all changes in the working tree.
    pub fn add_all(&self, worktree_path: &RawText, io: &mut Dialogue) -> (r: CliResult<()>)
        ensures
            final(io).record() == old(io).record(),
            turn(r, final(io)) == add_all_turn(
                self.dirs(),
                worktree_path@,
                old(io).record(),
                old(io).at(),
            ),
    {
        let args: Vec<RawText> = self.apply_default_excludes(argv2("add", "-A"));
        self.git(worktree_path, args, io)?;
        Ok(())
    }

    /// Commit what is staged, with this message.
    pub fn commit(&self, worktree_path: &RawText, message: &str, io: &mut Dialogue) -> (r:
        CliResult<()>)
        ensures
            final(io).record() == old(io).record(),
            turn(r, final(io)) == cli_commit_turn(
                worktree_path@,
                message@,
                old(io).record(),
                old(io).at(),
            ),
    {
        self.git(worktree_path, argv4("commit", "--no-verify", "-m", message), io)?;
        Ok(())
    }

    /// Whether the index differs from HEAD.
    pub fn has_staged_changes(&self, repo_path: &RawText, io: &mut Dialogue) -> (r: CliResult<bool>)
        ensures
            final(io).record() == old(io).record(),
            turn(r, final(io)) == has_staged_changes_turn(
                repo_path@,
                old(io).record(),
                old(io).at(),
            ),
    {
        let command: Command = Command {
            dir: repo_path.copy(),
            args: argv3("diff", "--cached", "--quiet"),
            envs: no_envs(),
            stdin: None,
        };
        match found_differences(io.ran(Request::Run(command))?) {
            Ok(b) => Ok(b),
            Err(e) => Err(Interrupt::Failed(e)),
        }
    }
}

// ---------------------------------------------------------------------------
// Remotes
// ---------------------------------------------------------------------------

/// What a failure of a command that talks to a remote comes to.
pub open spec fn remote_failure(e: CliErrorModel) -> CliErrorModel {
    match e {
        CliErrorModel::CommandFailed(m) => classified(m),
        other => other,
    }
}

/// The environment that keeps `git` from asking for credentials.
pub open spec fn no_prompt() -> Seq<(Seq<u8>, Seq<u8>)> {
    seq![(utf8("GIT_TERMINAL_PROMPT"@), utf8("0"@))]
}

/// Run a command that talks to a remote, and tell what kind of failure it was.
pub open spec fn remote_command_turn(
    dir: Seq<u8>,
    args: Seq<Seq<u8>>,
    envs: Seq<(Seq<u8>, Seq<u8>)>,
    h: Seq<Reply>,
    at: int,
) -> CliTurn<Seq<char>> {
    refailed(
        text_turn((CommandModel { dir, args, envs, stdin: None }), h, at),
        |e: CliErrorModel| remote_failure(e),
    )
}

/// Fetch what a refspec says.
pub open spec fn fetch_turn(
    dir: Seq<u8>,
    url: Seq<char>,
    refspec: Seq<char>,
    h: Seq<Reply>,
    at: int,
) -> CliTurn<()> {
    finished(remote_command_turn(dir, seq![utf8("fetch"@), utf8(url), utf8(refspec)], no_prompt(), h, at))
}

/// The refspec that pushes a branch to the branch of the same name; with a plus sign it replaces
/// whatever is there.
pub open spec fn push_refspec(branch: Seq<char>, force: bool) -> Seq<char> {
    let plain = "refs/heads/"@ + branch + ":refs/heads/"@ + branch;
    if force {
        "+"@ + plain
    } else {
        plain
    }
}

/// Push what a refspec says.
pub open spec fn push_refspec_turn(
    dir: Seq<u8>,
    url: Seq<char>,
    refspec: Seq<char>,
    envs: Seq<(Seq<u8>, Seq<u8>)>,
    h: Seq<Reply>,
    at: int,
) -> CliTurn<()> {
    finished(remote_command_turn(dir, seq![utf8("push"@), utf8(url), utf8(refspec)], envs, h, at))
}

/// Push a branch.
pub open spec fn push_turn(
    dir: Seq<u8>,
    url: Seq<char>,
    branch: Seq<char>,
    force: bool,
    h: Seq<Reply>,
    at: int,
) -> CliTurn<()> {
    push_refspec_turn(dir, url, push_refspec(branch, force), no_prompt(), h, at)
}

/// Whether a remote has a branch: it is asked without fetching.
pub open spec fn remote_branch_exists_turn(
    dir: Seq<u8>,
    url: Seq<char>,
    branch: Seq<char>,
    h: Seq<Reply>,
    at: int,
) -> CliTurn<bool> {
    and_then(
        remote_command_turn(
            dir,
            seq![
                utf8("ls-remote"@),
                utf8("--heads"@),
                utf8(url),
                utf8("refs/heads/"@ + branch),
            ],
            no_prompt(),
            h,
            at,
        ),
        |out: Seq<char>, n: int| Turn::Done(trimmed(out).len() > 0, n),
    )
}

impl GitCli {
    /// Run a command that talks to a remote, and tell what kind of failure it was.
    fn git_remote(
        &self,
        repo_path: &RawText,
        args: Vec<RawText>,
        envs: Vec<(RawText, RawText)>,
        io: &mut Dialogue,
    ) -> (r: CliResult<String>)
        ensures
            final(io).record() == old(io).record(),
            turn(r, final(io)) == remote_command_turn(
                repo_path@,
                args.model(),
                envs.model(),
                old(io).record(),
                old(io).at(),
            ),
    {
        match self.git_with_env(repo_path, args, envs, io) {
            Err(Interrupt::Failed(GitCliError::CommandFailed(msg))) => Err(
                Interrupt::Failed(self.classify_cli_error(msg)),
            ),
            other => other,
        }
    }

    /// Fetch from a remote what `refspec` says.
    pub fn fetch_with_refspec(
        &self,
        repo_path: &RawText,
        remote_url: &str,
        refspec: &str,
        io: &mut Dialogue,
    ) -> (r: CliResult<()>)
        ensures
            final(io).record() == old(io).record(),
            turn(r, final(io)) == fetch_turn(
                repo_path@,
                remote_url@,
                refspec@,
                old(io).record(),
                old(io).at(),
            ),
    {
        let envs: Vec<(RawText, RawText)> = one_env("GIT_TERMINAL_PROMPT", RawText::of("0"));
        self.git_remote(repo_path, argv3("fetch", remote_url, refspec), envs, io)?;
        Ok(())
    }

    /// Push a branch to a remote; with `force`, whatever is there.
    pub fn push(
        &self,
        repo_path: &RawText,
        remote_url: &str,
        branch: &str,
        force: bool,
        io: &mut Dialogue,
    ) -> (r: CliResult<()>)
        ensures
            final(io).record() == old(io).record(),
            turn(r, final(io)) == push_turn(
                repo_path@,
                remote_url@,
                branch@,
                force,
                old(io).record(),
                old(io).at(),
            ),
    {
        let plain: String = cat(cat3("refs/heads/", branch, ":refs/heads/").as_str(), branch);
        let refspec: String = if force {
            cat("+", plain.as_str())
        } else {
            plain
        };
        let envs: Vec<(RawText, RawText)> = one_env("GIT_TERMINAL_PROMPT", RawText::of("0"));
        self.push_with_refspec(repo_path, remote_url, refspec.as_str(), envs, io)
    }

    /// Push to a remote what `refspec` says, with `envs` set in the environment of the command.
    pub fn push_with_refspec(
        &self,
        repo_path: &RawText,
        remote_url: &str,
        refspec: &str,
        envs: Vec<(RawText, RawText)>,
        io: &mut Dialogue,
    ) -> (r: CliResult<()>)
        ensures
            final(io).record() == old(io).record(),
            turn(r, final(io)) == push_refspec_turn(
                repo_path@,
                remote_url@,
                refspec@,
                envs.model(),
                old(io).record(),
                old(io).at(),
            ),
    {
        self.git_remote(repo_path, argv3("push", remote_url, refspec), envs, io)?;
        Ok(())
    }

    /// Whether a remote has a branch: it is asked without fetching.
    pub fn check_remote_branch_exists(
        &self,
        repo_path: &RawText,
        remote_url: &str,
        branch_name: &str,
        io: &mut Dialogue,
    ) -> (r: CliResult<bool>)
        ensures
            final(io).record() == old(io).record(),
            turn(r, final(io)) == remote_branch_exists_turn(
                repo_path@,
                remote_url@,
                branch_name@,
                old(io).record(),
                old(io).at(),
            ),
    {
        let refname: String = cat("refs/heads/", branch_name);
        let envs: Vec<(RawText, RawText)> = one_env("GIT_TERMINAL_PROMPT", RawText::of("0"));
        let out: String = self.git_remote(
            repo_path,
            argv4("ls-remote", "--heads", remote_url, refname.as_str()),
            envs,
            io,
        )?;
        Ok(!trim(out.as_str()).as_str().is_empty())
    }
}

// ---------------------------------------------------------------------------
// Rebases, merges and other operations in progress
// ---------------------------------------------------------------------------

/// The merge base of two refs: the fork point where `git` finds one, else the plain merge base.
pub open spec fn merge_base_turn(
    dir: Seq<u8>,
    a: Seq<char>,
    b: Seq<char>,
    h: Seq<Reply>,
    at: int,
) -> CliTurn<Seq<char>> {
    and_then(
        settled(
            git_turn(
                dir,
                seq![utf8("merge-base"@), utf8("--fork-point"@), utf8(a), utf8(b)],
                h,
                at,
            ),
        ),
        |point: Result<Seq<char>, CliErrorModel>, n: int|
            match point {
                Ok(out) => Turn::Done(trimmed(out), n),
                Err(_) => and_then(
                    git_turn(dir, seq![utf8("merge-base"@), utf8(a), utf8(b)], h, n),
                    |out: Seq<char>, n: int| Turn::Done(trimmed(out), n),
                ),
            },
    )
}

/// Whether a rebase is in progress: one of the two directories that `git` keeps for it exists. What
/// `git` prints for them may be relative to the worktree.
pub open spec fn rebase_in_progress_turn(dir: Seq<u8>, h: Seq<Reply>, at: int) -> CliTurn<bool> {
    and_then(
        git_turn(
            dir,
            seq![utf8("rev-parse"@), utf8("--git-path"@), utf8("rebase-merge"@)],
            h,
            at,
        ),
        |merge: Seq<char>, n: int|
            and_then(
                git_turn(
                    dir,
                    seq![utf8("rev-parse"@), utf8("--git-path"@), utf8("rebase-apply"@)],
                    h,
                    n,
                ),
                |apply: Seq<char>, n: int|
                    and_then(
                        flag_turn(RequestModel::PathExistsIn(dir, utf8(trimmed(merge))), h, n),
                        |merge_exists: bool, n: int|
                            and_then(
                                flag_turn(RequestModel::PathExistsIn(dir, utf8(trimmed(apply))), h, n),
                                |apply_exists: bool, n: int|
                                    Turn::Done(merge_exists || apply_exists, n),
                            ),
                    ),
            ),
    )
}

/// Whether a pseudo-reference such as `MERGE_HEAD` exists.
pub open spec fn marker_exists_turn(
    dir: Seq<u8>,
    marker: Seq<char>,
    h: Seq<Reply>,
    at: int,
) -> CliTurn<bool> {
    and_then(
        settled(
            git_turn(dir, seq![utf8("rev-parse"@), utf8("--verify"@), utf8(marker)], h, at),
        ),
        |found: Result<Seq<char>, CliErrorModel>, n: int|
            match found {
                Ok(_) => Turn::Done(true, n),
                Err(CliErrorModel::CommandFailed(_)) => Turn::Done(false, n),
                Err(e) => Turn::Failed(e, n),
            },
    )
}

/// Whether a merge is in progress.
pub open spec fn merge_in_progress_turn(dir: Seq<u8>, h: Seq<Reply>, at: int) -> CliTurn<bool> {
    marker_exists_turn(dir, "MERGE_HEAD"@, h, at)
}

/// Whether a cherry-pick is in progress.
pub open spec fn cherry_pick_in_progress_turn(dir: Seq<u8>, h: Seq<Reply>, at: int) -> CliTurn<
    bool,
> {
    marker_exists_turn(dir, "CHERRY_PICK_HEAD"@, h, at)
}

/// Whether a revert is in progress.
pub open spec fn revert_in_progress_turn(dir: Seq<u8>, h: Seq<Reply>, at: int) -> CliTurn<bool> {
    marker_exists_turn(dir, "REVERT_HEAD"@, h, at)
}

/// Run `git <operation> <end>` where `t` tells that the operation is in progress; nothing where it
/// tells that it is not.
pub open spec fn end_if_turn(
    t: CliTurn<bool>,
    dir: Seq<u8>,
    operation: Seq<char>,
    end: Seq<char>,
    h: Seq<Reply>,
) -> CliTurn<()> {
    and_then(
        t,
        |in_progress: bool, n: int|
            if in_progress {
                finished(git_turn(dir, seq![utf8(operation), utf8(end)], h, n))
            } else {
                Turn::Done((), n)
            },
    )
}

/// Abort a rebase that is in progress.
pub open spec fn abort_rebase_turn(dir: Seq<u8>, h: Seq<Reply>, at: int) -> CliTurn<()> {
    end_if_turn(rebase_in_progress_turn(dir, h, at), dir, "rebase"@, "--abort"@, h)
}

/// Leave a rebase that is in progress where it is.
pub open spec fn quit_rebase_turn(dir: Seq<u8>, h: Seq<Reply>, at: int) -> CliTurn<()> {
    end_if_turn(rebase_in_progress_turn(dir, h, at), dir, "rebase"@, "--quit"@, h)
}

/// Abort a merge that is in progress.
pub open spec fn abort_merge_turn(dir: Seq<u8>, h: Seq<Reply>, at: int) -> CliTurn<()> {
    end_if_turn(merge_in_progress_turn(dir, h, at), dir, "merge"@, "--abort"@, h)
}

/// Abort a cherry-pick that is in progress.
pub open spec fn abort_cherry_pick_turn(dir: Seq<u8>, h: Seq<Reply>, at: int) -> CliTurn<()> {
    end_if_turn(cherry_pick_in_progress_turn(dir, h, at), dir, "cherry-pick"@, "--abort"@, h)
}

/// Abort a revert that is in progress.
pub open spec fn abort_revert_turn(dir: Seq<u8>, h: Seq<Reply>, at: int) -> CliTurn<()> {
    end_if_turn(revert_in_progress_turn(dir, h, at), dir, "revert"@, "--abort"@, h)
}

/// Rebase a branch onto another base, unless a rebase is in progress.
pub open spec fn rebase_onto_turn(
    dir: Seq<u8>,
    new_base: Seq<char>,
    old_base: Seq<char>,
    task_branch: Seq<char>,
    h: Seq<Reply>,
    at: int,
) -> CliTurn<()> {
    and_then(
        settled(rebase_in_progress_turn(dir, h, at)),
        |in_progress: Result<bool, CliErrorModel>, n: int|
            match in_progress {
                Ok(true) => Turn::Failed(CliErrorModel::RebaseInProgress, n),
                _ => and_then(
                    settled(merge_base_turn(dir, old_base, task_branch, h, n)),
                    |found: Result<Seq<char>, CliErrorModel>, n: int|
                        {
                            let base = match found {
                                Ok(b) => b,
                                Err(_) => old_base,
                            };
                            finished(
                                git_turn(
                                    dir,
                                    seq![
                                        utf8("rebase"@),
                                        utf8("--onto"@),
                                        utf8(new_base),
                                        utf8(base),
                                        utf8(task_branch),
                                    ],
                                    h,
                                    n,
                                ),
                            )
                        },
                ),
            },
    )
}

/// Squash-merge a branch into a base branch that is checked out first, commit, and tell the new
/// HEAD.
pub open spec fn merge_squash_turn(
    dir: Seq<u8>,
    base: Seq<char>,
    from: Seq<char>,
    message: Seq<char>,
    h: Seq<Reply>,
    at: int,
) -> CliTurn<Seq<char>> {
    and_then(
        git_turn(dir, seq![utf8("checkout"@), utf8(base)], h, at),
        |out: Seq<char>, n: int|
            and_then(
                git_turn(
                    dir,
                    seq![utf8("merge"@), utf8("--squash"@), utf8("--no-commit"@), utf8(from)],
                    h,
                    n,
                ),
                |out: Seq<char>, n: int|
                    and_then(
                        git_turn(dir, seq![utf8("commit"@), utf8("-m"@), utf8(message)], h, n),
                        |out: Seq<char>, n: int|
                            and_then(
                                git_turn(dir, seq![utf8("rev-parse"@), utf8("HEAD"@)], h, n),
                                |out: Seq<char>, n: int| Turn::Done(trimmed(out), n),
                            ),
                    ),
            ),
    )
}

/// Let a reference point at a commit.
pub open spec fn update_ref_turn(
    dir: Seq<u8>,
    refname: Seq<char>,
    sha: Seq<char>,
    h: Seq<Reply>,
    at: int,
) -> CliTurn<()> {
    finished(git_turn(dir, seq![utf8("update-ref"@), utf8(refname), utf8(sha)], h, at))
}

/// The files that have conflicts.
pub open spec fn conflicted_files_turn(dir: Seq<u8>, h: Seq<Reply>, at: int) -> CliTurn<
    Seq<Seq<char>>,
> {
    and_then(
        git_turn(dir, seq![utf8("diff"@), utf8("--name-only"@), utf8("--diff-filter=U"@)], h, at),
        |out: Seq<char>, n: int| Turn::Done(filled_lines(lines_of(out)), n),
    )
}

impl GitCli {
    /// The merge base of two refs: the fork point where `git` finds one, else the plain merge
    /// base.
    pub fn merge_base(&self, worktree_path: &RawText, a: &str, b: &str, io: &mut Dialogue) -> (r:
        CliResult<String>)
        ensures
            final(io).record() == old(io).record(),
            turn(r, final(io)) == merge_base_turn(
                worktree_path@,
                a@,
                b@,
                old(io).record(),
                old(io).at(),
            ),
    {
        let point: CliResult<Result<String, GitCliError>> = settle(
            self.git(worktree_path, argv4("merge-base", "--fork-point", a, b), io),
        );
        let out: String = match point? {
            Ok(out) => out,
            Err(_) => self.git(worktree_path, argv3("merge-base", a, b), io)?,
        };
        Ok(trim(out.as_str()))
    }

    /// Rebase `task_branch` from `old_base` onto `new_base`. Nothing is done where a rebase is in
    /// progress.
    pub fn rebase_onto(
        &self,
        worktree_path: &RawText,
        new_base: &str,
        old_base: &str,
        task_branch: &str,
        io: &mut Dialogue,
    ) -> (r: CliResult<()>)
        ensures
            final(io).record() == old(io).record(),
            turn(r, final(io)) == rebase_onto_turn(
                worktree_path@,
                new_base@,
                old_base@,
                task_branch@,
                old(io).record(),
                old(io).at(),
            ),
    {
        let in_progress: CliResult<Result<bool, GitCliError>> = settle(
            self.is_rebase_in_progress(worktree_path, io),
        );
        if let Ok(true) = in_progress? {
            return Err(Interrupt::Failed(GitCliError::RebaseInProgress));
        }
        let found: CliResult<Result<String, GitCliError>> = settle(
            self.merge_base(worktree_path, old_base, task_branch, io),
        );
        let merge_base: String = match found? {
            Ok(base) => base,
            Err(_) => old_base.to_owned(),
        };
        self.git(
            worktree_path,
            argv5("rebase", "--onto", new_base, merge_base.as_str(), task_branch),
            io,
        )?;
        Ok(())
    }

    /// Whether a rebase is in progress.
    pub fn is_rebase_in_progress(&self, worktree_path: &RawText, io: &mut Dialogue) -> (r:
        CliResult<bool>)
        ensures
            final(io).record() == old(io).record(),
            turn(r, final(io)) == rebase_in_progress_turn(
                worktree_path@,
                old(io).record(),
                old(io).at(),
            ),
    {
        let merge: String = self.git(
            worktree_path,
            argv3("rev-parse", "--git-path", "rebase-merge"),
            io,
        )?;
        let apply: String = self.git(
            worktree_path,
            argv3("rev-parse", "--git-path", "rebase-apply"),
            io,
        )?;
        let merge_path: RawText = RawText::of(trim(merge.as_str()).as_str());
        let apply_path: RawText = RawText::of(trim(apply.as_str()).as_str());
        let merge_exists: bool = *io.flag(
            Request::PathExistsIn(worktree_path.copy(), merge_path),
        )?;
        let apply_exists: bool = *io.flag(
            Request::PathExistsIn(worktree_path.copy(), apply_path),
        )?;
        Ok(merge_exists || apply_exists)
    }

    fn marker_exists(&self, worktree_path: &RawText, marker: &str, io: &mut Dialogue) -> (r:
        CliResult<bool>)
        ensures
            final(io).record() == old(io).record(),
            turn(r, final(io)) == marker_exists_turn(
                worktree_path@,
                marker@,
                old(io).record(),
                old(io).at(),
            ),
    {
        let found: CliResult<Result<String, GitCliError>> = settle(
            self.git(worktree_path, argv3("rev-parse", "--verify", marker), io),
        );
        match found? {
            Ok(_) => Ok(true),
            Err(GitCliError::CommandFailed(_)) => Ok(false),
            Err(e) => Err(Interrupt::Failed(e)),
        }
    }

    /// Whether a merge is in progress.
    pub fn is_merge_in_progress(&self, worktree_path: &RawText, io: &mut Dialogue) -> (r: CliResult<
        bool,
    >)
        ensures
            final(io).record() == old(io).record(),
            turn(r, final(io)) == merge_in_progress_turn(
                worktree_path@,
                old(io).record(),
                old(io).at(),
            ),
    {
        self.marker_exists(worktree_path, "MERGE_HEAD", io)
    }

    /// Whether a cherry-pick is in progress.
    pub fn is_cherry_pick_in_progress(&self, worktree_path: &RawText, io: &mut Dialogue) -> (r:
        CliResult<bool>)
        ensures
            final(io).record() == old(io).record(),
            turn(r, final(io)) == cherry_pick_in_progress_turn(
                worktree_path@,
                old(io).record(),
                old(io).at(),
            ),
    {
        self.marker_exists(worktree_path, "CHERRY_PICK_HEAD", io)
    }

    /// Whether a revert is in progress.
    pub fn is_revert_in_progress(&self, worktree_path: &RawText, io: &mut Dialogue) -> (r:
        CliResult<bool>)
        ensures
            final(io).record() == old(io).record(),
            turn(r, final(io)) == revert_in_progress_turn(
                worktree_path@,
                old(io).record(),
                old(io).at(),
            ),
    {
        self.marker_exists(worktree_path, "REVERT_HEAD", io)
    }

    /// Abort a rebase. Nothing is done where none is in progress.
    pub fn abort_rebase(&self, worktree_path: &RawText, io: &mut Dialogue) -> (r: CliResult<()>)
        ensures
            final(io).record() == old(io).record(),
            turn(r, final(io)) == abort_rebase_turn(
                worktree_path@,
                old(io).record(),
                old(io).at(),
            ),
    {
        if self.is_rebase_in_progress(worktree_path, io)? {
            self.git(worktree_path, argv2("rebase", "--abort"), io)?;
        }
        Ok(())
    }

    /// Leave a rebase where it is, without touching commits. Nothing is done where none is in
    /// progress.
    pub fn quit_rebase(&self, worktree_path: &RawText, io: &mut Dialogue) -> (r: CliResult<()>)
        ensures
            final(io).record() == old(io).record(),
            turn(r, final(io)) == quit_rebase_turn(
                worktree_path@,
                old(io).record(),
                old(io).at(),
            ),
    {
        if self.is_rebase_in_progress(worktree_path, io)? {
            self.git(worktree_path, argv2("rebase", "--quit"), io)?;
        }
        Ok(())
    }

    /// Check out `base_branch`, squash-merge `from_branch` and commit. Returns the new HEAD.
    pub fn merge_squash_commit(
        &self,
        repo_path: &RawText,
        base_branch: &str,
        from_branch: &str,
        message: &str,
        io: &mut Dialogue,
    ) -> (r: CliResult<String>)
        ensures
            final(io).record() == old(io).record(),
            turn(r, final(io)) == merge_squash_turn(
                repo_path@,
                base_branch@,
                from_branch@,
                message@,
                old(io).record(),
                old(io).at(),
            ),
    {
        self.git(repo_path, argv2("checkout", base_branch), io)?;
        self.git(repo_path, argv4("merge", "--squash", "--no-commit", from_branch), io)?;
        self.git(repo_path, argv3("commit", "-m", message), io)?;
        let sha: String = self.git(repo_path, argv2("rev-parse", "HEAD"), io)?;
        Ok(trim(sha.as_str()))
    }

    /// Let a reference point at a commit.
    pub fn update_ref(&self, repo_path: &RawText, refname: &str, sha: &str, io: &mut Dialogue) -> (r:
        CliResult<()>)
        ensures
            final(io).record() == old(io).record(),
            turn(r, final(io)) == update_ref_turn(
                repo_path@,
                refname@,
                sha@,
                old(io).record(),
                old(io).at(),
            ),
    {
        self.git(repo_path, argv3("update-ref", refname, sha), io)?;
        Ok(())
    }

    /// Abort a merge. Nothing is done where none is in progress.
    pub fn abort_merge(&self, worktree_path: &RawText, io: &mut Dialogue) -> (r: CliResult<()>)
        ensures
            final(io).record() == old(io).record(),
            turn(r, final(io)) == abort_merge_turn(
                worktree_path@,
                old(io).record(),
                old(io).at(),
            ),
    {
        if self.is_merge_in_progress(worktree_path, io)? {
            self.git(worktree_path, argv2("merge", "--abort"), io)?;
        }
        Ok(())
    }

    /// Abort a cherry-pick. Nothing is done where none is in progress.
    pub fn abort_cherry_pick(&self, worktree_path: &RawText, io: &mut Dialogue) -> (r: CliResult<()>)
        ensures
            final(io).record() == old(io).record(),
            turn(r, final(io)) == abort_cherry_pick_turn(
                worktree_path@,
                old(io).record(),
                old(io).at(),
            ),
    {
        if self.is_cherry_pick_in_progress(worktree_path, io)? {
            self.git(worktree_path, argv2("cherry-pick", "--abort"), io)?;
        }
        Ok(())
    }

    /// Abort a revert. Nothing is done where none is in progress.
    pub fn abort_revert(&self, worktree_path: &RawText, io: &mut Dialogue) -> (r: CliResult<()>)
        ensures
            final(io).record() == old(io).record(),
            turn(r, final(io)) == abort_revert_turn(
                worktree_path@,
                old(io).record(),
                old(io).at(),
            ),
    {
        if self.is_revert_in_progress(worktree_path, io)? {
            self.git(worktree_path, argv2("revert", "--abort"), io)?;
        }
        Ok(())
    }

    /// The files that have conflicts.
    pub fn get_conflicted_files(&self, worktree_path: &RawText, io: &mut Dialogue) -> (r: CliResult<
        Vec<String>,
    >)
        ensures
            final(io).record() == old(io).record(),
            turn(r, final(io)) == conflicted_files_turn(
                worktree_path@,
                old(io).record(),
                old(io).at(),
            ),
    {
        let out: String = self.git(
            worktree_path,
            argv3("diff", "--name-only", "--diff-filter=U"),
            io,
        )?;
        Ok(GitCli::parse_file_names(out.as_str()))
    }
}

// ---------------------------------------------------------------------------
// What is promised of operations in progress
// ---------------------------------------------------------------------------

/// A rebase is looked for in its own worktree: whatever `git` prints, what is asked to exist is asked
/// of that worktree.
pub proof fn law_rebase_looked_for_in_worktree(dir: Seq<u8>, h: Seq<Reply>, at: int)
    ensures
        rebase_in_progress_turn(dir, h, at) matches Turn::Ask(q) ==> {
            ||| q is Version
            ||| q matches RequestModel::Run(c) && c.dir == dir
            ||| q matches RequestModel::PathExistsIn(d, _) && d == dir
        },
{
}

// ---------------------------------------------------------------------------
// What is promised of staging
// ---------------------------------------------------------------------------

/// Every changed or untracked file is named for staging, and so is the original path of a rename or
/// copy.
pub proof fn law_all_entries_staged(entries: Seq<StatusEntryModel>, i: int)
    requires
        0 <= i < entries.len(),
    ensures
        touched_paths(entries).contains(entries[i].path),
        entries[i].orig_path matches Some(p) ==> touched_paths(entries).contains(p),
    decreases entries.len(),
{
    let before = entries.drop_last();
    let earlier = touched_paths(before);
    let all = touched_paths(entries);
    if i < before.len() {
        law_all_entries_staged(before, i);
        assert(before[i] == entries[i]);
        assert forall|p: Seq<u8>| earlier.contains(p) implies all.contains(p) by {
            let k = choose|k: int| 0 <= k < earlier.len() && earlier[k] == p;
            assert(all[k] == p);
        }
    } else {
        assert(all[earlier.len() as int] == entries[i].path);
        if let Some(p) = entries[i].orig_path {
            assert(all[earlier.len() + 1int] == p);
        }
    }
}

proof fn lemma_zero_ended_first(p: Seq<u8>, rest: Seq<Seq<u8>>)
    ensures
        zero_ended(seq![p] + rest) == p.push(0u8) + zero_ended(rest),
    decreases rest.len(),
{
    let all = seq![p] + rest;
    if rest.len() == 0 {
        assert(all =~= rest.push(p));
        lemma_zero_ended_push(rest, p);
        assert(zero_ended(rest) =~= Seq::<u8>::empty());
        assert(zero_ended(all) =~= p.push(0u8) + zero_ended(rest));
    } else {
        assert(all.drop_last() =~= seq![p] + rest.drop_last());
        lemma_zero_ended_first(p, rest.drop_last());
        assert(zero_ended(all) =~= p.push(0u8) + zero_ended(rest));
    }
}

/// The list that names files for staging, cut at its zero bytes, gives the paths back, each as it
/// is and in order; nothing follows the last of them.
pub proof fn law_staging_read_back(paths: Seq<Seq<u8>>)
    requires
        forall|i: int| 0 <= i < paths.len() ==> !(#[trigger] paths[i]).contains(0u8),
    ensures
        pieces(zero_ended(paths), 0u8) == paths.push(Seq::<u8>::empty()),
    decreases paths.len(),
{
    if paths.len() == 0 {
        law_one_piece(Seq::<u8>::empty(), 0u8);
        assert(zero_ended(paths) =~= Seq::<u8>::empty());
        assert(paths.push(Seq::<u8>::empty()) =~= seq![Seq::<u8>::empty()]);
    } else {
        let rest = paths.skip(1);
        assert forall|i: int| 0 <= i < rest.len() implies !(#[trigger] rest[i]).contains(0u8) by {
            assert(rest[i] == paths[i + 1]);
        }
        law_staging_read_back(rest);
        assert(paths =~= seq![paths[0]] + rest);
        lemma_zero_ended_first(paths[0], rest);
        law_first_piece(paths[0], zero_ended(rest), 0u8);
        assert(seq![paths[0]] + rest.push(Seq::<u8>::empty()) =~= paths.push(Seq::<u8>::empty()));
    }
}

/// A forced push is the plain one with a plus sign in front.
pub proof fn law_forced_refspec(branch: Seq<char>)
    ensures
        push_refspec(branch, true) == "+"@ + push_refspec(branch, false),
{
}

} // verus!
