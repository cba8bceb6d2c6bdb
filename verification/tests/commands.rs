use git_service::cli::{command_output, failure_message, found_differences, GitCli};
use git_service::dialogue::{Command, Dialogue, Interrupt, Reply, Request};
use git_service::errors::GitCliError;
use git_service::oid::{Commit, Oid};
use git_service::porcelain::{ChangeType, StatusDiffOptions};
use git_service::raw::RawText;
use git_service::records::{RunEnd, RunReport, VersionReport};

fn raw(s: &str) -> RawText {
    RawText { bytes: s.as_bytes().to_vec() }
}

fn drive<T, E, Op>(script: Vec<(Request, Reply)>, op: Op) -> Result<T, E>
where
    Op: for<'a> Fn(&mut Dialogue<'a>) -> Result<T, Interrupt<E>>,
{
    let mut replies: Vec<Reply> = Vec::new();
    let mut steps = script.into_iter();
    loop {
        let step = op(&mut Dialogue::new(&replies));
        let ended = match step {
            Ok(value) => Ok(value),
            Err(Interrupt::Failed(e)) => Err(e),
            Err(Interrupt::OutOfStep) => panic!("a reply of the wrong kind"),
            Err(Interrupt::Ask(request)) => {
                let (expected, reply) = steps.next().expect("a request too many");
                assert_eq!(request, expected);
                replies.push(reply);
                continue;
            }
        };
        assert!(steps.next().is_none(), "a request too few");
        return ended;
    }
}

fn command(dir: &str, args: &[&str], envs: &[(&str, &str)], stdin: Option<&[u8]>) -> Request {
    Request::Run(Command {
        dir: raw(dir),
        args: args.iter().map(|a| raw(a)).collect(),
        envs: envs.iter().map(|(k, v)| (raw(k), raw(v))).collect(),
        stdin: stdin.map(|b| RawText { bytes: b.to_vec() }),
    })
}

fn ended(code: i32, stdout: &[u8], stderr: &str) -> Reply {
    Reply::Ran(RunReport::Ended(RunEnd {
        code: Some(code),
        stdout: RawText { bytes: stdout.to_vec() },
        stderr: raw(stderr),
        stdin_error: None,
    }))
}

fn git(dir: &str, args: &[&str], stdout: &str) -> Vec<(Request, Reply)> {
    vec![
        (Request::Version, Reply::Version(VersionReport::Ended(true))),
        (command(dir, args, &[], None), ended(0, stdout.as_bytes(), "")),
    ]
}

fn git_fails(dir: &str, args: &[&str], stderr: &str) -> Vec<(Request, Reply)> {
    vec![
        (Request::Version, Reply::Version(VersionReport::Ended(true))),
        (command(dir, args, &[], None), ended(1, b"", stderr)),
    ]
}

fn failed(m: &str) -> GitCliError {
    GitCliError::CommandFailed(m.to_string())
}

#[test]
fn git_that_cannot_be_run() {
    let git = GitCli::new(vec![]);
    for report in [VersionReport::Missing, VersionReport::NotRun, VersionReport::Ended(false)] {
        let script = vec![(Request::Version, Reply::Version(report))];
        assert_eq!(
            drive(script, |io| git.git(&raw("/r"), vec![raw("status")], io)),
            Err(GitCliError::NotAvailable)
        );
    }
    let script = vec![(Request::Version, Reply::Version(VersionReport::Ended(true)))];
    assert_eq!(drive(script, |io| git.ensure_available(io)), Ok(()));
}

#[test]
fn a_reply_of_the_wrong_kind_is_out_of_step() {
    let replies = vec![Reply::Flag(true)];
    assert_eq!(
        GitCli::new(vec![]).ensure_available(&mut Dialogue::new(&replies)),
        Err(Interrupt::OutOfStep)
    );
}

#[test]
fn what_a_failed_command_says() {
    assert_eq!(failure_message("", ""), "Command failed with no output");
    assert_eq!(failure_message("o", "e"), "--- stderr\ne\n--- stdout\no");
    assert_eq!(failure_message("o", ""), "--- stderr\no");
    assert_eq!(failure_message("", "e"), "--- stdout\ne");
}

#[test]
fn what_a_command_wrote() {
    let end = |code: Option<i32>, stdout: &str, stderr: &str, stdin_error: Option<&str>| {
        RunReport::Ended(RunEnd {
            code,
            stdout: raw(stdout),
            stderr: raw(stderr),
            stdin_error: stdin_error.map(|s| s.to_string()),
        })
    };
    assert_eq!(command_output(&RunReport::Missing), Err(GitCliError::NotAvailable));
    assert_eq!(command_output(&RunReport::NotStarted("no".to_string())), Err(failed("no")));
    assert_eq!(command_output(&end(Some(0), " out ", "warning", None)), Ok(raw(" out ")));
    assert_eq!(
        command_output(&end(Some(0), "", "", Some("broken pipe"))),
        Err(failed("failed to write to git stdin: broken pipe"))
    );
    assert_eq!(
        command_output(&end(Some(128), " o \n", "\te ", Some("broken pipe"))),
        Err(failed("--- stderr\ne\n--- stdout\no"))
    );
    assert_eq!(command_output(&end(None, "", "killed", None)), Err(failed("--- stdout\nkilled")));
}

#[test]
fn differences_by_exit_code() {
    let end = |code: Option<i32>| {
        RunReport::Ended(RunEnd { code, stdout: raw("x"), stderr: raw(" bad \n"), stdin_error: None })
    };
    assert_eq!(found_differences(&end(Some(0))), Ok(false));
    assert_eq!(found_differences(&end(Some(1))), Ok(true));
    assert_eq!(found_differences(&end(Some(2))), Err(failed("bad")));
    assert_eq!(found_differences(&end(None)), Err(failed("bad")));
    assert_eq!(found_differences(&RunReport::Missing), Err(GitCliError::NotAvailable));
    assert_eq!(found_differences(&RunReport::NotStarted("m".to_string())), Err(failed("m")));
}

#[test]
fn staged_changes_are_asked_for_without_a_version_check() {
    let script = vec![(command("/r", &["diff", "--cached", "--quiet"], &[], None), ended(1, b"", ""))];
    assert_eq!(drive(script, |io| GitCli::new(vec![]).has_staged_changes(&raw("/r"), io)), Ok(true));
}

#[test]
fn output_that_is_not_text_is_replaced() {
    let script = vec![
        (Request::Version, Reply::Version(VersionReport::Ended(true))),
        (command("/r", &["x"], &[], None), ended(0, &[b'a', 0xff], "")),
    ];
    assert_eq!(
        drive(script, |io| GitCli::new(vec![]).git(&raw("/r"), vec![raw("x")], io)),
        Ok("a\u{fffd}".to_string())
    );
}

#[test]
fn a_worktree_is_added_even_if_the_sparse_checkout_fails() {
    let git_cli = GitCli::new(vec![]);
    let mut script = vec![(Request::Version, Reply::Version(VersionReport::Ended(true)))];
    script.extend(git("/r", &["worktree", "add", "-b", "task", "/w"], ""));
    script.extend(git_fails("/w", &["sparse-checkout", "reapply"], "not sparse"));
    assert_eq!(
        drive(script, |io| git_cli.worktree_add(&raw("/r"), &raw("/w"), "task", true, io)),
        Ok(())
    );
    let mut script = vec![(Request::Version, Reply::Version(VersionReport::Ended(true)))];
    script.extend(git_fails("/r", &["worktree", "add", "/w", "task"], "exists"));
    assert_eq!(
        drive(script, |io| git_cli.worktree_add(&raw("/r"), &raw("/w"), "task", false, io)),
        Err(failed("--- stdout\nexists"))
    );
}

#[test]
fn worktrees_are_removed_moved_and_pruned() {
    let git_cli = GitCli::new(vec![]);
    let version = || (Request::Version, Reply::Version(VersionReport::Ended(true)));
    let mut script = vec![version()];
    script.extend(git("/r", &["worktree", "remove", "--force", "/w"], ""));
    assert_eq!(drive(script, |io| git_cli.worktree_remove(&raw("/r"), &raw("/w"), true, io)), Ok(()));
    let mut script = vec![version()];
    script.extend(git("/r", &["worktree", "remove", "/w"], ""));
    assert_eq!(drive(script, |io| git_cli.worktree_remove(&raw("/r"), &raw("/w"), false, io)), Ok(()));
    let mut script = vec![version()];
    script.extend(git("/r", &["worktree", "move", "/a", "/b"], ""));
    assert_eq!(drive(script, |io| git_cli.worktree_move(&raw("/r"), &raw("/a"), &raw("/b"), io)), Ok(()));
    let bad = RawText { bytes: vec![0xff] };
    assert_eq!(
        drive(vec![version()], |io| git_cli.worktree_move(&raw("/r"), &bad, &bad, io)),
        Err(failed("Invalid old worktree path"))
    );
    assert_eq!(
        drive(vec![version()], |io| git_cli.worktree_move(&raw("/r"), &raw("/a"), &bad, io)),
        Err(failed("Invalid new worktree path"))
    );
    let script = git("/r", &["worktree", "prune"], "");
    assert_eq!(drive(script, |io| git_cli.worktree_prune(&raw("/r"), io)), Ok(()));
}

#[test]
fn changes_are_any_output_of_status() {
    let args = ["--no-optional-locks", "status", "--porcelain"];
    let git_cli = GitCli::new(vec![]);
    assert_eq!(drive(git("/w", &args, ""), |io| git_cli.has_changes(&raw("/w"), io)), Ok(false));
    assert_eq!(drive(git("/w", &args, "?? x\n"), |io| git_cli.has_changes(&raw("/w"), io)), Ok(true));
    let script = vec![
        (Request::Version, Reply::Version(VersionReport::Ended(true))),
        (command("/w", &args, &[], None), ended(0, &[0xff], "")),
    ];
    assert_eq!(drive(script, |io| git_cli.has_changes(&raw("/w"), io)), Ok(true));
}

#[test]
fn a_status_diff_stages_in_a_temporary_index() {
    let git_cli = GitCli::new(vec!["target".to_string()]);
    let base = Commit::new(Oid::parse("ab").unwrap());
    let sha = base.to_text();
    let index = [("GIT_INDEX_FILE", "/tmp/t/index")];
    let exclude = ":(glob,exclude)**/target/";
    let version = || (Request::Version, Reply::Version(VersionReport::Ended(true)));
    let script = vec![
        (Request::TempIndex, Reply::TempIndex(Ok(raw("/tmp/t/index")))),
        version(),
        (command("/w", &["read-tree", "HEAD"], &index, None), ended(0, b"", "")),
        version(),
        (
            command(
                "/w",
                &["--no-optional-locks", "status", "--porcelain", "-z", "--untracked-files=normal", "--", exclude],
                &[],
                None,
            ),
            ended(0, b"R  b\0a\0?? c\0", ""),
        ),
        version(),
        (
            command(
                "/w",
                &["add", "-A", "--pathspec-from-file=-", "--pathspec-file-nul"],
                &index,
                Some(b"b\0a\0c\0:(glob,exclude)**/target/\0"),
            ),
            ended(0, b"", ""),
        ),
        version(),
        (
            command(
                "/w",
                &["-c", "core.quotepath=false", "diff", "--cached", "-M", "--name-status", &sha, "--", exclude, "src"],
                &index,
                None,
            ),
            ended(0, b"R100\ta\tb\nA\tc\n", ""),
        ),
    ];
    let opts = StatusDiffOptions { path_filter: Some(vec!["src".to_string()]) };
    let entries = drive(script, |io| git_cli.diff_status(&raw("/w"), &base, &opts, io)).unwrap();
    assert_eq!(entries.len(), 2);
    assert_eq!(entries[0].change, ChangeType::Renamed);
    assert_eq!(entries[0].old_path.as_deref(), Some("a"));
    assert_eq!(entries[1].path, "c");
}

#[test]
fn a_status_diff_of_a_clean_worktree_stages_nothing() {
    let git_cli = GitCli::new(vec![]);
    let base = Commit::new(Oid::parse("ab").unwrap());
    let sha = base.to_text();
    let index = [("GIT_INDEX_FILE", "/t/index")];
    let version = || (Request::Version, Reply::Version(VersionReport::Ended(true)));
    let script = vec![
        (Request::TempIndex, Reply::TempIndex(Ok(raw("/t/index")))),
        version(),
        (command("/w", &["read-tree", "HEAD"], &index, None), ended(0, b"", "")),
        version(),
        (
            command(
                "/w",
                &["--no-optional-locks", "status", "--porcelain", "-z", "--untracked-files=normal"],
                &[],
                None,
            ),
            ended(0, b"", ""),
        ),
        version(),
        (
            command(
                "/w",
                &["-c", "core.quotepath=false", "diff", "--cached", "-M", "--name-status", &sha],
                &index,
                None,
            ),
            ended(0, b"", ""),
        ),
    ];
    let opts = StatusDiffOptions { path_filter: None };
    assert_eq!(drive(script, |io| git_cli.diff_status(&raw("/w"), &base, &opts, io)), Ok(vec![]));
    let script = vec![(Request::TempIndex, Reply::TempIndex(Err("disk full".to_string())))];
    assert_eq!(
        drive(script, |io| git_cli.diff_status(&raw("/w"), &base, &opts, io)),
        Err(failed("temp dir create failed: disk full"))
    );
}

#[test]
fn everything_is_staged_but_the_skipped_directories() {
    let git_cli = GitCli::new(vec!["dist".to_string()]);
    let script = git("/w", &["add", "-A", "--", ":(glob,exclude)**/dist/"], "");
    assert_eq!(drive(script, |io| git_cli.add_all(&raw("/w"), io)), Ok(()));
    let script = git("/w", &["commit", "--no-verify", "-m", "msg"], "");
    assert_eq!(drive(script, |io| git_cli.commit(&raw("/w"), "msg", io)), Ok(()));
}

#[test]
fn pushes_fetches_and_questions_to_remotes_do_not_prompt() {
    let git_cli = GitCli::new(vec![]);
    let prompt = [("GIT_TERMINAL_PROMPT", "0")];
    let version = || (Request::Version, Reply::Version(VersionReport::Ended(true)));
    let script = vec![
        version(),
        (command("/r", &["push", "u", "+refs/heads/b:refs/heads/b"], &prompt, None), ended(0, b"", "")),
    ];
    assert_eq!(drive(script, |io| git_cli.push(&raw("/r"), "u", "b", true, io)), Ok(()));
    let script = vec![
        version(),
        (
            command("/r", &["push", "u", "refs/heads/b:refs/heads/b"], &prompt, None),
            ended(1, b"", "! [rejected] (non-fast-forward)"),
        ),
    ];
    assert_eq!(
        drive(script, |io| git_cli.push(&raw("/r"), "u", "b", false, io)),
        Err(GitCliError::PushRejected("--- stdout\n! [rejected] (non-fast-forward)".to_string()))
    );
    let script = vec![
        version(),
        (
            command("/r", &["fetch", "u", "spec"], &prompt, None),
            ended(128, b"", "Authentication failed"),
        ),
    ];
    assert_eq!(
        drive(script, |io| git_cli.fetch_with_refspec(&raw("/r"), "u", "spec", io)),
        Err(GitCliError::AuthFailed("--- stdout\nAuthentication failed".to_string()))
    );
    let script = vec![
        version(),
        (
            command("/r", &["ls-remote", "--heads", "u", "refs/heads/b"], &prompt, None),
            ended(0, b" \n", ""),
        ),
    ];
    assert_eq!(drive(script, |io| git_cli.check_remote_branch_exists(&raw("/r"), "u", "b", io)), Ok(false));
    let script = vec![
        version(),
        (
            command("/r", &["ls-remote", "--heads", "u", "refs/heads/b"], &prompt, None),
            ended(0, b"1234\trefs/heads/b\n", ""),
        ),
    ];
    assert_eq!(drive(script, |io| git_cli.check_remote_branch_exists(&raw("/r"), "u", "b", io)), Ok(true));
    let script = vec![
        version(),
        (command("/r", &["push", "u", "a:b"], &[("K", "V")], None), ended(0, b"", "")),
    ];
    assert_eq!(
        drive(script, |io| git_cli.push_with_refspec(&raw("/r"), "u", "a:b", vec![(raw("K"), raw("V"))], io)),
        Ok(())
    );
    let script = vec![(Request::Version, Reply::Version(VersionReport::Missing))];
    assert_eq!(
        drive(script, |io| git_cli.push(&raw("/r"), "u", "b", false, io)),
        Err(GitCliError::NotAvailable)
    );
}

#[test]
fn the_merge_base_is_the_fork_point_or_the_plain_one() {
    let git_cli = GitCli::new(vec![]);
    let script = git("/w", &["merge-base", "--fork-point", "a", "b"], "abc\n");
    assert_eq!(drive(script, |io| git_cli.merge_base(&raw("/w"), "a", "b", io)), Ok("abc".to_string()));
    let mut script = git_fails("/w", &["merge-base", "--fork-point", "a", "b"], "");
    script.extend(git("/w", &["merge-base", "a", "b"], " def "));
    assert_eq!(drive(script, |io| git_cli.merge_base(&raw("/w"), "a", "b", io)), Ok("def".to_string()));
    let mut script = git_fails("/w", &["merge-base", "--fork-point", "a", "b"], "");
    script.extend(git_fails("/w", &["merge-base", "a", "b"], "none"));
    assert_eq!(
        drive(script, |io| git_cli.merge_base(&raw("/w"), "a", "b", io)),
        Err(failed("--- stdout\nnone"))
    );
}

fn rebase_state(merge: bool, apply: bool) -> Vec<(Request, Reply)> {
    let mut script = git("/w", &["rev-parse", "--git-path", "rebase-merge"], "/g/rebase-merge\n");
    script.extend(git("/w", &["rev-parse", "--git-path", "rebase-apply"], "/g/rebase-apply\n"));
    script.push((Request::PathExistsIn(raw("/w"), raw("/g/rebase-merge")), Reply::Flag(merge)));
    script.push((Request::PathExistsIn(raw("/w"), raw("/g/rebase-apply")), Reply::Flag(apply)));
    script
}

#[test]
fn a_rebase_is_looked_for_in_its_worktree() {
    let git_cli = GitCli::new(vec![]);
    for dir in ["/w", "/v"] {
        let mut script = git(dir, &["rev-parse", "--git-path", "rebase-merge"], ".git/rebase-merge\n");
        script.extend(git(dir, &["rev-parse", "--git-path", "rebase-apply"], ".git/rebase-apply\n"));
        script.push((
            Request::PathExistsIn(raw(dir), raw(".git/rebase-merge")),
            Reply::Flag(dir == "/v"),
        ));
        script.push((Request::PathExistsIn(raw(dir), raw(".git/rebase-apply")), Reply::Flag(false)));
        assert_eq!(
            drive(script, |io| git_cli.is_rebase_in_progress(&raw(dir), io)),
            Ok(dir == "/v")
        );
    }
}

#[test]
fn a_rebase_is_in_progress_where_one_of_its_directories_exists() {
    let git_cli = GitCli::new(vec![]);
    for (merge, apply) in [(false, false), (false, true), (true, false), (true, true)] {
        assert_eq!(
            drive(rebase_state(merge, apply), |io| git_cli.is_rebase_in_progress(&raw("/w"), io)),
            Ok(merge || apply)
        );
    }
}

#[test]
fn rebasing_onto_a_new_base() {
    let git_cli = GitCli::new(vec![]);
    let mut script = rebase_state(false, false);
    script.extend(git("/w", &["merge-base", "--fork-point", "old", "task"], "abc\n"));
    script.extend(git("/w", &["rebase", "--onto", "new", "abc", "task"], ""));
    assert_eq!(drive(script, |io| git_cli.rebase_onto(&raw("/w"), "new", "old", "task", io)), Ok(()));
    let mut script = rebase_state(false, false);
    script.extend(git_fails("/w", &["merge-base", "--fork-point", "old", "task"], ""));
    script.extend(git_fails("/w", &["merge-base", "old", "task"], ""));
    script.extend(git("/w", &["rebase", "--onto", "new", "old", "task"], ""));
    assert_eq!(drive(script, |io| git_cli.rebase_onto(&raw("/w"), "new", "old", "task", io)), Ok(()));
    assert_eq!(
        drive(rebase_state(true, false), |io| git_cli.rebase_onto(&raw("/w"), "new", "old", "task", io)),
        Err(GitCliError::RebaseInProgress)
    );
}

#[test]
fn a_failed_look_for_a_rebase_does_not_stop_one() {
    let git_cli = GitCli::new(vec![]);
    let mut script = git_fails("/w", &["rev-parse", "--git-path", "rebase-merge"], "x");
    script.extend(git("/w", &["merge-base", "--fork-point", "old", "task"], "abc\n"));
    script.extend(git("/w", &["rebase", "--onto", "new", "abc", "task"], ""));
    assert_eq!(drive(script, |io| git_cli.rebase_onto(&raw("/w"), "new", "old", "task", io)), Ok(()));
}

#[test]
fn nothing_is_aborted_where_nothing_is_in_progress() {
    let git_cli = GitCli::new(vec![]);
    assert_eq!(drive(rebase_state(false, false), |io| git_cli.abort_rebase(&raw("/w"), io)), Ok(()));
    assert_eq!(drive(rebase_state(false, false), |io| git_cli.quit_rebase(&raw("/w"), io)), Ok(()));
    let none = |marker: &str| git_fails("/w", &["rev-parse", "--verify", marker], "fatal");
    assert_eq!(drive(none("MERGE_HEAD"), |io| git_cli.abort_merge(&raw("/w"), io)), Ok(()));
    assert_eq!(drive(none("CHERRY_PICK_HEAD"), |io| git_cli.abort_cherry_pick(&raw("/w"), io)), Ok(()));
    assert_eq!(drive(none("REVERT_HEAD"), |io| git_cli.abort_revert(&raw("/w"), io)), Ok(()));
}

#[test]
fn what_is_in_progress_is_aborted() {
    let git_cli = GitCli::new(vec![]);
    let mut script = rebase_state(true, false);
    script.extend(git_fails("/w", &["rebase", "--abort"], "cannot"));
    assert_eq!(
        drive(script, |io| git_cli.abort_rebase(&raw("/w"), io)),
        Err(failed("--- stdout\ncannot"))
    );
    let mut script = rebase_state(false, true);
    script.extend(git("/w", &["rebase", "--quit"], ""));
    assert_eq!(drive(script, |io| git_cli.quit_rebase(&raw("/w"), io)), Ok(()));
    let found = |marker: &str| git("/w", &["rev-parse", "--verify", marker], "abc");
    let mut script = found("MERGE_HEAD");
    script.extend(git("/w", &["merge", "--abort"], ""));
    assert_eq!(drive(script, |io| git_cli.abort_merge(&raw("/w"), io)), Ok(()));
    let mut script = found("CHERRY_PICK_HEAD");
    script.extend(git("/w", &["cherry-pick", "--abort"], ""));
    assert_eq!(drive(script, |io| git_cli.abort_cherry_pick(&raw("/w"), io)), Ok(()));
    let mut script = found("REVERT_HEAD");
    script.extend(git("/w", &["revert", "--abort"], ""));
    assert_eq!(drive(script, |io| git_cli.abort_revert(&raw("/w"), io)), Ok(()));
}

#[test]
fn a_marker_cannot_be_looked_for_without_git() {
    let git_cli = GitCli::new(vec![]);
    let script = vec![(Request::Version, Reply::Version(VersionReport::Missing))];
    assert_eq!(
        drive(script, |io| git_cli.is_merge_in_progress(&raw("/w"), io)),
        Err(GitCliError::NotAvailable)
    );
    let script = git("/w", &["rev-parse", "--verify", "CHERRY_PICK_HEAD"], "x");
    assert_eq!(drive(script, |io| git_cli.is_cherry_pick_in_progress(&raw("/w"), io)), Ok(true));
    let script = git_fails("/w", &["rev-parse", "--verify", "REVERT_HEAD"], "x");
    assert_eq!(drive(script, |io| git_cli.is_revert_in_progress(&raw("/w"), io)), Ok(false));
}

#[test]
fn a_squash_merge_tells_the_new_head() {
    let git_cli = GitCli::new(vec![]);
    let mut script = git("/r", &["checkout", "main"], "");
    script.extend(git("/r", &["merge", "--squash", "--no-commit", "task"], ""));
    script.extend(git("/r", &["commit", "-m", "msg"], ""));
    script.extend(git("/r", &["rev-parse", "HEAD"], "abcd\n"));
    assert_eq!(
        drive(script, |io| git_cli.merge_squash_commit(&raw("/r"), "main", "task", "msg", io)),
        Ok("abcd".to_string())
    );
    let script = git("/r", &["update-ref", "refs/heads/x", "abcd"], "");
    assert_eq!(drive(script, |io| git_cli.update_ref(&raw("/r"), "refs/heads/x", "abcd", io)), Ok(()));
}

#[test]
fn files_with_conflicts() {
    let script = git("/w", &["diff", "--name-only", "--diff-filter=U"], "a\nb\n");
    assert_eq!(
        drive(script, |io| GitCli::new(vec![]).get_conflicted_files(&raw("/w"), io)),
        Ok(vec!["a".to_string(), "b".to_string()])
    );
}

#[test]
fn worktrees_are_listed() {
    let script = git("/r", &["worktree", "list", "--porcelain"], "worktree /r\nHEAD 1\nbranch refs/heads/main\n");
    let found = drive(script, |io| GitCli::new(vec![]).list_worktrees(&raw("/r"), io)).unwrap();
    assert_eq!(found.len(), 1);
    assert_eq!(found[0].branch.as_deref(), Some("main"));
}
