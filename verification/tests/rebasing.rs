use git_service::dialogue::{Command, Dialogue, Interrupt, Reply, Request, StatusScope};
use git_service::errors::{GitError, GitServiceError};
use git_service::oid::Oid;
use git_service::raw::RawText;
use git_service::rebasing::{
    conflict_files_part, looks_like_conflict, output_tells_conflict, rebase_conflict_message, ConflictOp,
};
use git_service::records::{
    BranchInfo, BranchType, FileFlags, HeadRef, RemoteInfo, RunEnd, RunReport, StatusRecord, VersionReport,
};
use git_service::service::GitService;

const TRACKED: StatusScope = StatusScope { untracked: false, ignored: false };

fn raw(s: &str) -> RawText {
    RawText { bytes: s.as_bytes().to_vec() }
}

fn drive<T, E, Op>(script: Vec<(Request, Reply)>, op: Op) -> Result<T, E>
where
    Op: for<'a> Fn(&mut Dialogue<'a>) -> Result<T, Interrupt<E>>,
{
    let mut replies: Vec<Reply> = Vec::new();
    let mut steps = script.into_iter();
    loop {
        let step = op(&mut Dialogue::new(&replies));
        let ended = match step {
            Ok(value) => Ok(value),
            Err(Interrupt::Failed(e)) => Err(e),
            Err(Interrupt::OutOfStep) => panic!("a reply of the wrong kind"),
            Err(Interrupt::Ask(request)) => {
                let (expected, reply) = steps.next().expect("a request too many");
                assert_eq!(request, expected);
                replies.push(reply);
                continue;
            }
        };
        assert!(steps.next().is_none(), "a request too few");
        return ended;
    }
}

fn command(dir: &str, args: &[&str], envs: &[(&str, &str)], stdin: Option<&[u8]>) -> Request {
    Request::Run(Command {
        dir: raw(dir),
        args: args.iter().map(|a| raw(a)).collect(),
        envs: envs.iter().map(|(k, v)| (raw(k), raw(v))).collect(),
        stdin: stdin.map(|b| RawText { bytes: b.to_vec() }),
    })
}

fn ended(code: i32, stdout: &[u8], stderr: &str) -> Reply {
    Reply::Ran(RunReport::Ended(RunEnd {
        code: Some(code),
        stdout: RawText { bytes: stdout.to_vec() },
        stderr: raw(stderr),
        stdin_error: None,
    }))
}

fn git(dir: &str, args: &[&str], stdout: &str) -> Vec<(Request, Reply)> {
    vec![
        (Request::Version, Reply::Version(VersionReport::Ended(true))),
        (command(dir, args, &[], None), ended(0, stdout.as_bytes(), "")),
    ]
}

fn git_fails(dir: &str, args: &[&str], stderr: &str) -> Vec<(Request, Reply)> {
    vec![
        (Request::Version, Reply::Version(VersionReport::Ended(true))),
        (command(dir, args, &[], None), ended(1, b"", stderr)),
    ]
}

fn git_error(message: &str) -> GitError {
    GitError { code: -3, class: 4, message: message.to_string(), shown: format!("{}; class=x (4)", message) }
}

fn opens(path: &str) -> (Request, Reply) {
    (Request::OpenRepo(raw(path)), Reply::Unit(Ok(())))
}

fn oid(s: &str) -> Oid {
    Oid::parse(s).unwrap()
}

fn rebase_state(in_progress: bool) -> Vec<(Request, Reply)> {
    let mut script = git("/w", &["rev-parse", "--git-path", "rebase-merge"], "/g/rebase-merge\n");
    script.extend(git("/w", &["rev-parse", "--git-path", "rebase-apply"], "/g/rebase-apply\n"));
    script.push((Request::PathExistsIn(raw("/w"), raw("/g/rebase-merge")), Reply::Flag(in_progress)));
    script.push((Request::PathExistsIn(raw("/w"), raw("/g/rebase-apply")), Reply::Flag(false)));
    script
}

fn marker(name: &str, exists: bool) -> Vec<(Request, Reply)> {
    if exists {
        git("/w", &["rev-parse", "--verify", name], "1234\n")
    } else {
        git_fails("/w", &["rev-parse", "--verify", name], "fatal")
    }
}

fn checks() -> Vec<(Request, Reply)> {
    let mut script = vec![
        opens("/w"),
        opens("/r"),
        (Request::Statuses(raw("/w"), TRACKED), Reply::Statuses(Ok(vec![]))),
    ];
    script.extend(rebase_state(false));
    script
}

fn base(is_remote: bool) -> (Request, Reply) {
    let refname = if is_remote { "refs/remotes/origin/new" } else { "refs/heads/new" };
    (
        Request::FindBranch(raw("/r"), "new".to_string(), BranchType::Local),
        Reply::Branch(Ok(BranchInfo {
            refname: Some(refname.to_string()),
            target: Some(oid("aa")),
            is_remote,
        })),
    )
}

fn identity() -> Vec<(Request, Reply)> {
    vec![
        opens("/w"),
        (Request::OpenConfig(raw("/w")), Reply::Unit(Ok(()))),
        (Request::ConfigHas(raw("/w"), "user.name".to_string()), Reply::Flag(true)),
        (Request::ConfigHas(raw("/w"), "user.email".to_string()), Reply::Flag(true)),
    ]
}

fn up_to_rebase() -> Vec<(Request, Reply)> {
    let mut script = checks();
    script.push(base(false));
    script.extend(identity());
    script.extend(rebase_state(false));
    script.extend(git("/w", &["merge-base", "--fork-point", "old", "task"], "cc\n"));
    script
}

const REBASE: [&str; 5] = ["rebase", "--onto", "new", "cc", "task"];

fn rebase(script: Vec<(Request, Reply)>) -> Result<String, GitServiceError> {
    let service = GitService::new(vec![]);
    drive(script, |io| service.rebase_branch(&raw("/r"), &raw("/w"), "new", "old", "task", io))
}

#[test]
fn a_rebase_tells_the_new_head() {
    let mut script = up_to_rebase();
    script.extend(git("/w", &REBASE, ""));
    script.push((Request::HeadCommit(raw("/w")), Reply::Id(Ok(oid("dd")))));
    assert_eq!(rebase(script), Ok(oid("dd").to_text()));
}

#[test]
fn a_dirty_worktree_is_not_rebased() {
    let flags = FileFlags {
        index_new: false,
        index_modified: false,
        index_deleted: false,
        index_renamed: false,
        index_typechange: false,
        wt_new: false,
        wt_modified: true,
        wt_deleted: false,
        wt_typechange: false,
        wt_renamed: false,
        ignored: false,
        conflicted: false,
    };
    let script = vec![
        opens("/w"),
        opens("/r"),
        (
            Request::Statuses(raw("/w"), TRACKED),
            Reply::Statuses(Ok(vec![StatusRecord { flags, path: raw("f") }])),
        ),
        (Request::Head(raw("/w")), Reply::Head(Err(git_error("x")))),
    ];
    assert_eq!(
        rebase(script),
        Err(GitServiceError::WorktreeDirty("unknown branch".to_string(), "f".to_string()))
    );
}

#[test]
fn a_second_rebase_is_refused() {
    let mut script = vec![
        opens("/w"),
        opens("/r"),
        (Request::Statuses(raw("/w"), TRACKED), Reply::Statuses(Ok(vec![]))),
    ];
    script.extend(rebase_state(true));
    assert_eq!(rebase(script), Err(GitServiceError::RebaseInProgress));
    let mut script = checks();
    script.push(base(false));
    script.extend(identity());
    script.extend(rebase_state(true));
    assert_eq!(rebase(script), Err(GitServiceError::RebaseInProgress));
}

#[test]
fn a_remote_base_is_fetched_first() {
    let mut script = checks();
    script.push(base(true));
    script.extend(vec![
        (
            Request::BranchRemoteName(raw("/r"), "refs/remotes/origin/new".to_string()),
            Reply::Bytes(Ok(raw("origin"))),
        ),
        (
            Request::FindRemote(raw("/r"), "origin".to_string()),
            Reply::Remote(Ok(RemoteInfo { name: Some("origin".to_string()), url: Some("url".to_string()) })),
        ),
        (Request::RemoteNames(raw("/r")), Reply::Names(Ok(vec![]))),
        (Request::GitDir(raw("/r")), Reply::Bytes(Ok(raw("/r/.git/")))),
        (Request::Version, Reply::Version(VersionReport::Ended(true))),
        (
            command(
                "/r/.git/",
                &["fetch", "url", "+refs/heads/new:refs/remotes/origin/new"],
                &[("GIT_TERMINAL_PROMPT", "0")],
                None,
            ),
            ended(1, b"", "authentication failed"),
        ),
    ]);
    assert_eq!(
        rebase(script),
        Err(GitServiceError::GitCLI(git_service::errors::GitCliError::AuthFailed(
            "--- stdout\nauthentication failed".to_string()
        )))
    );
}

#[test]
fn conflicts_of_a_rebase_are_listed() {
    let mut script = up_to_rebase();
    script.extend(git_fails("/w", &REBASE, "error: could not apply 1234"));
    script.push((
        Request::Head(raw("/w")),
        Reply::Head(Ok(HeadRef { shorthand: Some("task".to_string()), target: None })),
    ));
    script.extend(git("/w", &["diff", "--name-only", "--diff-filter=U"], "a\nb\n"));
    assert_eq!(
        rebase(script),
        Err(GitServiceError::MergeConflicts(
            "Rebase encountered merge conflicts while rebasing 'task' onto 'new'. Conflicted files: a, b. Resolve conflicts and then continue or abort.".to_string()
        ))
    );
    let mut script = up_to_rebase();
    script.extend(git_fails("/w", &REBASE, "Resolve ALL conflicts manually"));
    script.push((Request::Head(raw("/w")), Reply::Head(Err(git_error("x")))));
    script.extend(git_fails("/w", &["diff", "--name-only", "--diff-filter=U"], "bad"));
    assert_eq!(
        rebase(script),
        Err(GitServiceError::MergeConflicts(
            "Rebase encountered merge conflicts while rebasing '(unknown)' onto 'new'. Resolve conflicts and then continue or abort.".to_string()
        ))
    );
}

#[test]
fn other_failures_of_a_rebase() {
    let mut script = up_to_rebase();
    script.extend(git_fails("/w", &REBASE, "first line\nsecond"));
    assert_eq!(
        rebase(script),
        Err(GitServiceError::InvalidRepository("Rebase failed: --- stdout".to_string()))
    );
    let mut script = up_to_rebase();
    script.push((Request::Version, Reply::Version(VersionReport::Missing)));
    assert_eq!(
        rebase(script),
        Err(GitServiceError::InvalidRepository(
            "git rebase failed: git executable not found or not runnable".to_string()
        ))
    );
}

#[test]
fn what_looks_like_a_conflict() {
    assert!(looks_like_conflict("x could not apply y", ""));
    assert!(looks_like_conflict("CONFLICT (content)", ""));
    assert!(looks_like_conflict("", "please resolve all conflicts"));
    assert!(!looks_like_conflict("conflict", "conflict"));
}

#[test]
fn up_to_ten_files_are_named() {
    let files = |n: usize| (0..n).map(|i| format!("f{}", i)).collect::<Vec<String>>();
    assert_eq!(conflict_files_part(&files(0)), "");
    assert_eq!(conflict_files_part(&files(1)), " Conflicted files: f0.");
    assert_eq!(
        conflict_files_part(&files(10)),
        " Conflicted files: f0, f1, f2, f3, f4, f5, f6, f7, f8, f9."
    );
    assert_eq!(
        conflict_files_part(&files(12)),
        " Conflicted files (showing 10 of 12): f0, f1, f2, f3, f4, f5, f6, f7, f8, f9."
    );
    assert_eq!(
        rebase_conflict_message("b", "n", &files(1)),
        "Rebase encountered merge conflicts while rebasing 'b' onto 'n'. Conflicted files: f0. Resolve conflicts and then continue or abort."
    );
}

fn state(rebase: bool, merge: bool, pick: bool, revert: bool) -> Vec<(Request, Reply)> {
    let mut script = rebase_state(rebase);
    if !rebase {
        script.extend(marker("MERGE_HEAD", merge));
        if !merge {
            script.extend(marker("CHERRY_PICK_HEAD", pick));
            if !pick {
                script.extend(marker("REVERT_HEAD", revert));
            }
        }
    }
    script
}

#[test]
fn the_first_operation_in_progress_is_told() {
    let service = GitService::new(vec![]);
    let op = |script| drive(script, |io| service.detect_conflict_op(&raw("/w"), io));
    assert_eq!(op(state(true, true, true, true)), Ok(Some(ConflictOp::Rebase)));
    assert_eq!(op(state(false, true, true, true)), Ok(Some(ConflictOp::Merge)));
    assert_eq!(op(state(false, false, true, true)), Ok(Some(ConflictOp::CherryPick)));
    assert_eq!(op(state(false, false, false, true)), Ok(Some(ConflictOp::Revert)));
    assert_eq!(op(state(false, false, false, false)), Ok(None));
    let missing = || (Request::Version, Reply::Version(VersionReport::Missing));
    assert_eq!(op(vec![missing(), missing(), missing(), missing()]), Ok(None));
}

#[test]
fn nothing_to_abort() {
    assert_eq!(
        drive(state(false, false, false, false), |io| GitService::new(vec![]).abort_conflicts(&raw("/w"), io)),
        Ok(())
    );
}

#[test]
fn a_rebase_with_conflicts_is_aborted_and_one_without_is_quit() {
    let service = GitService::new(vec![]);
    let mut script = rebase_state(true);
    script.extend(git("/w", &["diff", "--name-only", "--diff-filter=U"], "a\n"));
    script.extend(rebase_state(true));
    script.extend(git("/w", &["rebase", "--abort"], ""));
    assert_eq!(drive(script, |io| service.abort_conflicts(&raw("/w"), io)), Ok(()));
    let mut script = rebase_state(true);
    script.extend(git("/w", &["diff", "--name-only", "--diff-filter=U"], ""));
    script.extend(rebase_state(true));
    script.extend(git_fails("/w", &["rebase", "--quit"], "x"));
    assert_eq!(
        drive(script, |io| service.abort_conflicts(&raw("/w"), io)),
        Err(GitServiceError::InvalidRepository(
            "git rebase --quit failed: git command failed: --- stdout\nx".to_string()
        ))
    );
}

#[test]
fn other_operations_are_aborted() {
    let service = GitService::new(vec![]);
    for (name, operation, words) in [
        ("MERGE_HEAD", "merge", "git merge --abort failed: "),
        ("CHERRY_PICK_HEAD", "cherry-pick", "git cherry-pick --abort failed: "),
        ("REVERT_HEAD", "revert", "git revert --abort failed: "),
    ] {
        let found = || {
            let mut script = rebase_state(false);
            for other in ["MERGE_HEAD", "CHERRY_PICK_HEAD", "REVERT_HEAD"] {
                script.extend(marker(other, other == name));
                if other == name {
                    break;
                }
            }
            script.extend(marker(name, true));
            script
        };
        let mut script = found();
        script.extend(git("/w", &[operation, "--abort"], ""));
        assert_eq!(drive(script, |io| service.abort_conflicts(&raw("/w"), io)), Ok(()));
        let mut script = found();
        script.extend(git_fails("/w", &[operation, "--abort"], "x"));
        assert_eq!(
            drive(script, |io| service.abort_conflicts(&raw("/w"), io)),
            Err(GitServiceError::InvalidRepository(format!("{}git command failed: --- stdout\nx", words)))
        );
    }
}

#[test]
fn the_service_explains_failures() {
    let service = GitService::new(vec![]);
    let script = git_fails("/w", &["rev-parse", "--git-path", "rebase-merge"], "x");
    assert_eq!(
        drive(script, |io| service.is_rebase_in_progress(&raw("/w"), io)),
        Err(GitServiceError::InvalidRepository(
            "git rebase state check failed: git command failed: --- stdout\nx".to_string()
        ))
    );
    let script = git_fails("/w", &["diff", "--name-only", "--diff-filter=U"], "x");
    assert_eq!(
        drive(script, |io| service.get_conflicted_files(&raw("/w"), io)),
        Err(GitServiceError::InvalidRepository(
            "git diff for conflicts failed: git command failed: --- stdout\nx".to_string()
        ))
    );
    let mut script = rebase_state(true);
    script.extend(git_fails("/w", &["rebase", "--abort"], "x"));
    assert_eq!(
        drive(script, |io| service.abort_rebase(&raw("/w"), io)),
        Err(GitServiceError::InvalidRepository(
            "git rebase --abort failed: git command failed: --- stdout\nx".to_string()
        ))
    );
}

#[test]
fn a_rebased_branch_is_not_behind_its_new_base() {
    let service = GitService::new(vec![]);
    let mut script = up_to_rebase();
    script.extend(git("/w", &REBASE, ""));
    script.push((Request::HeadCommit(raw("/w")), Reply::Id(Ok(oid("dd")))));
    let made = rebase(script).unwrap();
    let finds = |name: &str, target: &str| {
        (
            Request::FindBranch(raw("/w"), name.to_string(), BranchType::Local),
            Reply::Branch(Ok(BranchInfo {
                refname: Some(format!("refs/heads/{}", name)),
                target: Some(oid(target)),
                is_remote: false,
            })),
        )
    };
    let script = vec![
        opens("/w"),
        finds("task", &made),
        finds("new", "aa"),
        (Request::AheadBehind(raw("/w"), oid(&made), oid("aa")), Reply::Counts(Ok((2, 0)))),
    ];
    assert_eq!(
        drive(script, |io| service.get_branch_status(&raw("/w"), "task", "new", io)),
        Ok((2, 0))
    );
    let script = vec![
        opens("/w"),
        (
            Request::Head(raw("/w")),
            Reply::Head(Ok(HeadRef { shorthand: Some("task".to_string()), target: Some(oid("dd")) })),
        ),
    ];
    assert_eq!(drive(script, |io| service.get_head_info(&raw("/w"), io)).unwrap().oid, made);
}

#[test]
fn a_phrase_tells_of_conflicts_in_any_case() {
    assert!(output_tells_conflict("Resolve all Conflicts manually"));
    assert!(output_tells_conflict("RESOLVE ALL CONFLICTS \u{00dc}"));
    assert!(output_tells_conflict("error: could not apply 1234"));
    assert!(!output_tells_conflict("Could Not Apply 1234, conflict"));
}
