use git_service::dialogue::{Command, Dialogue, Interrupt, Reply, Request, StatusScope};
use git_service::errors::{GitCliError, GitError, GitServiceError};
use git_service::oid::Oid;
use git_service::porcelain::WorktreeEntry;
use git_service::raw::RawText;
use git_service::records::{
    CommitInfo, FileFlags, HeadRef, RunEnd, RunReport, StatusRecord, VersionReport,
};
use git_service::service::GitService;
use git_service::time::Timestamp;
use git_service::worktrees::{
    dirty_files, find_checkout, head_name_or, WorktreeResetOptions, WorktreeResetOutcome,
};

const TRACKED: StatusScope = StatusScope { untracked: false, ignored: false };

fn raw(s: &str) -> RawText {
    RawText { bytes: s.as_bytes().to_vec() }
}

fn drive<T, E, Op>(script: Vec<(Request, Reply)>, op: Op) -> Result<T, E>
where
    Op: for<'a> Fn(&mut Dialogue<'a>) -> Result<T, Interrupt<E>>,
{
    let mut replies: Vec<Reply> = Vec::new();
    let mut steps = script.into_iter();
    loop {
        let step = op(&mut Dialogue::new(&replies));
        let ended = match step {
            Ok(value) => Ok(value),
            Err(Interrupt::Failed(e)) => Err(e),
            Err(Interrupt::OutOfStep) => panic!("a reply of the wrong kind"),
            Err(Interrupt::Ask(request)) => {
                let (expected, reply) = steps.next().expect("a request too many");
                assert_eq!(request, expected);
                replies.push(reply);
                continue;
            }
        };
        assert!(steps.next().is_none(), "a request too few");
        return ended;
    }
}

fn command(dir: &str, args: &[&str], envs: &[(&str, &str)], stdin: Option<&[u8]>) -> Request {
    Request::Run(Command {
        dir: raw(dir),
        args: args.iter().map(|a| raw(a)).collect(),
        envs: envs.iter().map(|(k, v)| (raw(k), raw(v))).collect(),
        stdin: stdin.map(|b| RawText { bytes: b.to_vec() }),
    })
}

fn ended(code: i32, stdout: &[u8], stderr: &str) -> Reply {
    Reply::Ran(RunReport::Ended(RunEnd {
        code: Some(code),
        stdout: RawText { bytes: stdout.to_vec() },
        stderr: raw(stderr),
        stdin_error: None,
    }))
}

fn git(dir: &str, args: &[&str], stdout: &str) -> Vec<(Request, Reply)> {
    vec![
        (Request::Version, Reply::Version(VersionReport::Ended(true))),
        (command(dir, args, &[], None), ended(0, stdout.as_bytes(), "")),
    ]
}

fn git_fails(dir: &str, args: &[&str], stderr: &str) -> Vec<(Request, Reply)> {
    vec![
        (Request::Version, Reply::Version(VersionReport::Ended(true))),
        (command(dir, args, &[], None), ended(1, b"", stderr)),
    ]
}

fn git_error(message: &str) -> GitError {
    GitError { code: -3, class: 4, message: message.to_string(), shown: format!("{}; class=x (4)", message) }
}

fn commit_info(summary: Option<&str>) -> CommitInfo {
    CommitInfo {
        summary: summary.map(|s| s.to_string()),
        seconds: 0,
        parents: 1,
        now: Timestamp { seconds: 7, nanos: 0 },
    }
}

fn opens(path: &str) -> (Request, Reply) {
    (Request::OpenRepo(raw(path)), Reply::Unit(Ok(())))
}

const ID: &str = "aa00000000000000000000000000000000000000";

fn no_flags() -> FileFlags {
    FileFlags {
        index_new: false,
        index_modified: false,
        index_deleted: false,
        index_renamed: false,
        index_typechange: false,
        wt_new: false,
        wt_modified: false,
        wt_deleted: false,
        wt_typechange: false,
        wt_renamed: false,
        ignored: false,
        conflicted: false,
    }
}

fn status(flags: FileFlags, path: &str) -> StatusRecord {
    StatusRecord { flags, path: raw(path) }
}

fn head(shorthand: Option<&str>, target: Option<&str>) -> Reply {
    Reply::Head(Ok(HeadRef {
        shorthand: shorthand.map(|s| s.to_string()),
        target: target.map(|t| Oid::parse(t).unwrap()),
    }))
}

fn clean(path: &str) -> (Request, Reply) {
    (Request::Statuses(raw(path), TRACKED), Reply::Statuses(Ok(vec![])))
}

fn dirty(path: &str) -> Vec<(Request, Reply)> {
    vec![
        (
            Request::Statuses(raw(path), TRACKED),
            Reply::Statuses(Ok(vec![
                status(FileFlags { wt_modified: true, ..no_flags() }, "a.txt"),
                status(FileFlags { wt_new: true, ..no_flags() }, "untracked"),
                status(FileFlags { index_new: true, ..no_flags() }, "b.txt"),
            ])),
        ),
        (Request::Head(raw(path)), head(Some("task"), Some("aa"))),
    ]
}

fn is_dirty() -> GitServiceError {
    GitServiceError::WorktreeDirty("task".to_string(), "a.txt, b.txt".to_string())
}

#[test]
fn which_flags_are_changes() {
    let mut changed = vec![];
    for i in 0..12 {
        let mut f = no_flags();
        match i {
            0 => f.index_new = true,
            1 => f.index_modified = true,
            2 => f.index_deleted = true,
            3 => f.index_renamed = true,
            4 => f.index_typechange = true,
            5 => f.wt_modified = true,
            6 => f.wt_deleted = true,
            7 => f.wt_renamed = true,
            8 => f.wt_typechange = true,
            9 => f.wt_new = true,
            10 => f.ignored = true,
            _ => f.conflicted = true,
        }
        if !dirty_files(&vec![status(f, "x")]).is_empty() {
            changed.push(i);
        }
    }
    assert_eq!(changed, vec![0, 1, 2, 3, 4, 5, 6, 7, 8, 11]);
}

#[test]
fn changed_files_count_whatever_their_paths_are() {
    let flags = FileFlags { wt_modified: true, ..no_flags() };
    let records = || vec![StatusRecord { flags, path: RawText { bytes: vec![b'a', 0xff] } }];
    assert_eq!(dirty_files(&records()), vec!["a\u{fffd}".to_string()]);
    let service = GitService::new(vec![]);
    let script = vec![
        opens("/w"),
        (Request::Statuses(raw("/w"), TRACKED), Reply::Statuses(Ok(records()))),
        (Request::Head(raw("/w")), head(Some("task"), Some("aa"))),
    ];
    assert_eq!(drive(script, |io| service.is_worktree_clean(&raw("/w"), io)), Ok(false));
    let conflicted = FileFlags { conflicted: true, ..no_flags() };
    let script = vec![
        opens("/w"),
        (Request::Statuses(raw("/w"), TRACKED), Reply::Statuses(Ok(vec![status(conflicted, "c.txt")]))),
        (Request::Head(raw("/w")), head(Some("task"), Some("aa"))),
    ];
    assert_eq!(
        drive(script, |io| service.reset_worktree_to_commit(&raw("/w"), "aa", false, io)),
        Err(GitServiceError::WorktreeDirty("task".to_string(), "c.txt".to_string()))
    );
}

#[test]
fn a_worktree_is_clean_without_changes_to_tracked_files() {
    let service = GitService::new(vec![]);
    let script = vec![
        opens("/w"),
        (
            Request::Statuses(raw("/w"), TRACKED),
            Reply::Statuses(Ok(vec![status(FileFlags { wt_new: true, ..no_flags() }, "u")])),
        ),
    ];
    assert_eq!(drive(script, |io| service.is_worktree_clean(&raw("/w"), io)), Ok(true));
    let mut script = vec![opens("/w")];
    script.extend(dirty("/w"));
    assert_eq!(drive(script, |io| service.is_worktree_clean(&raw("/w"), io)), Ok(false));
    assert_eq!(drive(dirty("/w"), |io| service.check_worktree_clean(&raw("/w"), io)), Err(is_dirty()));
    let script = vec![(Request::Statuses(raw("/w"), TRACKED), Reply::Statuses(Err(git_error("index"))))];
    assert_eq!(
        drive(script, |io| service.check_worktree_clean(&raw("/w"), io)),
        Err(GitServiceError::Git(git_error("index")))
    );
}

#[test]
fn a_dirty_worktree_without_a_branch() {
    let script = vec![
        (
            Request::Statuses(raw("/w"), TRACKED),
            Reply::Statuses(Ok(vec![status(FileFlags { wt_deleted: true, ..no_flags() }, "x")])),
        ),
        (Request::Head(raw("/w")), Reply::Head(Err(git_error("no head")))),
    ];
    assert_eq!(
        drive(script, |io| GitService::new(vec![]).check_worktree_clean(&raw("/w"), io)),
        Err(GitServiceError::WorktreeDirty("unknown branch".to_string(), "x".to_string()))
    );
    let detached = Ok(HeadRef { shorthand: None, target: None });
    assert_eq!(head_name_or(&detached, "else"), "else");
}

#[test]
fn where_head_is() {
    let service = GitService::new(vec![]);
    let script = vec![opens("/r"), (Request::Head(raw("/r")), head(Some("main"), Some("aa")))];
    let info = drive(script, |io| service.get_head_info(&raw("/r"), io)).unwrap();
    assert_eq!((info.branch.as_str(), info.oid.as_str()), ("main", ID));
    let script = vec![opens("/r"), (Request::Head(raw("/r")), head(None, Some("aa")))];
    assert_eq!(drive(script, |io| service.get_head_info(&raw("/r"), io)).unwrap().branch, "HEAD");
    let script = vec![opens("/r"), (Request::Head(raw("/r")), head(Some("main"), None))];
    assert_eq!(
        drive(script, |io| service.get_head_info(&raw("/r"), io)).unwrap_err(),
        GitServiceError::InvalidRepository("Repository HEAD has no target commit".to_string())
    );
}

#[test]
fn the_current_branch_fails_as_libgit2_does() {
    let service = GitService::new(vec![]);
    let script = vec![opens("/r"), (Request::Head(raw("/r")), head(Some("main"), Some("aa")))];
    assert_eq!(drive(script, |io| service.get_current_branch(&raw("/r"), io)), Ok("main".to_string()));
    let script = vec![opens("/r"), (Request::Head(raw("/r")), Reply::Head(Err(git_error("unborn"))))];
    assert_eq!(drive(script, |io| service.get_current_branch(&raw("/r"), io)), Err(git_error("unborn")));
    let script = vec![opens("/r"), (Request::Head(raw("/r")), head(Some("main"), None))];
    let plain = git2::Error::from_str("Failed to get head info");
    let failure = drive(script, |io| service.get_current_branch(&raw("/r"), io)).unwrap_err();
    assert_eq!(failure.message, plain.message());
    assert_eq!(failure.code, plain.raw_code() as i32);
    assert_eq!(failure.class, plain.raw_class() as i32);
    assert_eq!(failure.shown, plain.to_string());
}

#[test]
fn subjects_of_commits() {
    let service = GitService::new(vec![]);
    let found = |summary: Option<&str>| {
        vec![
            opens("/r"),
            (
                Request::FindCommit(raw("/r"), Oid::parse("aa").unwrap()),
                Reply::Commit(Ok(commit_info(summary))),
            ),
        ]
    };
    assert_eq!(
        drive(found(Some("Fix it")), |io| service.get_commit_subject(&raw("/r"), ID, io)),
        Ok("Fix it".to_string())
    );
    assert_eq!(
        drive(found(None), |io| service.get_commit_subject(&raw("/r"), "aa", io)),
        Ok("(no subject)".to_string())
    );
    assert_eq!(
        drive(vec![opens("/r")], |io| service.get_commit_subject(&raw("/r"), "xyz", io)),
        Err(GitServiceError::InvalidRepository("Invalid commit SHA".to_string()))
    );
}

#[test]
fn commits_ahead_and_behind_by_id() {
    let service = GitService::new(vec![]);
    let script = vec![
        opens("/r"),
        (
            Request::AheadBehind(raw("/r"), Oid::parse("aa").unwrap(), Oid::parse("bb").unwrap()),
            Reply::Counts(Ok((1, 4))),
        ),
    ];
    assert_eq!(
        drive(script, |io| service.ahead_behind_commits_by_oid(&raw("/r"), "aa", "bb", io)),
        Ok((1, 4))
    );
    assert_eq!(
        drive(vec![opens("/r")], |io| service.ahead_behind_commits_by_oid(&raw("/r"), "", "bb", io)),
        Err(GitServiceError::InvalidRepository("Invalid from OID".to_string()))
    );
    assert_eq!(
        drive(vec![opens("/r")], |io| service.ahead_behind_commits_by_oid(&raw("/r"), "aa", "?", io)),
        Err(GitServiceError::InvalidRepository("Invalid to OID".to_string()))
    );
}

#[test]
fn change_counts_come_from_status() {
    let args = ["--no-optional-locks", "status", "--porcelain", "-z", "--untracked-files=normal"];
    let script = git("/w", &args, "M  a\0?? b\0?? c\0");
    assert_eq!(
        drive(script, |io| GitService::new(vec![]).get_worktree_change_counts(&raw("/w"), io)),
        Ok((1, 2))
    );
    assert_eq!(
        drive(git_fails("/w", &args, "bad"), |io| GitService::new(vec![]).get_worktree_change_counts(&raw("/w"), io)),
        Err(GitServiceError::InvalidRepository(
            "git status failed: git command failed: --- stdout\nbad".to_string()
        ))
    );
}

fn reset_script() -> Vec<(Request, Reply)> {
    let mut script = git("/w", &["reset", "--hard", ID], "");
    script.extend(git_fails("/w", &["sparse-checkout", "reapply"], "not sparse"));
    script
}

#[test]
fn only_a_clean_worktree_is_reset_unless_forced() {
    let service = GitService::new(vec![]);
    let mut script = vec![opens("/w")];
    script.extend(dirty("/w"));
    assert_eq!(
        drive(script, |io| service.reset_worktree_to_commit(&raw("/w"), ID, false, io)),
        Err(is_dirty())
    );
    let mut script = vec![opens("/w"), clean("/w")];
    script.extend(reset_script());
    assert_eq!(drive(script, |io| service.reset_worktree_to_commit(&raw("/w"), ID, false, io)), Ok(()));
    let mut script = vec![opens("/w")];
    script.extend(reset_script());
    assert_eq!(drive(script, |io| service.reset_worktree_to_commit(&raw("/w"), ID, true, io)), Ok(()));
    let mut script = vec![opens("/w")];
    script.extend(git_fails("/w", &["reset", "--hard", ID], "locked"));
    assert_eq!(
        drive(script, |io| service.reset_worktree_to_commit(&raw("/w"), ID, true, io)),
        Err(GitServiceError::InvalidRepository(
            "git reset --hard failed: git command failed: --- stdout\nlocked".to_string()
        ))
    );
}

fn outcome(o: WorktreeResetOutcome) -> (bool, bool) {
    (o.needed, o.applied)
}

#[test]
fn a_worktree_is_brought_to_a_commit_where_needed_and_allowed() {
    let service = GitService::new(vec![]);
    let at = |id: &str| vec![opens("/w"), (Request::Head(raw("/w")), head(Some("b"), Some(id)))];
    let run = |script, perform, force, is_dirty| {
        let options = WorktreeResetOptions::new(perform, force, is_dirty, true);
        outcome(drive(script, |io| service.reconcile_worktree_to_commit(&raw("/w"), ID, options, io)).unwrap())
    };
    assert_eq!(run(at("aa"), true, true, false), (false, false));
    assert_eq!(run(at("bb"), false, true, false), (true, false));
    assert_eq!(run(at("aa"), true, false, true), (true, false));
    let mut script = at("bb");
    script.extend(vec![opens("/w"), clean("/w")]);
    script.extend(reset_script());
    assert_eq!(run(script, true, false, false), (true, true));
    let mut script = at("aa");
    script.push(opens("/w"));
    script.extend(reset_script());
    assert_eq!(run(script, true, true, true), (true, true));
    let mut script = at("bb");
    script.push(opens("/w"));
    script.extend(dirty("/w"));
    assert_eq!(run(script, true, false, false), (true, false));
    let script = vec![(Request::OpenRepo(raw("/w")), Reply::Unit(Err(git_error("gone"))))];
    assert_eq!(run(script, false, false, false), (true, false));
    assert_eq!(outcome(WorktreeResetOutcome::default()), (false, false));
}

#[test]
fn a_worktree_that_was_reset_needs_no_reset_again() {
    let service = GitService::new(vec![]);
    let run = |options: WorktreeResetOptions, script| {
        outcome(drive(script, |io| service.reconcile_worktree_to_commit(&raw("/w"), ID, options, io)).unwrap())
    };
    let mut script = vec![opens("/w"), (Request::Head(raw("/w")), head(Some("task"), Some("bb")))];
    script.push(opens("/w"));
    script.extend(reset_script());
    assert_eq!(run(WorktreeResetOptions::new(true, true, true, false), script), (true, true));
    for (perform, force) in [(false, false), (false, true), (true, false), (true, true)] {
        let script = vec![opens("/w"), (Request::Head(raw("/w")), head(Some("task"), Some("aa")))];
        assert_eq!(run(WorktreeResetOptions::new(perform, force, false, true), script), (false, false));
    }
}

#[test]
fn a_failed_reset_is_reported_with_its_cause() {
    let service = GitService::new(vec![]);
    let options = WorktreeResetOptions::new(true, true, false, false);
    let mut script = vec![opens("/w"), (Request::Head(raw("/w")), head(Some("task"), Some("bb")))];
    script.push(opens("/w"));
    script.extend(git_fails("/w", &["reset", "--hard", ID], "no such commit"));
    let (found, cause) =
        drive(script, |io| service.reconcile_worktree_reporting(&raw("/w"), ID, options, io)).unwrap();
    assert_eq!(outcome(found), (true, false));
    assert_eq!(
        cause,
        Some(GitServiceError::InvalidRepository(
            "git reset --hard failed: git command failed: --- stdout\nno such commit".to_string()
        ))
    );
}

#[test]
fn worktrees_of_the_service_fail_as_the_command_does() {
    let service = GitService::new(vec![]);
    let script = vec![(Request::Version, Reply::Version(VersionReport::Missing))];
    assert_eq!(
        drive(script, |io| service.add_worktree(&raw("/r"), &raw("/w"), "b", false, io)),
        Err(GitServiceError::InvalidRepository(GitCliError::NotAvailable.to_text()))
    );
    let mut script = vec![(Request::Version, Reply::Version(VersionReport::Ended(true)))];
    script.extend(git("/r", &["worktree", "remove", "/w"], ""));
    assert_eq!(drive(script, |io| service.remove_worktree(&raw("/r"), &raw("/w"), false, io)), Ok(()));
    let mut script = vec![(Request::Version, Reply::Version(VersionReport::Ended(true)))];
    script.extend(git("/r", &["worktree", "move", "/w", "/v"], ""));
    assert_eq!(drive(script, |io| service.move_worktree(&raw("/r"), &raw("/w"), &raw("/v"), io)), Ok(()));
    let script = git("/r", &["worktree", "prune"], "");
    assert_eq!(drive(script, |io| service.prune_worktrees(&raw("/r"), io)), Ok(()));
}

#[test]
fn where_a_branch_is_checked_out() {
    let list = vec![
        WorktreeEntry { path: "/a".to_string(), branch: None },
        WorktreeEntry { path: "/b".to_string(), branch: Some("main".to_string()) },
        WorktreeEntry { path: "/c".to_string(), branch: Some("main".to_string()) },
    ];
    assert_eq!(find_checkout(&list, "main"), Some("/b".to_string()));
    assert_eq!(find_checkout(&list, "other"), None);
    let args = ["worktree", "list", "--porcelain"];
    assert_eq!(
        drive(git_fails("/r", &args, "x"), |io| GitService::new(vec![]).find_checkout_path_for_branch(&raw("/r"), "main", io)),
        Err(GitServiceError::InvalidRepository(
            "git worktree list failed: git command failed: --- stdout\nx".to_string()
        ))
    );
    let script = git("/r", &args, "worktree /b\nHEAD 1\nbranch refs/heads/main\n\n");
    assert_eq!(
        drive(script, |io| GitService::new(vec![]).find_checkout_path_for_branch(&raw("/r"), "main", io)),
        Ok(Some(raw("/b")))
    );
}

#[test]
fn a_worktree_that_was_reset_is_clean_at_that_commit() {
    let service = GitService::new(vec![]);
    let mut script = vec![opens("/w")];
    script.extend(reset_script());
    assert_eq!(drive(script, |io| service.reset_worktree_to_commit(&raw("/w"), ID, true, io)), Ok(()));
    let script = vec![opens("/w"), (Request::Head(raw("/w")), head(Some("task"), Some("aa")))];
    assert_eq!(drive(script, |io| service.get_head_info(&raw("/w"), io)).unwrap().oid, ID);
    let script = vec![opens("/w"), clean("/w")];
    assert_eq!(drive(script, |io| service.is_worktree_clean(&raw("/w"), io)), Ok(true));
}

#[test]
fn counts_of_commits_the_other_way_round() {
    let service = GitService::new(vec![]);
    let run = |from: &str, to: &str, counts: (usize, usize)| {
        let script = vec![
            opens("/r"),
            (
                Request::AheadBehind(raw("/r"), Oid::parse(from).unwrap(), Oid::parse(to).unwrap()),
                Reply::Counts(Ok(counts)),
            ),
        ];
        drive(script, |io| service.ahead_behind_commits_by_oid(&raw("/r"), from, to, io))
    };
    assert_eq!(run("aa", "bb", (3, 5)), Ok((3, 5)));
    assert_eq!(run("bb", "aa", (5, 3)), Ok((5, 3)));
    assert_eq!(run("aa", "aa", (0, 0)), Ok((0, 0)));
}
