use git_service::dialogue::{
    Command, Dialogue, Interrupt, MergeSettings, NewCommit, RefUpdate, Reply, Request,
};
use git_service::errors::{GitError, GitServiceError};
use git_service::merging::diverged_message;
use git_service::oid::Oid;
use git_service::raw::RawText;
use git_service::records::{BranchInfo, BranchType, Identity, RunEnd, RunReport, VersionReport};
use git_service::service::GitService;

const SETTINGS: MergeSettings = MergeSettings { renames: true, fail_on_conflict: true };

fn raw(s: &str) -> RawText {
    RawText { bytes: s.as_bytes().to_vec() }
}

fn drive<T, E, Op>(script: Vec<(Request, Reply)>, op: Op) -> Result<T, E>
where
    Op: for<'a> Fn(&mut Dialogue<'a>) -> Result<T, Interrupt<E>>,
{
    let mut replies: Vec<Reply> = Vec::new();
    let mut steps = script.into_iter();
    loop {
        let step = op(&mut Dialogue::new(&replies));
        let ended = match step {
            Ok(value) => Ok(value),
            Err(Interrupt::Failed(e)) => Err(e),
            Err(Interrupt::OutOfStep) => panic!("a reply of the wrong kind"),
            Err(Interrupt::Ask(request)) => {
                let (expected, reply) = steps.next().expect("a request too many");
                assert_eq!(request, expected);
                replies.push(reply);
                continue;
            }
        };
        assert!(steps.next().is_none(), "a request too few");
        return ended;
    }
}

fn command(dir: &str, args: &[&str], envs: &[(&str, &str)], stdin: Option<&[u8]>) -> Request {
    Request::Run(Command {
        dir: raw(dir),
        args: args.iter().map(|a| raw(a)).collect(),
        envs: envs.iter().map(|(k, v)| (raw(k), raw(v))).collect(),
        stdin: stdin.map(|b| RawText { bytes: b.to_vec() }),
    })
}

fn ended(code: i32, stdout: &[u8], stderr: &str) -> Reply {
    Reply::Ran(RunReport::Ended(RunEnd {
        code: Some(code),
        stdout: RawText { bytes: stdout.to_vec() },
        stderr: raw(stderr),
        stdin_error: None,
    }))
}

fn git(dir: &str, args: &[&str], stdout: &str) -> Vec<(Request, Reply)> {
    vec![
        (Request::Version, Reply::Version(VersionReport::Ended(true))),
        (command(dir, args, &[], None), ended(0, stdout.as_bytes(), "")),
    ]
}

fn git_fails(dir: &str, args: &[&str], stderr: &str) -> Vec<(Request, Reply)> {
    vec![
        (Request::Version, Reply::Version(VersionReport::Ended(true))),
        (command(dir, args, &[], None), ended(1, b"", stderr)),
    ]
}

fn git_error(message: &str) -> GitError {
    GitError { code: -3, class: 4, message: message.to_string(), shown: format!("{}; class=x (4)", message) }
}

fn opens(path: &str) -> (Request, Reply) {
    (Request::OpenRepo(raw(path)), Reply::Unit(Ok(())))
}

fn oid(s: &str) -> Oid {
    Oid::parse(s).unwrap()
}

fn finds(path: &str, name: &str, target: &str) -> (Request, Reply) {
    (
        Request::FindBranch(raw(path), name.to_string(), BranchType::Local),
        Reply::Branch(Ok(BranchInfo {
            refname: Some(format!("refs/heads/{}", name)),
            target: Some(oid(target)),
            is_remote: false,
        })),
    )
}

fn status(behind: usize) -> Vec<(Request, Reply)> {
    vec![
        opens("/task"),
        opens("/base"),
        opens("/base"),
        finds("/base", "task", "aa"),
        finds("/base", "main", "bb"),
        (Request::AheadBehind(raw("/base"), oid("aa"), oid("bb")), Reply::Counts(Ok((1, behind)))),
    ]
}

fn worktrees(listing: &str) -> Vec<(Request, Reply)> {
    git("/base", &["worktree", "list", "--porcelain"], listing)
}

fn identity(path: &str, name: bool, email: bool) -> Vec<(Request, Reply)> {
    vec![
        opens(path),
        (Request::OpenConfig(raw(path)), Reply::Unit(Ok(()))),
        (Request::ConfigHas(raw(path), "user.name".to_string()), Reply::Flag(name)),
        (Request::ConfigHas(raw(path), "user.email".to_string()), Reply::Flag(email)),
    ]
}

fn merge(script: Vec<(Request, Reply)>) -> Result<String, GitServiceError> {
    let service = GitService::new(vec![]);
    drive(script, |io| service.merge_changes(&raw("/base"), &raw("/task"), "task", "main", "msg", io))
}

const CHECKED_OUT: &str = "worktree /base\nHEAD 1\nbranch refs/heads/main\n\n";

#[test]
fn a_base_that_has_moved_on_blocks_the_merge() {
    assert_eq!(
        merge(status(3)),
        Err(GitServiceError::BranchesDiverged(
            "Cannot merge: base branch 'main' is 3 commits ahead of task branch 'task'. The base branch has moved forward since the task was created.".to_string()
        ))
    );
    assert_eq!(
        diverged_message("b", 12, "t"),
        "Cannot merge: base branch 'b' is 12 commits ahead of task branch 't'. The base branch has moved forward since the task was created."
    );
}

#[test]
fn staged_changes_block_the_merge() {
    let mut script = status(0);
    script.extend(worktrees(CHECKED_OUT));
    script.push((command("/base", &["diff", "--cached", "--quiet"], &[], None), ended(1, b"", "")));
    assert_eq!(
        merge(script),
        Err(GitServiceError::WorktreeDirty("main".to_string(), "staged changes present".to_string()))
    );
    let mut script = status(0);
    script.extend(worktrees(CHECKED_OUT));
    script.push((command("/base", &["diff", "--cached", "--quiet"], &[], None), ended(129, b"", "usage")));
    assert_eq!(
        merge(script),
        Err(GitServiceError::InvalidRepository(
            "git diff --cached failed: git command failed: usage".to_string()
        ))
    );
}

#[test]
fn a_merge_where_the_base_is_checked_out() {
    let mut script = status(0);
    script.extend(worktrees(CHECKED_OUT));
    script.push((command("/base", &["diff", "--cached", "--quiet"], &[], None), ended(0, b"", "")));
    script.extend(identity("/base", true, true));
    script.extend(git("/base", &["checkout", "main"], ""));
    script.extend(git("/base", &["merge", "--squash", "--no-commit", "task"], ""));
    script.extend(git("/base", &["commit", "-m", "msg"], ""));
    script.extend(git("/base", &["rev-parse", "HEAD"], "cccc\n"));
    script.extend(git("/base", &["update-ref", "refs/heads/task", "cccc"], ""));
    assert_eq!(merge(script), Ok("cccc".to_string()));
    let mut script = status(0);
    script.extend(worktrees(CHECKED_OUT));
    script.push((command("/base", &["diff", "--cached", "--quiet"], &[], None), ended(0, b"", "")));
    script.extend(identity("/base", true, true));
    script.extend(git_fails("/base", &["checkout", "main"], "no"));
    assert_eq!(
        merge(script),
        Err(GitServiceError::InvalidRepository(
            "CLI merge failed: git command failed: --- stdout\nno".to_string()
        ))
    );
}

fn by_references() -> Vec<(Request, Reply)> {
    let mut script = status(0);
    script.extend(worktrees("worktree /base\nHEAD 1\nbranch refs/heads/other\n\n"));
    script.extend(vec![
        finds("/task", "task", "aa"),
        finds("/task", "main", "bb"),
        (
            Request::PeelBranch(raw("/task"), "main".to_string(), BranchType::Local),
            Reply::Id(Ok(oid("bb"))),
        ),
        (
            Request::PeelBranch(raw("/task"), "task".to_string(), BranchType::Local),
            Reply::Id(Ok(oid("aa"))),
        ),
        (Request::Signature(raw("/task")), Reply::Unit(Err(git_error("no name")))),
        (
            Request::NewSignature("Vibe Kanban".to_string(), "noreply@vibekanban.com".to_string()),
            Reply::Unit(Ok(())),
        ),
    ]);
    script
}

#[test]
fn a_merge_by_references_moves_both_branches_to_the_new_commit() {
    let mut script = by_references();
    script.extend(vec![
        (Request::MergeCommits(raw("/task"), oid("bb"), oid("aa"), SETTINGS), Reply::Merged(Ok(false))),
        (Request::WriteMergedTree(raw("/task"), oid("bb"), oid("aa"), SETTINGS), Reply::Id(Ok(oid("dd")))),
        (Request::FindTree(raw("/task"), oid("dd")), Reply::Unit(Ok(()))),
        (
            Request::CreateCommit(
                raw("/task"),
                NewCommit {
                    update_ref: None,
                    identity: Identity::Fallback,
                    message: "msg".to_string(),
                    tree: oid("dd"),
                    parents: vec![oid("bb")],
                },
            ),
            Reply::Id(Ok(oid("ee"))),
        ),
        (
            Request::UpdateReference(
                raw("/task"),
                RefUpdate {
                    refname: "refs/heads/main".to_string(),
                    target: oid("ee"),
                    force: true,
                    log: "Squash merge".to_string(),
                },
            ),
            Reply::Unit(Ok(())),
        ),
        (
            Request::UpdateReference(
                raw("/base"),
                RefUpdate {
                    refname: "refs/heads/task".to_string(),
                    target: oid("ee"),
                    force: true,
                    log: "Reset task branch after squash merge".to_string(),
                },
            ),
            Reply::Unit(Ok(())),
        ),
    ]);
    assert_eq!(merge(script), Ok(oid("ee").to_text()));
}

#[test]
fn conflicts_end_a_merge_by_references() {
    let mut script = by_references();
    script.push((Request::MergeCommits(raw("/task"), oid("bb"), oid("aa"), SETTINGS), Reply::Merged(Ok(true))));
    assert_eq!(
        merge(script),
        Err(GitServiceError::MergeConflicts(
            "Merge failed due to conflicts. Please resolve conflicts manually.".to_string()
        ))
    );
    let mut script = by_references();
    script.push((
        Request::MergeCommits(raw("/task"), oid("bb"), oid("aa"), SETTINGS),
        Reply::Merged(Err(git_error("conflict"))),
    ));
    assert_eq!(merge(script), Err(GitServiceError::Git(git_error("conflict"))));
}

#[test]
fn further_replies_change_nothing_once_a_merge_has_ended() {
    let mut replies: Vec<Reply> = status(3).into_iter().map(|(_, reply)| reply).collect();
    let service = GitService::new(vec![]);
    let before = service.merge_changes(
        &raw("/base"), &raw("/task"), "task", "main", "msg", &mut Dialogue::new(&replies),
    );
    replies.push(Reply::Flag(true));
    let after = service.merge_changes(
        &raw("/base"), &raw("/task"), "task", "main", "msg", &mut Dialogue::new(&replies),
    );
    assert_eq!(before, after);
    assert!(matches!(before, Err(Interrupt::Failed(_))));
}

#[test]
fn merged_branches_are_even() {
    let service = GitService::new(vec![]);
    let sha = oid("cccc").to_text();
    let mut script = status(0);
    script.extend(worktrees(CHECKED_OUT));
    script.push((command("/base", &["diff", "--cached", "--quiet"], &[], None), ended(0, b"", "")));
    script.extend(identity("/base", true, true));
    script.extend(git("/base", &["checkout", "main"], ""));
    script.extend(git("/base", &["merge", "--squash", "--no-commit", "task"], ""));
    script.extend(git("/base", &["commit", "-m", "msg"], ""));
    script.extend(git("/base", &["rev-parse", "HEAD"], &sha));
    script.extend(git("/base", &["update-ref", "refs/heads/task", &sha], ""));
    let made = merge(script).unwrap();
    let script = vec![
        opens("/base"),
        finds("/base", "task", &made),
        finds("/base", "main", &made),
        (
            Request::AheadBehind(raw("/base"), oid(&made), oid(&made)),
            Reply::Counts(Ok((0, 0))),
        ),
    ];
    assert_eq!(
        drive(script, |io| service.get_branch_status(&raw("/base"), "task", "main", io)),
        Ok((0, 0))
    );
}
