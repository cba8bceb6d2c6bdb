use git_service::dialogue::{Command, Dialogue, Interrupt, RefUpdate, Reply, Request, StatusScope};
use git_service::errors::{GitCliError, GitError, GitServiceError};
use git_service::oid::Oid;
use git_service::raw::RawText;
use git_service::records::{
    BranchInfo, BranchType, FileFlags, GitHubRepoInfo, HeadRef, RemoteInfo, RunEnd, RunReport, StatusRecord,
    VersionReport,
};
use git_service::service::GitService;

const TRACKED: StatusScope = StatusScope { untracked: false, ignored: false };

fn raw(s: &str) -> RawText {
    RawText { bytes: s.as_bytes().to_vec() }
}

fn drive<T, E, Op>(script: Vec<(Request, Reply)>, op: Op) -> Result<T, E>
where
    Op: for<'a> Fn(&mut Dialogue<'a>) -> Result<T, Interrupt<E>>,
{
    let mut replies: Vec<Reply> = Vec::new();
    let mut steps = script.into_iter();
    loop {
        let step = op(&mut Dialogue::new(&replies));
        let ended = match step {
            Ok(value) => Ok(value),
            Err(Interrupt::Failed(e)) => Err(e),
            Err(Interrupt::OutOfStep) => panic!("a reply of the wrong kind"),
            Err(Interrupt::Ask(request)) => {
                let (expected, reply) = steps.next().expect("a request too many");
                assert_eq!(request, expected);
                replies.push(reply);
                continue;
            }
        };
        assert!(steps.next().is_none(), "a request too few");
        return ended;
    }
}

fn command(dir: &str, args: &[&str], envs: &[(&str, &str)], stdin: Option<&[u8]>) -> Request {
    Request::Run(Command {
        dir: raw(dir),
        args: args.iter().map(|a| raw(a)).collect(),
        envs: envs.iter().map(|(k, v)| (raw(k), raw(v))).collect(),
        stdin: stdin.map(|b| RawText { bytes: b.to_vec() }),
    })
}

fn ended(code: i32, stdout: &[u8], stderr: &str) -> Reply {
    Reply::Ran(RunReport::Ended(RunEnd {
        code: Some(code),
        stdout: RawText { bytes: stdout.to_vec() },
        stderr: raw(stderr),
        stdin_error: None,
    }))
}

fn git(dir: &str, args: &[&str], stdout: &str) -> Vec<(Request, Reply)> {
    vec![
        (Request::Version, Reply::Version(VersionReport::Ended(true))),
        (command(dir, args, &[], None), ended(0, stdout.as_bytes(), "")),
    ]
}

fn git_error(message: &str) -> GitError {
    GitError { code: -3, class: 4, message: message.to_string(), shown: format!("{}; class=x (4)", message) }
}

fn opens(path: &str) -> (Request, Reply) {
    (Request::OpenRepo(raw(path)), Reply::Unit(Ok(())))
}

fn oid(s: &str) -> Oid {
    Oid::parse(s).unwrap()
}

fn invalid(words: &str) -> GitServiceError {
    GitServiceError::InvalidRepository(words.to_string())
}

fn branch(refname: Option<&str>, target: Option<&str>, is_remote: bool) -> BranchInfo {
    BranchInfo { refname: refname.map(|r| r.to_string()), target: target.map(oid), is_remote }
}

fn finds(name: &str, info: BranchInfo) -> (Request, Reply) {
    (
        Request::FindBranch(raw("/r"), name.to_string(), BranchType::Local),
        Reply::Branch(Ok(info)),
    )
}

fn names(list: Vec<Option<&str>>) -> (Request, Reply) {
    (
        Request::RemoteNames(raw("/r")),
        Reply::Names(Ok(list.into_iter().map(|n| n.map(|s| s.to_string())).collect())),
    )
}

fn remote(name: &str, url: Option<&str>) -> (Request, Reply) {
    (
        Request::FindRemote(raw("/r"), name.to_string()),
        Reply::Remote(Ok(RemoteInfo {
            name: Some(name.to_string()),
            url: url.map(|u| u.to_string()),
        })),
    )
}

#[test]
fn the_default_remote_is_the_first_that_is_text() {
    let service = GitService::new(vec![]);
    let run = |step| drive(vec![step], |io| service.default_remote_name(&raw("/r"), io));
    assert_eq!(run(names(vec![None, Some("up"), Some("origin")])), Ok("up".to_string()));
    assert_eq!(run(names(vec![])), Ok("origin".to_string()));
    assert_eq!(run(names(vec![None])), Ok("origin".to_string()));
    assert_eq!(
        run((Request::RemoteNames(raw("/r")), Reply::Names(Err(git_error("x"))))),
        Ok("origin".to_string())
    );
}

#[test]
fn the_remote_of_a_branch() {
    let service = GitService::new(vec![]);
    let remote_name = |bytes: RawText| {
        (
            Request::BranchRemoteName(raw("/r"), "refs/remotes/up/x".to_string()),
            Reply::Bytes(Ok(bytes)),
        )
    };
    let start = || {
        vec![
            opens("/r"),
            finds("up/x", branch(Some("refs/remotes/up/x"), None, true)),
            names(vec![Some("origin")]),
        ]
    };
    let run = |script| drive(script, |io| service.get_remote_name_from_branch_name(&raw("/r"), "up/x", io));
    let mut script = start();
    script.extend(vec![remote_name(raw("up")), remote("up", None)]);
    assert_eq!(run(script), Ok("up".to_string()));
    let mut script = start();
    script.extend(vec![
        remote_name(raw("up")),
        (
            Request::FindRemote(raw("/r"), "up".to_string()),
            Reply::Remote(Ok(RemoteInfo { name: None, url: None })),
        ),
    ]);
    assert_eq!(run(script), Ok("origin".to_string()));
    let mut script = start();
    script.extend(vec![
        remote_name(raw("up")),
        (Request::FindRemote(raw("/r"), "up".to_string()), Reply::Remote(Err(git_error("x")))),
    ]);
    assert_eq!(run(script), Err(invalid("Remote 'up' for branch 'refs/remotes/up/x' not found")));
    let mut script = start();
    script.push(remote_name(RawText { bytes: vec![0xff] }));
    assert_eq!(
        run(script),
        Err(invalid(
            "Invalid remote name for branch refs/remotes/up/x: invalid utf-8 sequence of 1 bytes from index 0"
        ))
    );
    let script = vec![opens("/r"), finds("up/x", branch(None, None, true)), names(vec![])];
    assert_eq!(run(script), Err(invalid("Invalid branch ref")));
}

#[test]
fn github_repositories_by_the_default_remote() {
    let service = GitService::new(vec![]);
    let run = |script| drive(script, |io| service.get_github_repo_info(&raw("/r"), io));
    let parses = |reply| (Request::ParseRemoteUrl("u".to_string()), Reply::RepoInfo(reply));
    let info = || GitHubRepoInfo { owner: "o".to_string(), repo_name: "n".to_string() };
    assert_eq!(
        run(vec![opens("/r"), names(vec![]), remote("origin", Some("u")), parses(Ok(info()))]),
        Ok(info())
    );
    assert_eq!(
        run(vec![opens("/r"), names(vec![]), remote("origin", Some("u")), parses(Err("odd".to_string()))]),
        Err(invalid("Failed to parse remote URL: odd"))
    );
    assert_eq!(
        run(vec![opens("/r"), names(vec![]), remote("origin", None)]),
        Err(invalid("Remote has no URL"))
    );
    assert_eq!(
        run(vec![
            opens("/r"),
            names(vec![]),
            (Request::FindRemote(raw("/r"), "origin".to_string()), Reply::Remote(Err(git_error("x")))),
        ]),
        Err(invalid("No 'origin' remote found"))
    );
}

fn asks_remote(branch: &str, out: &str) -> Vec<(Request, Reply)> {
    vec![
        (Request::Version, Reply::Version(VersionReport::Ended(true))),
        (
            command(
                "/r",
                &["ls-remote", "--heads", "u", &format!("refs/heads/{}", branch)],
                &[("GIT_TERMINAL_PROMPT", "0")],
                None,
            ),
            ended(0, out.as_bytes(), ""),
        ),
    ]
}

#[test]
fn whether_the_remote_has_a_branch() {
    let service = GitService::new(vec![]);
    let run = |name: &str, script| drive(script, |io| service.check_remote_branch_exists(&raw("/r"), name, io));
    let mut script = vec![
        opens("/r"),
        names(vec![]),
        opens("/r"),
        finds("task", branch(None, None, false)),
        remote("origin", Some("u")),
    ];
    script.extend(asks_remote("task", "1 x"));
    assert_eq!(run("task", script), Ok(true));
    for (name, asked) in [("origin/x", "x"), ("up/x", "up/x")] {
        let mut script = vec![
            opens("/r"),
            names(vec![]),
            opens("/r"),
            (
                Request::FindBranch(raw("/r"), name.to_string(), BranchType::Local),
                Reply::Branch(Err(git_error("no"))),
            ),
            (
                Request::FindBranch(raw("/r"), name.to_string(), BranchType::Remote),
                Reply::Branch(Ok(branch(None, None, true))),
            ),
            remote("origin", Some("u")),
        ];
        script.extend(asks_remote(asked, ""));
        assert_eq!(run(name, script), Ok(false));
    }
}

#[test]
fn the_status_against_a_remote_branch_is_fetched() {
    let service = GitService::new(vec![]);
    let fetch = || {
        vec![
            (
                Request::BranchRemoteName(raw("/r"), "refs/remotes/origin/main".to_string()),
                Reply::Bytes(Ok(raw("origin"))),
            ),
            remote("origin", Some("u")),
            names(vec![]),
            (Request::GitDir(raw("/r")), Reply::Bytes(Ok(raw("/r/.git/")))),
            (Request::Version, Reply::Version(VersionReport::Ended(true))),
            (
                command(
                    "/r/.git/",
                    &["fetch", "u", "+refs/heads/*:refs/remotes/origin/*"],
                    &[("GIT_TERMINAL_PROMPT", "0")],
                    None,
                ),
                ended(0, b"", ""),
            ),
            (Request::AheadBehind(raw("/r"), oid("aa"), oid("bb")), Reply::Counts(Ok((4, 5)))),
        ]
    };
    let mut script = vec![
        opens("/r"),
        finds("task", branch(Some("refs/heads/task"), Some("aa"), false)),
        finds("origin/main", branch(Some("refs/remotes/origin/main"), Some("bb"), true)),
    ];
    script.extend(fetch());
    assert_eq!(
        drive(script, |io| service.get_remote_branch_status(&raw("/r"), "task", Some("origin/main"), io)),
        Ok((4, 5))
    );
    let mut script = vec![
        opens("/r"),
        finds("task", branch(Some("refs/heads/task"), Some("aa"), false)),
        finds("task", branch(Some("refs/heads/task"), Some("aa"), false)),
        (
            Request::Upstream(raw("/r"), "task".to_string()),
            Reply::Branch(Ok(branch(Some("refs/remotes/origin/main"), Some("bb"), true))),
        ),
    ];
    script.extend(fetch());
    assert_eq!(
        drive(script, |io| service.get_remote_branch_status(&raw("/r"), "task", None, io)),
        Ok((4, 5))
    );
    let script = vec![
        opens("/r"),
        finds("task", branch(None, None, false)),
        finds("task", branch(None, None, false)),
        (Request::Upstream(raw("/r"), "task".to_string()), Reply::Branch(Err(git_error("no upstream")))),
    ];
    assert_eq!(
        drive(script, |io| service.get_remote_branch_status(&raw("/r"), "task", None, io)),
        Err(GitServiceError::Git(git_error("no upstream")))
    );
}

fn pushes(refspec: &str) -> Vec<(Request, Reply)> {
    vec![
        (Request::Version, Reply::Version(VersionReport::Ended(true))),
        (command("/r", &["push", "u", refspec], &[("GIT_TERMINAL_PROMPT", "0")], None), ended(0, b"", "")),
    ]
}

fn tracks(target: Option<&str>) -> Vec<(Request, Reply)> {
    let mut script = vec![finds("task", branch(Some("refs/heads/task"), target, false))];
    if let Some(t) = target {
        script.push((
            Request::UpdateReference(
                raw("/r"),
                RefUpdate {
                    refname: "refs/remotes/origin/task".to_string(),
                    target: oid(t),
                    force: true,
                    log: "update remote tracking branch".to_string(),
                },
            ),
            Reply::Unit(Ok(())),
        ));
    }
    script.push((
        Request::SetUpstream(raw("/r"), "task".to_string(), BranchType::Local, "origin/task".to_string()),
        Reply::Unit(Ok(())),
    ));
    script
}

#[test]
fn a_pushed_branch_is_tracked() {
    let service = GitService::new(vec![]);
    for (force, refspec, target) in [
        (false, "refs/heads/task:refs/heads/task", Some("aa")),
        (true, "+refs/heads/task:refs/heads/task", None),
    ] {
        let mut script = vec![
            opens("/r"),
            (Request::Statuses(raw("/r"), TRACKED), Reply::Statuses(Ok(vec![]))),
            names(vec![]),
            remote("origin", Some("u")),
        ];
        script.extend(pushes(refspec));
        script.extend(tracks(target));
        assert_eq!(drive(script, |io| service.push_to_github(&raw("/r"), "task", force, io)), Ok(()));
    }
    let mut script = vec![
        opens("/r"),
        (Request::Statuses(raw("/r"), TRACKED), Reply::Statuses(Ok(vec![]))),
        names(vec![]),
        remote("origin", Some("u")),
    ];
    script.extend(pushes("refs/heads/task:refs/heads/task"));
    script.push(finds("task", branch(None, Some("aa"), true)));
    assert_eq!(drive(script, |io| service.push_to_github(&raw("/r"), "task", false, io)), Ok(()));
}

#[test]
fn a_push_that_fails() {
    let script = vec![
        opens("/r"),
        (Request::Statuses(raw("/r"), TRACKED), Reply::Statuses(Ok(vec![]))),
        names(vec![]),
        remote("origin", Some("u")),
        (Request::Version, Reply::Version(VersionReport::Ended(true))),
        (
            command(
                "/r",
                &["push", "u", "refs/heads/task:refs/heads/task"],
                &[("GIT_TERMINAL_PROMPT", "0")],
                None,
            ),
            ended(1, b"", "failed to push some refs"),
        ),
    ];
    assert_eq!(
        drive(script, |io| GitService::new(vec![]).push_to_github(&raw("/r"), "task", false, io)),
        Err(GitServiceError::GitCLI(GitCliError::PushRejected(
            "--- stdout\nfailed to push some refs".to_string()
        )))
    );
}

#[test]
fn everything_is_committed_and_pushed() {
    let service = GitService::new(vec!["dist".to_string()]);
    let start = || vec![opens("/r"), names(vec![]), remote("origin", Some("u"))];
    let changes = ["--no-optional-locks", "status", "--porcelain"];
    let mut script = start();
    script.extend(git("/r", &changes, ""));
    assert_eq!(drive(script, |io| service.add_all_and_push_to_github(&raw("/r"), "task", io)), Ok(()));
    let mut script = start();
    script.extend(git("/r", &changes, "?? x\n"));
    script.extend(git("/r", &["add", "-A", "--", ":(glob,exclude)**/dist/"], ""));
    script.extend(vec![
        opens("/r"),
        (Request::OpenConfig(raw("/r")), Reply::Unit(Ok(()))),
        (Request::ConfigHas(raw("/r"), "user.name".to_string()), Reply::Flag(true)),
        (Request::ConfigHas(raw("/r"), "user.email".to_string()), Reply::Flag(true)),
    ]);
    script.extend(git("/r", &["commit", "--no-verify", "-m", "update"], ""));
    script.extend(pushes("refs/heads/task:refs/heads/task"));
    script.extend(tracks(Some("aa")));
    assert_eq!(drive(script, |io| service.add_all_and_push_to_github(&raw("/r"), "task", io)), Ok(()));
    let script = vec![opens("/r"), names(vec![]), remote("origin", None)];
    assert_eq!(
        drive(script, |io| service.add_all_and_push_to_github(&raw("/r"), "task", io)),
        Err(invalid("Remote has no URL"))
    );
}

#[test]
fn a_worktree_that_is_not_clean_is_not_pushed_from() {
    let service = GitService::new(vec![]);
    let script = || {
        vec![
            opens("/r"),
            (
                Request::Statuses(raw("/r"), TRACKED),
                Reply::Statuses(Ok(vec![StatusRecord {
                    flags: FileFlags {
                        index_new: false,
                        index_modified: false,
                        index_deleted: false,
                        index_renamed: false,
                        index_typechange: false,
                        wt_new: false,
                        wt_modified: true,
                        wt_deleted: false,
                        wt_typechange: false,
                        wt_renamed: false,
                        ignored: false,
                        conflicted: false,
                    },
                    path: raw("f"),
                }])),
            ),
            (
                Request::Head(raw("/r")),
                Reply::Head(Ok(HeadRef { shorthand: Some("task".to_string()), target: None })),
            ),
        ]
    };
    assert_eq!(drive(script(), |io| service.is_worktree_clean(&raw("/r"), io)), Ok(false));
    assert_eq!(
        drive(script(), |io| service.push_to_github(&raw("/r"), "task", true, io)),
        Err(GitServiceError::WorktreeDirty("task".to_string(), "f".to_string()))
    );
}
