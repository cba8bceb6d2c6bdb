use git_service::dialogue::{Command, Dialogue, Interrupt, NewCommit, Reply, Request};
use git_service::errors::{GitError, GitServiceError};
use git_service::oid::Oid;
use git_service::raw::RawText;
use git_service::records::{Identity, RunEnd, RunReport, VersionReport};
use git_service::service::GitService;

fn raw(s: &str) -> RawText {
    RawText { bytes: s.as_bytes().to_vec() }
}

fn drive<T, E, Op>(script: Vec<(Request, Reply)>, op: Op) -> Result<T, E>
where
    Op: for<'a> Fn(&mut Dialogue<'a>) -> Result<T, Interrupt<E>>,
{
    let mut replies: Vec<Reply> = Vec::new();
    let mut steps = script.into_iter();
    loop {
        let step = op(&mut Dialogue::new(&replies));
        let ended = match step {
            Ok(value) => Ok(value),
            Err(Interrupt::Failed(e)) => Err(e),
            Err(Interrupt::OutOfStep) => panic!("a reply of the wrong kind"),
            Err(Interrupt::Ask(request)) => {
                let (expected, reply) = steps.next().expect("a request too many");
                assert_eq!(request, expected);
                replies.push(reply);
                continue;
            }
        };
        assert!(steps.next().is_none(), "a request too few");
        return ended;
    }
}

fn command(dir: &str, args: &[&str], envs: &[(&str, &str)], stdin: Option<&[u8]>) -> Request {
    Request::Run(Command {
        dir: raw(dir),
        args: args.iter().map(|a| raw(a)).collect(),
        envs: envs.iter().map(|(k, v)| (raw(k), raw(v))).collect(),
        stdin: stdin.map(|b| RawText { bytes: b.to_vec() }),
    })
}

fn ended(code: i32, stdout: &[u8], stderr: &str) -> Reply {
    Reply::Ran(RunReport::Ended(RunEnd {
        code: Some(code),
        stdout: RawText { bytes: stdout.to_vec() },
        stderr: raw(stderr),
        stdin_error: None,
    }))
}

fn git(dir: &str, args: &[&str], stdout: &str) -> Vec<(Request, Reply)> {
    vec![
        (Request::Version, Reply::Version(VersionReport::Ended(true))),
        (command(dir, args, &[], None), ended(0, stdout.as_bytes(), "")),
    ]
}

fn git_fails(dir: &str, args: &[&str], stderr: &str) -> Vec<(Request, Reply)> {
    vec![
        (Request::Version, Reply::Version(VersionReport::Ended(true))),
        (command(dir, args, &[], None), ended(1, b"", stderr)),
    ]
}

fn git_error(message: &str) -> GitError {
    GitError { code: -3, class: 4, message: message.to_string(), shown: format!("{}; class=x (4)", message) }
}

fn opens(path: &str) -> (Request, Reply) {
    (Request::OpenRepo(raw(path)), Reply::Unit(Ok(())))
}

fn oid(s: &str) -> Oid {
    Oid::parse(s).unwrap()
}

fn identity(name: bool, email: bool) -> Vec<(Request, Reply)> {
    vec![
        opens("/r"),
        (Request::OpenConfig(raw("/r")), Reply::Unit(Ok(()))),
        (Request::ConfigHas(raw("/r"), "user.name".to_string()), Reply::Flag(name)),
        (Request::ConfigHas(raw("/r"), "user.email".to_string()), Reply::Flag(email)),
    ]
}

fn sets(key: &str, value: &str) -> (Request, Reply) {
    (Request::ConfigSet(raw("/r"), key.to_string(), value.to_string()), Reply::Unit(Ok(())))
}

fn sets_identity(name: bool, email: bool) -> Vec<(Request, Reply)> {
    let mut script = vec![(Request::OpenConfig(raw("/r")), Reply::Unit(Ok(())))];
    if name {
        script.push(sets("user.name", "Vibe Kanban"));
    }
    if email {
        script.push(sets("user.email", "noreply@vibekanban.com"));
    }
    script
}

fn initial_commit(who: Identity) -> Vec<(Request, Reply)> {
    vec![
        (Request::EmptyTree(raw("/r")), Reply::Id(Ok(oid("4b")))),
        (Request::FindTree(raw("/r"), oid("4b")), Reply::Unit(Ok(()))),
        (
            Request::CreateCommit(
                raw("/r"),
                NewCommit {
                    update_ref: Some("refs/heads/main".to_string()),
                    identity: who,
                    message: "Initial commit".to_string(),
                    tree: oid("4b"),
                    parents: vec![],
                },
            ),
            Reply::Id(Ok(oid("c0"))),
        ),
        (Request::SetHead(raw("/r"), "refs/heads/main".to_string()), Reply::Unit(Ok(()))),
    ]
}

#[test]
fn only_the_missing_part_of_an_identity_is_set() {
    let service = GitService::new(vec![]);
    assert_eq!(drive(identity(true, true), |io| service.ensure_cli_commit_identity(&raw("/r"), io)), Ok(()));
    for (name, email) in [(false, false), (true, false), (false, true)] {
        let mut script = identity(name, email);
        script.extend(sets_identity(!name, !email));
        assert_eq!(drive(script, |io| service.ensure_cli_commit_identity(&raw("/r"), io)), Ok(()));
    }
}

#[test]
fn signatures_fall_back() {
    let service = GitService::new(vec![]);
    let run = |script| drive(script, |io| service.signature_with_fallback(&raw("/r"), io));
    assert_eq!(
        run(vec![(Request::Signature(raw("/r")), Reply::Unit(Ok(())))]),
        Ok(Identity::Configured)
    );
    let fallback = |reply| {
        vec![
            (Request::Signature(raw("/r")), Reply::Unit(Err(git_error("none")))),
            (
                Request::NewSignature("Vibe Kanban".to_string(), "noreply@vibekanban.com".to_string()),
                Reply::Unit(reply),
            ),
        ]
    };
    assert_eq!(run(fallback(Ok(()))), Ok(Identity::Fallback));
    assert_eq!(run(fallback(Err(git_error("x")))), Err(GitServiceError::Git(git_error("x"))));
}

#[test]
fn a_new_repository_has_a_main_branch() {
    let service = GitService::new(vec![]);
    let rest = || {
        let mut script = vec![
            (Request::InitRepo(raw("/r"), "main".to_string(), true), Reply::Unit(Ok(()))),
            (Request::Signature(raw("/r")), Reply::Unit(Ok(()))),
        ];
        script.extend(initial_commit(Identity::Configured));
        script
    };
    let mut script = vec![(Request::PathExists(raw("/r")), Reply::Flag(true))];
    script.extend(rest());
    assert_eq!(drive(script, |io| service.initialize_repo_with_main_branch(&raw("/r"), io)), Ok(()));
    let mut script = vec![
        (Request::PathExists(raw("/r")), Reply::Flag(false)),
        (Request::CreateDirs(raw("/r")), Reply::Io(Ok(()))),
    ];
    script.extend(rest());
    assert_eq!(drive(script, |io| service.initialize_repo_with_main_branch(&raw("/r"), io)), Ok(()));
    let script = vec![
        (Request::PathExists(raw("/r")), Reply::Flag(false)),
        (Request::CreateDirs(raw("/r")), Reply::Io(Err("denied".to_string()))),
    ];
    assert_eq!(
        drive(script, |io| service.initialize_repo_with_main_branch(&raw("/r"), io)),
        Err(GitServiceError::IoError("denied".to_string()))
    );
}

#[test]
fn a_repository_without_branches_gets_an_initial_commit() {
    let service = GitService::new(vec![]);
    let counts = |reply| vec![opens("/r"), (Request::CountBranches(raw("/r")), Reply::Count(reply))];
    let run = |script| drive(script, |io| service.ensure_main_branch_exists(&raw("/r"), io));
    assert_eq!(run(counts(Ok(2))), Ok(()));
    let mut script = counts(Ok(0));
    script.push((Request::Signature(raw("/r")), Reply::Unit(Ok(()))));
    script.extend(initial_commit(Identity::Configured));
    assert_eq!(run(script), Ok(()));
    assert_eq!(
        run(counts(Err(git_error("bad")))),
        Err(GitServiceError::InvalidRepository("Failed to list branches: bad; class=x (4)".to_string()))
    );
}

const CHANGES: [&str; 3] = ["--no-optional-locks", "status", "--porcelain"];

#[test]
fn a_commit_of_nothing() {
    let service = GitService::new(vec![]);
    assert_eq!(
        drive(git("/r", &CHANGES, ""), |io| service.commit(&raw("/r"), "msg", io)),
        Ok(false)
    );
    assert_eq!(
        drive(git_fails("/r", &CHANGES, "x"), |io| service.commit(&raw("/r"), "msg", io)),
        Err(GitServiceError::InvalidRepository(
            "git status failed: git command failed: --- stdout\nx".to_string()
        ))
    );
}

#[test]
fn a_commit_stages_everything_first() {
    let service = GitService::new(vec![]);
    let start = || git("/r", &CHANGES, " M x\n");
    let mut script = start();
    script.extend(git("/r", &["add", "-A"], ""));
    script.extend(identity(false, true));
    script.extend(sets_identity(true, false));
    script.extend(git("/r", &["commit", "--no-verify", "-m", "msg"], ""));
    assert_eq!(drive(script, |io| service.commit(&raw("/r"), "msg", io)), Ok(true));
    let mut script = start();
    script.extend(git_fails("/r", &["add", "-A"], "x"));
    assert_eq!(
        drive(script, |io| service.commit(&raw("/r"), "msg", io)),
        Err(GitServiceError::InvalidRepository(
            "git add failed: git command failed: --- stdout\nx".to_string()
        ))
    );
    let mut script = start();
    script.extend(git("/r", &["add", "-A"], ""));
    script.extend(identity(true, true));
    script.extend(git_fails("/r", &["commit", "--no-verify", "-m", "msg"], "x"));
    assert_eq!(
        drive(script, |io| service.commit(&raw("/r"), "msg", io)),
        Err(GitServiceError::InvalidRepository(
            "git commit failed: git command failed: --- stdout\nx".to_string()
        ))
    );
}

#[test]
fn a_clone_of_the_service_leaves_out_the_same_directories() {
    let service = GitService::new(vec!["a".to_string(), "b".to_string()]);
    assert_eq!(service.clone().cli().skip_dirs(), service.cli().skip_dirs());
    assert_eq!(GitService::new(vec![]).cli().clone().skip_dirs().len(), 0);
}

#[test]
fn a_second_commit_finds_nothing_to_commit() {
    let service = GitService::new(vec![]);
    let mut script = git("/r", &CHANGES, "?? x\n");
    script.extend(git("/r", &["add", "-A"], ""));
    script.extend(identity(true, true));
    script.extend(git("/r", &["commit", "--no-verify", "-m", "one"], ""));
    assert_eq!(drive(script, |io| service.commit(&raw("/r"), "one", io)), Ok(true));
    assert_eq!(
        drive(git("/r", &CHANGES, ""), |io| service.commit(&raw("/r"), "two", io)),
        Ok(false)
    );
}
