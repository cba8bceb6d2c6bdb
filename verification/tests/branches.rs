use git_service::branches::is_valid_by;
use git_service::dialogue::{Dialogue, Interrupt, Reply, Request};
use git_service::errors::{GitError, GitServiceError};
use git_service::oid::Oid;
use git_service::raw::RawText;
use git_service::records::{BranchInfo, BranchType};
use git_service::service::GitService;

fn raw(s: &str) -> RawText {
    RawText { bytes: s.as_bytes().to_vec() }
}

fn drive<T, E, Op>(script: Vec<(Request, Reply)>, op: Op) -> Result<T, E>
where
    Op: for<'a> Fn(&mut Dialogue<'a>) -> Result<T, Interrupt<E>>,
{
    let mut replies: Vec<Reply> = Vec::new();
    let mut steps = script.into_iter();
    loop {
        let step = op(&mut Dialogue::new(&replies));
        let ended = match step {
            Ok(value) => Ok(value),
            Err(Interrupt::Failed(e)) => Err(e),
            Err(Interrupt::OutOfStep) => panic!("a reply of the wrong kind"),
            Err(Interrupt::Ask(request)) => {
                let (expected, reply) = steps.next().expect("a request too many");
                assert_eq!(request, expected);
                replies.push(reply);
                continue;
            }
        };
        assert!(steps.next().is_none(), "a request too few");
        return ended;
    }
}

fn git_error(message: &str) -> GitError {
    GitError { code: -3, class: 4, message: message.to_string(), shown: format!("{}; class=x (4)", message) }
}

fn opens(path: &str) -> (Request, Reply) {
    (Request::OpenRepo(raw(path)), Reply::Unit(Ok(())))
}

fn info(target: Option<&str>) -> BranchInfo {
    BranchInfo {
        refname: Some("refs/heads/x".to_string()),
        target: target.map(|t| Oid::parse(t).unwrap()),
        is_remote: false,
    }
}

fn finds(path: &str, name: &str, kind: BranchType, found: Result<BranchInfo, GitError>) -> (Request, Reply) {
    (Request::FindBranch(raw(path), name.to_string(), kind), Reply::Branch(found))
}

fn peels(path: &str, name: &str, kind: BranchType, id: &str) -> (Request, Reply) {
    (
        Request::PeelBranch(raw(path), name.to_string(), kind),
        Reply::Id(Ok(Oid::parse(id).unwrap())),
    )
}

#[test]
fn names_are_valid_as_libgit2_says() {
    let service = GitService::new(vec![]);
    for name in [
        "main", "feature/x", "", "with space", "-dash", "HEAD", "a..b", "x.lock", "a\0b", "ends/", "~", "é", "@{",
        "a@{b", "/x", "x//y", ".x", "x.",
    ] {
        assert_eq!(
            service.is_branch_name_valid(name),
            git2::Branch::name_is_valid(name).unwrap_or(false),
            "{:?}",
            name
        );
    }
    assert!(service.is_branch_name_valid("main"));
    assert!(!service.is_branch_name_valid("-dash"));
    assert!(!service.is_branch_name_valid("HEAD"));
    assert!(!service.is_branch_name_valid("a\0b"));
}

#[test]
fn a_name_is_valid_only_by_a_yes() {
    assert!(is_valid_by(Some(true)));
    assert!(!is_valid_by(Some(false)));
    assert!(!is_valid_by(None));
}

#[test]
fn a_local_branch_is_found_first() {
    let script = vec![opens("/r"), finds("/r", "b", BranchType::Local, Ok(info(None)))];
    assert_eq!(
        drive(script, |io| GitService::new(vec![]).find_branch_type(&raw("/r"), "b", io)),
        Ok(BranchType::Local)
    );
    let script = vec![
        opens("/r"),
        finds("/r", "b", BranchType::Local, Err(git_error("no"))),
        finds("/r", "b", BranchType::Remote, Ok(info(None))),
    ];
    assert_eq!(
        drive(script, |io| GitService::new(vec![]).find_branch_type(&raw("/r"), "b", io)),
        Ok(BranchType::Remote)
    );
}

#[test]
fn a_branch_that_is_not_there() {
    let script = || {
        vec![
            opens("/r"),
            finds("/r", "b", BranchType::Local, Err(git_error("no"))),
            finds("/r", "b", BranchType::Remote, Err(git_error("no"))),
        ]
    };
    let service = GitService::new(vec![]);
    assert_eq!(
        drive(script(), |io| service.find_branch_type(&raw("/r"), "b", io)),
        Err(GitServiceError::BranchNotFound("b".to_string()))
    );
    assert_eq!(drive(script(), |io| service.check_branch_exists(&raw("/r"), "b", io)), Ok(false));
    let script = vec![opens("/r"), finds("/r", "b", BranchType::Local, Ok(info(None)))];
    assert_eq!(drive(script, |io| service.check_branch_exists(&raw("/r"), "b", io)), Ok(true));
}

#[test]
fn a_repository_that_cannot_be_opened() {
    let script = vec![(Request::OpenRepo(raw("/r")), Reply::Unit(Err(git_error("gone"))))];
    assert_eq!(
        drive(script, |io| GitService::new(vec![]).check_branch_exists(&raw("/r"), "b", io)),
        Err(GitServiceError::Git(git_error("gone")))
    );
}

#[test]
fn how_far_a_branch_is_ahead_and_behind() {
    let service = GitService::new(vec![]);
    let script = vec![
        opens("/r"),
        finds("/r", "task", BranchType::Local, Ok(info(Some("aa")))),
        finds("/r", "main", BranchType::Local, Ok(info(Some("bb")))),
        (
            Request::AheadBehind(raw("/r"), Oid::parse("aa").unwrap(), Oid::parse("bb").unwrap()),
            Reply::Counts(Ok((2, 3))),
        ),
    ];
    assert_eq!(drive(script, |io| service.get_branch_status(&raw("/r"), "task", "main", io)), Ok((2, 3)));
    let script = vec![
        opens("/r"),
        finds("/r", "task", BranchType::Local, Ok(info(Some("aa")))),
        finds("/r", "main", BranchType::Local, Ok(info(None))),
    ];
    assert_eq!(
        drive(script, |io| service.get_branch_status(&raw("/r"), "task", "main", io)),
        Err(GitServiceError::BranchNotFound("Branch not found".to_string()))
    );
}

#[test]
fn the_base_commit_is_the_merge_base() {
    let script = vec![
        opens("/r"),
        finds("/r", "task", BranchType::Local, Ok(info(None))),
        finds("/r", "main", BranchType::Local, Err(git_error("no"))),
        finds("/r", "main", BranchType::Remote, Ok(info(None))),
        peels("/r", "task", BranchType::Local, "aa"),
        peels("/r", "main", BranchType::Remote, "bb"),
        (
            Request::MergeBase(raw("/r"), Oid::parse("aa").unwrap(), Oid::parse("bb").unwrap()),
            Reply::Id(Ok(Oid::parse("cc").unwrap())),
        ),
    ];
    let commit = drive(script, |io| GitService::new(vec![]).get_base_commit(&raw("/r"), "task", "main", io));
    assert_eq!(commit.unwrap().as_oid(), Oid::parse("cc").unwrap());
}

#[test]
fn the_id_of_a_branch() {
    let script = vec![
        opens("/r"),
        finds("/r", "b", BranchType::Local, Ok(info(None))),
        peels("/r", "b", BranchType::Local, "aa"),
    ];
    assert_eq!(
        drive(script, |io| GitService::new(vec![]).get_branch_oid(&raw("/r"), "b", io)),
        Ok("aa00000000000000000000000000000000000000".to_string())
    );
}

#[test]
fn a_branch_gets_another_name() {
    let service = GitService::new(vec![]);
    let script = vec![
        opens("/w"),
        finds("/w", "old", BranchType::Local, Ok(info(None))),
        (
            Request::RenameBranch(raw("/w"), "old".to_string(), "new".to_string(), false),
            Reply::Unit(Ok(())),
        ),
        (Request::SetHead(raw("/w"), "refs/heads/new".to_string()), Reply::Unit(Ok(()))),
    ];
    assert_eq!(drive(script, |io| service.rename_local_branch(&raw("/w"), "old", "new", io)), Ok(()));
    let script = vec![opens("/w"), finds("/w", "old", BranchType::Local, Err(git_error("no")))];
    assert_eq!(
        drive(script, |io| service.rename_local_branch(&raw("/w"), "old", "new", io)),
        Err(GitServiceError::BranchNotFound("old".to_string()))
    );
    let script = vec![
        opens("/w"),
        finds("/w", "old", BranchType::Local, Ok(info(None))),
        (
            Request::RenameBranch(raw("/w"), "old".to_string(), "new".to_string(), false),
            Reply::Unit(Err(git_error("exists"))),
        ),
    ];
    assert_eq!(
        drive(script, |io| service.rename_local_branch(&raw("/w"), "old", "new", io)),
        Err(GitServiceError::Git(git_error("exists")))
    );
}

#[test]
fn failures_of_the_service_say_what_they_are() {
    let text = |e: GitServiceError| e.to_text();
    assert_eq!(text(GitServiceError::Git(git_error("m"))), "m; class=x (4)");
    assert_eq!(
        text(GitServiceError::GitCLI(git_service::errors::GitCliError::NotAvailable)),
        "git executable not found or not runnable"
    );
    assert_eq!(text(GitServiceError::IoError("denied".to_string())), "denied");
    assert_eq!(text(GitServiceError::InvalidRepository("x".to_string())), "Invalid repository: x");
    assert_eq!(text(GitServiceError::BranchNotFound("x".to_string())), "Branch not found: x");
    assert_eq!(text(GitServiceError::MergeConflicts("x".to_string())), "Merge conflicts: x");
    assert_eq!(text(GitServiceError::BranchesDiverged("x".to_string())), "Branches diverged: x");
    assert_eq!(
        text(GitServiceError::WorktreeDirty("b".to_string(), "f".to_string())),
        "b has uncommitted changes: f"
    );
    assert_eq!(
        text(GitServiceError::RebaseInProgress),
        "Rebase in progress; resolve or abort it before retrying"
    );
}
