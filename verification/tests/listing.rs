use git_service::dialogue::{Dialogue, Interrupt, Reply, Request};
use git_service::errors::GitError;
use git_service::listing::{list_branches, sort_branches, GitBranch};
use git_service::oid::Oid;
use git_service::raw::RawText;
use git_service::records::{BranchRecord, BranchType, HeadRef};
use git_service::service::GitService;
use git_service::time::Timestamp;

fn raw(s: &str) -> RawText {
    RawText { bytes: s.as_bytes().to_vec() }
}

fn drive<T, E, Op>(script: Vec<(Request, Reply)>, op: Op) -> Result<T, E>
where
    Op: for<'a> Fn(&mut Dialogue<'a>) -> Result<T, Interrupt<E>>,
{
    let mut replies: Vec<Reply> = Vec::new();
    let mut steps = script.into_iter();
    loop {
        let step = op(&mut Dialogue::new(&replies));
        let ended = match step {
            Ok(value) => Ok(value),
            Err(Interrupt::Failed(e)) => Err(e),
            Err(Interrupt::OutOfStep) => panic!("a reply of the wrong kind"),
            Err(Interrupt::Ask(request)) => {
                let (expected, reply) = steps.next().expect("a request too many");
                assert_eq!(request, expected);
                replies.push(reply);
                continue;
            }
        };
        assert!(steps.next().is_none(), "a request too few");
        return ended;
    }
}

fn git_error(message: &str) -> GitError {
    GitError { code: -3, class: 4, message: message.to_string(), shown: format!("{}; class=x (4)", message) }
}

fn opens(path: &str) -> (Request, Reply) {
    (Request::OpenRepo(raw(path)), Reply::Unit(Ok(())))
}

const NOW: Timestamp = Timestamp { seconds: 5000, nanos: 7 };

fn record(name: &str, seconds: Option<i64>) -> Result<BranchRecord, GitError> {
    Ok(BranchRecord { name: Ok(Some(name.to_string())), commit_seconds: seconds, now: NOW })
}

fn branch(name: &str, is_current: bool, seconds: i64) -> GitBranch {
    GitBranch {
        name: name.to_string(),
        is_current,
        is_remote: false,
        last_commit_date: Timestamp { seconds, nanos: 0 },
    }
}

fn names(list: &[GitBranch]) -> Vec<String> {
    list.iter().map(|b| b.name.clone()).collect()
}

#[test]
fn branches_are_sorted_and_ties_stay() {
    let list = vec![
        branch("a", false, 10),
        branch("b", false, 30),
        branch("c", false, 10),
        branch("d", true, 1),
        branch("e", false, 30),
        branch("f", false, 20),
    ];
    let sorted = sort_branches(&list);
    assert_eq!(names(&sorted), vec!["d", "b", "e", "f", "a", "c"]);
    let mut expected = vec![];
    for b in &list {
        expected.push(b.copy());
    }
    expected.sort_by(|a, b| {
        b.is_current
            .cmp(&a.is_current)
            .then_with(|| b.last_commit_date.seconds.cmp(&a.last_commit_date.seconds))
    });
    assert_eq!(sorted, expected);
}

#[test]
fn remote_heads_and_names_that_are_not_text_are_not_listed() {
    let records = vec![
        record("origin/HEAD", Some(1)),
        record("origin/main", Some(2)),
        Ok(BranchRecord { name: Ok(None), commit_seconds: None, now: NOW }),
    ];
    let remote = list_branches(&records, true, "origin/main").unwrap();
    assert_eq!(names(&remote), vec!["origin/main"]);
    assert!(remote[0].is_remote);
    assert!(!remote[0].is_current);
    let local = list_branches(&records, false, "origin/main").unwrap();
    assert_eq!(names(&local), vec!["origin/HEAD", "origin/main"]);
    assert!(local[1].is_current);
    assert!(!local[0].is_current);
}

#[test]
fn the_first_failure_is_told() {
    let records = vec![
        record("a", None),
        Err(git_error("first")),
        Ok(BranchRecord { name: Err(git_error("second")), commit_seconds: None, now: NOW }),
    ];
    assert_eq!(list_branches(&records, false, "a"), Err(git_error("first")));
    let records = vec![Ok(BranchRecord { name: Err(git_error("name")), commit_seconds: None, now: NOW })];
    assert_eq!(list_branches(&records, false, "a"), Err(git_error("name")));
}

#[test]
fn dates_that_are_not_known_are_now() {
    let records = vec![record("a", None), record("b", Some(i64::MAX)), record("c", Some(9))];
    let list = list_branches(&records, false, "").unwrap();
    assert_eq!(list[0].last_commit_date, NOW);
    assert_eq!(list[1].last_commit_date, NOW);
    assert_eq!(list[2].last_commit_date, Timestamp { seconds: 9, nanos: 0 });
}

#[test]
fn all_branches_of_a_repository() {
    let script = vec![
        opens("/r"),
        opens("/r"),
        (
            Request::Head(raw("/r")),
            Reply::Head(Ok(HeadRef {
                shorthand: Some("main".to_string()),
                target: Some(Oid::parse("aa").unwrap()),
            })),
        ),
        (
            Request::ListBranches(raw("/r"), BranchType::Local),
            Reply::Branches(Ok(vec![record("old", Some(1)), record("main", Some(2))])),
        ),
        (
            Request::ListBranches(raw("/r"), BranchType::Remote),
            Reply::Branches(Ok(vec![record("origin/HEAD", Some(9)), record("origin/x", Some(8))])),
        ),
    ];
    let list = drive(script, |io| GitService::new(vec![]).get_all_branches(&raw("/r"), io)).unwrap();
    assert_eq!(names(&list), vec!["main", "origin/x", "old"]);
    assert!(list[0].is_current);
}

#[test]
fn without_a_head_no_branch_is_current() {
    let script = vec![
        opens("/r"),
        opens("/r"),
        (Request::Head(raw("/r")), Reply::Head(Err(git_error("unborn")))),
        (
            Request::ListBranches(raw("/r"), BranchType::Local),
            Reply::Branches(Ok(vec![record("main", Some(2))])),
        ),
        (Request::ListBranches(raw("/r"), BranchType::Remote), Reply::Branches(Ok(vec![]))),
    ];
    let list = drive(script, |io| GitService::new(vec![]).get_all_branches(&raw("/r"), io)).unwrap();
    assert_eq!(list.len(), 1);
    assert!(!list[0].is_current);
    let script = vec![(Request::OpenRepo(raw("/r")), Reply::Unit(Err(git_error("gone"))))];
    assert_eq!(
        drive(script, |io| GitService::new(vec![]).get_all_branches(&raw("/r"), io)),
        Err(git_error("gone"))
    );
}
