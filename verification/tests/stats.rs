use git_service::dialogue::{Dialogue, Interrupt, Reply, Request, WalkOrder};
use git_service::errors::{GitError, GitServiceError};
use git_service::oid::Oid;
use git_service::raw::RawText;
use git_service::records::{ChangedPaths, CommitInfo};
use git_service::service::GitService;
use git_service::stats::{stats_of_commits, CommitRecord, FileStat, FileStats};
use git_service::time::Timestamp;

fn raw(s: &str) -> RawText {
    RawText { bytes: s.as_bytes().to_vec() }
}

fn drive<T, E, Op>(script: Vec<(Request, Reply)>, op: Op) -> Result<T, E>
where
    Op: for<'a> Fn(&mut Dialogue<'a>) -> Result<T, Interrupt<E>>,
{
    let mut replies: Vec<Reply> = Vec::new();
    let mut steps = script.into_iter();
    loop {
        let step = op(&mut Dialogue::new(&replies));
        let ended = match step {
            Ok(value) => Ok(value),
            Err(Interrupt::Failed(e)) => Err(e),
            Err(Interrupt::OutOfStep) => panic!("a reply of the wrong kind"),
            Err(Interrupt::Ask(request)) => {
                let (expected, reply) = steps.next().expect("a request too many");
                assert_eq!(request, expected);
                replies.push(reply);
                continue;
            }
        };
        assert!(steps.next().is_none(), "a request too few");
        return ended;
    }
}

fn git_error(message: &str) -> GitError {
    GitError { code: -3, class: 4, message: message.to_string(), shown: format!("{}; class=x (4)", message) }
}

fn opens(path: &str) -> (Request, Reply) {
    (Request::OpenRepo(raw(path)), Reply::Unit(Ok(())))
}

const NOW: Timestamp = Timestamp { seconds: 999, nanos: 1 };

fn change(new_path: Option<&str>, old_path: Option<&str>) -> ChangedPaths {
    ChangedPaths { new_path: new_path.map(raw), old_path: old_path.map(raw) }
}

fn at(seconds: i64) -> Timestamp {
    Timestamp { seconds, nanos: 0 }
}

fn oid(s: &str) -> Oid {
    Oid::parse(s).unwrap()
}

fn changes() -> Vec<Vec<ChangedPaths>> {
    vec![
        vec![change(Some("a"), Some("x")), change(None, Some("gone"))],
        vec![change(Some("b"), None), change(None, None)],
        vec![change(Some("a"), None), change(Some("b"), None), change(Some("b"), None)],
    ]
}

fn commits(changes: &Vec<Vec<ChangedPaths>>) -> Vec<CommitRecord> {
    vec![
        CommitRecord { seconds: 30, now: NOW, changes: &changes[0] },
        CommitRecord { seconds: 20, now: NOW, changes: &changes[1] },
        CommitRecord { seconds: 10, now: NOW, changes: &changes[2] },
    ]
}

#[test]
fn changes_are_counted_and_the_latest_commit_is_kept() {
    let changes = changes();
    let stats = stats_of_commits(&commits(&changes));
    assert_eq!(stats.get("a"), Some(FileStat { last_index: 0, commit_count: 2, last_time: at(30) }));
    assert_eq!(stats.get("b"), Some(FileStat { last_index: 1, commit_count: 3, last_time: at(20) }));
    assert_eq!(stats.get("gone"), Some(FileStat { last_index: 0, commit_count: 1, last_time: at(30) }));
    assert_eq!(stats.get("x"), None);
    assert_eq!(stats.entries().len(), 3);
    assert_eq!(stats_of_commits(&Vec::new()).entries().len(), 0);
}

#[test]
fn an_earlier_position_replaces_a_later_one() {
    let stats = FileStats::new()
        .touch("f".to_string(), 5, at(5))
        .touch("f".to_string(), 2, at(8))
        .touch("f".to_string(), 3, at(7));
    assert_eq!(stats.get("f"), Some(FileStat { last_index: 2, commit_count: 3, last_time: at(8) }));
}

#[test]
fn times_out_of_range_are_now() {
    let changes = vec![change(Some("a"), None)];
    let stats = stats_of_commits(&vec![CommitRecord { seconds: i64::MAX, now: NOW, changes: &changes }]);
    assert_eq!(stats.get("a").map(|s| s.last_time), Some(NOW));
}

fn walks(limit: usize, ids: Vec<Result<Oid, GitError>>) -> (Request, Reply) {
    (Request::Walk(raw("/r"), WalkOrder::ByTime, limit), Reply::Ids(Ok(ids)))
}

fn finds(id: &str, seconds: i64, parents: usize) -> (Request, Reply) {
    (
        Request::FindCommit(raw("/r"), oid(id)),
        Reply::Commit(Ok(CommitInfo { summary: None, seconds, parents, now: NOW })),
    )
}

fn tree_of(id: &str, tree: &str) -> (Request, Reply) {
    (Request::TreeOf(raw("/r"), oid(id)), Reply::Id(Ok(oid(tree))))
}

fn parent_of(id: &str, parent: &str) -> (Request, Reply) {
    (Request::ParentOf(raw("/r"), oid(id)), Reply::Id(Ok(oid(parent))))
}

fn changed(old: Option<&str>, new: &str, changes: Vec<ChangedPaths>) -> (Request, Reply) {
    (Request::ChangedFiles(raw("/r"), old.map(oid), oid(new)), Reply::Paths(Ok(changes)))
}

fn collect(limit: usize, script: Vec<(Request, Reply)>) -> Result<FileStats, GitServiceError> {
    let service = GitService::new(vec![]);
    drive(script, |io| service.collect_recent_file_stats(&raw("/r"), limit, io))
}

#[test]
fn a_commit_is_compared_with_its_first_parent_and_the_first_commit_with_nothing() {
    let stats = collect(
        5,
        vec![
            opens("/r"),
            walks(5, vec![Ok(oid("c2")), Ok(oid("c1"))]),
            finds("c2", 30, 2),
            tree_of("c2", "a2"),
            parent_of("c2", "c1"),
            tree_of("c1", "a1"),
            changed(Some("a1"), "a2", vec![change(Some("a"), None)]),
            finds("c1", 20, 0),
            tree_of("c1", "a1"),
            changed(None, "a1", vec![change(Some("a"), None), change(Some("b"), None)]),
        ],
    )
    .unwrap();
    assert_eq!(stats.get("a"), Some(FileStat { last_index: 0, commit_count: 2, last_time: at(30) }));
    assert_eq!(stats.get("b"), Some(FileStat { last_index: 1, commit_count: 1, last_time: at(20) }));
}

#[test]
fn only_so_many_commits_count() {
    let stats = collect(
        1,
        vec![
            opens("/r"),
            walks(1, vec![Ok(oid("c1")), Ok(oid("c2"))]),
            finds("c1", 20, 0),
            tree_of("c1", "a1"),
            changed(None, "a1", vec![change(Some("a"), None)]),
        ],
    )
    .unwrap();
    assert_eq!(stats.entries().len(), 1);
    let stats = collect(0, vec![opens("/r"), walks(0, vec![])]).unwrap();
    assert_eq!(stats.entries().len(), 0);
}

#[test]
fn a_failure_of_the_walk_or_of_a_commit_is_passed_on() {
    let failure = GitServiceError::Git(git_error("broken"));
    let fails = |q: Request| (q, Reply::Id(Err(git_error("broken"))));
    let ids = || walks(5, vec![Ok(oid("c1"))]);
    assert_eq!(
        collect(5, vec![opens("/r"), (Request::Walk(raw("/r"), WalkOrder::ByTime, 5), Reply::Ids(Err(git_error("broken"))))])
            .unwrap_err(),
        failure
    );
    assert_eq!(collect(5, vec![opens("/r"), walks(5, vec![Err(git_error("broken"))])]).unwrap_err(), failure);
    assert_eq!(
        collect(
            5,
            vec![
                opens("/r"),
                ids(),
                (Request::FindCommit(raw("/r"), oid("c1")), Reply::Commit(Err(git_error("broken")))),
            ],
        )
        .unwrap_err(),
        failure
    );
    assert_eq!(
        collect(5, vec![opens("/r"), ids(), finds("c1", 1, 1), fails(Request::TreeOf(raw("/r"), oid("c1")))])
            .unwrap_err(),
        failure
    );
    assert_eq!(
        collect(
            5,
            vec![
                opens("/r"),
                ids(),
                finds("c1", 1, 1),
                tree_of("c1", "a1"),
                fails(Request::ParentOf(raw("/r"), oid("c1"))),
            ],
        )
        .unwrap_err(),
        failure
    );
    assert_eq!(
        collect(
            5,
            vec![
                opens("/r"),
                ids(),
                finds("c1", 1, 0),
                tree_of("c1", "a1"),
                (
                    Request::ChangedFiles(raw("/r"), None, oid("a1")),
                    Reply::Paths(Err(git_error("broken"))),
                ),
            ],
        )
        .unwrap_err(),
        failure
    );
}

#[test]
fn a_larger_limit_keeps_what_a_smaller_one_says() {
    let first = || {
        vec![
            finds("c2", 30, 1),
            tree_of("c2", "a2"),
            parent_of("c2", "c1"),
            tree_of("c1", "a1"),
            changed(Some("a1"), "a2", vec![change(Some("a"), None)]),
        ]
    };
    let mut script = vec![opens("/r"), walks(1, vec![Ok(oid("c2"))])];
    script.extend(first());
    let small = collect(1, script).unwrap();
    let mut script = vec![opens("/r"), walks(2, vec![Ok(oid("c2")), Ok(oid("c1"))])];
    script.extend(first());
    script.extend(vec![
        finds("c1", 20, 0),
        tree_of("c1", "a1"),
        changed(None, "a1", vec![change(Some("a"), None), change(Some("b"), None)]),
    ]);
    let large = collect(2, script).unwrap();
    assert_eq!(small.get("a"), Some(FileStat { last_index: 0, commit_count: 1, last_time: at(30) }));
    assert_eq!(large.get("a"), Some(FileStat { last_index: 0, commit_count: 2, last_time: at(30) }));
    assert_eq!(small.get("b"), None);
    assert_eq!(large.get("b").map(|s| s.last_index), Some(1));
}
