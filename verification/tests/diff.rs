use git_service::comparing::DiffTarget;
use git_service::dialogue::{Command, Dialogue, Interrupt, Reply, Request, TreeDiff};
use git_service::diff::{text_of_file, Diff, DiffChangeKind, MAX_INLINE_DIFF_BYTES};
use git_service::errors::{GitError, GitServiceError};
use git_service::oid::{Commit, Oid};
use git_service::porcelain::{ChangeType, StatusDiffEntry};
use git_service::raw::RawText;
use git_service::records::{
    BlobRecord, BranchInfo, BranchType, CommitInfo, DeltaFile, DeltaKind, DeltaRecord, DiffRecord,
    LineCounts, RunEnd, RunReport, TreeEntry, VersionReport,
};
use git_service::service::GitService;
use git_service::time::Timestamp;

fn raw(s: &str) -> RawText {
    RawText { bytes: s.as_bytes().to_vec() }
}

fn drive<T, E, Op>(script: Vec<(Request, Reply)>, op: Op) -> Result<T, E>
where
    Op: for<'a> Fn(&mut Dialogue<'a>) -> Result<T, Interrupt<E>>,
{
    let mut replies: Vec<Reply> = Vec::new();
    let mut steps = script.into_iter();
    loop {
        let step = op(&mut Dialogue::new(&replies));
        let ended = match step {
            Ok(value) => Ok(value),
            Err(Interrupt::Failed(e)) => Err(e),
            Err(Interrupt::OutOfStep) => panic!("a reply of the wrong kind"),
            Err(Interrupt::Ask(request)) => {
                let (expected, reply) = steps.next().expect("a request too many");
                assert_eq!(request, expected);
                replies.push(reply);
                continue;
            }
        };
        assert!(steps.next().is_none(), "a request too few");
        return ended;
    }
}

fn command(dir: &str, args: &[&str], envs: &[(&str, &str)], stdin: Option<&[u8]>) -> Request {
    Request::Run(Command {
        dir: raw(dir),
        args: args.iter().map(|a| raw(a)).collect(),
        envs: envs.iter().map(|(k, v)| (raw(k), raw(v))).collect(),
        stdin: stdin.map(|b| RawText { bytes: b.to_vec() }),
    })
}

fn ended(code: i32, stdout: &[u8], stderr: &str) -> Reply {
    Reply::Ran(RunReport::Ended(RunEnd {
        code: Some(code),
        stdout: RawText { bytes: stdout.to_vec() },
        stderr: raw(stderr),
        stdin_error: None,
    }))
}

fn git_error(message: &str) -> GitError {
    GitError { code: -3, class: 4, message: message.to_string(), shown: format!("{}; class=x (4)", message) }
}

fn commit_info(summary: Option<&str>) -> CommitInfo {
    CommitInfo {
        summary: summary.map(|s| s.to_string()),
        seconds: 0,
        parents: 1,
        now: Timestamp { seconds: 7, nanos: 0 },
    }
}

fn opens(path: &str) -> (Request, Reply) {
    (Request::OpenRepo(raw(path)), Reply::Unit(Ok(())))
}

fn oid(s: &str) -> Oid {
    Oid::parse(s).unwrap()
}

fn zero() -> Oid {
    Oid { bytes: [0; 20] }
}

fn blob(text: &str) -> Option<BlobRecord> {
    Some(BlobRecord { is_binary: false, size: text.len(), content: raw(text) })
}

fn finds_blob(id: &str, found: Option<BlobRecord>) -> (Request, Reply) {
    (Request::FindBlob(raw("/r"), oid(id)), Reply::Blob(found))
}

fn workdir(dir: Option<&str>) -> (Request, Reply) {
    (Request::Workdir(raw("/r")), Reply::Found(dir.map(raw)))
}

fn reads(path: &str, text: Option<&str>) -> (Request, Reply) {
    (Request::ReadFile(raw("/wd"), raw(path)), Reply::Found(text.map(raw)))
}

fn file(id: Oid, path: Option<&str>, mode: u32) -> DeltaFile {
    DeltaFile { id, path: path.map(raw), mode }
}

fn delta(status: DeltaKind, old_file: DeltaFile, new_file: DeltaFile) -> DeltaRecord {
    DeltaRecord { status, old_file, new_file }
}

fn text(s: &str) -> Option<String> {
    Some(s.to_string())
}

fn counts(additions: usize, deletions: usize) -> Option<LineCounts> {
    Some(LineCounts { additions, deletions })
}

fn convert(deltas: Vec<DeltaRecord>, stats: Vec<Option<LineCounts>>, script: Vec<(Request, Reply)>) -> Vec<Diff> {
    let diff = DiffRecord { deltas, line_stats: stats };
    drive(script, |io| GitService::new(vec![]).convert_diff_to_file_diffs(&diff, &raw("/r"), io)).unwrap()
}

#[test]
fn the_text_of_a_file_is_guarded() {
    assert_eq!(text_of_file(&raw("abc")), text("abc"));
    assert_eq!(text_of_file(&raw("a\0c")), None);
    assert_eq!(text_of_file(&RawText { bytes: vec![0xff] }), None);
    let limit = MAX_INLINE_DIFF_BYTES;
    assert_eq!(limit, 2 * 1024 * 1024);
    assert!(text_of_file(&RawText { bytes: vec![b'x'; limit] }).is_some());
    assert_eq!(text_of_file(&RawText { bytes: vec![b'x'; limit + 1] }), None);
}

#[test]
fn the_text_of_a_blob() {
    assert_eq!(GitService::blob_to_string(&blob("x").unwrap()), text("x"));
    let binary = BlobRecord { is_binary: true, size: 1, content: raw("x") };
    assert_eq!(GitService::blob_to_string(&binary), None);
    let odd = BlobRecord { is_binary: false, size: 1, content: RawText { bytes: vec![0x80] } };
    assert_eq!(GitService::blob_to_string(&odd), None);
}

#[test]
fn an_added_a_deleted_and_a_modified_file() {
    let diffs = convert(
        vec![
            delta(DeltaKind::Added, file(zero(), Some("a"), 0), file(oid("a1"), Some("a"), 1)),
            delta(DeltaKind::Deleted, file(oid("d1"), Some("d"), 1), file(zero(), Some("d"), 0)),
            delta(DeltaKind::Modified, file(oid("e1"), Some("m"), 1), file(oid("e2"), Some("m"), 1)),
        ],
        vec![counts(1, 0), counts(0, 1), counts(2, 3)],
        vec![
            finds_blob("a1", blob("new")),
            finds_blob("a1", blob("new")),
            finds_blob("d1", blob("old")),
            finds_blob("d1", blob("old")),
            finds_blob("e1", blob("before")),
            finds_blob("e2", blob("after")),
            finds_blob("e1", blob("before")),
            finds_blob("e2", blob("after")),
        ],
    );
    assert_eq!(
        diffs,
        vec![
            Diff {
                change: DiffChangeKind::Added,
                old_path: None,
                new_path: text("a"),
                old_content: None,
                new_content: text("new"),
                content_omitted: false,
                additions: Some(1),
                deletions: Some(0),
            },
            Diff {
                change: DiffChangeKind::Deleted,
                old_path: text("d"),
                new_path: None,
                old_content: text("old"),
                new_content: None,
                content_omitted: false,
                additions: Some(0),
                deletions: Some(1),
            },
            Diff {
                change: DiffChangeKind::Modified,
                old_path: text("m"),
                new_path: text("m"),
                old_content: text("before"),
                new_content: text("after"),
                content_omitted: false,
                additions: Some(2),
                deletions: Some(3),
            },
        ]
    );
    assert_eq!(GitService::diff_path(&diffs[0]), "a");
    assert_eq!(GitService::diff_path(&diffs[1]), "d");
}

fn modified(old: &str, new: &str, old_mode: u32, new_mode: u32) -> DiffChangeKind {
    convert(
        vec![delta(
            DeltaKind::Modified,
            file(oid("e1"), Some("m"), old_mode),
            file(oid("e2"), Some("m"), new_mode),
        )],
        vec![None],
        vec![
            finds_blob("e1", blob(old)),
            finds_blob("e2", blob(new)),
            finds_blob("e1", blob(old)),
            finds_blob("e2", blob(new)),
        ],
    )[0]
    .change
}

#[test]
fn only_equal_contents_with_another_mode_are_a_change_of_permissions() {
    assert_eq!(modified("x", "x", 1, 2), DiffChangeKind::PermissionChange);
    assert_eq!(modified("x", "x", 1, 1), DiffChangeKind::Modified);
    assert_eq!(modified("x", "y", 1, 2), DiffChangeKind::Modified);
}

#[test]
fn unknown_contents_are_no_change_of_permissions() {
    let diffs = convert(
        vec![delta(DeltaKind::Modified, file(oid("e1"), None, 1), file(oid("e2"), None, 2))],
        vec![],
        vec![finds_blob("e1", None), finds_blob("e2", None)],
    );
    assert_eq!(diffs[0].change, DiffChangeKind::Modified);
    assert_eq!((diffs[0].old_path.clone(), diffs[0].additions), (None, None));
    assert_eq!(GitService::diff_path(&diffs[0]), "");
}

#[test]
fn large_contents_are_omitted_on_both_sides() {
    let large = Some(BlobRecord { is_binary: false, size: MAX_INLINE_DIFF_BYTES + 1, content: raw("") });
    let diffs = convert(
        vec![delta(DeltaKind::Renamed, file(oid("e1"), Some("a"), 1), file(oid("e2"), Some("b"), 1))],
        vec![counts(7, 8)],
        vec![finds_blob("e1", blob("small")), finds_blob("e2", large)],
    );
    assert_eq!(
        diffs,
        vec![Diff {
            change: DiffChangeKind::Renamed,
            old_path: text("a"),
            new_path: text("b"),
            old_content: None,
            new_content: None,
            content_omitted: true,
            additions: Some(7),
            deletions: Some(8),
        }]
    );
    let binary = Some(BlobRecord { is_binary: true, size: MAX_INLINE_DIFF_BYTES + 1, content: raw("") });
    let diffs = convert(
        vec![delta(DeltaKind::Added, file(zero(), None, 0), file(oid("e2"), Some("b"), 1))],
        vec![None],
        vec![
            finds_blob("e2", binary),
            finds_blob("e2", Some(BlobRecord { is_binary: true, size: 1, content: raw("") })),
            workdir(None),
        ],
    );
    assert!(!diffs[0].content_omitted);
    assert_eq!(diffs[0].new_content, None);
}

#[test]
fn contents_fall_back_to_the_working_directory() {
    let diffs = convert(
        vec![
            delta(DeltaKind::Untracked, file(zero(), Some("u"), 0), file(zero(), Some("u"), 0)),
            delta(DeltaKind::Typechange, file(oid("e1"), Some("t"), 1), file(oid("e2"), Some("t"), 1)),
        ],
        vec![None, None],
        vec![
            workdir(Some("/wd")),
            reads("u", None),
            workdir(Some("/wd")),
            reads("u", Some("found")),
            finds_blob("e1", None),
            finds_blob("e2", None),
            finds_blob("e1", None),
            workdir(Some("/wd")),
            reads("t", Some("disk")),
            finds_blob("e2", blob("blob")),
        ],
    );
    assert_eq!(diffs[0].change, DiffChangeKind::Added);
    assert_eq!((diffs[0].old_content.clone(), diffs[0].new_content.clone()), (None, text("found")));
    assert_eq!(diffs[1].change, DiffChangeKind::Modified);
    assert_eq!((diffs[1].old_content.clone(), diffs[1].new_content.clone()), (text("disk"), text("blob")));
}

#[test]
fn unreadable_deltas_are_passed_over() {
    let diffs = convert(
        vec![
            delta(DeltaKind::Unreadable, file(oid("e1"), Some("x"), 1), file(oid("e2"), Some("x"), 1)),
            delta(DeltaKind::Copied, file(zero(), None, 0), file(zero(), None, 0)),
        ],
        vec![counts(1, 1), counts(2, 2)],
        vec![],
    );
    assert_eq!(diffs.len(), 1);
    assert_eq!(diffs[0].change, DiffChangeKind::Copied);
    assert_eq!(diffs[0].additions, Some(1));
}

fn reported(change: ChangeType, path: &str, old_path: Option<&str>) -> StatusDiffEntry {
    StatusDiffEntry { change, path: path.to_string(), old_path: old_path.map(|p| p.to_string()) }
}

fn entry(path: &str, id: Option<&str>) -> (Request, Reply) {
    (
        Request::FindEntry(raw("/r"), oid("7e"), raw(path)),
        Reply::Entry(id.map(|i| TreeEntry { is_blob: true, id: oid(i) })),
    )
}

fn size(path: &str, bytes: Option<u64>) -> (Request, Reply) {
    (Request::FileSize(raw("/wd"), raw(path)), Reply::Size(bytes))
}

fn status_diff(e: StatusDiffEntry, script: Vec<(Request, Reply)>) -> Diff {
    drive(script, |io| GitService::status_entry_to_diff(&raw("/r"), &oid("7e"), &e, io)).unwrap()
}

#[test]
fn a_modified_file_of_a_worktree() {
    let script = |old: &str, new: &str, changes: LineCounts| {
        vec![
            entry("m", Some("b1")),
            finds_blob("b1", blob(old)),
            workdir(Some("/wd")),
            size("m", Some(3)),
            entry("m", Some("b1")),
            finds_blob("b1", blob(old)),
            workdir(Some("/wd")),
            reads("m", Some(new)),
            (Request::CountLineChanges(old.to_string(), new.to_string()), Reply::LineCounts(changes)),
        ]
    };
    let d = status_diff(
        reported(ChangeType::Modified, "m", None),
        script("old", "new", LineCounts { additions: 4, deletions: 5 }),
    );
    assert_eq!(
        d,
        Diff {
            change: DiffChangeKind::Modified,
            old_path: text("m"),
            new_path: text("m"),
            old_content: text("old"),
            new_content: text("new"),
            content_omitted: false,
            additions: Some(4),
            deletions: Some(5),
        }
    );
    for change in [ChangeType::Modified, ChangeType::TypeChanged, ChangeType::Unmerged] {
        let d = status_diff(
            reported(change, "m", None),
            script("same", "same", LineCounts { additions: 0, deletions: 0 }),
        );
        assert_eq!(d.change, DiffChangeKind::PermissionChange);
    }
}

#[test]
fn an_added_and_a_deleted_file_of_a_worktree() {
    let d = status_diff(
        reported(ChangeType::Added, "a", None),
        vec![workdir(Some("/wd")), size("a", None), workdir(Some("/wd")), reads("a", Some("1\n2\n3"))],
    );
    assert_eq!((d.old_path.clone(), d.new_path.clone()), (None, text("a")));
    assert_eq!((d.additions, d.deletions), (Some(3), Some(0)));
    let d = status_diff(
        reported(ChangeType::Deleted, "d", None),
        vec![
            entry("d", Some("b1")),
            finds_blob("b1", blob("1\n2\n")),
            entry("d", Some("b1")),
            finds_blob("b1", blob("1\n2\n")),
        ],
    );
    assert_eq!((d.old_path.clone(), d.new_path.clone()), (text("d"), None));
    assert_eq!((d.additions, d.deletions), (Some(0), Some(2)));
}

#[test]
fn a_renamed_file_keeps_its_kind_and_an_unknown_one_has_no_old_path() {
    let script = || {
        vec![
            entry("old", None),
            workdir(None),
            entry("old", None),
            workdir(None),
        ]
    };
    let d = status_diff(reported(ChangeType::Renamed, "new", Some("old")), script());
    assert_eq!(d.change, DiffChangeKind::Renamed);
    assert_eq!((d.old_path.clone(), d.new_path.clone()), (text("old"), text("new")));
    assert_eq!((d.additions, d.deletions), (None, None));
    let d = status_diff(reported(ChangeType::Copied, "new", Some("old")), script());
    assert_eq!(d.change, DiffChangeKind::Copied);
    let d = status_diff(
        reported(ChangeType::Unknown("X".to_string()), "x", None),
        vec![workdir(None), workdir(None)],
    );
    assert_eq!((d.change, d.old_path.clone()), (DiffChangeKind::Modified, None));
}

#[test]
fn large_files_of_a_worktree_are_omitted() {
    let limit = MAX_INLINE_DIFF_BYTES as u64;
    let d = status_diff(
        reported(ChangeType::Modified, "m", None),
        vec![
            entry("m", Some("b1")),
            finds_blob("b1", blob("x")),
            workdir(Some("/wd")),
            size("m", Some(limit + 1)),
        ],
    );
    assert!(d.content_omitted);
    assert_eq!((d.old_content.clone(), d.new_content.clone(), d.additions), (None, None, None));
    let d = status_diff(
        reported(ChangeType::Added, "a", None),
        vec![workdir(Some("/wd")), size("a", Some(limit)), workdir(Some("/wd")), reads("a", Some("x"))],
    );
    assert!(!d.content_omitted);
}

fn branch_tree(name: &str, commit: &str, tree: &str) -> Vec<(Request, Reply)> {
    vec![
        (
            Request::FindBranch(raw("/r"), name.to_string(), BranchType::Local),
            Reply::Branch(Ok(BranchInfo { refname: None, target: None, is_remote: false })),
        ),
        (
            Request::PeelBranch(raw("/r"), name.to_string(), BranchType::Local),
            Reply::Id(Ok(oid(commit))),
        ),
        (Request::TreeOf(raw("/r"), oid(commit)), Reply::Id(Ok(oid(tree)))),
    ]
}

fn no_deltas(pathspecs: Vec<&str>, old: &str, new: &str) -> (Request, Reply) {
    (
        Request::DiffTrees(
            raw("/r"),
            TreeDiff {
                old_tree: oid(old),
                new_tree: oid(new),
                pathspecs: pathspecs.into_iter().map(|p| p.to_string()).collect(),
                typechanges: true,
                renames: true,
            },
        ),
        Reply::Deltas(Ok(DiffRecord { deltas: vec![], line_stats: vec![] })),
    )
}

#[test]
fn a_branch_is_compared_with_its_base() {
    let filter = vec!["src".to_string()];
    let mut script = vec![opens("/r")];
    script.extend(branch_tree("main", "c1", "71"));
    script.extend(branch_tree("task", "c2", "72"));
    script.push(no_deltas(vec!["src"], "71", "72"));
    let path = raw("/r");
    let diffs = drive(script, |io| {
        let target = DiffTarget::Branch { repo_path: &path, branch_name: "task", base_branch: "main" };
        GitService::new(vec![]).get_diffs(target, Some(&filter), io)
    });
    assert_eq!(diffs, Ok(vec![]));
}

#[test]
fn a_commit_is_compared_with_its_parent() {
    let path = raw("/r");
    let run = |sha: &str, script| {
        drive(script, |io| {
            let target = DiffTarget::Commit { repo_path: &path, commit_sha: sha };
            GitService::new(vec![]).get_diffs(target, None, io)
        })
    };
    let found = || {
        (Request::FindCommit(raw("/r"), oid("c1")), Reply::Commit(Ok(commit_info(None))))
    };
    let script = vec![
        opens("/r"),
        found(),
        (Request::ParentOf(raw("/r"), oid("c1")), Reply::Id(Ok(oid("c0")))),
        (Request::TreeOf(raw("/r"), oid("c0")), Reply::Id(Ok(oid("70")))),
        (Request::TreeOf(raw("/r"), oid("c1")), Reply::Id(Ok(oid("71")))),
        no_deltas(vec![], "70", "71"),
    ];
    assert_eq!(run("c1", script), Ok(vec![]));
    let script = vec![
        opens("/r"),
        found(),
        (Request::ParentOf(raw("/r"), oid("c1")), Reply::Id(Err(git_error("none")))),
    ];
    assert_eq!(
        run("c1", script),
        Err(GitServiceError::InvalidRepository(
            "Commit has no parent; cannot diff a squash merge without a baseline".to_string()
        ))
    );
    assert_eq!(
        run("nope", vec![opens("/r")]),
        Err(GitServiceError::InvalidRepository("Invalid commit SHA: nope".to_string()))
    );
}

#[test]
fn a_commit_diff_is_the_branch_diff_against_its_parent() {
    let path = raw("/r");
    let changes = || {
        vec![
            (
                Request::DiffTrees(
                    raw("/r"),
                    TreeDiff {
                        old_tree: oid("70"),
                        new_tree: oid("71"),
                        pathspecs: vec![],
                        typechanges: true,
                        renames: true,
                    },
                ),
                Reply::Deltas(Ok(DiffRecord {
                    deltas: vec![delta(
                        DeltaKind::Added,
                        file(zero(), Some("a"), 0),
                        file(oid("b1"), Some("a"), 0o100644),
                    )],
                    line_stats: vec![counts(1, 0)],
                })),
            ),
            finds_blob("b1", blob("x")),
            finds_blob("b1", blob("x")),
        ]
    };
    let mut script = vec![opens("/r")];
    script.extend(branch_tree("main", "c0", "70"));
    script.extend(branch_tree("task", "c1", "71"));
    script.extend(changes());
    let of_branch = drive(script, |io| {
        let target = DiffTarget::Branch { repo_path: &path, branch_name: "task", base_branch: "main" };
        GitService::new(vec![]).get_diffs(target, None, io)
    })
    .unwrap();
    let mut script = vec![
        opens("/r"),
        (Request::FindCommit(raw("/r"), oid("c1")), Reply::Commit(Ok(commit_info(None)))),
        (Request::ParentOf(raw("/r"), oid("c1")), Reply::Id(Ok(oid("c0")))),
        (Request::TreeOf(raw("/r"), oid("c0")), Reply::Id(Ok(oid("70")))),
        (Request::TreeOf(raw("/r"), oid("c1")), Reply::Id(Ok(oid("71")))),
    ];
    script.extend(changes());
    let of_commit = drive(script, |io| {
        let target = DiffTarget::Commit { repo_path: &path, commit_sha: "c1" };
        GitService::new(vec![]).get_diffs(target, None, io)
    })
    .unwrap();
    assert_eq!(of_branch.len(), 1);
    assert_eq!(of_branch[0].new_content, text("x"));
    assert_eq!(of_commit, of_branch);
}

#[test]
fn a_worktree_is_compared_with_a_commit() {
    let path = raw("/r");
    let base = Commit::new(oid("c0"));
    let sha = base.to_text();
    let run = |script| {
        drive(script, |io| {
            let target = DiffTarget::Worktree { worktree_path: &path, base_commit: &base };
            GitService::new(vec![]).get_diffs(target, None, io)
        })
    };
    let start = || {
        vec![
            opens("/r"),
            (Request::FindCommit(raw("/r"), oid("c0")), Reply::Commit(Ok(commit_info(None)))),
        ]
    };
    let version = || (Request::Version, Reply::Version(VersionReport::Ended(true)));
    let index = [("GIT_INDEX_FILE", "/t/index")];
    let mut script = start();
    script.extend(vec![
        (Request::TreeOf(raw("/r"), oid("c0")), Reply::Id(Ok(oid("7e")))),
        (Request::TempIndex, Reply::TempIndex(Ok(raw("/t/index")))),
        version(),
        (command("/r", &["read-tree", "HEAD"], &index, None), ended(0, b"", "")),
        version(),
        (
            command(
                "/r",
                &["--no-optional-locks", "status", "--porcelain", "-z", "--untracked-files=normal"],
                &[],
                None,
            ),
            ended(0, b"", ""),
        ),
        version(),
        (
            command(
                "/r",
                &["-c", "core.quotepath=false", "diff", "--cached", "-M", "--name-status", &sha],
                &index,
                None,
            ),
            ended(0, b"A\ta\n", ""),
        ),
        workdir(Some("/wd")),
        size("a", Some(1)),
        workdir(Some("/wd")),
        reads("a", Some("x")),
    ]);
    let diffs = run(script).unwrap();
    assert_eq!(diffs.len(), 1);
    assert_eq!(diffs[0].new_content, text("x"));
    let mut script = start();
    script.push((Request::TreeOf(raw("/r"), oid("c0")), Reply::Id(Err(git_error("no tree")))));
    assert_eq!(
        run(script),
        Err(GitServiceError::InvalidRepository(
            "Failed to find base commit tree: no tree; class=x (4)".to_string()
        ))
    );
    let mut script = start();
    script.extend(vec![
        (Request::TreeOf(raw("/r"), oid("c0")), Reply::Id(Ok(oid("7e")))),
        (Request::TempIndex, Reply::TempIndex(Err("full".to_string()))),
    ]);
    assert_eq!(
        run(script),
        Err(GitServiceError::InvalidRepository(
            "git diff failed: git command failed: temp dir create failed: full".to_string()
        ))
    );
}
