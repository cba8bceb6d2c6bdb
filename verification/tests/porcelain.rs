use git_service::cli::GitCli;
use git_service::errors::GitCliError;
use git_service::porcelain::{ChangeType, StatusDiffEntry, StatusEntry};
use git_service::raw::RawText;

fn raw(s: &str) -> RawText {
    RawText { bytes: s.as_bytes().to_vec() }
}

fn changed(change: ChangeType, path: &str, old_path: Option<&str>) -> StatusDiffEntry {
    StatusDiffEntry { change, path: path.to_string(), old_path: old_path.map(|p| p.to_string()) }
}

fn entry(staged: char, unstaged: char, path: &str, orig: Option<&str>) -> StatusEntry {
    StatusEntry {
        staged,
        unstaged,
        path: path.as_bytes().to_vec(),
        orig_path: orig.map(|p| p.as_bytes().to_vec()),
        is_untracked: staged == '?' && unstaged == '?',
    }
}

#[test]
fn name_status_lines() {
    let out = "A\tnew.txt\nM\tsrc/lib.rs\r\nD\tgone\nT\tlink\nU\tboth\nX\todd\n\n   \nR100\told name\tnew name\nC75\ta\tb\n";
    assert_eq!(
        GitCli::parse_name_status(out),
        vec![
            changed(ChangeType::Added, "new.txt", None),
            changed(ChangeType::Modified, "src/lib.rs", None),
            changed(ChangeType::Deleted, "gone", None),
            changed(ChangeType::TypeChanged, "link", None),
            changed(ChangeType::Unmerged, "both", None),
            changed(ChangeType::Unknown("X".to_string()), "odd", None),
            changed(ChangeType::Renamed, "new name", Some("old name")),
            changed(ChangeType::Copied, "b", Some("a")),
        ]
    );
}

#[test]
fn name_status_lines_without_paths_are_passed_over() {
    assert_eq!(GitCli::parse_name_status("M\nR100\tonly-one\nA"), vec![]);
    assert_eq!(
        GitCli::parse_name_status("\tpath"),
        vec![changed(ChangeType::Unknown("?".to_string()), "path", None)]
    );
    assert_eq!(
        GitCli::parse_name_status("M\ta\tb"),
        vec![changed(ChangeType::Modified, "a", None)]
    );
}

#[test]
fn worktree_list() {
    let out = "worktree /repo\nHEAD 1111\nbranch refs/heads/main\n\nworktree /wt one\nHEAD 2222\ndetached\n\nworktree /bare\nbare\n\nworktree /last\nHEAD 3333\nbranch refs/heads/task/x";
    let found: Vec<(String, Option<String>)> =
        GitCli::parse_worktrees(out).into_iter().map(|w| (w.path, w.branch)).collect();
    assert_eq!(
        found,
        vec![
            ("/repo".to_string(), Some("main".to_string())),
            ("/wt one".to_string(), None),
            ("/last".to_string(), Some("task/x".to_string())),
        ]
    );
}

#[test]
fn a_branch_outside_of_heads_is_none() {
    let out = "worktree /repo\nHEAD 1\nbranch refs/other/x\n\n";
    let found = GitCli::parse_worktrees(out);
    assert_eq!(found.len(), 1);
    assert_eq!(found[0].branch, None);
}

#[test]
fn file_names() {
    assert_eq!(
        GitCli::parse_file_names("a.txt\n  b c \n\n\t\nd"),
        vec!["a.txt".to_string(), "b c".to_string(), "d".to_string()]
    );
}

#[test]
fn status_entries_are_read_back() {
    let out = raw("M  staged\0 M worktree\0?? new file\0R  to\0from\0 C copy\0orig\0UU both\0");
    let status = GitCli::parse_status(&out);
    assert_eq!(
        status.entries,
        vec![
            entry('M', ' ', "staged", None),
            entry(' ', 'M', "worktree", None),
            entry('?', '?', "new file", None),
            entry('R', ' ', "to", Some("from")),
            entry(' ', 'C', "copy", Some("orig")),
            entry('U', 'U', "both", None),
        ]
    );
    assert_eq!(status.uncommitted_tracked, 5);
    assert_eq!(status.untracked, 1);
}

#[test]
fn status_of_nothing_and_of_odd_parts() {
    let none = GitCli::parse_status(&raw(""));
    assert_eq!(none.entries, vec![]);
    assert_eq!((none.uncommitted_tracked, none.untracked), (0, 0));
    let odd = GitCli::parse_status(&raw("M \0R  to\0\0   blank\0R  last"));
    assert_eq!(
        odd.entries,
        vec![entry('R', ' ', "to", None), entry(' ', ' ', "blank", None), entry('R', ' ', "last", None)]
    );
    assert_eq!((odd.uncommitted_tracked, odd.untracked), (2, 0));
}

#[test]
fn paths_that_are_not_text_are_kept() {
    let mut bytes = b"?? ".to_vec();
    bytes.push(0xff);
    bytes.push(0);
    let status = GitCli::parse_status(&RawText { bytes });
    assert_eq!(status.entries[0].path, vec![0xff]);
}

#[test]
fn failures_of_remotes_are_told_apart() {
    let git = GitCli::new(vec![]);
    for m in [
        "fatal: Authentication failed for x",
        "could not read Username",
        "Invalid username or password.",
    ] {
        assert_eq!(git.classify_cli_error(m.to_string()), GitCliError::AuthFailed(m.to_string()));
    }
    for m in [
        "! [rejected] (non-fast-forward)",
        "error: failed to push some refs",
        "hint: FETCH FIRST",
        "Updates were rejected because the tip of your branch",
    ] {
        assert_eq!(git.classify_cli_error(m.to_string()), GitCliError::PushRejected(m.to_string()));
    }
    assert_eq!(
        git.classify_cli_error("no route to host".to_string()),
        GitCliError::CommandFailed("no route to host".to_string())
    );
}

#[test]
fn filters_leave_out_directories_and_blanks() {
    let git = GitCli::new(vec!["node_modules".to_string(), "target".to_string()]);
    let excludes = vec![raw(":(glob,exclude)**/node_modules/"), raw(":(glob,exclude)**/target/")];
    assert_eq!(git.get_default_pathspec_excludes(), excludes);
    assert_eq!(git.build_pathspec_filter(None), excludes);
    let specs = vec!["src".to_string(), "  ".to_string(), "".to_string(), " a b".to_string()];
    assert_eq!(
        git.apply_pathspec_filter(vec![raw("diff")], Some(&specs)),
        vec![
            raw("diff"),
            raw("--"),
            raw(":(glob,exclude)**/node_modules/"),
            raw(":(glob,exclude)**/target/"),
            raw("src"),
            raw(" a b"),
        ]
    );
    assert_eq!(
        git.apply_default_excludes(vec![raw("add")]).len(),
        4
    );
}

#[test]
fn without_filters_the_arguments_stay() {
    let git = GitCli::new(vec![]);
    assert_eq!(git.apply_default_excludes(vec![raw("add"), raw("-A")]), vec![raw("add"), raw("-A")]);
    assert_eq!(git.apply_pathspec_filter(vec![raw("x")], Some(&vec![" ".to_string()])), vec![raw("x")]);
}

#[test]
fn failures_say_what_they_are() {
    assert_eq!(GitCliError::NotAvailable.to_text(), "git executable not found or not runnable");
    assert_eq!(GitCliError::CommandFailed("x".to_string()).to_text(), "git command failed: x");
    assert_eq!(GitCliError::AuthFailed("x".to_string()).to_text(), "authentication failed: x");
    assert_eq!(GitCliError::PushRejected("x".to_string()).to_text(), "push rejected: x");
    assert_eq!(GitCliError::RebaseInProgress.to_text(), "rebase in progress in this worktree");
}
