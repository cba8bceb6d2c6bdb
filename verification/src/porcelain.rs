//! What `git` prints, read back.
use vstd::prelude::*;

use crate::cli::GitCli;
use crate::errors::{CliErrorModel, GitCliError};
use crate::model::{lemma_models_push, Model};
use crate::raw::{utf8, RawText};
use crate::text::{
    after_prefix, ascii_lowercase, ascii_lowered, byte_texts, bytes_of, cat3, chars_of, contains,
    has_part, lines, lines_of, pieces, split, split_bytes, strip_prefix, texts, trim, trim_end,
    trimmed, trimmed_end,
};

verus! {

broadcast use lemma_models_push;

// ---------------------------------------------------------------------------
// git diff --name-status
// ---------------------------------------------------------------------------

/// The kind of change that `git diff --name-status` reports.
#[derive(Debug, Clone, PartialEq, Eq)]
pub enum ChangeType {
    Added,
    Modified,
    Deleted,
    Renamed,
    Copied,
    TypeChanged,
    Unmerged,
    /// Another letter.
    Unknown(String),
}

/// What a `ChangeType` stands for.
pub enum ChangeTypeModel {
    Added,
    Modified,
    Deleted,
    Renamed,
    Copied,
    TypeChanged,
    Unmerged,
    Unknown(Seq<char>),
}

impl Model for ChangeType {
    type M = ChangeTypeModel;

    open spec fn model(&self) -> ChangeTypeModel {
        match self {
            ChangeType::Added => ChangeTypeModel::Added,
            ChangeType::Modified => ChangeTypeModel::Modified,
            ChangeType::Deleted => ChangeTypeModel::Deleted,
            ChangeType::Renamed => ChangeTypeModel::Renamed,
            ChangeType::Copied => ChangeTypeModel::Copied,
            ChangeType::TypeChanged => ChangeTypeModel::TypeChanged,
            ChangeType::Unmerged => ChangeTypeModel::Unmerged,
            ChangeType::Unknown(s) => ChangeTypeModel::Unknown(s@),
        }
    }
}

/// One changed file.
#[derive(Debug, Clone, PartialEq, Eq)]
pub struct StatusDiffEntry {
    pub change: ChangeType,
    pub path: String,
    /// The path before a rename, or that of the original of a copy.
    pub old_path: Option<String>,
}

/// What a `StatusDiffEntry` stands for.
pub struct StatusDiffModel {
    pub change: ChangeTypeModel,
    pub path: Seq<char>,
    pub old_path: Option<Seq<char>>,
}

impl Model for StatusDiffEntry {
    type M = StatusDiffModel;

    open spec fn model(&self) -> StatusDiffModel {
        StatusDiffModel {
            change: self.change.model(),
            path: self.path@,
            old_path: self.old_path.model(),
        }
    }
}

/// What limits a status diff.
#[derive(Debug, Clone, Default)]
pub struct StatusDiffOptions {
    /// The pathspecs to report; all paths where there are none.
    pub path_filter: Option<Vec<String>>,
}

/// The change that a letter stands for.
pub open spec fn change_of_letter(c: char) -> ChangeTypeModel {
    if c == 'A' {
        ChangeTypeModel::Added
    } else if c == 'M' {
        ChangeTypeModel::Modified
    } else if c == 'D' {
        ChangeTypeModel::Deleted
    } else if c == 'R' {
        ChangeTypeModel::Renamed
    } else if c == 'C' {
        ChangeTypeModel::Copied
    } else if c == 'T' {
        ChangeTypeModel::TypeChanged
    } else if c == 'U' {
        ChangeTypeModel::Unmerged
    } else {
        ChangeTypeModel::Unknown(seq![c])
    }
}

/// The entry on one line: a code of which the first letter counts, a tab, a path; for renames
/// and copies the old path, a tab, the new path. Nothing where a path is missing.
pub open spec fn name_status_entry(line: Seq<char>) -> Option<StatusDiffModel> {
    let fields = pieces(trimmed_end(line), '\t');
    let letter = if fields[0].len() > 0 {
        fields[0][0]
    } else {
        '?'
    };
    let change = change_of_letter(letter);
    if trimmed_end(line).len() == 0 {
        None
    } else if change is Renamed || change is Copied {
        if fields.len() >= 3 {
            Some(StatusDiffModel { change, path: fields[2], old_path: Some(fields[1]) })
        } else {
            None
        }
    } else if fields.len() >= 2 {
        Some(StatusDiffModel { change, path: fields[1], old_path: None })
    } else {
        None
    }
}

/// The entries on some lines, in order.
pub open spec fn name_status_entries(lines: Seq<Seq<char>>) -> Seq<StatusDiffModel>
    decreases lines.len(),
{
    if lines.len() == 0 {
        seq![]
    } else {
        let before = name_status_entries(lines.drop_last());
        match name_status_entry(lines.last()) {
            Some(e) => before.push(e),
            None => before,
        }
    }
}

// ---------------------------------------------------------------------------
// git worktree list --porcelain
// ---------------------------------------------------------------------------

/// A worktree of a repository.
#[derive(Debug, Clone)]
pub struct WorktreeEntry {
    pub path: String,
    /// The branch that is checked out there.
    pub branch: Option<String>,
}

/// What a `WorktreeEntry` stands for.
pub struct WorktreeModel {
    pub path: Seq<char>,
    pub branch: Option<Seq<char>>,
}

impl Model for WorktreeEntry {
    type M = WorktreeModel;

    open spec fn model(&self) -> WorktreeModel {
        WorktreeModel { path: self.path@, branch: self.branch.model() }
    }
}

/// What was seen of a list of worktrees: the complete ones, and the lines of one that is not.
pub struct WorktreeScan {
    pub path: Option<Seq<char>>,
    pub has_head: bool,
    pub branch: Option<Seq<char>>,
    pub complete: Seq<WorktreeModel>,
}

/// The worktree at which a scan stands ends here: it counts where its path and its HEAD were seen.
pub open spec fn scan_closed(s: WorktreeScan) -> WorktreeScan {
    if s.path is Some && s.has_head {
        WorktreeScan {
            path: None,
            has_head: false,
            branch: None,
            complete: s.complete.push(WorktreeModel { path: s.path->0, branch: s.branch }),
        }
    } else {
        WorktreeScan { path: None, has_head: false, ..s }
    }
}

/// One more line: an empty line ends a worktree, the others say something of it.
pub open spec fn scan_line(s: WorktreeScan, line: Seq<char>) -> WorktreeScan {
    let l = trimmed(line);
    if l.len() == 0 {
        scan_closed(s)
    } else if after_prefix(l, "worktree "@) is Some {
        WorktreeScan { path: after_prefix(l, "worktree "@), ..s }
    } else if after_prefix(l, "HEAD "@) is Some {
        WorktreeScan { has_head: true, ..s }
    } else if after_prefix(l, "branch "@) is Some {
        WorktreeScan { branch: after_prefix(after_prefix(l, "branch "@)->0, "refs/heads/"@), ..s }
    } else {
        s
    }
}

/// What was seen of a list of worktrees after some lines.
pub open spec fn scan_lines(lines: Seq<Seq<char>>) -> WorktreeScan
    decreases lines.len(),
{
    if lines.len() == 0 {
        WorktreeScan { path: None, has_head: false, branch: None, complete: seq![] }
    } else {
        scan_line(scan_lines(lines.drop_last()), lines.last())
    }
}

/// The worktrees on some lines; the last needs no empty line after it.
pub open spec fn worktrees_on(lines: Seq<Seq<char>>) -> Seq<WorktreeModel> {
    scan_closed(scan_lines(lines)).complete
}

// ---------------------------------------------------------------------------
// git diff --name-only
// ---------------------------------------------------------------------------

/// The lines that hold more than white space, without the white space around them.
pub open spec fn filled_lines(lines: Seq<Seq<char>>) -> Seq<Seq<char>>
    decreases lines.len(),
{
    if lines.len() == 0 {
        seq![]
    } else {
        let before = filled_lines(lines.drop_last());
        if trimmed(lines.last()).len() > 0 {
            before.push(trimmed(lines.last()))
        } else {
            before
        }
    }
}

// ---------------------------------------------------------------------------
// git status --porcelain -z
// ---------------------------------------------------------------------------

/// The status of one file.
#[derive(Debug, Clone, PartialEq, Eq)]
pub struct StatusEntry {
    /// The letter for the index, or `?` for an untracked file.
    pub staged: char,
    /// The letter for the worktree, or `?` for an untracked file.
    pub unstaged: char,
    /// The path, as raw bytes.
    pub path: Vec<u8>,
    /// The path before a rename or copy, as raw bytes.
    pub orig_path: Option<Vec<u8>>,
    /// Whether both letters are `?`.
    pub is_untracked: bool,
}

/// What a `StatusEntry` stands for.
pub struct StatusEntryModel {
    pub staged: char,
    pub unstaged: char,
    pub path: Seq<u8>,
    pub orig_path: Option<Seq<u8>>,
    pub is_untracked: bool,
}

impl Model for StatusEntry {
    type M = StatusEntryModel;

    open spec fn model(&self) -> StatusEntryModel {
        StatusEntryModel {
            staged: self.staged,
            unstaged: self.unstaged,
            path: self.path@,
            orig_path: match self.orig_path {
                Some(p) => Some(p@),
                None => None,
            },
            is_untracked: self.is_untracked,
        }
    }
}

/// The status of a worktree.
#[derive(Debug, Clone, PartialEq, Eq)]
pub struct WorktreeStatus {
    /// How many tracked files have changes.
    pub uncommitted_tracked: usize,
    /// How many files are untracked.
    pub untracked: usize,
    pub entries: Vec<StatusEntry>,
}

/// What a `WorktreeStatus` stands for.
pub struct WorktreeStatusModel {
    pub uncommitted_tracked: int,
    pub untracked: int,
    pub entries: Seq<StatusEntryModel>,
}

impl Model for WorktreeStatus {
    type M = WorktreeStatusModel;

    open spec fn model(&self) -> WorktreeStatusModel {
        WorktreeStatusModel {
            uncommitted_tracked: self.uncommitted_tracked as int,
            untracked: self.untracked as int,
            entries: self.entries.model(),
        }
    }
}

/// Whether a pair of letters announces a second path.
pub open spec fn has_orig(part: Seq<u8>) -> bool {
    part[0] == 'R' as u8 || part[1] == 'R' as u8 || part[0] == 'C' as u8 || part[1] == 'C' as u8
}

/// The entry that `part` tells: two letters, a byte, the path.
pub open spec fn status_entry(part: Seq<u8>, orig_path: Option<Seq<u8>>) -> StatusEntryModel {
    StatusEntryModel {
        staged: part[0] as char,
        unstaged: part[1] as char,
        path: part.skip(3),
        orig_path,
        is_untracked: part[0] == '?' as u8 && part[1] == '?' as u8,
    }
}

/// The entries that some parts tell. A part of fewer than four bytes tells nothing. After a
/// rename or copy the next part is its original path, if it is not empty.
pub open spec fn status_entries(parts: Seq<Seq<u8>>) -> Seq<StatusEntryModel>
    decreases parts.len(),
{
    if parts.len() == 0 {
        seq![]
    } else if parts[0].len() < 4 {
        status_entries(parts.skip(1))
    } else if has_orig(parts[0]) && parts.len() >= 2 {
        let orig = if parts[1].len() > 0 {
            Some(parts[1])
        } else {
            None
        };
        seq![status_entry(parts[0], orig)] + status_entries(parts.skip(2))
    } else {
        seq![status_entry(parts[0], None)] + status_entries(parts.skip(1))
    }
}

/// Whether an entry is a tracked file with changes.
pub open spec fn is_tracked_change(e: StatusEntryModel) -> bool {
    !e.is_untracked && (e.staged != ' ' || e.unstaged != ' ')
}

/// How many tracked files with changes there are among some entries.
pub open spec fn tracked_changes(entries: Seq<StatusEntryModel>) -> int
    decreases entries.len(),
{
    if entries.len() == 0 {
        0
    } else {
        tracked_changes(entries.drop_last()) + if is_tracked_change(entries.last()) {
            1int
        } else {
            0
        }
    }
}

/// How many untracked files there are among some entries.
pub open spec fn untracked_files(entries: Seq<StatusEntryModel>) -> int
    decreases entries.len(),
{
    if entries.len() == 0 {
        0
    } else {
        untracked_files(entries.drop_last()) + if entries.last().is_untracked {
            1int
        } else {
            0
        }
    }
}

/// The status that `git status --porcelain -z` tells: its output cut at the zero bytes.
pub open spec fn status_of(output: Seq<u8>) -> WorktreeStatusModel {
    let entries = status_entries(pieces(output, 0u8));
    WorktreeStatusModel {
        uncommitted_tracked: tracked_changes(entries),
        untracked: untracked_files(entries),
        entries,
    }
}

// ---------------------------------------------------------------------------
// Failures and filters
// ---------------------------------------------------------------------------

/// What kind of failure the output of a command that talks to a remote tells.
pub open spec fn classified(msg: Seq<char>) -> CliErrorModel {
    let lower = ascii_lowered(msg);
    if has_part(lower, "authentication failed"@) || has_part(lower, "could not read username"@)
        || has_part(lower, "invalid username or password"@) {
        CliErrorModel::AuthFailed(msg)
    } else if has_part(lower, "non-fast-forward"@) || has_part(lower, "failed to push some refs"@)
        || has_part(lower, "fetch first"@) || has_part(
        lower,
        "updates were rejected because the tip"@,
    ) {
        CliErrorModel::PushRejected(msg)
    } else {
        CliErrorModel::CommandFailed(msg)
    }
}

/// The pathspec that leaves out a directory wherever it is.
pub open spec fn exclude_of(dir: Seq<char>) -> Seq<char> {
    ":(glob,exclude)**/"@ + dir + "/"@
}

/// The pathspecs that leave out some directories.
pub open spec fn excludes_of(dirs: Seq<Seq<char>>) -> Seq<Seq<u8>> {
    dirs.map_values(|d: Seq<char>| utf8(exclude_of(d)))
}

/// The pathspecs that hold more than white space.
pub open spec fn filled_specs(specs: Seq<Seq<char>>) -> Seq<Seq<u8>>
    decreases specs.len(),
{
    if specs.len() == 0 {
        seq![]
    } else {
        let before = filled_specs(specs.drop_last());
        if trimmed(specs.last()).len() > 0 {
            before.push(utf8(specs.last()))
        } else {
            before
        }
    }
}

/// The pathspecs that leave out some directories and, where `specs` are given, limit to those.
pub open spec fn pathspec_filter(dirs: Seq<Seq<char>>, specs: Option<Seq<Seq<char>>>) -> Seq<
    Seq<u8>,
> {
    match specs {
        Some(s) => excludes_of(dirs) + filled_specs(s),
        None => excludes_of(dirs),
    }
}

/// The arguments, followed by the pathspecs where there are any.
pub open spec fn with_filter(
    args: Seq<Seq<u8>>,
    dirs: Seq<Seq<char>>,
    specs: Option<Seq<Seq<char>>>,
) -> Seq<Seq<u8>> {
    let filters = pathspec_filter(dirs, specs);
    if filters.len() > 0 {
        args.push(utf8("--"@)) + filters
    } else {
        args
    }
}

// ---------------------------------------------------------------------------
// The functions
// ---------------------------------------------------------------------------

fn change_for(c: char) -> (r: ChangeType)
    ensures
        r.model() == change_of_letter(c),
{
    if c == 'A' {
        ChangeType::Added
    } else if c == 'M' {
        ChangeType::Modified
    } else if c == 'D' {
        ChangeType::Deleted
    } else if c == 'R' {
        ChangeType::Renamed
    } else if c == 'C' {
        ChangeType::Copied
    } else if c == 'T' {
        ChangeType::TypeChanged
    } else if c == 'U' {
        ChangeType::Unmerged
    } else {
        let mut s: String = String::new();
        s.push(c);
        assert(s@ =~= seq![c]);
        ChangeType::Unknown(s)
    }
}

fn entry_on(line: &str) -> (r: Option<StatusDiffEntry>)
    ensures
        r.model() == name_status_entry(line@),
{
    let line: String = trim_end(line);
    if line.as_str().is_empty() {
        return None;
    }
    let fields: Vec<String> = split(line.as_str(), '\t');
    let ghost f = pieces(line@, '\t');
    assert(fields@.len() == f.len());
    assert(f.len() >= 1);
    assert(forall|i: int| 0 <= i < f.len() ==> fields@[i]@ == f[i]);
    let code: Vec<char> = chars_of(fields[0].as_str());
    let letter: char = if code.len() > 0 {
        code[0]
    } else {
        '?'
    };
    let change: ChangeType = change_for(letter);
    match change {
        ChangeType::Renamed | ChangeType::Copied => {
            if fields.len() >= 3 {
                Some(
                    StatusDiffEntry {
                        change,
                        path: fields[2].clone(),
                        old_path: Some(fields[1].clone()),
                    },
                )
            } else {
                None
            }
        },
        _ => {
            if fields.len() >= 2 {
                Some(StatusDiffEntry { change, path: fields[1].clone(), old_path: None })
            } else {
                None
            }
        },
    }
}

fn bytes_again(v: &Vec<u8>) -> (r: Vec<u8>)
    ensures
        r@ == v@,
{
    let r: Vec<u8> = bytes_of(v, 0, v.len());
    assert(r@ =~= v@);
    r
}

fn announces_orig(part: &Vec<u8>) -> (r: bool)
    requires
        part@.len() >= 2,
    ensures
        r == has_orig(part@),
{
    part[0] == 'R' as u8 || part[1] == 'R' as u8 || part[0] == 'C' as u8 || part[1] == 'C' as u8
}

fn entry_for(part: &Vec<u8>, orig_path: Option<Vec<u8>>) -> (r: StatusEntry)
    requires
        part@.len() >= 4,
    ensures
        r.model() == status_entry(
            part@,
            match orig_path {
                Some(p) => Some(p@),
                None => None,
            },
        ),
{
    let path: Vec<u8> = bytes_of(part, 3, part.len());
    assert(path@ =~= part@.skip(3));
    StatusEntry {
        staged: part[0] as char,
        unstaged: part[1] as char,
        path,
        orig_path,
        is_untracked: part[0] == '?' as u8 && part[1] == '?' as u8,
    }
}

proof fn lemma_counts_bounded(entries: Seq<StatusEntryModel>)
    ensures
        0 <= tracked_changes(entries) <= entries.len(),
        0 <= untracked_files(entries) <= entries.len(),
    decreases entries.len(),
{
    if entries.len() > 0 {
        lemma_counts_bounded(entries.drop_last());
    }
}

impl GitCli {
    /// The entries in the output of `git diff --name-status`.
    pub fn parse_name_status(output: &str) -> (r: Vec<StatusDiffEntry>)
        ensures
            r.model() == name_status_entries(lines_of(output@)),
    {
        let all: Vec<String> = lines(output);
        let ghost ls = lines_of(output@);
        let mut out: Vec<StatusDiffEntry> = Vec::new();
        let mut i: usize = 0;
        assert(out.model() =~= name_status_entries(ls.take(0)));
        while i < all.len()
            invariant
                i <= all@.len(),
                texts(all@) == ls,
                out.model() == name_status_entries(ls.take(i as int)),
            decreases all@.len() - i,
        {
            assert(ls.take(i + 1).drop_last() =~= ls.take(i as int));
            assert(ls.take(i + 1).last() == all@[i as int]@);
            match entry_on(all[i].as_str()) {
                Some(e) => {
                    out.push(e);
                },
                None => {},
            }
            i = i + 1;
        }
        assert(ls.take(i as int) =~= ls);
        out
    }

    /// The worktrees in the output of `git worktree list --porcelain`.
    pub fn parse_worktrees(output: &str) -> (r: Vec<WorktreeEntry>)
        ensures
            r.model() == worktrees_on(lines_of(output@)),
    {
        let all: Vec<String> = lines(output);
        let ghost ls = lines_of(output@);
        let mut entries: Vec<WorktreeEntry> = Vec::new();
        let mut path: Option<String> = None;
        let mut has_head: bool = false;
        let mut branch: Option<String> = None;
        let mut i: usize = 0;
        assert(entries.model() =~= seq![]);
        while i < all.len()
            invariant
                i <= all@.len(),
                texts(all@) == ls,
                scan_lines(ls.take(i as int)) == (WorktreeScan {
                    path: path.model(),
                    has_head,
                    branch: branch.model(),
                    complete: entries.model(),
                }),
            decreases all@.len() - i,
        {
            assert(ls.take(i + 1).drop_last() =~= ls.take(i as int));
            assert(ls.take(i + 1).last() == all@[i as int]@);
            let line: String = trim(all[i].as_str());
            if line.as_str().is_empty() {
                match path {
                    Some(p) => {
                        if has_head {
                            entries.push(WorktreeEntry { path: p, branch });
                            branch = None;
                        }
                    },
                    None => {},
                }
                path = None;
                has_head = false;
            } else {
                match strip_prefix(line.as_str(), "worktree ") {
                    Some(p) => {
                        path = Some(p);
                    },
                    None => {
                        match strip_prefix(line.as_str(), "HEAD ") {
                            Some(_) => {
                                has_head = true;
                            },
                            None => {
                                match strip_prefix(line.as_str(), "branch ") {
                                    Some(b) => {
                                        branch = strip_prefix(b.as_str(), "refs/heads/");
                                    },
                                    None => {},
                                }
                            },
                        }
                    },
                }
            }
            i = i + 1;
        }
        assert(ls.take(i as int) =~= ls);
        match path {
            Some(p) => {
                if has_head {
                    entries.push(WorktreeEntry { path: p, branch });
                }
            },
            None => {},
        }
        entries
    }

    /// The files in the output of `git diff --name-only`.
    pub fn parse_file_names(output: &str) -> (r: Vec<String>)
        ensures
            r.model() == filled_lines(lines_of(output@)),
    {
        let all: Vec<String> = lines(output);
        let ghost ls = lines_of(output@);
        let mut files: Vec<String> = Vec::new();
        let mut i: usize = 0;
        assert(files.model() =~= filled_lines(ls.take(0)));
        while i < all.len()
            invariant
                i <= all@.len(),
                texts(all@) == ls,
                files.model() == filled_lines(ls.take(i as int)),
            decreases all@.len() - i,
        {
            assert(ls.take(i + 1).drop_last() =~= ls.take(i as int));
            assert(ls.take(i + 1).last() == all@[i as int]@);
            let p: String = trim(all[i].as_str());
            if !p.as_str().is_empty() {
                files.push(p);
            }
            i = i + 1;
        }
        assert(ls.take(i as int) =~= ls);
        files
    }

    /// The status in the output of `git status --porcelain -z`.
    pub fn parse_status(output: &RawText) -> (r: WorktreeStatus)
        ensures
            r.model() == status_of(output@),
    {
        let parts: Vec<Vec<u8>> = split_bytes(&output.bytes, 0);
        let ghost ps = pieces(output@, 0u8);
        let mut entries: Vec<StatusEntry> = Vec::new();
        let mut uncommitted_tracked: usize = 0;
        let mut untracked: usize = 0;
        let mut i: usize = 0;
        proof {
            assert(ps.skip(0) =~= ps);
            assert(entries.model() =~= seq![]);
            assert(entries.model() + status_entries(ps) =~= status_entries(ps));
        }
        while i < parts.len()
            invariant
                i <= parts@.len(),
                byte_texts(parts@) == ps,
                entries@.len() <= i,
                entries.model() + status_entries(ps.skip(i as int)) == status_entries(ps),
                uncommitted_tracked == tracked_changes(entries.model()),
                untracked == untracked_files(entries.model()),
            decreases parts@.len() - i,
        {
            let ghost rest = ps.skip(i as int);
            assert(rest[0] == parts@[i as int]@);
            assert(rest.skip(1) =~= ps.skip(i + 1));
            if parts[i].len() < 4 {
                i = i + 1;
                continue;
            }
            let ghost at = i;
            let mut orig_path: Option<Vec<u8>> = None;
            let part: &Vec<u8> = &parts[i];
            i = i + 1;
            if announces_orig(part) && i < parts.len() {
                assert(rest[1] == parts@[i as int]@);
                assert(rest.skip(2) =~= ps.skip(i + 1));
                if parts[i].len() > 0 {
                    orig_path = Some(bytes_again(&parts[i]));
                }
                i = i + 1;
            }
            let entry: StatusEntry = entry_for(part, orig_path);
            let ghost before = entries.model();
            let ghost e = entry.model();
            proof {
                lemma_counts_bounded(before);
                assert(before.push(e).drop_last() =~= before);
            }
            if entry.is_untracked {
                untracked = untracked + 1;
            } else if entry.staged != ' ' || entry.unstaged != ' ' {
                uncommitted_tracked = uncommitted_tracked + 1;
            }
            entries.push(entry);
            proof {
                assert(entries.model() == before.push(e));
                assert(before.push(e) + status_entries(ps.skip(i as int)) =~= before + (seq![e]
                    + status_entries(ps.skip(i as int))));
            }
        }
        proof {
            assert(status_entries(ps.skip(i as int)) =~= seq![]);
            assert(entries.model() + seq![] =~= entries.model());
        }
        WorktreeStatus { uncommitted_tracked, untracked, entries }
    }

    /// What kind of failure the output of a command that talks to a remote tells.
    pub fn classify_cli_error(&self, msg: String) -> (r: GitCliError)
        ensures
            r.model() == classified(msg@),
    {
        let lower: String = ascii_lowercase(msg.as_str());
        if contains(lower.as_str(), "authentication failed") || contains(
            lower.as_str(),
            "could not read username",
        ) || contains(lower.as_str(), "invalid username or password") {
            GitCliError::AuthFailed(msg)
        } else if contains(lower.as_str(), "non-fast-forward") || contains(
            lower.as_str(),
            "failed to push some refs",
        ) || contains(lower.as_str(), "fetch first") || contains(
            lower.as_str(),
            "updates were rejected because the tip",
        ) {
            GitCliError::PushRejected(msg)
        } else {
            GitCliError::CommandFailed(msg)
        }
    }

    /// The pathspecs that leave out the directories that are always skipped.
    pub fn get_default_pathspec_excludes(&self) -> (r: Vec<RawText>)
        ensures
            r.model() == excludes_of(self.dirs()),
    {
        let mut out: Vec<RawText> = Vec::new();
        let dirs: &Vec<String> = self.skip_dirs();
        let mut i: usize = 0;
        while i < dirs.len()
            invariant
                i <= dirs@.len(),
                texts(dirs@) == self.dirs(),
                out.model() == excludes_of(self.dirs().take(i as int)),
            decreases dirs@.len() - i,
        {
            let spec: String = cat3(":(glob,exclude)**/", dirs[i].as_str(), "/");
            out.push(RawText::of(spec.as_str()));
            assert(excludes_of(self.dirs().take(i + 1)) =~= excludes_of(
                self.dirs().take(i as int),
            ).push(utf8(spec@)));
            i = i + 1;
        }
        assert(self.dirs().take(i as int) =~= self.dirs());
        out
    }

    /// The pathspecs that leave out the directories that are always skipped and, where
    /// `pathspecs` are given, limit to those of them that are not blank.
    pub fn build_pathspec_filter(&self, pathspecs: Option<&Vec<String>>) -> (r: Vec<RawText>)
        ensures
            r.model() == pathspec_filter(
                self.dirs(),
                match pathspecs {
                    Some(v) => Some(v.model()),
                    None => None,
                },
            ),
    {
        let mut filters: Vec<RawText> = self.get_default_pathspec_excludes();
        if let Some(specs) = pathspecs {
            let ghost s = specs.model();
            let ghost excludes = filters.model();
            let mut i: usize = 0;
            assert(excludes + filled_specs(s.take(0)) =~= excludes);
            while i < specs.len()
                invariant
                    i <= specs@.len(),
                    texts(specs@) == s,
                    filters.model() == excludes + filled_specs(s.take(i as int)),
                decreases specs@.len() - i,
            {
                assert(s.take(i + 1).drop_last() =~= s.take(i as int));
                assert(s.take(i + 1).last() == specs@[i as int]@);
                let ghost before = filled_specs(s.take(i as int));
                if !trim(specs[i].as_str()).as_str().is_empty() {
                    filters.push(RawText::of(specs[i].as_str()));
                    assert((excludes + before).push(utf8(specs@[i as int]@)) =~= excludes
                        + before.push(utf8(specs@[i as int]@)));
                }
                i = i + 1;
            }
            assert(s.take(i as int) =~= s);
        }
        filters
    }

    /// The arguments, followed by the pathspecs of `build_pathspec_filter` where there are any.
    pub fn apply_pathspec_filter(
        &self,
        args: Vec<RawText>,
        pathspecs: Option<&Vec<String>>,
    ) -> (r: Vec<RawText>)
        ensures
            r.model() == with_filter(
                args.model(),
                self.dirs(),
                match pathspecs {
                    Some(v) => Some(v.model()),
                    None => None,
                },
            ),
    {
        let filters: Vec<RawText> = self.build_pathspec_filter(pathspecs);
        let mut out: Vec<RawText> = args;
        if filters.len() > 0 {
            out.push(RawText::of("--"));
            let ghost start = out.model();
            let ghost f = filters.model();
            let mut i: usize = 0;
            assert(start + f.take(0) =~= start);
            while i < filters.len()
                invariant
                    i <= filters@.len(),
                    filters.model() == f,
                    out.model() == start + f.take(i as int),
                decreases filters@.len() - i,
            {
                out.push(filters[i].copy());
                assert(start + f.take(i + 1) =~= (start + f.take(i as int)).push(f[i as int]));
                i = i + 1;
            }
            assert(f.take(i as int) =~= f);
        }
        out
    }

    /// The arguments, followed by the pathspecs that leave out the directories that are always
    /// skipped.
    pub fn apply_default_excludes(&self, args: Vec<RawText>) -> (r: Vec<RawText>)
        ensures
            r.model() == with_filter(args.model(), self.dirs(), None),
    {
        self.apply_pathspec_filter(args, None)
    }
}

// ---------------------------------------------------------------------------
// What is promised of failures and filters
// ---------------------------------------------------------------------------

/// Telling what kind of failure it was keeps the message, and depends on it only up to the case of
/// its letters.
pub proof fn law_classified(a: Seq<char>, b: Seq<char>)
    ensures
        classified(a) == CliErrorModel::AuthFailed(a) || classified(a)
            == CliErrorModel::PushRejected(a) || classified(a) == CliErrorModel::CommandFailed(a),
        ascii_lowered(a) == ascii_lowered(b) ==> {
            &&& classified(a) is AuthFailed <==> classified(b) is AuthFailed
            &&& classified(a) is PushRejected <==> classified(b) is PushRejected
        },
{
}

/// A filter only appends to the arguments, and nothing where it holds no pathspec; the pathspecs that
/// leave out the skipped directories are always there.
pub proof fn law_filter(args: Seq<Seq<u8>>, dirs: Seq<Seq<char>>, specs: Option<Seq<Seq<char>>>)
    ensures
        args.is_prefix_of(with_filter(args, dirs, specs)),
        excludes_of(dirs).is_prefix_of(pathspec_filter(dirs, specs)),
        pathspec_filter(dirs, specs).len() > 0 ==> with_filter(args, dirs, specs).len()
            == args.len() + 1 + pathspec_filter(dirs, specs).len(),
        pathspec_filter(dirs, specs).len() == 0 ==> with_filter(args, dirs, specs) == args,
{
    let all = with_filter(args, dirs, specs);
    assert(all.take(args.len() as int) =~= args);
    let filters = pathspec_filter(dirs, specs);
    assert(filters.take(excludes_of(dirs).len() as int) =~= excludes_of(dirs));
}

/// The pathspecs of a filter are those given that are not blank.
pub proof fn law_filled_specs(specs: Seq<Seq<char>>, p: Seq<u8>)
    ensures
        filled_specs(specs).contains(p) <==> exists|i: int|
            0 <= i < specs.len() && trimmed(#[trigger] specs[i]).len() > 0 && utf8(specs[i]) == p,
    decreases specs.len(),
{
    if specs.len() > 0 {
        let before = specs.drop_last();
        law_filled_specs(before, p);
        let kept = filled_specs(before);
        let last = specs.len() - 1;
        if filled_specs(specs).contains(p) {
            let k = choose|k: int| 0 <= k < filled_specs(specs).len() && filled_specs(specs)[k] == p;
            if k < kept.len() {
                assert(kept[k] == p);
                let i = choose|i: int|
                    0 <= i < before.len() && trimmed(#[trigger] before[i]).len() > 0 && utf8(
                        before[i],
                    ) == p;
                assert(specs[i] == before[i]);
            } else {
                assert(specs[last] == specs.last());
            }
        }
        if exists|i: int|
            0 <= i < specs.len() && trimmed(#[trigger] specs[i]).len() > 0 && utf8(specs[i]) == p {
            let i = choose|i: int|
                0 <= i < specs.len() && trimmed(#[trigger] specs[i]).len() > 0 && utf8(specs[i])
                    == p;
            if i < last {
                assert(before[i] == specs[i]);
                let k = choose|k: int| 0 <= k < kept.len() && kept[k] == p;
                assert(filled_specs(specs)[k] == p);
            } else {
                assert(filled_specs(specs)[kept.len() as int] == p);
            }
        }
    }
}

} // verus!
