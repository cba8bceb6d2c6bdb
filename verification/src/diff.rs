//! What changed in files, with their contents.
use vstd::prelude::*;

use crate::dialogue::{
    and_then, blob_turn, entry_turn, found_turn, line_counts_turn, size_turn, turn, Dialogue, Reply,
    Request, RequestModel, Turn,
};
use crate::model::{lemma_models_push, Model};
use crate::oid::{is_zero_oid, Oid};
use crate::porcelain::{ChangeType, ChangeTypeModel, StatusDiffEntry, StatusDiffModel};
use crate::raw::{strict_text, utf8, RawText};
use crate::records::{
    BlobRecord, DeltaFile, DeltaKind, DeltaRecord, DiffRecord, LineCounts, TreeEntry,
};
use crate::service::{GitService, ServiceResult, ServiceTurn};
use crate::text::{lines, lines_of, same, utf8_lossy};

verus! {

broadcast use lemma_models_push;

/// The largest content, in bytes, that a diff carries: two mebibytes.
pub const MAX_INLINE_DIFF_BYTES: usize = 2097152;

/// What happened to a file.
#[derive(Debug, Clone, Copy, PartialEq, Eq, Structural)]
pub enum DiffChangeKind {
    Added,
    Deleted,
    Modified,
    Renamed,
    Copied,
    /// Only the mode changed.
    PermissionChange,
}

/// The change of one file.
#[derive(Debug, PartialEq, Eq)]
pub struct Diff {
    pub change: DiffChangeKind,
    pub old_path: Option<String>,
    pub new_path: Option<String>,
    pub old_content: Option<String>,
    pub new_content: Option<String>,
    /// Whether the contents are left out because one of them is too large.
    pub content_omitted: bool,
    pub additions: Option<usize>,
    pub deletions: Option<usize>,
}

/// What a `Diff` stands for.
pub struct DiffModel {
    pub change: DiffChangeKind,
    pub old_path: Option<Seq<char>>,
    pub new_path: Option<Seq<char>>,
    pub old_content: Option<Seq<char>>,
    pub new_content: Option<Seq<char>>,
    pub content_omitted: bool,
    pub additions: Option<int>,
    pub deletions: Option<int>,
}

impl Model for Diff {
    type M = DiffModel;

    open spec fn model(&self) -> DiffModel {
        DiffModel {
            change: self.change,
            old_path: self.old_path.model(),
            new_path: self.new_path.model(),
            old_content: self.old_content.model(),
            new_content: self.new_content.model(),
            content_omitted: self.content_omitted,
            additions: self.additions.model(),
            deletions: self.deletions.model(),
        }
    }
}

/// The name and the content of one side of a change.
#[derive(Debug, PartialEq, Eq)]
pub struct FileDiffDetails {
    pub file_name: Option<String>,
    pub content: Option<String>,
}

/// What `FileDiffDetails` stand for.
pub struct FileDetailsModel {
    pub file_name: Option<Seq<char>>,
    pub content: Option<Seq<char>>,
}

impl Model for FileDiffDetails {
    type M = FileDetailsModel;

    open spec fn model(&self) -> FileDetailsModel {
        FileDetailsModel { file_name: self.file_name.model(), content: self.content.model() }
    }
}

// ---------------------------------------------------------------------------
// Contents
// ---------------------------------------------------------------------------

/// The text of a blob: none for a binary one, or one that is not UTF-8.
pub open spec fn blob_text(b: BlobRecord) -> Option<Seq<char>> {
    if b.is_binary {
        None
    } else {
        strict_text(b.content@)
    }
}

/// Whether a blob is text, and too large to be shown.
pub open spec fn is_too_large(b: BlobRecord) -> bool {
    !b.is_binary && b.size > MAX_INLINE_DIFF_BYTES
}

/// The text of a file: none for one that is too large, holds a zero byte, or is not UTF-8.
pub open spec fn file_text(bytes: Seq<u8>) -> Option<Seq<char>> {
    if bytes.len() > MAX_INLINE_DIFF_BYTES || bytes.contains(0u8) {
        None
    } else {
        strict_text(bytes)
    }
}

/// The text of a file in the working directory; none where it cannot be had.
pub open spec fn read_file_turn(
    repo: Seq<u8>,
    path: Seq<u8>,
    h: Seq<Reply>,
    at: int,
) -> ServiceTurn<Option<Seq<char>>> {
    and_then(
        found_turn(RequestModel::Workdir(repo), h, at),
        |workdir: Option<RawText>, n: int|
            match workdir {
                None => Turn::Done(None, n),
                Some(dir) => and_then(
                    found_turn(RequestModel::ReadFile(dir@, path), h, n),
                    |read: Option<RawText>, n: int|
                        match read {
                            None => Turn::Done(None, n),
                            Some(bytes) => Turn::Done(file_text(bytes@), n),
                        },
                ),
            },
    )
}

/// The text of a file by its blob; by the working directory where there is no such blob, or it
/// has no text.
pub open spec fn content_turn(
    repo: Seq<u8>,
    path: Seq<u8>,
    id: Seq<u8>,
    h: Seq<Reply>,
    at: int,
) -> ServiceTurn<Option<Seq<char>>> {
    if is_zero_oid(id) {
        read_file_turn(repo, path, h, at)
    } else {
        and_then(
            blob_turn(RequestModel::FindBlob(repo, id), h, at),
            |found: Option<BlobRecord>, n: int|
                if found is Some && blob_text(found->0) is Some {
                    Turn::Done(blob_text(found->0), n)
                } else {
                    read_file_turn(repo, path, h, n)
                },
        )
    }
}

/// The name and the text of a file.
pub open spec fn file_details_turn(
    repo: Seq<u8>,
    path: Seq<u8>,
    id: Seq<u8>,
    h: Seq<Reply>,
    at: int,
) -> ServiceTurn<FileDetailsModel> {
    and_then(
        content_turn(repo, path, id, h, at),
        |content: Option<Seq<char>>, n: int|
            Turn::Done(FileDetailsModel { file_name: Some(utf8_lossy(path)), content }, n),
    )
}

fn holds_zero(bytes: &Vec<u8>) -> (r: bool)
    ensures
        r == bytes@.contains(0u8),
{
    let mut i: usize = 0;
    while i < bytes.len()
        invariant
            i <= bytes@.len(),
            forall|j: int| 0 <= j < i ==> bytes@[j] != 0u8,
        decreases bytes@.len() - i,
    {
        if bytes[i] == 0 {
            return true;
        }
        i = i + 1;
    }
    false
}

/// The text of a file: none for one that is too large, holds a zero byte, or is not UTF-8.
pub fn text_of_file(bytes: &RawText) -> (r: Option<String>)
    ensures
        r.model() == file_text(bytes@),
{
    if bytes.bytes.len() > MAX_INLINE_DIFF_BYTES {
        return None;
    }
    if holds_zero(&bytes.bytes) {
        return None;
    }
    bytes.as_text()
}

fn too_large(blob: &BlobRecord) -> (r: bool)
    ensures
        r == is_too_large(*blob),
{
    !blob.is_binary && blob.size > MAX_INLINE_DIFF_BYTES
}

impl GitService {
    /// The text of a blob: none for a binary one, or one that is not UTF-8.
    pub fn blob_to_string(blob: &BlobRecord) -> (r: Option<String>)
        ensures
            r.model() == blob_text(*blob),
    {
        if blob.is_binary {
            None
        } else {
            blob.content.as_text()
        }
    }

    /// The text of a file in the working directory; none where it cannot be had.
    pub fn read_file_to_string(repo: &RawText, rel_path: &RawText, io: &mut Dialogue) -> (r:
        ServiceResult<Option<String>>)
        ensures
            final(io).record() == old(io).record(),
            turn(r, final(io)) == read_file_turn(
                repo@,
                rel_path@,
                old(io).record(),
                old(io).at(),
            ),
    {
        match io.found(Request::Workdir(repo.copy()))? {
            None => Ok(None),
            Some(workdir) => match io.found(Request::ReadFile(workdir.copy(), rel_path.copy()))? {
                None => Ok(None),
                Some(bytes) => Ok(text_of_file(bytes)),
            },
        }
    }

    /// The name and the text of a file: by its blob, else by the working directory.
    pub fn create_file_details(
        &self,
        path: &RawText,
        blob_id: &Oid,
        repo: &RawText,
        io: &mut Dialogue,
    ) -> (r: ServiceResult<FileDiffDetails>)
        ensures
            final(io).record() == old(io).record(),
            turn(r, final(io)) == file_details_turn(
                repo@,
                path@,
                blob_id@,
                old(io).record(),
                old(io).at(),
            ),
    {
        let mut content: Option<String> = None;
        if !blob_id.is_zero() {
            if let Some(blob) = io.blob(Request::FindBlob(repo.copy(), *blob_id))? {
                content = GitService::blob_to_string(blob);
            }
        }
        if content.is_none() {
            content = GitService::read_file_to_string(repo, path, io)?;
        }
        Ok(FileDiffDetails { file_name: Some(path.to_text()), content })
    }

    /// The path that a change is known by: the new one where there is one, else the old one.
    pub fn diff_path(diff: &Diff) -> (r: String)
        ensures
            r@ == path_of_diff(diff.model()),
    {
        match &diff.new_path {
            Some(p) => p.clone(),
            None => match &diff.old_path {
                Some(p) => p.clone(),
                None => String::new(),
            },
        }
    }
}

/// The path that a change is known by: the new one where there is one, else the old one.
pub open spec fn path_of_diff(d: DiffModel) -> Seq<char> {
    match d.new_path {
        Some(p) => p,
        None => match d.old_path {
            Some(p) => p,
            None => seq![],
        },
    }
}

// ---------------------------------------------------------------------------
// Changes between two trees
// ---------------------------------------------------------------------------

/// What a delta of some kind is called.
pub open spec fn change_of_delta(kind: DeltaKind) -> DiffChangeKind {
    match kind {
        DeltaKind::Added => DiffChangeKind::Added,
        DeltaKind::Untracked => DiffChangeKind::Added,
        DeltaKind::Deleted => DiffChangeKind::Deleted,
        DeltaKind::Renamed => DiffChangeKind::Renamed,
        DeltaKind::Copied => DiffChangeKind::Copied,
        _ => DiffChangeKind::Modified,
    }
}

/// Whether the blob on one side of a delta is too large, where that side has one.
pub open spec fn oversize_turn(repo: Seq<u8>, absent: bool, id: Seq<u8>, h: Seq<Reply>, at: int) ->
    ServiceTurn<bool> {
    if absent || is_zero_oid(id) {
        Turn::Done(false, at)
    } else {
        and_then(
            blob_turn(RequestModel::FindBlob(repo, id), h, at),
            |found: Option<BlobRecord>, n: int|
                Turn::Done(found is Some && is_too_large(found->0), n),
        )
    }
}

/// The name and the text of one side of a delta. A side that is absent has neither; contents are
/// not read where they are omitted.
pub open spec fn side_turn(
    repo: Seq<u8>,
    absent: bool,
    omitted: bool,
    file: DeltaFile,
    h: Seq<Reply>,
    at: int,
) -> ServiceTurn<FileDetailsModel> {
    if absent || file.path is None {
        Turn::Done(FileDetailsModel { file_name: None, content: None }, at)
    } else if omitted {
        Turn::Done(
            FileDetailsModel { file_name: Some(utf8_lossy(file.path->0@)), content: None },
            at,
        )
    } else {
        file_details_turn(repo, file.path->0@, file.id@, h, at)
    }
}

/// What a change is called once the contents are known: a modification that leaves the content as
/// it was, but not the mode, is a change of permissions.
pub open spec fn final_change(
    delta: DeltaRecord,
    old_content: Option<Seq<char>>,
    new_content: Option<Seq<char>>,
) -> DiffChangeKind {
    if delta.status is Modified && delta.old_file.mode != delta.new_file.mode && old_content is Some
        && old_content == new_content {
        DiffChangeKind::PermissionChange
    } else {
        change_of_delta(delta.status)
    }
}

/// The change that a delta stands for, with these numbers of lines.
pub open spec fn delta_turn(
    repo: Seq<u8>,
    delta: DeltaRecord,
    counts: Option<LineCounts>,
    h: Seq<Reply>,
    at: int,
) -> ServiceTurn<DiffModel> {
    let added = delta.status is Added;
    let deleted = delta.status is Deleted;
    and_then(
        oversize_turn(repo, added, delta.old_file.id@, h, at),
        |old_over: bool, n: int|
            and_then(
                oversize_turn(repo, deleted, delta.new_file.id@, h, n),
                |new_over: bool, n: int|
                    and_then(
                        side_turn(repo, added, old_over || new_over, delta.old_file, h, n),
                        |old: FileDetailsModel, n: int|
                            and_then(
                                side_turn(
                                    repo,
                                    deleted,
                                    old_over || new_over,
                                    delta.new_file,
                                    h,
                                    n,
                                ),
                                |new: FileDetailsModel, n: int|
                                    Turn::Done(
                                        DiffModel {
                                            change: final_change(delta, old.content, new.content),
                                            old_path: old.file_name,
                                            new_path: new.file_name,
                                            old_content: old.content,
                                            new_content: new.content,
                                            content_omitted: old_over || new_over,
                                            additions: match counts {
                                                Some(c) => Some(c.additions as int),
                                                None => None,
                                            },
                                            deletions: match counts {
                                                Some(c) => Some(c.deletions as int),
                                                None => None,
                                            },
                                        },
                                        n,
                                    ),
                            ),
                    ),
            ),
    )
}

/// The numbers of lines at a position, where there are any.
pub open spec fn counts_at(stats: Seq<Option<LineCounts>>, i: int) -> Option<LineCounts> {
    if 0 <= i < stats.len() {
        stats[i]
    } else {
        None
    }
}

/// The changes that the deltas from `i` on stand for, after those in `done`. Unreadable deltas are
/// passed over; the lines of a change are those at its own position among the changes.
pub open spec fn file_diffs_turn(
    repo: Seq<u8>,
    deltas: Seq<DeltaRecord>,
    stats: Seq<Option<LineCounts>>,
    i: int,
    done: Seq<DiffModel>,
    h: Seq<Reply>,
    at: int,
) -> ServiceTurn<Seq<DiffModel>>
    decreases deltas.len() - i,
{
    if i < 0 || i >= deltas.len() {
        Turn::Done(done, at)
    } else if deltas[i].status is Unreadable {
        file_diffs_turn(repo, deltas, stats, i + 1, done, h, at)
    } else {
        match delta_turn(repo, deltas[i], counts_at(stats, done.len() as int), h, at) {
            Turn::Done(d, n) => file_diffs_turn(repo, deltas, stats, i + 1, done.push(d), h, n),
            Turn::Failed(e, n) => Turn::Failed(e, n),
            Turn::Ask(q) => Turn::Ask(q),
            Turn::OutOfStep => Turn::OutOfStep,
        }
    }
}

/// The changes that a diff stands for.
pub open spec fn converted_turn(repo: Seq<u8>, diff: DiffRecord, h: Seq<Reply>, at: int) ->
    ServiceTurn<Seq<DiffModel>> {
    file_diffs_turn(repo, diff.deltas@, diff.line_stats@, 0, seq![], h, at)
}

fn delta_change(kind: DeltaKind) -> (r: DiffChangeKind)
    ensures
        r == change_of_delta(kind),
{
    match kind {
        DeltaKind::Added => DiffChangeKind::Added,
        DeltaKind::Untracked => DiffChangeKind::Added,
        DeltaKind::Deleted => DiffChangeKind::Deleted,
        DeltaKind::Renamed => DiffChangeKind::Renamed,
        DeltaKind::Copied => DiffChangeKind::Copied,
        _ => DiffChangeKind::Modified,
    }
}

fn same_known(a: &Option<String>, b: &Option<String>) -> (r: bool)
    ensures
        r == (a is Some && a.model() == b.model()),
{
    match (a, b) {
        (Some(x), Some(y)) => same(x.as_str(), y.as_str()),
        _ => false,
    }
}

impl GitService {
    fn is_oversize(repo: &RawText, absent: bool, id: &Oid, io: &mut Dialogue) -> (r: ServiceResult<
        bool,
    >)
        ensures
            final(io).record() == old(io).record(),
            turn(r, final(io)) == oversize_turn(
                repo@,
                absent,
                id@,
                old(io).record(),
                old(io).at(),
            ),
    {
        if absent || id.is_zero() {
            return Ok(false);
        }
        match io.blob(Request::FindBlob(repo.copy(), *id))? {
            Some(blob) => Ok(too_large(blob)),
            None => Ok(false),
        }
    }

    fn delta_side(
        &self,
        repo: &RawText,
        absent: bool,
        omitted: bool,
        file: &DeltaFile,
        io: &mut Dialogue,
    ) -> (r: ServiceResult<FileDiffDetails>)
        ensures
            final(io).record() == old(io).record(),
            turn(r, final(io)) == side_turn(
                repo@,
                absent,
                omitted,
                *file,
                old(io).record(),
                old(io).at(),
            ),
    {
        if absent {
            return Ok(FileDiffDetails { file_name: None, content: None });
        }
        match &file.path {
            None => Ok(FileDiffDetails { file_name: None, content: None }),
            Some(path) => {
                if omitted {
                    Ok(FileDiffDetails { file_name: Some(path.to_text()), content: None })
                } else {
                    self.create_file_details(path, &file.id, repo, io)
                }
            },
        }
    }

    /// The change that a delta stands for, with these numbers of lines.
    pub fn delta_to_diff(
        &self,
        repo: &RawText,
        delta: &DeltaRecord,
        counts: Option<LineCounts>,
        io: &mut Dialogue,
    ) -> (r: ServiceResult<Diff>)
        ensures
            final(io).record() == old(io).record(),
            turn(r, final(io)) == delta_turn(
                repo@,
                *delta,
                counts,
                old(io).record(),
                old(io).at(),
            ),
    {
        let added: bool = match delta.status {
            DeltaKind::Added => true,
            _ => false,
        };
        let deleted: bool = match delta.status {
            DeltaKind::Deleted => true,
            _ => false,
        };
        let old_over: bool = GitService::is_oversize(repo, added, &delta.old_file.id, io)?;
        let new_over: bool = GitService::is_oversize(repo, deleted, &delta.new_file.id, io)?;
        let content_omitted: bool = old_over || new_over;
        let old: FileDiffDetails = self.delta_side(
            repo,
            added,
            content_omitted,
            &delta.old_file,
            io,
        )?;
        let new: FileDiffDetails = self.delta_side(
            repo,
            deleted,
            content_omitted,
            &delta.new_file,
            io,
        )?;
        let modified: bool = match delta.status {
            DeltaKind::Modified => true,
            _ => false,
        };
        let change: DiffChangeKind = if modified && delta.old_file.mode != delta.new_file.mode
            && same_known(&old.content, &new.content) {
            DiffChangeKind::PermissionChange
        } else {
            delta_change(delta.status)
        };
        let (additions, deletions) = match counts {
            Some(c) => (Some(c.additions), Some(c.deletions)),
            None => (None, None),
        };
        Ok(
            Diff {
                change,
                old_path: old.file_name,
                new_path: new.file_name,
                old_content: old.content,
                new_content: new.content,
                content_omitted,
                additions,
                deletions,
            },
        )
    }

    /// The changes that a diff between two trees stands for.
    pub fn convert_diff_to_file_diffs(
        &self,
        diff: &DiffRecord,
        repo: &RawText,
        io: &mut Dialogue,
    ) -> (r: ServiceResult<Vec<Diff>>)
        ensures
            final(io).record() == old(io).record(),
            turn(r, final(io)) == converted_turn(
                repo@,
                *diff,
                old(io).record(),
                old(io).at(),
            ),
    {
        let ghost h = io.record();
        let ghost whole = converted_turn(repo@, *diff, h, io.at());
        let mut file_diffs: Vec<Diff> = Vec::new();
        let mut i: usize = 0;
        assert(file_diffs.model() =~= seq![]);
        while i < diff.deltas.len()
            invariant
                i <= diff.deltas@.len(),
                io.record() == h,
                file_diffs@.len() <= i,
                h == old(io).record(),
                whole == converted_turn(repo@, *diff, old(io).record(), old(io).at()),
                file_diffs_turn(
                    repo@,
                    diff.deltas@,
                    diff.line_stats@,
                    i as int,
                    file_diffs.model(),
                    h,
                    io.at(),
                ) == whole,
            decreases diff.deltas@.len() - i,
        {
            let unreadable: bool = match diff.deltas[i].status {
                DeltaKind::Unreadable => true,
                _ => false,
            };
            if !unreadable {
                let position: usize = file_diffs.len();
                let counts: Option<LineCounts> = if position < diff.line_stats.len() {
                    diff.line_stats[position]
                } else {
                    None
                };
                let file_diff: Diff = self.delta_to_diff(repo, &diff.deltas[i], counts, io)?;
                file_diffs.push(file_diff);
            }
            i = i + 1;
        }
        Ok(file_diffs)
    }
}

// ---------------------------------------------------------------------------
// Changes in a worktree
// ---------------------------------------------------------------------------

/// What a reported change is called.
pub open spec fn change_of_status(change: ChangeTypeModel) -> DiffChangeKind {
    match change {
        ChangeTypeModel::Added => DiffChangeKind::Added,
        ChangeTypeModel::Deleted => DiffChangeKind::Deleted,
        ChangeTypeModel::Renamed => DiffChangeKind::Renamed,
        ChangeTypeModel::Copied => DiffChangeKind::Copied,
        _ => DiffChangeKind::Modified,
    }
}

/// The path of a changed file before the change: none for a file that was added; for one that was
/// renamed or copied the path that was reported for it; else that or its path.
pub open spec fn old_path_of(e: StatusDiffModel) -> Option<Seq<char>> {
    match e.change {
        ChangeTypeModel::Added => None,
        ChangeTypeModel::Renamed => e.old_path,
        ChangeTypeModel::Copied => e.old_path,
        ChangeTypeModel::Unknown(_) => e.old_path,
        _ => match e.old_path {
            Some(p) => Some(p),
            None => Some(e.path),
        },
    }
}

/// The path of a changed file after the change: none for a file that was deleted.
pub open spec fn new_path_of(e: StatusDiffModel) -> Option<Seq<char>> {
    if e.change is Deleted {
        None
    } else {
        Some(e.path)
    }
}

/// The blob at a path of a tree, where there is one.
pub open spec fn tree_blob_turn(
    repo: Seq<u8>,
    tree: Seq<u8>,
    path: Seq<char>,
    h: Seq<Reply>,
    at: int,
) -> ServiceTurn<Option<BlobRecord>> {
    and_then(
        entry_turn(RequestModel::FindEntry(repo, tree, utf8(path)), h, at),
        |entry: Option<TreeEntry>, n: int|
            if entry is Some && entry->0.is_blob {
                blob_turn(RequestModel::FindBlob(repo, entry->0.id@), h, n)
            } else {
                Turn::Done(None, n)
            },
    )
}

/// Whether the old content of a changed file is too large.
pub open spec fn old_oversize_turn(
    repo: Seq<u8>,
    tree: Seq<u8>,
    old_path: Option<Seq<char>>,
    h: Seq<Reply>,
    at: int,
) -> ServiceTurn<bool> {
    match old_path {
        None => Turn::Done(false, at),
        Some(p) => and_then(
            tree_blob_turn(repo, tree, p, h, at),
            |found: Option<BlobRecord>, n: int|
                Turn::Done(found is Some && is_too_large(found->0), n),
        ),
    }
}

/// Whether a file in the working directory is too large.
pub open spec fn new_oversize_turn(
    repo: Seq<u8>,
    new_path: Option<Seq<char>>,
    h: Seq<Reply>,
    at: int,
) -> ServiceTurn<bool> {
    match new_path {
        None => Turn::Done(false, at),
        Some(p) => and_then(
            found_turn(RequestModel::Workdir(repo), h, at),
            |workdir: Option<RawText>, n: int|
                match workdir {
                    None => Turn::Done(false, n),
                    Some(dir) => and_then(
                        size_turn(RequestModel::FileSize(dir@, utf8(p)), h, n),
                        |size: Option<u64>, n: int|
                            Turn::Done(size is Some && size->0 > MAX_INLINE_DIFF_BYTES, n),
                    ),
                },
        ),
    }
}

/// The text of a file as it is in a tree.
pub open spec fn old_content_turn(
    repo: Seq<u8>,
    tree: Seq<u8>,
    old_path: Option<Seq<char>>,
    h: Seq<Reply>,
    at: int,
) -> ServiceTurn<Option<Seq<char>>> {
    match old_path {
        None => Turn::Done(None, at),
        Some(p) => and_then(
            tree_blob_turn(repo, tree, p, h, at),
            |found: Option<BlobRecord>, n: int|
                match found {
                    None => Turn::Done(None, n),
                    Some(b) => Turn::Done(blob_text(b), n),
                },
        ),
    }
}

/// The text of a file as it is in the working directory.
pub open spec fn new_content_turn(
    repo: Seq<u8>,
    new_path: Option<Seq<char>>,
    h: Seq<Reply>,
    at: int,
) -> ServiceTurn<Option<Seq<char>>> {
    match new_path {
        None => Turn::Done(None, at),
        Some(p) => read_file_turn(repo, utf8(p), h, at),
    }
}

/// Both contents of a changed file, neither where they are omitted.
pub open spec fn contents_turn(
    repo: Seq<u8>,
    tree: Seq<u8>,
    old_path: Option<Seq<char>>,
    new_path: Option<Seq<char>>,
    omitted: bool,
    h: Seq<Reply>,
    at: int,
) -> ServiceTurn<(Option<Seq<char>>, Option<Seq<char>>)> {
    if omitted {
        Turn::Done((None, None), at)
    } else {
        and_then(
            old_content_turn(repo, tree, old_path, h, at),
            |old: Option<Seq<char>>, n: int|
                and_then(
                    new_content_turn(repo, new_path, h, n),
                    |new: Option<Seq<char>>, n: int| Turn::Done((old, new), n),
                ),
        )
    }
}

/// How many lines were added and deleted: all lines of the one content where there is one.
pub open spec fn line_numbers_turn(
    old: Option<Seq<char>>,
    new: Option<Seq<char>>,
    h: Seq<Reply>,
    at: int,
) -> ServiceTurn<Option<(int, int)>> {
    match (old, new) {
        (Some(o), Some(w)) => and_then(
            line_counts_turn(RequestModel::CountLineChanges(o, w), h, at),
            |c: LineCounts, n: int| Turn::Done(Some((c.additions as int, c.deletions as int)), n),
        ),
        (Some(o), None) => Turn::Done(Some((0, lines_of(o).len() as int)), at),
        (None, Some(w)) => Turn::Done(Some((lines_of(w).len() as int, 0)), at),
        (None, None) => Turn::Done(None, at),
    }
}

/// What a change is called once the contents are known: a modification that leaves the content as
/// it was is a change of permissions.
pub open spec fn final_status_change(
    change: ChangeTypeModel,
    old: Option<Seq<char>>,
    new: Option<Seq<char>>,
) -> DiffChangeKind {
    if change_of_status(change) == DiffChangeKind::Modified && old is Some && old == new {
        DiffChangeKind::PermissionChange
    } else {
        change_of_status(change)
    }
}

/// The change that a reported entry stands for.
pub open spec fn status_diff_turn(
    repo: Seq<u8>,
    tree: Seq<u8>,
    e: StatusDiffModel,
    h: Seq<Reply>,
    at: int,
) -> ServiceTurn<DiffModel> {
    let old_path = old_path_of(e);
    let new_path = new_path_of(e);
    and_then(
        old_oversize_turn(repo, tree, old_path, h, at),
        |old_over: bool, n: int|
            and_then(
                new_oversize_turn(repo, new_path, h, n),
                |new_over: bool, n: int|
                    and_then(
                        contents_turn(repo, tree, old_path, new_path, old_over || new_over, h, n),
                        |c: (Option<Seq<char>>, Option<Seq<char>>), n: int|
                            and_then(
                                line_numbers_turn(c.0, c.1, h, n),
                                |numbers: Option<(int, int)>, n: int|
                                    Turn::Done(
                                        DiffModel {
                                            change: final_status_change(e.change, c.0, c.1),
                                            old_path,
                                            new_path,
                                            old_content: c.0,
                                            new_content: c.1,
                                            content_omitted: old_over || new_over,
                                            additions: match numbers {
                                                Some(v) => Some(v.0),
                                                None => None,
                                            },
                                            deletions: match numbers {
                                                Some(v) => Some(v.1),
                                                None => None,
                                            },
                                        },
                                        n,
                                    ),
                            ),
                    ),
            ),
    )
}

/// The changes that the entries from `i` on stand for, after those in `done`.
pub open spec fn status_diffs_turn(
    repo: Seq<u8>,
    tree: Seq<u8>,
    entries: Seq<StatusDiffModel>,
    i: int,
    done: Seq<DiffModel>,
    h: Seq<Reply>,
    at: int,
) -> ServiceTurn<Seq<DiffModel>>
    decreases entries.len() - i,
{
    if i < 0 || i >= entries.len() {
        Turn::Done(done, at)
    } else {
        match status_diff_turn(repo, tree, entries[i], h, at) {
            Turn::Done(d, n) => status_diffs_turn(repo, tree, entries, i + 1, done.push(d), h, n),
            Turn::Failed(e, n) => Turn::Failed(e, n),
            Turn::Ask(q) => Turn::Ask(q),
            Turn::OutOfStep => Turn::OutOfStep,
        }
    }
}

fn status_change(change: &ChangeType) -> (r: DiffChangeKind)
    ensures
        r == change_of_status(change.model()),
{
    match change {
        ChangeType::Added => DiffChangeKind::Added,
        ChangeType::Deleted => DiffChangeKind::Deleted,
        ChangeType::Renamed => DiffChangeKind::Renamed,
        ChangeType::Copied => DiffChangeKind::Copied,
        _ => DiffChangeKind::Modified,
    }
}

fn text_again(s: &Option<String>) -> (r: Option<String>)
    ensures
        r.model() == s.model(),
{
    match s {
        Some(t) => Some(t.clone()),
        None => None,
    }
}

fn old_path(e: &StatusDiffEntry) -> (r: Option<String>)
    ensures
        r.model() == old_path_of(e.model()),
{
    match e.change {
        ChangeType::Added => None,
        ChangeType::Renamed | ChangeType::Copied | ChangeType::Unknown(_) => text_again(
            &e.old_path,
        ),
        _ => match &e.old_path {
            Some(p) => Some(p.clone()),
            None => Some(e.path.clone()),
        },
    }
}

fn new_path(e: &StatusDiffEntry) -> (r: Option<String>)
    ensures
        r.model() == new_path_of(e.model()),
{
    match e.change {
        ChangeType::Deleted => None,
        _ => Some(e.path.clone()),
    }
}

fn tree_blob_is_too_large(
    repo: &RawText,
    tree: &Oid,
    old_path: &Option<String>,
    io: &mut Dialogue,
) -> (r: ServiceResult<bool>)
    ensures
        final(io).record() == old(io).record(),
        turn(r, final(io)) == old_oversize_turn(
            repo@,
            tree@,
            old_path.model(),
            old(io).record(),
            old(io).at(),
        ),
{
    if let Some(p) = old_path {
        let path: RawText = RawText::of(p.as_str());
        if let Some(entry) = io.entry(Request::FindEntry(repo.copy(), *tree, path))? {
            if entry.is_blob {
                if let Some(blob) = io.blob(Request::FindBlob(repo.copy(), entry.id))? {
                    return Ok(too_large(blob));
                }
            }
        }
    }
    Ok(false)
}

fn file_is_too_large(repo: &RawText, new_path: &Option<String>, io: &mut Dialogue) -> (r:
    ServiceResult<bool>)
    ensures
        final(io).record() == old(io).record(),
        turn(r, final(io)) == new_oversize_turn(
            repo@,
            new_path.model(),
            old(io).record(),
            old(io).at(),
        ),
{
    if let Some(p) = new_path {
        if let Some(workdir) = io.found(Request::Workdir(repo.copy()))? {
            let path: RawText = RawText::of(p.as_str());
            if let Some(size) = io.size(Request::FileSize(workdir.copy(), path))? {
                return Ok(*size > MAX_INLINE_DIFF_BYTES as u64);
            }
        }
    }
    Ok(false)
}

fn content_in_tree(
    repo: &RawText,
    tree: &Oid,
    old_path: &Option<String>,
    io: &mut Dialogue,
) -> (r: ServiceResult<Option<String>>)
    ensures
        final(io).record() == old(io).record(),
        turn(r, final(io)) == old_content_turn(
            repo@,
            tree@,
            old_path.model(),
            old(io).record(),
            old(io).at(),
        ),
{
    if let Some(p) = old_path {
        let path: RawText = RawText::of(p.as_str());
        if let Some(entry) = io.entry(Request::FindEntry(repo.copy(), *tree, path))? {
            if entry.is_blob {
                if let Some(blob) = io.blob(Request::FindBlob(repo.copy(), entry.id))? {
                    return Ok(GitService::blob_to_string(blob));
                }
            }
        }
    }
    Ok(None)
}

fn content_on_disk(repo: &RawText, new_path: &Option<String>, io: &mut Dialogue) -> (r:
    ServiceResult<Option<String>>)
    ensures
        final(io).record() == old(io).record(),
        turn(r, final(io)) == new_content_turn(
            repo@,
            new_path.model(),
            old(io).record(),
            old(io).at(),
        ),
{
    match new_path {
        Some(p) => GitService::read_file_to_string(repo, &RawText::of(p.as_str()), io),
        None => Ok(None),
    }
}

fn line_numbers(old_content: &Option<String>, new_content: &Option<String>, io: &mut Dialogue) -> (r:
    ServiceResult<Option<(usize, usize)>>)
    ensures
        final(io).record() == old(io).record(),
        turn(r, final(io)) == line_numbers_turn(
            old_content.model(),
            new_content.model(),
            old(io).record(),
            old(io).at(),
        ),
{
    match (old_content, new_content) {
        (Some(o), Some(w)) => {
            let c: &LineCounts = io.line_counts(Request::CountLineChanges(o.clone(), w.clone()))?;
            Ok(Some((c.additions, c.deletions)))
        },
        (Some(o), None) => {
            let all: Vec<String> = lines(o.as_str());
            Ok(Some((0, all.len())))
        },
        (None, Some(w)) => {
            let all: Vec<String> = lines(w.as_str());
            Ok(Some((all.len(), 0)))
        },
        (None, None) => Ok(None),
    }
}

impl GitService {
    /// The change that a reported entry stands for, against a tree.
    pub fn status_entry_to_diff(
        repo: &RawText,
        base_tree: &Oid,
        e: &StatusDiffEntry,
        io: &mut Dialogue,
    ) -> (r: ServiceResult<Diff>)
        ensures
            final(io).record() == old(io).record(),
            turn(r, final(io)) == status_diff_turn(
                repo@,
                base_tree@,
                e.model(),
                old(io).record(),
                old(io).at(),
            ),
    {
        let old_path: Option<String> = old_path(e);
        let new_path: Option<String> = new_path(e);
        let old_over: bool = tree_blob_is_too_large(repo, base_tree, &old_path, io)?;
        let new_over: bool = file_is_too_large(repo, &new_path, io)?;
        let content_omitted: bool = old_over || new_over;
        let mut old_content: Option<String> = None;
        let mut new_content: Option<String> = None;
        if !content_omitted {
            old_content = content_in_tree(repo, base_tree, &old_path, io)?;
            new_content = content_on_disk(repo, &new_path, io)?;
        }
        let numbers: Option<(usize, usize)> = line_numbers(&old_content, &new_content, io)?;
        let reported: DiffChangeKind = status_change(&e.change);
        let change: DiffChangeKind = if reported == DiffChangeKind::Modified && same_known(
            &old_content,
            &new_content,
        ) {
            DiffChangeKind::PermissionChange
        } else {
            reported
        };
        let (additions, deletions) = match numbers {
            Some((a, d)) => (Some(a), Some(d)),
            None => (None, None),
        };
        Ok(
            Diff {
                change,
                old_path,
                new_path,
                old_content,
                new_content,
                content_omitted,
                additions,
                deletions,
            },
        )
    }

    /// The changes that some reported entries stand for, against a tree.
    pub fn status_entries_to_diffs(
        repo: &RawText,
        base_tree: &Oid,
        entries: &Vec<StatusDiffEntry>,
        io: &mut Dialogue,
    ) -> (r: ServiceResult<Vec<Diff>>)
        ensures
            final(io).record() == old(io).record(),
            turn(r, final(io)) == status_diffs_turn(
                repo@,
                base_tree@,
                entries.model(),
                0,
                seq![],
                old(io).record(),
                old(io).at(),
            ),
    {
        let ghost h = io.record();
        let ghost es = entries.model();
        let ghost whole = status_diffs_turn(repo@, base_tree@, es, 0, seq![], h, io.at());
        let mut diffs: Vec<Diff> = Vec::new();
        let mut i: usize = 0;
        assert(diffs.model() =~= seq![]);
        while i < entries.len()
            invariant
                i <= entries@.len(),
                io.record() == h,
                h == old(io).record(),
                es == entries.model(),
                whole == status_diffs_turn(
                    repo@,
                    base_tree@,
                    es,
                    0,
                    seq![],
                    old(io).record(),
                    old(io).at(),
                ),
                status_diffs_turn(repo@, base_tree@, es, i as int, diffs.model(), h, io.at())
                    == whole,
            decreases entries@.len() - i,
        {
            let diff: Diff = GitService::status_entry_to_diff(repo, base_tree, &entries[i], io)?;
            diffs.push(diff);
            i = i + 1;
        }
        Ok(diffs)
    }
}

// ---------------------------------------------------------------------------
// What is promised of changes
// ---------------------------------------------------------------------------

/// What holds of every change: contents that are omitted are not there; only known and equal
/// contents make a change of permissions; lines are counted on both sides or not at all.
pub open spec fn is_consistent(d: DiffModel) -> bool {
    &&& d.content_omitted ==> d.old_content is None && d.new_content is None
    &&& d.change == DiffChangeKind::PermissionChange ==> d.old_content is Some && d.old_content
        == d.new_content
    &&& d.additions is Some <==> d.deletions is Some
}

/// What a delta comes to: an added file has no old side and a deleted one no new side; only a
/// modification with another mode can be a change of permissions; the lines are those given.
pub proof fn law_delta_diff(
    repo: Seq<u8>,
    delta: DeltaRecord,
    counts: Option<LineCounts>,
    h: Seq<Reply>,
    at: int,
)
    ensures
        delta_turn(repo, delta, counts, h, at) matches Turn::Done(d, _) ==> {
            &&& is_consistent(d)
            &&& delta.status is Added ==> d.old_path is None && d.old_content is None
            &&& delta.status is Deleted ==> d.new_path is None && d.new_content is None
            &&& d.change == DiffChangeKind::PermissionChange ==> delta.status is Modified
                && delta.old_file.mode != delta.new_file.mode
            &&& d.change != DiffChangeKind::PermissionChange ==> d.change == change_of_delta(
                delta.status,
            )
            &&& counts matches Some(c) ==> d.additions == Some(c.additions as int) && d.deletions
                == Some(c.deletions as int)
            &&& counts is None ==> d.additions is None
        },
{
}

/// What a reported entry comes to: the paths that were reported; and, where only one content is
/// known, all its lines as added or as deleted.
pub proof fn law_status_diff(
    repo: Seq<u8>,
    tree: Seq<u8>,
    e: StatusDiffModel,
    h: Seq<Reply>,
    at: int,
)
    ensures
        status_diff_turn(repo, tree, e, h, at) matches Turn::Done(d, _) ==> {
            &&& is_consistent(d)
            &&& d.old_path == old_path_of(e)
            &&& d.new_path == new_path_of(e)
            &&& d.change != DiffChangeKind::PermissionChange ==> d.change == change_of_status(
                e.change,
            )
            &&& d.change == DiffChangeKind::PermissionChange ==> change_of_status(e.change)
                == DiffChangeKind::Modified
            &&& d.old_content is Some ==> d.old_path is Some
            &&& d.new_content is Some ==> d.new_path is Some
            &&& d.old_content is None && d.new_content is None ==> d.additions is None
            &&& d.old_content is Some && d.new_content is None ==> d.additions == Some(0int)
                && d.deletions == Some(lines_of(d.old_content->0).len() as int)
            &&& d.old_content is None && d.new_content is Some ==> d.deletions == Some(0int)
                && d.additions == Some(lines_of(d.new_content->0).len() as int)
        },
{
}

/// How many deltas are readable.
pub open spec fn readable(deltas: Seq<DeltaRecord>) -> int
    decreases deltas.len(),
{
    if deltas.len() == 0 {
        0
    } else {
        readable(deltas.drop_last()) + if deltas.last().status is Unreadable {
            0int
        } else {
            1
        }
    }
}

proof fn lemma_file_diffs(
    repo: Seq<u8>,
    deltas: Seq<DeltaRecord>,
    stats: Seq<Option<LineCounts>>,
    i: int,
    done: Seq<DiffModel>,
    h: Seq<Reply>,
    at: int,
)
    requires
        0 <= i <= deltas.len(),
        done.len() == readable(deltas.take(i)),
        forall|j: int| 0 <= j < done.len() ==> is_consistent(#[trigger] done[j]),
    ensures
        file_diffs_turn(repo, deltas, stats, i, done, h, at) matches Turn::Done(ds, _) ==> {
            &&& ds.len() == readable(deltas)
            &&& forall|j: int| 0 <= j < ds.len() ==> is_consistent(#[trigger] ds[j])
        },
    decreases deltas.len() - i,
{
    if i < deltas.len() {
        assert(deltas.take(i + 1).drop_last() =~= deltas.take(i));
        assert(deltas.take(i + 1).last() == deltas[i]);
        if deltas[i].status is Unreadable {
            lemma_file_diffs(repo, deltas, stats, i + 1, done, h, at);
        } else {
            let counts = counts_at(stats, done.len() as int);
            law_delta_diff(repo, deltas[i], counts, h, at);
            if let Turn::Done(d, n) = delta_turn(repo, deltas[i], counts, h, at) {
                lemma_file_diffs(repo, deltas, stats, i + 1, done.push(d), h, n);
            }
        }
    } else {
        assert(deltas.take(i) =~= deltas);
    }
}

/// A diff between two trees comes to one consistent change for each readable delta.
pub proof fn law_tree_diffs(repo: Seq<u8>, diff: DiffRecord, h: Seq<Reply>, at: int)
    ensures
        converted_turn(repo, diff, h, at) matches Turn::Done(ds, _) ==> {
            &&& ds.len() == readable(diff.deltas@)
            &&& forall|j: int| 0 <= j < ds.len() ==> is_consistent(#[trigger] ds[j])
        },
{
    assert(diff.deltas@.take(0) =~= seq![]);
    lemma_file_diffs(repo, diff.deltas@, diff.line_stats@, 0, seq![], h, at);
}

proof fn lemma_status_diffs(
    repo: Seq<u8>,
    tree: Seq<u8>,
    entries: Seq<StatusDiffModel>,
    i: int,
    done: Seq<DiffModel>,
    h: Seq<Reply>,
    at: int,
)
    requires
        0 <= i <= entries.len(),
        done.len() == i,
        forall|j: int| 0 <= j < i ==> is_diff_of(#[trigger] done[j], entries[j]),
    ensures
        status_diffs_turn(repo, tree, entries, i, done, h, at) matches Turn::Done(ds, _) ==> {
            &&& ds.len() == entries.len()
            &&& forall|j: int| 0 <= j < ds.len() ==> is_diff_of(#[trigger] ds[j], entries[j])
        },
    decreases entries.len() - i,
{
    if i < entries.len() {
        law_status_diff(repo, tree, entries[i], h, at);
        if let Turn::Done(d, n) = status_diff_turn(repo, tree, entries[i], h, at) {
            lemma_status_diffs(repo, tree, entries, i + 1, done.push(d), h, n);
        }
    }
}

/// Whether a change is consistent and has the paths of a reported entry.
pub open spec fn is_diff_of(d: DiffModel, e: StatusDiffModel) -> bool {
    is_consistent(d) && d.old_path == old_path_of(e) && d.new_path == new_path_of(e)
}

/// Reported entries come to one consistent change each, in the same order.
pub proof fn law_status_diffs(
    repo: Seq<u8>,
    tree: Seq<u8>,
    entries: Seq<StatusDiffModel>,
    h: Seq<Reply>,
    at: int,
)
    ensures
        status_diffs_turn(repo, tree, entries, 0, seq![], h, at) matches Turn::Done(ds, _) ==> {
            &&& ds.len() == entries.len()
            &&& forall|j: int| 0 <= j < ds.len() ==> is_diff_of(#[trigger] ds[j], entries[j])
        },
{
    lemma_status_diffs(repo, tree, entries, 0, seq![], h, at);
}

/// No content that was read from a file is larger than what a diff carries, or holds a zero byte.
pub proof fn law_file_text_is_guarded(bytes: Seq<u8>)
    ensures
        file_text(bytes) is Some ==> bytes.len() <= MAX_INLINE_DIFF_BYTES && !bytes.contains(0u8)
            && file_text(bytes) == strict_text(bytes),
{
}

} // verus!
