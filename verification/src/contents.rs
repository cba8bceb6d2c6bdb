//! What diffs show, in terms of what was replied.
use vstd::prelude::*;
use vstd::utf8::{decode_utf8, valid_utf8};

use crate::dialogue::{Reply, RequestModel, Turn};
use crate::diff::{
    converted_turn, counts_at, delta_turn, file_details_turn, file_diffs_turn, read_file_turn,
    status_diff_turn, status_diffs_turn, tree_blob_turn, DiffChangeKind, DiffModel,
    FileDetailsModel,
};
use crate::porcelain::{ChangeTypeModel, StatusDiffModel};
use crate::raw::{utf8, RawText};
use crate::records::{
    BlobRecord, DeltaFile, DeltaKind, DeltaRecord, DiffRecord, LineCounts, TreeEntry,
};
use crate::service::ServiceTurn;
use crate::text::{lines_of, utf8_lossy};

verus! {

// ---------------------------------------------------------------------------
// Blobs and files
// ---------------------------------------------------------------------------

/// Whether an id is that of no object: all its bytes are zero.
pub open spec fn is_null(id: Seq<u8>) -> bool {
    forall|i: int| 0 <= i < id.len() ==> #[trigger] id[i] == 0
}

/// The text that a diff shows of a blob: that of its bytes, where it is not binary and they are
/// UTF-8.
pub open spec fn shown_text(b: BlobRecord) -> Option<Seq<char>> {
    if valid_utf8(b.content@) && !b.is_binary {
        Some(decode_utf8(b.content@))
    } else {
        None
    }
}

/// Whether a blob is text of more than two mebibytes.
pub open spec fn is_oversize(b: Option<BlobRecord>) -> bool {
    b matches Some(r) && !r.is_binary && r.size > 2 * 1024 * 1024
}

/// The text that a diff shows of a file's bytes: none of more than two mebibytes, of a zero byte,
/// or of what is not UTF-8.
pub open spec fn shown_file(bytes: Seq<u8>) -> Option<Seq<char>> {
    if bytes.len() <= 2 * 1024 * 1024 && valid_utf8(bytes) && (forall|i: int|
        0 <= i < bytes.len() ==> #[trigger] bytes[i] != 0) {
        Some(decode_utf8(bytes))
    } else {
        None
    }
}

/// The text of a file is read from the working directory: text of up to two mebibytes is there as
/// it is, and what cannot be read or shown is not there.
pub proof fn law_file_read(
    repo: Seq<u8>,
    path: Seq<u8>,
    h: Seq<Reply>,
    at: int,
    dir: Option<RawText>,
    bytes: Option<RawText>,
)
    requires
        0 <= at <= h.len(),
        h.len() > at ==> h[at] == Reply::Found(dir),
        dir is Some && h.len() > at + 1 ==> h[at + 1] == Reply::Found(bytes),
    ensures
        h.len() == at ==> read_file_turn(repo, path, h, at) == ServiceTurn::<
            Option<Seq<char>>,
        >::Ask(RequestModel::Workdir(repo)),
        h.len() > at && dir is None ==> read_file_turn(repo, path, h, at) == ServiceTurn::Done(
            None::<Seq<char>>,
            at + 1,
        ),
        h.len() == at + 1 && dir is Some ==> read_file_turn(repo, path, h, at) == ServiceTurn::<
            Option<Seq<char>>,
        >::Ask(RequestModel::ReadFile(dir->0@, path)),
        h.len() > at + 1 && dir is Some ==> read_file_turn(repo, path, h, at) == ServiceTurn::Done(
            match bytes {
                Some(b) => shown_file(b@),
                None => None,
            },
            at + 2,
        ),
{
}

/// The text of one side of a change is that of its blob; where there is no such blob, or it has no
/// text, it is read from the working directory. The name is the text of the path.
pub proof fn law_side_shown(
    repo: Seq<u8>,
    path: Seq<u8>,
    id: Seq<u8>,
    h: Seq<Reply>,
    at: int,
    found: Option<BlobRecord>,
    content: Option<Seq<char>>,
    n: int,
)
    requires
        0 <= at <= h.len(),
        !is_null(id) && h.len() > at ==> h[at] == Reply::Blob(found),
    ensures
        !is_null(id) && h.len() == at ==> file_details_turn(repo, path, id, h, at)
            == ServiceTurn::<FileDetailsModel>::Ask(RequestModel::FindBlob(repo, id)),
        !is_null(id) && h.len() > at && found is Some && shown_text(found->0) is Some
            ==> file_details_turn(repo, path, id, h, at) == ServiceTurn::Done(
            FileDetailsModel {
                file_name: Some(utf8_lossy(path)),
                content: shown_text(found->0),
            },
            at + 1,
        ),
        !is_null(id) && h.len() > at && (found is None || shown_text(found->0) is None)
            && read_file_turn(repo, path, h, at + 1) == ServiceTurn::Done(content, n)
            ==> file_details_turn(repo, path, id, h, at) == ServiceTurn::Done(
            FileDetailsModel { file_name: Some(utf8_lossy(path)), content },
            n,
        ),
        is_null(id) && read_file_turn(repo, path, h, at) == ServiceTurn::Done(content, n)
            ==> file_details_turn(repo, path, id, h, at) == ServiceTurn::Done(
            FileDetailsModel { file_name: Some(utf8_lossy(path)), content },
            n,
        ),
{
}

// ---------------------------------------------------------------------------
// Changes between trees
// ---------------------------------------------------------------------------

/// Whether this is what a delta is called that is not a change of permissions.
pub open spec fn is_called(change: DiffChangeKind, kind: DeltaKind) -> bool {
    &&& change == DiffChangeKind::Added <==> kind == DeltaKind::Added || kind
        == DeltaKind::Untracked
    &&& change == DiffChangeKind::Deleted <==> kind == DeltaKind::Deleted
    &&& change == DiffChangeKind::Renamed <==> kind == DeltaKind::Renamed
    &&& change == DiffChangeKind::Copied <==> kind == DeltaKind::Copied
    &&& change != DiffChangeKind::PermissionChange
}

/// Whether one side of a delta is looked at for its size.
pub open spec fn is_looked_at(file: DeltaFile, absent: bool) -> bool {
    !absent && !is_null(file.id@)
}

/// Whether a reply tells of a text blob of more than two mebibytes.
pub open spec fn tells_oversize(r: Reply) -> bool {
    r matches Reply::Blob(b) && is_oversize(b)
}

/// Whether the blob of the old side of a delta was found to be too large.
pub open spec fn old_is_oversize(delta: DeltaRecord, h: Seq<Reply>, at: int) -> bool {
    is_looked_at(delta.old_file, delta.status is Added) && tells_oversize(h[at])
}

/// Where the new side of a delta is looked at for its size.
pub open spec fn new_position(delta: DeltaRecord, at: int) -> int {
    if is_looked_at(delta.old_file, delta.status is Added) {
        at + 1
    } else {
        at
    }
}

/// Whether the blob of the new side of a delta was found to be too large.
pub open spec fn new_is_oversize(delta: DeltaRecord, h: Seq<Reply>, at: int) -> bool {
    is_looked_at(delta.new_file, delta.status is Deleted) && tells_oversize(
        h[new_position(delta, at)],
    )
}

/// Where the contents of a delta are read, once its sizes are known.
pub open spec fn contents_position(delta: DeltaRecord, at: int) -> int {
    if is_looked_at(delta.new_file, delta.status is Deleted) {
        new_position(delta, at) + 1
    } else {
        new_position(delta, at)
    }
}

/// The path of one side of a delta, as text.
pub open spec fn side_path(file: DeltaFile, absent: bool) -> Option<Seq<char>> {
    if file.path is Some && !absent {
        Some(utf8_lossy(file.path->0@))
    } else {
        None
    }
}

/// Whether a side of a delta came to this content from position `p` to position `q`.
pub open spec fn is_content_of(
    repo: Seq<u8>,
    file: DeltaFile,
    absent: bool,
    content: Option<Seq<char>>,
    h: Seq<Reply>,
    p: int,
    q: int,
) -> bool {
    if file.path is None || absent {
        content is None && q == p
    } else {
        file_details_turn(repo, file.path->0@, file.id@, h, p) matches Turn::Done(f, m) && m == q
            && f.content == content
    }
}

/// Contents are omitted from a change between trees exactly where one of its blobs is text of more
/// than two mebibytes; then neither content is there. Else both sides show their contents. The
/// paths are those of the delta, an added file has no old one and a deleted file no new one; the
/// numbers of lines are those given. A modification is a change of permissions exactly where its
/// contents are there and equal, and its modes are not.
pub proof fn law_delta_shown(
    repo: Seq<u8>,
    delta: DeltaRecord,
    counts: Option<LineCounts>,
    h: Seq<Reply>,
    at: int,
    d: DiffModel,
    n: int,
)
    requires
        0 <= at,
        delta_turn(repo, delta, counts, h, at) == ServiceTurn::Done(d, n),
    ensures
        d.content_omitted <==> old_is_oversize(delta, h, at) || new_is_oversize(delta, h, at),
        d.content_omitted ==> d.old_content is None && d.new_content is None && n
            == contents_position(delta, at),
        !d.content_omitted ==> exists|q: int|
            #![
                trigger is_content_of(
                    repo,
                    delta.new_file,
                    delta.status is Deleted,
                    d.new_content,
                    h,
                    q,
                    n,
                )
            ]
            is_content_of(
                repo,
                delta.old_file,
                delta.status is Added,
                d.old_content,
                h,
                contents_position(delta, at),
                q,
            ) && is_content_of(
                repo,
                delta.new_file,
                delta.status is Deleted,
                d.new_content,
                h,
                q,
                n,
            ),
        d.old_path == side_path(delta.old_file, delta.status is Added),
        d.new_path == side_path(delta.new_file, delta.status is Deleted),
        counts is None ==> d.additions is None && d.deletions is None,
        counts is Some ==> d.additions == Some(counts->0.additions as int) && d.deletions == Some(
            counts->0.deletions as int,
        ),
        d.change == DiffChangeKind::PermissionChange <==> delta.status == DeltaKind::Modified
            && delta.old_file.mode != delta.new_file.mode && d.old_content is Some && d.new_content
            is Some && d.old_content->0 == d.new_content->0,
        d.change != DiffChangeKind::PermissionChange ==> is_called(d.change, delta.status),
{
    let p = contents_position(delta, at);
    if !d.content_omitted {
        let q = if delta.old_file.path is None || delta.status is Added {
            p
        } else {
            match file_details_turn(repo, delta.old_file.path->0@, delta.old_file.id@, h, p) {
                Turn::Done(_, m) => m,
                _ => p,
            }
        };
        assert(is_content_of(
            repo,
            delta.new_file,
            delta.status is Deleted,
            d.new_content,
            h,
            q,
            n,
        ));
    }
}

/// A change whose blobs are both text of at most two mebibytes shows the texts of both; the
/// requests are for these two blobs, first for their sizes and then for their contents.
pub proof fn law_small_texts_shown(
    repo: Seq<u8>,
    delta: DeltaRecord,
    counts: Option<LineCounts>,
    h: Seq<Reply>,
    at: int,
    old: BlobRecord,
    new: BlobRecord,
)
    requires
        0 <= at <= h.len(),
        !(delta.status is Added),
        !(delta.status is Deleted),
        delta.old_file.path is Some,
        delta.new_file.path is Some,
        !is_null(delta.old_file.id@),
        !is_null(delta.new_file.id@),
        shown_text(old) is Some,
        shown_text(new) is Some,
        old.size <= 2 * 1024 * 1024,
        new.size <= 2 * 1024 * 1024,
        h.len() > at ==> h[at] == Reply::Blob(Some(old)),
        h.len() > at + 1 ==> h[at + 1] == Reply::Blob(Some(new)),
        h.len() > at + 2 ==> h[at + 2] == Reply::Blob(Some(old)),
        h.len() > at + 3 ==> h[at + 3] == Reply::Blob(Some(new)),
    ensures
        h.len() == at || h.len() == at + 2 ==> delta_turn(repo, delta, counts, h, at)
            == ServiceTurn::<DiffModel>::Ask(RequestModel::FindBlob(repo, delta.old_file.id@)),
        h.len() == at + 1 || h.len() == at + 3 ==> delta_turn(repo, delta, counts, h, at)
            == ServiceTurn::<DiffModel>::Ask(RequestModel::FindBlob(repo, delta.new_file.id@)),
        h.len() >= at + 4 ==> (delta_turn(repo, delta, counts, h, at) matches Turn::Done(d, n) && n
            == at + 4 && !d.content_omitted && d.old_content == Some(decode_utf8(old.content@))
            && d.new_content == Some(decode_utf8(new.content@))),
{
}

/// An added file whose blob is text of at most two mebibytes shows that text, and no old content.
pub proof fn law_added_text_shown(
    repo: Seq<u8>,
    delta: DeltaRecord,
    counts: Option<LineCounts>,
    h: Seq<Reply>,
    at: int,
    new: BlobRecord,
)
    requires
        0 <= at <= h.len(),
        delta.status is Added,
        delta.new_file.path is Some,
        !is_null(delta.new_file.id@),
        shown_text(new) is Some,
        new.size <= 2 * 1024 * 1024,
        h.len() > at ==> h[at] == Reply::Blob(Some(new)),
        h.len() > at + 1 ==> h[at + 1] == Reply::Blob(Some(new)),
    ensures
        h.len() < at + 2 ==> delta_turn(repo, delta, counts, h, at) == ServiceTurn::<
            DiffModel,
        >::Ask(RequestModel::FindBlob(repo, delta.new_file.id@)),
        h.len() >= at + 2 ==> (delta_turn(repo, delta, counts, h, at) matches Turn::Done(d, n) && n
            == at + 2 && !d.content_omitted && d.old_content is None && d.new_content == Some(
            decode_utf8(new.content@),
        )),
{
}

/// A deleted file whose blob is text of at most two mebibytes shows that text, and no new content.
pub proof fn law_deleted_text_shown(
    repo: Seq<u8>,
    delta: DeltaRecord,
    counts: Option<LineCounts>,
    h: Seq<Reply>,
    at: int,
    old: BlobRecord,
)
    requires
        0 <= at <= h.len(),
        delta.status is Deleted,
        delta.old_file.path is Some,
        !is_null(delta.old_file.id@),
        shown_text(old) is Some,
        old.size <= 2 * 1024 * 1024,
        h.len() > at ==> h[at] == Reply::Blob(Some(old)),
        h.len() > at + 1 ==> h[at + 1] == Reply::Blob(Some(old)),
    ensures
        h.len() < at + 2 ==> delta_turn(repo, delta, counts, h, at) == ServiceTurn::<
            DiffModel,
        >::Ask(RequestModel::FindBlob(repo, delta.old_file.id@)),
        h.len() >= at + 2 ==> (delta_turn(repo, delta, counts, h, at) matches Turn::Done(d, n) && n
            == at + 2 && !d.content_omitted && d.new_content is None && d.old_content == Some(
            decode_utf8(old.content@),
        )),
{
}

/// Whether changes are those of some deltas, each read from where the one before it ended: all
/// deltas that are not unreadable, in order, each with the numbers of lines at its own position
/// among the changes.
pub open spec fn are_changes(
    repo: Seq<u8>,
    deltas: Seq<DeltaRecord>,
    stats: Seq<Option<LineCounts>>,
    ds: Seq<DiffModel>,
    places: Seq<int>,
    starts: Seq<int>,
    h: Seq<Reply>,
) -> bool {
    &&& places.len() == ds.len()
    &&& starts.len() == ds.len() + 1
    &&& forall|j: int|
        0 <= j < ds.len() ==> 0 <= #[trigger] places[j] < deltas.len() && 0 <= starts[j]
            && delta_turn(
            repo,
            deltas[places[j]],
            if j < stats.len() {
                stats[j]
            } else {
                None
            },
            h,
            starts[j],
        ) == ServiceTurn::Done(ds[j], starts[j + 1])
    &&& forall|i: int, j: int| 0 <= i < j < places.len()
        ==> #[trigger] places[i] < #[trigger] places[j]
    &&& forall|k: int|
        0 <= k < deltas.len() ==> (places.contains(k) <==> (#[trigger] deltas[k]).status
            != DeltaKind::Unreadable)
}

proof fn lemma_delta_ends_later(
    repo: Seq<u8>,
    delta: DeltaRecord,
    counts: Option<LineCounts>,
    h: Seq<Reply>,
    at: int,
)
    requires
        0 <= at,
    ensures
        delta_turn(repo, delta, counts, h, at) matches Turn::Done(_, n) ==> at <= n,
{
}

proof fn lemma_changes_read(
    repo: Seq<u8>,
    deltas: Seq<DeltaRecord>,
    stats: Seq<Option<LineCounts>>,
    i: int,
    done: Seq<DiffModel>,
    places: Seq<int>,
    starts: Seq<int>,
    h: Seq<Reply>,
    at: int,
) -> (r: (Seq<int>, Seq<int>))
    requires
        0 <= at,
        0 <= i <= deltas.len(),
        are_changes(repo, deltas.take(i), stats, done, places, starts, h),
        starts.last() == at,
    ensures
        file_diffs_turn(repo, deltas, stats, i, done, h, at) matches Turn::Done(ds, n)
            ==> are_changes(repo, deltas, stats, ds, r.0, r.1, h) && r.1[0] == starts[0]
                && r.1.last()
            == n,
    decreases deltas.len() - i,
{
    if i < deltas.len() {
        let front = deltas.take(i);
        let more = deltas.take(i + 1);
        assert forall|k: int| 0 <= k < i implies more[k] == front[k] by {}
        assert(more[i] == deltas[i]);
        if deltas[i].status is Unreadable {
            assert(are_changes(repo, more, stats, done, places, starts, h)) by {
                assert forall|k: int| 0 <= k < more.len() implies (places.contains(k) <==> (
                #[trigger] more[k]).status != DeltaKind::Unreadable) by {
                    if k < i {
                        assert(front[k] == more[k]);
                    } else if places.contains(k) {
                        let j = choose|j: int| 0 <= j < places.len() && places[j] == k;
                        assert(places[j] < i);
                    }
                }
                assert forall|j: int| 0 <= j < done.len() implies 0 <= #[trigger] places[j]
                    < more.len() && 0 <= starts[j] && delta_turn(
                    repo,
                    more[places[j]],
                    if j < stats.len() {
                        stats[j]
                    } else {
                        None
                    },
                    h,
                    starts[j],
                ) == ServiceTurn::Done(done[j], starts[j + 1]) by {
                    assert(front[places[j]] == more[places[j]]);
                }
            }
            lemma_changes_read(repo, deltas, stats, i + 1, done, places, starts, h, at)
        } else {
            let counts = counts_at(stats, done.len() as int);
            lemma_delta_ends_later(repo, deltas[i], counts, h, at);
            match delta_turn(repo, deltas[i], counts, h, at) {
                Turn::Done(d, m) => {
                    let ds = done.push(d);
                    let ps = places.push(i);
                    let ss = starts.push(m);
                    assert(are_changes(repo, more, stats, ds, ps, ss, h)) by {
                        assert forall|k: int| 0 <= k < more.len() implies (ps.contains(k) <==> (
                        #[trigger] more[k]).status != DeltaKind::Unreadable) by {
                            if k < i {
                                assert(front[k] == more[k]);
                                if places.contains(k) {
                                    let j = choose|j: int| 0 <= j < places.len() && places[j] == k;
                                    assert(ps[j] == k);
                                }
                                if ps.contains(k) {
                                    let j = choose|j: int| 0 <= j < ps.len() && ps[j] == k;
                                    assert(places[j] == k);
                                }
                            } else {
                                assert(ps[places.len() as int] == i);
                            }
                        }
                        assert forall|j: int| 0 <= j < ds.len() implies 0 <= #[trigger] ps[j]
                            < more.len() && 0 <= ss[j] && delta_turn(
                            repo,
                            more[ps[j]],
                            if j < stats.len() {
                                stats[j]
                            } else {
                                None
                            },
                            h,
                            ss[j],
                        ) == ServiceTurn::Done(ds[j], ss[j + 1]) by {
                            if j < done.len() {
                                assert(ps[j] == places[j]);
                                assert(front[places[j]] == more[places[j]]);
                            }
                        }
                        assert forall|a: int, b: int| 0 <= a < b < ps.len() implies #[trigger] ps[a]
                            < #[trigger] ps[b] by {
                            assert(ps[a] == places[a]);
                            if b < places.len() {
                                assert(ps[b] == places[b]);
                            }
                        }
                    }
                    lemma_changes_read(repo, deltas, stats, i + 1, ds, ps, ss, h, m)
                },
                _ => (places, starts),
            }
        }
    } else {
        assert(deltas.take(i) =~= deltas);
        (places, starts)
    }
}

/// A diff between two trees comes to the changes of its deltas: each readable delta once, in order.
pub proof fn law_every_delta_shown(
    repo: Seq<u8>,
    diff: DiffRecord,
    h: Seq<Reply>,
    at: int,
    ds: Seq<DiffModel>,
    n: int,
) -> (r: (Seq<int>, Seq<int>))
    requires
        0 <= at,
        converted_turn(repo, diff, h, at) == ServiceTurn::Done(ds, n),
    ensures
        are_changes(repo, diff.deltas@, diff.line_stats@, ds, r.0, r.1, h),
        r.1[0] == at,
        r.1.last() == n,
{
    assert(diff.deltas@.take(0) =~= seq![]);
    lemma_changes_read(
        repo,
        diff.deltas@,
        diff.line_stats@,
        0,
        seq![],
        seq![],
        seq![at],
        h,
        at,
    )
}

// ---------------------------------------------------------------------------
// Changes of a worktree
// ---------------------------------------------------------------------------

/// What stands at a path of a tree is looked up there: the blob of that entry, where it is one.
pub proof fn law_tree_blob(
    repo: Seq<u8>,
    tree: Seq<u8>,
    path: Seq<char>,
    h: Seq<Reply>,
    at: int,
    entry: Option<TreeEntry>,
    found: Option<BlobRecord>,
)
    requires
        0 <= at <= h.len(),
        h.len() > at ==> h[at] == Reply::Entry(entry),
        entry is Some && entry->0.is_blob && h.len() > at + 1 ==> h[at + 1] == Reply::Blob(found),
    ensures
        h.len() == at ==> tree_blob_turn(repo, tree, path, h, at) == ServiceTurn::<
            Option<BlobRecord>,
        >::Ask(RequestModel::FindEntry(repo, tree, utf8(path))),
        h.len() > at && (entry is None || !entry->0.is_blob) ==> tree_blob_turn(
            repo,
            tree,
            path,
            h,
            at,
        ) == ServiceTurn::Done(None::<BlobRecord>, at + 1),
        h.len() == at + 1 && entry is Some && entry->0.is_blob ==> tree_blob_turn(
            repo,
            tree,
            path,
            h,
            at,
        ) == ServiceTurn::<Option<BlobRecord>>::Ask(
            RequestModel::FindBlob(repo, entry->0.id@),
        ),
        h.len() > at + 1 && entry is Some && entry->0.is_blob ==> tree_blob_turn(
            repo,
            tree,
            path,
            h,
            at,
        ) == ServiceTurn::Done(found, at + 2),
{
}

/// Whether a file that is reported with a change had this path before: none where it was added, the
/// reported one where it was renamed or copied, and else the one it still has unless another was
/// reported.
pub open spec fn is_path_before(path: Option<Seq<char>>, e: StatusDiffModel) -> bool {
    match e.change {
        ChangeTypeModel::Added => path is None,
        ChangeTypeModel::Renamed | ChangeTypeModel::Copied | ChangeTypeModel::Unknown(_) => path
            == e.old_path,
        ChangeTypeModel::Modified
        | ChangeTypeModel::Deleted
        | ChangeTypeModel::TypeChanged
        | ChangeTypeModel::Unmerged => path == Some(
            if e.old_path is Some {
                e.old_path->0
            } else {
                e.path
            },
        ),
    }
}

/// Whether a file that is reported with a change has this path now: none where it was deleted.
pub open spec fn is_path_after(path: Option<Seq<char>>, e: StatusDiffModel) -> bool {
    if e.change == ChangeTypeModel::Deleted {
        path is None
    } else {
        path == Some(e.path)
    }
}

/// Whether looking at the size of the old content, from position `p` to `q`, found it too large.
pub open spec fn is_old_size(
    repo: Seq<u8>,
    tree: Seq<u8>,
    path: Option<Seq<char>>,
    over: bool,
    h: Seq<Reply>,
    p: int,
    q: int,
) -> bool {
    match path {
        None => q == p && !over,
        Some(x) => tree_blob_turn(repo, tree, x, h, p) matches Turn::Done(b, m) && m == q && over
            == is_oversize(b),
    }
}

/// Whether looking at the size of the file in the working directory, from position `p` to `q`,
/// found it too large.
pub open spec fn is_new_size(
    path: Option<Seq<char>>,
    over: bool,
    h: Seq<Reply>,
    p: int,
    q: int,
) -> bool {
    if path is None {
        q == p && !over
    } else {
        match h[p] {
            Reply::Found(None) => q == p + 1 && !over,
            Reply::Found(Some(_)) => q == p + 2 && match h[p + 1] {
                Reply::Size(Some(size)) => over == (size > 2 * 1024 * 1024),
                Reply::Size(None) => !over,
                _ => false,
            },
            _ => false,
        }
    }
}

/// Whether reading the old content, from position `p` to `q`, came to this.
pub open spec fn is_old_text(
    repo: Seq<u8>,
    tree: Seq<u8>,
    path: Option<Seq<char>>,
    content: Option<Seq<char>>,
    h: Seq<Reply>,
    p: int,
    q: int,
) -> bool {
    match path {
        None => q == p && content is None,
        Some(x) => tree_blob_turn(repo, tree, x, h, p) matches Turn::Done(b, m) && m == q && content
            == if b is Some {
            shown_text(b->0)
        } else {
            None
        },
    }
}

/// Whether reading the file in the working directory, from position `p` to `q`, came to this.
pub open spec fn is_new_text(
    repo: Seq<u8>,
    path: Option<Seq<char>>,
    content: Option<Seq<char>>,
    h: Seq<Reply>,
    p: int,
    q: int,
) -> bool {
    match path {
        None => q == p && content is None,
        Some(x) => read_file_turn(repo, utf8(x), h, p) == ServiceTurn::Done(content, q),
    }
}

/// Whether these numbers of lines go with these contents: those that were counted between two
/// contents, all lines of the only one, or none.
pub open spec fn is_line_count(d: DiffModel, h: Seq<Reply>, p: int, q: int) -> bool {
    if d.old_content is Some && d.new_content is Some {
        q == p + 1 && match h[p] {
            Reply::LineCounts(c) => d.additions == Some(c.additions as int) && d.deletions == Some(
                c.deletions as int,
            ),
            _ => false,
        }
    } else if d.old_content is Some {
        q == p && d.additions == Some(0int) && d.deletions == Some(
            lines_of(d.old_content->0).len() as int,
        )
    } else if d.new_content is Some {
        q == p && d.additions == Some(lines_of(d.new_content->0).len() as int) && d.deletions
            == Some(0int)
    } else {
        q == p && d.additions is None && d.deletions is None
    }
}

/// Contents are omitted from a change of a worktree exactly where the old content or the file is
/// too large; then neither is there. Else the old content is that of the tree at the old path and
/// the new one that of the file at the new path. A modification that leaves the content as it was
/// is a change of permissions; any other change is called what was reported.
pub proof fn law_entry_shown(
    repo: Seq<u8>,
    tree: Seq<u8>,
    e: StatusDiffModel,
    h: Seq<Reply>,
    at: int,
    d: DiffModel,
    n: int,
) -> (r: (bool, bool, int, int, int, int))
    requires
        0 <= at,
        status_diff_turn(repo, tree, e, h, at) == ServiceTurn::Done(d, n),
    ensures
        is_path_before(d.old_path, e),
        is_path_after(d.new_path, e),
        is_old_size(repo, tree, d.old_path, r.0, h, at, r.2),
        is_new_size(d.new_path, r.1, h, r.2, r.3),
        d.content_omitted <==> r.0 || r.1,
        d.content_omitted ==> d.old_content is None && d.new_content is None && n == r.3,
        !d.content_omitted ==> {
            &&& is_old_text(repo, tree, d.old_path, d.old_content, h, r.3, r.4)
            &&& is_new_text(repo, d.new_path, d.new_content, h, r.4, r.5)
            &&& is_line_count(d, h, r.5, n)
        },
        d.content_omitted ==> d.additions is None && d.deletions is None,
        d.change == DiffChangeKind::PermissionChange <==> !(e.change is Added) && !(e.change
            is Deleted) && !(e.change is Renamed) && !(e.change is Copied) && d.old_content is Some
            && d.new_content is Some && d.old_content->0 == d.new_content->0,
        d.change != DiffChangeKind::PermissionChange ==> {
            &&& d.change == DiffChangeKind::Added <==> e.change is Added
            &&& d.change == DiffChangeKind::Deleted <==> e.change is Deleted
            &&& d.change == DiffChangeKind::Renamed <==> e.change is Renamed
            &&& d.change == DiffChangeKind::Copied <==> e.change is Copied
        },
{
    let (old_over, n1) = match d.old_path {
        None => (false, at),
        Some(p) => match tree_blob_turn(repo, tree, p, h, at) {
            Turn::Done(b, m) => (is_oversize(b), m),
            _ => (false, at),
        },
    };
    let (new_over, n2) = if d.new_path is None {
        (false, n1)
    } else {
        match h[n1] {
            Reply::Found(None) => (false, n1 + 1),
            Reply::Found(Some(_)) => match h[n1 + 1] {
                Reply::Size(Some(size)) => (size > 2 * 1024 * 1024, n1 + 2),
                _ => (false, n1 + 2),
            },
            _ => (false, n1),
        }
    };
    let n3 = match d.old_path {
        None => n2,
        Some(p) => match tree_blob_turn(repo, tree, p, h, n2) {
            Turn::Done(_, m) => m,
            _ => n2,
        },
    };
    let n4 = match d.new_path {
        None => n3,
        Some(p) => match read_file_turn(repo, utf8(p), h, n3) {
            Turn::Done(_, m) => m,
            _ => n3,
        },
    };
    (old_over, new_over, n1, n2, n3, n4)
}

/// A modified file of a worktree, whose old blob and whose file are text of at most two mebibytes,
/// shows both texts and the lines that were counted between them. What is asked is the entry at its
/// path in the tree and that blob, and the size and the bytes of the file at its path.
pub proof fn law_modified_file_shown(
    repo: Seq<u8>,
    tree: Seq<u8>,
    e: StatusDiffModel,
    h: Seq<Reply>,
    at: int,
    entry: TreeEntry,
    old: BlobRecord,
    dir: RawText,
    size: u64,
    bytes: RawText,
    counts: LineCounts,
)
    requires
        0 <= at <= h.len(),
        e.change is Modified,
        e.old_path is None,
        entry.is_blob,
        shown_text(old) is Some,
        old.size <= 2 * 1024 * 1024,
        size <= 2 * 1024 * 1024,
        shown_file(bytes@) is Some,
        h.len() > at ==> h[at] == Reply::Entry(Some(entry)),
        h.len() > at + 1 ==> h[at + 1] == Reply::Blob(Some(old)),
        h.len() > at + 2 ==> h[at + 2] == Reply::Found(Some(dir)),
        h.len() > at + 3 ==> h[at + 3] == Reply::Size(Some(size)),
        h.len() > at + 4 ==> h[at + 4] == Reply::Entry(Some(entry)),
        h.len() > at + 5 ==> h[at + 5] == Reply::Blob(Some(old)),
        h.len() > at + 6 ==> h[at + 6] == Reply::Found(Some(dir)),
        h.len() > at + 7 ==> h[at + 7] == Reply::Found(Some(bytes)),
        h.len() > at + 8 ==> h[at + 8] == Reply::LineCounts(counts),
    ensures
        h.len() == at || h.len() == at + 4 ==> status_diff_turn(repo, tree, e, h, at)
            == ServiceTurn::<DiffModel>::Ask(RequestModel::FindEntry(repo, tree, utf8(e.path))),
        h.len() == at + 1 || h.len() == at + 5 ==> status_diff_turn(repo, tree, e, h, at)
            == ServiceTurn::<DiffModel>::Ask(RequestModel::FindBlob(repo, entry.id@)),
        h.len() == at + 2 || h.len() == at + 6 ==> status_diff_turn(repo, tree, e, h, at)
            == ServiceTurn::<DiffModel>::Ask(RequestModel::Workdir(repo)),
        h.len() == at + 3 ==> status_diff_turn(repo, tree, e, h, at) == ServiceTurn::<
            DiffModel,
        >::Ask(RequestModel::FileSize(dir@, utf8(e.path))),
        h.len() == at + 7 ==> status_diff_turn(repo, tree, e, h, at) == ServiceTurn::<
            DiffModel,
        >::Ask(RequestModel::ReadFile(dir@, utf8(e.path))),
        h.len() == at + 8 ==> status_diff_turn(repo, tree, e, h, at) == ServiceTurn::<
            DiffModel,
        >::Ask(
            RequestModel::CountLineChanges(decode_utf8(old.content@), decode_utf8(bytes@)),
        ),
        h.len() >= at + 9 ==> (status_diff_turn(repo, tree, e, h, at) matches Turn::Done(d, n) && n
            == at + 9 && !d.content_omitted && d.old_content == Some(decode_utf8(old.content@))
            && d.new_content == Some(decode_utf8(bytes@)) && d.additions == Some(
            counts.additions as int,
        ) && d.deletions == Some(counts.deletions as int)),
{
}

/// An added file of a worktree, of at most two mebibytes of text, shows that text, and all its
/// lines as added.
pub proof fn law_added_file_shown(
    repo: Seq<u8>,
    tree: Seq<u8>,
    e: StatusDiffModel,
    h: Seq<Reply>,
    at: int,
    dir: RawText,
    size: u64,
    bytes: RawText,
)
    requires
        0 <= at <= h.len(),
        e.change is Added,
        size <= 2 * 1024 * 1024,
        shown_file(bytes@) is Some,
        h.len() > at ==> h[at] == Reply::Found(Some(dir)),
        h.len() > at + 1 ==> h[at + 1] == Reply::Size(Some(size)),
        h.len() > at + 2 ==> h[at + 2] == Reply::Found(Some(dir)),
        h.len() > at + 3 ==> h[at + 3] == Reply::Found(Some(bytes)),
    ensures
        h.len() == at || h.len() == at + 2 ==> status_diff_turn(repo, tree, e, h, at)
            == ServiceTurn::<DiffModel>::Ask(RequestModel::Workdir(repo)),
        h.len() == at + 1 ==> status_diff_turn(repo, tree, e, h, at) == ServiceTurn::<
            DiffModel,
        >::Ask(RequestModel::FileSize(dir@, utf8(e.path))),
        h.len() == at + 3 ==> status_diff_turn(repo, tree, e, h, at) == ServiceTurn::<
            DiffModel,
        >::Ask(RequestModel::ReadFile(dir@, utf8(e.path))),
        h.len() >= at + 4 ==> (status_diff_turn(repo, tree, e, h, at) matches Turn::Done(d, n) && n
            == at + 4 && !d.content_omitted && d.old_content is None && d.new_content == Some(
            decode_utf8(bytes@),
        ) && d.deletions == Some(0int) && d.additions == Some(
            lines_of(decode_utf8(bytes@)).len() as int,
        )),
{
}

/// Whether a change is that of a reported entry, read from position `p` to `q`.
pub open spec fn is_entry_change(
    repo: Seq<u8>,
    tree: Seq<u8>,
    e: StatusDiffModel,
    d: DiffModel,
    h: Seq<Reply>,
    p: int,
    q: int,
) -> bool {
    0 <= p && status_diff_turn(repo, tree, e, h, p) == ServiceTurn::Done(d, q)
}

/// Whether changes are those of some reported entries, one each and in order, each read from where
/// the one before it ended.
pub open spec fn are_entry_changes(
    repo: Seq<u8>,
    tree: Seq<u8>,
    entries: Seq<StatusDiffModel>,
    ds: Seq<DiffModel>,
    starts: Seq<int>,
    h: Seq<Reply>,
) -> bool {
    &&& starts.len() == ds.len() + 1
    &&& forall|j: int|
        0 <= j < ds.len() ==> is_entry_change(
            repo,
            tree,
            entries[j],
            #[trigger] ds[j],
            h,
            starts[j],
            starts[j + 1],
        )
}

proof fn lemma_entry_ends_later(
    repo: Seq<u8>,
    tree: Seq<u8>,
    e: StatusDiffModel,
    h: Seq<Reply>,
    at: int,
)
    requires
        0 <= at,
    ensures
        status_diff_turn(repo, tree, e, h, at) matches Turn::Done(_, n) ==> at <= n,
{
}

proof fn lemma_entries_read(
    repo: Seq<u8>,
    tree: Seq<u8>,
    entries: Seq<StatusDiffModel>,
    i: int,
    done: Seq<DiffModel>,
    starts: Seq<int>,
    h: Seq<Reply>,
    at: int,
) -> (r: Seq<int>)
    requires
        0 <= at,
        0 <= i <= entries.len(),
        done.len() == i,
        are_entry_changes(repo, tree, entries, done, starts, h),
        starts.last() == at,
    ensures
        status_diffs_turn(repo, tree, entries, i, done, h, at) matches Turn::Done(ds, n)
            ==> ds.len() == entries.len() && are_entry_changes(repo, tree, entries, ds, r, h)
                && r[0]
            == starts[0] && r.last() == n,
    decreases entries.len() - i,
{
    if i < entries.len() {
        lemma_entry_ends_later(repo, tree, entries[i], h, at);
        match status_diff_turn(repo, tree, entries[i], h, at) {
            Turn::Done(d, m) => {
                let ds = done.push(d);
                let ss = starts.push(m);
                assert(are_entry_changes(repo, tree, entries, ds, ss, h)) by {
                    assert forall|j: int| 0 <= j < ds.len() implies is_entry_change(
                        repo,
                        tree,
                        entries[j],
                        #[trigger] ds[j],
                        h,
                        ss[j],
                        ss[j + 1],
                    ) by {
                        if j < i {
                            assert(ds[j] == done[j]);
                            assert(ss[j] == starts[j]);
                            assert(ss[j + 1] == starts[j + 1]);
                        } else {
                            assert(ss[j] == at);
                            assert(ss[j + 1] == m);
                        }
                    }
                }
                lemma_entries_read(repo, tree, entries, i + 1, ds, ss, h, m)
            },
            _ => starts,
        }
    } else {
        starts
    }
}

/// Reported entries come to one change each, in the same order, each as it is read from the tree
/// and the working directory.
pub proof fn law_every_entry_shown(
    repo: Seq<u8>,
    tree: Seq<u8>,
    entries: Seq<StatusDiffModel>,
    h: Seq<Reply>,
    at: int,
    ds: Seq<DiffModel>,
    n: int,
) -> (starts: Seq<int>)
    requires
        0 <= at,
        status_diffs_turn(repo, tree, entries, 0, seq![], h, at) == ServiceTurn::Done(ds, n),
    ensures
        ds.len() == entries.len(),
        are_entry_changes(repo, tree, entries, ds, starts, h),
        starts[0] == at,
        starts.last() == n,
{
    lemma_entries_read(repo, tree, entries, 0, seq![], seq![at], h, at)
}

} // verus!
