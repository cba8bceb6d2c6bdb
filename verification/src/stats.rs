//! How often and how recently files were changed.
use vstd::prelude::*;

use crate::dialogue::{
    accept, accepted, and_then, commit_turn, id_turn, ids_turn, paths_turn, turn, Dialogue,
    Interrupt, Reply, Request, RequestModel, Turn, WalkOrder,
};
use crate::errors::{GitError, GitServiceError, ServiceErrorModel};
use crate::model::{lemma_models_push, Model};
use crate::oid::Oid;
use crate::raw::RawText;
use crate::records::{ChangedPaths, CommitInfo};
use crate::service::{open_turn, GitService, ServiceResult, ServiceTurn};
use crate::text::{same, utf8_lossy};
use crate::time::{commit_time, time_of_commit, Timestamp};

verus! {

broadcast use lemma_models_push;

/// How often and how recently a file was changed.
#[derive(Debug, Clone, Copy, PartialEq, Eq)]
pub struct FileStat {
    /// The position of the latest commit that changed the file: zero for the latest of all.
    pub last_index: usize,
    /// How many times the file was changed.
    pub commit_count: usize,
    /// When the latest commit that changed the file was made.
    pub last_time: Timestamp,
}

/// A file and its statistics.
#[derive(Debug, PartialEq, Eq)]
pub struct FileEntry {
    pub path: String,
    pub stat: FileStat,
}

/// The statistics of files, each file once.
#[derive(Debug)]
pub struct FileStats {
    files: Vec<FileEntry>,
}

/// What a list of files and statistics stands for; a later entry overrules an earlier one.
pub open spec fn stats_map(files: Seq<FileEntry>) -> Map<Seq<char>, FileStat>
    decreases files.len(),
{
    if files.len() == 0 {
        Map::empty()
    } else {
        stats_map(files.drop_last()).insert(files.last().path@, files.last().stat)
    }
}

/// Whether no file occurs twice.
pub open spec fn distinct_files(files: Seq<FileEntry>) -> bool {
    forall|i: int, j: int|
        0 <= i < j < files.len() ==> (#[trigger] files[i]).path@ != (#[trigger] files[j]).path@
}

impl View for FileStats {
    type V = Map<Seq<char>, FileStat>;

    closed spec fn view(&self) -> Map<Seq<char>, FileStat> {
        stats_map(self.files@)
    }
}

impl Model for FileStats {
    type M = Map<Seq<char>, FileStat>;

    open spec fn model(&self) -> Map<Seq<char>, FileStat> {
        self@
    }
}

proof fn lemma_stats_map_at(files: Seq<FileEntry>, i: int)
    requires
        distinct_files(files),
        0 <= i < files.len(),
    ensures
        stats_map(files).contains_key(files[i].path@),
        stats_map(files)[files[i].path@] == files[i].stat,
    decreases files.len(),
{
    if i < files.len() - 1 {
        assert(files.drop_last()[i] == files[i]);
        assert(distinct_files(files.drop_last())) by {
            assert forall|a: int, b: int| 0 <= a < b < files.drop_last().len() implies (
            #[trigger] files.drop_last()[a]).path@ != (#[trigger] files.drop_last()[b]).path@ by {
                assert(files.drop_last()[a] == files[a] && files.drop_last()[b] == files[b]);
            }
        }
        lemma_stats_map_at(files.drop_last(), i);
        assert(files[i].path@ != files[files.len() - 1].path@);
    }
}

proof fn lemma_stats_map_without(files: Seq<FileEntry>, path: Seq<char>)
    requires
        forall|i: int| 0 <= i < files.len() ==> (#[trigger] files[i]).path@ != path,
    ensures
        !stats_map(files).contains_key(path),
    decreases files.len(),
{
    if files.len() > 0 {
        assert forall|i: int| 0 <= i < files.drop_last().len() implies (
        #[trigger] files.drop_last()[i]).path@ != path by {
            assert(files.drop_last()[i] == files[i]);
        }
        lemma_stats_map_without(files.drop_last(), path);
        assert(files[files.len() - 1].path@ != path);
    }
}

proof fn lemma_stats_map_update(files: Seq<FileEntry>, i: int, e: FileEntry)
    requires
        distinct_files(files),
        0 <= i < files.len(),
        e.path@ == files[i].path@,
    ensures
        stats_map(files.update(i, e)) == stats_map(files).insert(e.path@, e.stat),
        distinct_files(files.update(i, e)),
    decreases files.len(),
{
    let updated = files.update(i, e);
    assert forall|a: int, b: int| 0 <= a < b < updated.len() implies (#[trigger] updated[a]).path@
        != (#[trigger] updated[b]).path@ by {
        assert(files[a].path@ != files[b].path@);
    }
    if i == files.len() - 1 {
        assert(updated.drop_last() =~= files.drop_last());
        assert(stats_map(updated) =~= stats_map(files).insert(e.path@, e.stat));
    } else {
        let shorter = files.drop_last();
        assert(shorter[i] == files[i]);
        assert forall|a: int, b: int| 0 <= a < b < shorter.len() implies (
        #[trigger] shorter[a]).path@ != (#[trigger] shorter[b]).path@ by {
            assert(shorter[a] == files[a] && shorter[b] == files[b]);
        }
        lemma_stats_map_update(shorter, i, e);
        assert(updated.drop_last() =~= shorter.update(i, e));
        assert(files[i].path@ != files[files.len() - 1].path@);
        assert(stats_map(updated) =~= stats_map(files).insert(e.path@, e.stat));
    }
}

// ---------------------------------------------------------------------------
// What commits tell
// ---------------------------------------------------------------------------

/// A commit and the files that it changes.
#[derive(Debug, Clone, Copy)]
pub struct CommitRecord<'a> {
    /// When the commit was made.
    pub seconds: i64,
    /// The time at which this commit was read.
    pub now: Timestamp,
    pub changes: &'a Vec<ChangedPaths>,
}

/// What a `CommitRecord` stands for.
pub struct CommitModel {
    pub seconds: i64,
    pub now: Timestamp,
    pub changes: Seq<ChangedPaths>,
}

impl<'a> Model for CommitRecord<'a> {
    type M = CommitModel;

    open spec fn model(&self) -> CommitModel {
        CommitModel { seconds: self.seconds, now: self.now, changes: self.changes@ }
    }
}

/// That a file was changed, by the commit at a position, which was made at a time.
pub struct Touch {
    pub path: Seq<char>,
    pub index: int,
    pub time: Timestamp,
}

/// The file that a change is counted for: by its new path, else its old one.
pub open spec fn path_of_change(c: ChangedPaths) -> Option<Seq<char>> {
    match c.new_path {
        Some(p) => Some(utf8_lossy(p@)),
        None => match c.old_path {
            Some(p) => Some(utf8_lossy(p@)),
            None => None,
        },
    }
}

/// What the changes of one commit tell.
pub open spec fn commit_touches(changes: Seq<ChangedPaths>, index: int, time: Timestamp) -> Seq<
    Touch,
>
    decreases changes.len(),
{
    if changes.len() == 0 {
        seq![]
    } else {
        let before = commit_touches(changes.drop_last(), index, time);
        match path_of_change(changes.last()) {
            Some(path) => before.push(Touch { path, index, time }),
            None => before,
        }
    }
}

/// What some commits tell, in order.
pub open spec fn touches(commits: Seq<CommitModel>) -> Seq<Touch>
    decreases commits.len(),
{
    if commits.len() == 0 {
        seq![]
    } else {
        let c = commits.last();
        touches(commits.drop_last()) + commit_touches(
            c.changes,
            commits.len() - 1,
            commit_time(c.seconds, c.now),
        )
    }
}

/// One more change of a file: it counts, and the commit closest to the latest one is kept.
pub open spec fn touched(stats: Map<Seq<char>, FileStat>, t: Touch) -> Map<Seq<char>, FileStat> {
    let stat = if stats.contains_key(t.path) {
        let s = stats[t.path];
        let commit_count = if s.commit_count < usize::MAX {
            (s.commit_count + 1) as usize
        } else {
            usize::MAX
        };
        if t.index < s.last_index {
            FileStat { last_index: t.index as usize, commit_count, last_time: t.time }
        } else {
            FileStat { commit_count, ..s }
        }
    } else {
        FileStat { last_index: t.index as usize, commit_count: 1, last_time: t.time }
    };
    stats.insert(t.path, stat)
}

/// The statistics after some changes.
pub open spec fn stats_after(ts: Seq<Touch>) -> Map<Seq<char>, FileStat>
    decreases ts.len(),
{
    if ts.len() == 0 {
        Map::empty()
    } else {
        touched(stats_after(ts.drop_last()), ts.last())
    }
}

// ---------------------------------------------------------------------------
// Reading commits
// ---------------------------------------------------------------------------

/// The tree of the first parent of a commit; none for a commit without parents.
pub open spec fn parent_tree_turn(
    repo: Seq<u8>,
    id: Seq<u8>,
    parents: usize,
    h: Seq<Reply>,
    at: int,
) -> ServiceTurn<Option<Seq<u8>>> {
    if parents == 0 {
        Turn::Done(None, at)
    } else {
        and_then(
            accepted(id_turn(RequestModel::ParentOf(repo, id), h, at)),
            |parent: Oid, n: int|
                and_then(
                    accepted(id_turn(RequestModel::TreeOf(repo, parent@), h, n)),
                    |tree: Oid, n: int| Turn::Done(Some(tree@), n),
                ),
        )
    }
}

/// A commit and the files that it changes: those that differ between its tree and the tree of its
/// first parent, or all its files where it has no parent.
pub open spec fn commit_changes_turn(repo: Seq<u8>, id: Seq<u8>, h: Seq<Reply>, at: int) ->
    ServiceTurn<CommitModel> {
    and_then(
        accepted(commit_turn(RequestModel::FindCommit(repo, id), h, at)),
        |c: CommitInfo, n: int|
            and_then(
                accepted(id_turn(RequestModel::TreeOf(repo, id), h, n)),
                |tree: Oid, n: int|
                    and_then(
                        parent_tree_turn(repo, id, c.parents, h, n),
                        |parent_tree: Option<Seq<u8>>, n: int|
                            and_then(
                                accepted(
                                    paths_turn(
                                        RequestModel::ChangedFiles(repo, parent_tree, tree@),
                                        h,
                                        n,
                                    ),
                                ),
                                |changes: Vec<ChangedPaths>, n: int|
                                    Turn::Done(
                                        CommitModel {
                                            seconds: c.seconds,
                                            now: c.now,
                                            changes: changes@,
                                        },
                                        n,
                                    ),
                            ),
                    ),
            ),
    )
}

/// The commits from position `i` of a walk on, after those in `done`.
pub open spec fn walked_turn(
    repo: Seq<u8>,
    ids: Seq<Result<Oid, GitError>>,
    i: int,
    done: Seq<CommitModel>,
    h: Seq<Reply>,
    at: int,
) -> ServiceTurn<Seq<CommitModel>>
    decreases ids.len() - i,
{
    if i < 0 || i >= ids.len() {
        Turn::Done(done, at)
    } else {
        match ids[i] {
            Err(e) => Turn::Failed(ServiceErrorModel::Git(e.model()), at),
            Ok(id) => match commit_changes_turn(repo, id@, h, at) {
                Turn::Done(c, n) => walked_turn(repo, ids, i + 1, done.push(c), h, n),
                Turn::Failed(e, n) => Turn::Failed(e, n),
                Turn::Ask(q) => Turn::Ask(q),
                Turn::OutOfStep => Turn::OutOfStep,
            },
        }
    }
}

/// The first commits of a walk, at most so many.
pub open spec fn limited(ids: Seq<Result<Oid, GitError>>, limit: int) -> Seq<
    Result<Oid, GitError>,
> {
    if ids.len() > limit {
        ids.take(limit)
    } else {
        ids
    }
}

/// The statistics of the files that the latest commits changed.
pub open spec fn file_stats_turn(path: Seq<u8>, limit: int, h: Seq<Reply>, at: int) -> ServiceTurn<
    Map<Seq<char>, FileStat>,
> {
    and_then(
        open_turn(path, h, at),
        |u: (), n: int|
            and_then(
                accepted(ids_turn(RequestModel::Walk(path, WalkOrder::ByTime, limit), h, n)),
                |ids: Vec<Result<Oid, GitError>>, n: int|
                    and_then(
                        walked_turn(path, limited(ids@, limit), 0, seq![], h, n),
                        |commits: Seq<CommitModel>, n: int|
                            Turn::Done(stats_after(touches(commits)), n),
                    ),
            ),
    )
}

impl FileStats {
    /// Whether no file occurs twice.
    #[verifier::type_invariant]
    spec fn well_formed(self) -> bool {
        distinct_files(self.files@)
    }

    /// No statistics.
    pub fn new() -> (r: FileStats)
        ensures
            r@ == Map::<Seq<char>, FileStat>::empty(),
    {
        FileStats { files: Vec::new() }
    }

    /// The files and their statistics.
    pub fn entries(&self) -> (r: &Vec<FileEntry>)
        ensures
            distinct_files(r@),
            stats_map(r@) == self@,
    {
        proof {
            use_type_invariant(self);
        }
        &self.files
    }

    /// The statistics of a file.
    pub fn get(&self, path: &str) -> (r: Option<FileStat>)
        ensures
            r == if self@.contains_key(path@) {
                Some(self@[path@])
            } else {
                None
            },
    {
        proof {
            use_type_invariant(self);
        }
        match self.find(path) {
            Some(i) => {
                proof {
                    lemma_stats_map_at(self.files@, i as int);
                }
                Some(self.files[i].stat)
            },
            None => {
                proof {
                    lemma_stats_map_without(self.files@, path@);
                }
                None
            },
        }
    }

    fn find(&self, path: &str) -> (r: Option<usize>)
        ensures
            match r {
                Some(i) => i < self.files@.len() && self.files@[i as int].path@ == path@,
                None => forall|i: int|
                    0 <= i < self.files@.len() ==> (#[trigger] self.files@[i]).path@ != path@,
            },
    {
        let mut i: usize = 0;
        while i < self.files.len()
            invariant
                i <= self.files@.len(),
                forall|j: int| 0 <= j < i ==> (#[trigger] self.files@[j]).path@ != path@,
            decreases self.files@.len() - i,
        {
            if same(self.files[i].path.as_str(), path) {
                return Some(i);
            }
            i = i + 1;
        }
        None
    }

    /// Counts one more change of a file, by the commit at a position, which was made at a time.
    pub fn touch(self, path: String, index: usize, time: Timestamp) -> (r: FileStats)
        ensures
            r@ == touched(self@, (Touch { path: path@, index: index as int, time })),
    {
        proof {
            use_type_invariant(&self);
        }
        let found: Option<usize> = self.find(path.as_str());
        let mut files: Vec<FileEntry> = self.files;
        match found {
            Some(i) => {
                proof {
                    lemma_stats_map_at(files@, i as int);
                }
                let old_stat: FileStat = files[i].stat;
                let commit_count: usize = if old_stat.commit_count < usize::MAX {
                    old_stat.commit_count + 1
                } else {
                    usize::MAX
                };
                let stat: FileStat = if index < old_stat.last_index {
                    FileStat { last_index: index, commit_count, last_time: time }
                } else {
                    FileStat {
                        last_index: old_stat.last_index,
                        commit_count,
                        last_time: old_stat.last_time,
                    }
                };
                let entry: FileEntry = FileEntry { path, stat };
                proof {
                    lemma_stats_map_update(files@, i as int, entry);
                }
                files.set(i, entry);
                FileStats { files }
            },
            None => {
                proof {
                    lemma_stats_map_without(files@, path@);
                }
                let ghost before = files@;
                let stat: FileStat = FileStat { last_index: index, commit_count: 1, last_time: time };
                files.push(FileEntry { path, stat });
                proof {
                    assert(files@.drop_last() =~= before);
                    assert forall|a: int, b: int| 0 <= a < b < files@.len() implies (
                    #[trigger] files@[a]).path@ != (#[trigger] files@[b]).path@ by {
                        assert(before[a].path@ != path@);
                        if b < before.len() {
                            assert(before[a].path@ != before[b].path@);
                        }
                    }
                }
                FileStats { files }
            },
        }
    }
}

fn change_path(c: &ChangedPaths) -> (r: Option<String>)
    ensures
        r.model() == path_of_change(*c),
{
    match &c.new_path {
        Some(p) => Some(p.to_text()),
        None => match &c.old_path {
            Some(p) => Some(p.to_text()),
            None => None,
        },
    }
}

fn touch_all(stats: FileStats, changes: &Vec<ChangedPaths>, index: usize, time: Timestamp) -> (r:
    FileStats)
    ensures
        forall|ts: Seq<Touch>|
            stats@ == #[trigger] stats_after(ts) ==> r@ == stats_after(
                ts + commit_touches(changes@, index as int, time),
            ),
{
    let ghost start = stats@;
    let mut out: FileStats = stats;
    let mut j: usize = 0;
    proof {
        assert forall|ts: Seq<Touch>| start == #[trigger] stats_after(ts) implies out@
            == stats_after(ts + commit_touches(changes@.take(0), index as int, time)) by {
            assert(ts + commit_touches(changes@.take(0), index as int, time) =~= ts);
        }
    }
    while j < changes.len()
        invariant
            j <= changes@.len(),
            forall|ts: Seq<Touch>|
                start == #[trigger] stats_after(ts) ==> out@ == stats_after(
                    ts + commit_touches(changes@.take(j as int), index as int, time),
                ),
        decreases changes@.len() - j,
    {
        let ghost so_far = out@;
        let ghost some = commit_touches(changes@.take(j as int), index as int, time);
        assert(changes@.take(j + 1).drop_last() =~= changes@.take(j as int));
        assert(changes@.take(j + 1).last() == changes@[j as int]);
        if let Some(path) = change_path(&changes[j]) {
            let ghost t = Touch { path: path@, index: index as int, time };
            out = out.touch(path, index, time);
            proof {
                assert forall|ts: Seq<Touch>| start == #[trigger] stats_after(ts) implies out@
                    == stats_after(ts + some.push(t)) by {
                    assert((ts + some.push(t)).drop_last() =~= ts + some);
                    assert((ts + some.push(t)).last() == t);
                }
            }
        }
        j = j + 1;
    }
    assert(changes@.take(j as int) =~= changes@);
    out
}

/// The statistics of the files that some commits changed.
pub fn stats_of_commits(commits: &Vec<CommitRecord>) -> (r: FileStats)
    ensures
        r@ == stats_after(touches(commits.model())),
{
    let ghost all = commits.model();
    let mut stats: FileStats = FileStats::new();
    let mut i: usize = 0;
    while i < commits.len()
        invariant
            i <= commits@.len(),
            all == commits.model(),
            stats@ == stats_after(touches(all.take(i as int))),
        decreases commits@.len() - i,
    {
        let c: &CommitRecord = &commits[i];
        assert(all.take(i + 1).drop_last() =~= all.take(i as int));
        assert(all.take(i + 1).last() == c.model());
        let time: Timestamp = time_of_commit(c.seconds, c.now);
        stats = touch_all(stats, c.changes, i, time);
        i = i + 1;
    }
    assert(all.take(i as int) =~= all);
    stats
}

impl GitService {
    /// The tree of the first parent of a commit; none for a commit without parents.
    fn parent_tree(repo: &RawText, id: &Oid, parents: usize, io: &mut Dialogue) -> (r: ServiceResult<
        Option<Oid>,
    >)
        ensures
            final(io).record() == old(io).record(),
            turn(r, final(io)) == parent_tree_turn(
                repo@,
                id@,
                parents,
                old(io).record(),
                old(io).at(),
            ),
    {
        if parents == 0 {
            return Ok(None);
        }
        let parent: &Oid = accept(io.id(Request::ParentOf(repo.copy(), *id)))?;
        let tree: &Oid = accept(io.id(Request::TreeOf(repo.copy(), *parent)))?;
        Ok(Some(*tree))
    }

    /// A commit and the files that it changes.
    fn commit_changes<'a>(repo: &RawText, id: &Oid, io: &mut Dialogue<'a>) -> (r: ServiceResult<
        CommitRecord<'a>,
    >)
        ensures
            final(io).record() == old(io).record(),
            turn(r, final(io)) == commit_changes_turn(repo@, id@, old(io).record(), old(io).at()),
    {
        let commit: &CommitInfo = accept(io.commit(Request::FindCommit(repo.copy(), *id)))?;
        let tree: &Oid = accept(io.id(Request::TreeOf(repo.copy(), *id)))?;
        let parent_tree: Option<Oid> = GitService::parent_tree(repo, id, commit.parents, io)?;
        let changes: &'a Vec<ChangedPaths> = accept(
            io.paths(Request::ChangedFiles(repo.copy(), parent_tree, *tree)),
        )?;
        Ok(CommitRecord { seconds: commit.seconds, now: commit.now, changes })
    }

    /// The statistics of the files that the latest commits changed, at most `commit_limit` of
    /// them.
    pub fn collect_recent_file_stats(
        &self,
        repo_path: &RawText,
        commit_limit: usize,
        io: &mut Dialogue,
    ) -> (r: ServiceResult<FileStats>)
        ensures
            final(io).record() == old(io).record(),
            turn(r, final(io)) == file_stats_turn(
                repo_path@,
                commit_limit as int,
                old(io).record(),
                old(io).at(),
            ),
    {
        let ghost h = io.record();
        self.open_repo(repo_path, io)?;
        let ids: &Vec<Result<Oid, GitError>> = accept(
            io.ids(Request::Walk(repo_path.copy(), WalkOrder::ByTime, commit_limit)),
        )?;
        let n: usize = if ids.len() > commit_limit {
            commit_limit
        } else {
            ids.len()
        };
        let ghost walk = limited(ids@, commit_limit as int);
        let ghost whole = walked_turn(repo_path@, walk, 0, seq![], h, io.at());
        let mut commits: Vec<CommitRecord> = Vec::new();
        let mut i: usize = 0;
        assert(commits.model() =~= seq![]);
        while i < n
            invariant
                i <= n,
                n == walk.len(),
                n <= ids@.len(),
                forall|k: int| 0 <= k < n ==> walk[k] == #[trigger] ids@[k],
                io.record() == h,
                h == old(io).record(),
                and_then(
                    whole,
                    |commits: Seq<CommitModel>, n: int|
                        Turn::Done(stats_after(touches(commits)), n),
                ) == file_stats_turn(
                    repo_path@,
                    commit_limit as int,
                    old(io).record(),
                    old(io).at(),
                ),
                walked_turn(repo_path@, walk, i as int, commits.model(), h, io.at()) == whole,
            decreases n - i,
        {
            assert(walk[i as int] == ids@[i as int]);
            match &ids[i] {
                Err(e) => {
                    return Err(Interrupt::Failed(GitServiceError::Git(e.copy())));
                },
                Ok(id) => {
                    let commit: CommitRecord = GitService::commit_changes(repo_path, id, io)?;
                    commits.push(commit);
                },
            }
            i = i + 1;
        }
        Ok(stats_of_commits(&commits))
    }
}

// ---------------------------------------------------------------------------
// What the statistics say
// ---------------------------------------------------------------------------

/// How many of some changes are of a file.
pub open spec fn times_touched(ts: Seq<Touch>, path: Seq<char>) -> int
    decreases ts.len(),
{
    if ts.len() == 0 {
        0
    } else {
        times_touched(ts.drop_last(), path) + if ts.last().path == path {
            1int
        } else {
            0
        }
    }
}

/// Whether the commits behind some changes are in order, and their positions fit.
pub open spec fn in_commit_order(ts: Seq<Touch>) -> bool {
    &&& forall|i: int, j: int|
        0 <= i <= j < ts.len() ==> (#[trigger] ts[i]).index <= (#[trigger] ts[j]).index
    &&& forall|i: int| 0 <= i < ts.len() ==> 0 <= (#[trigger] ts[i]).index <= usize::MAX
}

/// What is promised of a file after some changes: it is there exactly if one of the changes is of
/// it; its changes are counted; and it carries the position and time of the first of them.
pub open spec fn tells_of(ts: Seq<Touch>, path: Seq<char>) -> bool {
    let stats = stats_after(ts);
    &&& stats.contains_key(path) <==> exists|i: int| 0 <= i < ts.len() && #[trigger] ts[i].path
        == path
    &&& stats.contains_key(path) ==> {
        &&& stats[path].commit_count == if times_touched(ts, path) < usize::MAX {
            times_touched(ts, path)
        } else {
            usize::MAX as int
        }
        &&& exists|i: int|
            0 <= i < ts.len() && #[trigger] ts[i].path == path && stats[path].last_index
                == ts[i].index && stats[path].last_time == ts[i].time && (forall|j: int|
                0 <= j < i ==> #[trigger] ts[j].path != path)
    }
}

proof fn lemma_touch_counts(ts: Seq<Touch>, path: Seq<char>)
    ensures
        0 <= times_touched(ts, path) <= ts.len(),
        times_touched(ts, path) > 0 <==> exists|i: int|
            0 <= i < ts.len() && #[trigger] ts[i].path == path,
    decreases ts.len(),
{
    if ts.len() > 0 {
        let before = ts.drop_last();
        lemma_touch_counts(before, path);
        if ts.last().path == path {
            assert(ts[ts.len() - 1].path == path);
        }
        if exists|i: int| 0 <= i < before.len() && #[trigger] before[i].path == path {
            let i = choose|i: int| 0 <= i < before.len() && #[trigger] before[i].path == path;
            assert(ts[i].path == path);
        }
        if exists|i: int| 0 <= i < ts.len() && #[trigger] ts[i].path == path {
            let i = choose|i: int| 0 <= i < ts.len() && #[trigger] ts[i].path == path;
            if i < before.len() {
                assert(before[i].path == path);
            }
        }
    }
}

/// A file is in the statistics exactly if it was changed; its changes are counted; and it carries
/// the position and the time of the latest commit that changed it, which is the first in the list.
pub proof fn law_stats_tell_of_files(ts: Seq<Touch>, path: Seq<char>)
    requires
        in_commit_order(ts),
    ensures
        tells_of(ts, path),
    decreases ts.len(),
{
    if ts.len() > 0 {
        let before = ts.drop_last();
        let t = ts.last();
        assert forall|i: int, j: int| 0 <= i <= j < before.len() implies (
        #[trigger] before[i]).index <= (#[trigger] before[j]).index by {
            assert(before[i] == ts[i] && before[j] == ts[j]);
        }
        assert forall|i: int| 0 <= i < before.len() implies 0 <= (#[trigger] before[i]).index
            <= usize::MAX by {
            assert(before[i] == ts[i]);
        }
        law_stats_tell_of_files(before, path);
        lemma_touch_counts(before, path);
        lemma_touch_counts(ts, path);
        let old_stats = stats_after(before);
        if old_stats.contains_key(path) {
            let i = choose|i: int|
                0 <= i < before.len() && #[trigger] before[i].path == path
                    && old_stats[path].last_index == before[i].index && old_stats[path].last_time
                    == before[i].time && (forall|j: int|
                    0 <= j < i ==> #[trigger] before[j].path != path);
            assert(ts[i] == before[i]);
            assert(ts[i].index <= ts[ts.len() - 1].index);
            assert forall|j: int| 0 <= j < i implies #[trigger] ts[j].path != path by {
                assert(before[j].path != path);
            }
        } else if t.path == path {
            let i = ts.len() - 1;
            assert(ts[i] == t);
            assert(times_touched(before, path) == 0);
            assert forall|j: int| 0 <= j < i implies #[trigger] ts[j].path != path by {
                assert(before[j] == ts[j]);
            }
        }
    }
}

proof fn lemma_commit_touches(changes: Seq<ChangedPaths>, index: int, time: Timestamp)
    ensures
        forall|i: int|
            0 <= i < commit_touches(changes, index, time).len() ==> (#[trigger] commit_touches(
                changes,
                index,
                time,
            )[i]).index == index,
    decreases changes.len(),
{
    if changes.len() > 0 {
        lemma_commit_touches(changes.drop_last(), index, time);
        let before = commit_touches(changes.drop_last(), index, time);
        let ts = commit_touches(changes, index, time);
        assert forall|i: int| 0 <= i < ts.len() implies (#[trigger] ts[i]).index == index by {
            if i < before.len() {
                assert(ts[i] == before[i]);
            }
        }
    }
}

/// What commits tell is in the order of the commits, so that `law_stats_tell_of_files` holds of it.
pub proof fn law_touches_in_order(commits: Seq<CommitModel>)
    requires
        commits.len() <= usize::MAX,
    ensures
        in_commit_order(touches(commits)),
        forall|i: int|
            0 <= i < touches(commits).len() ==> (#[trigger] touches(commits)[i]).index
                < commits.len(),
    decreases commits.len(),
{
    if commits.len() > 0 {
        let c = commits.last();
        let index = commits.len() - 1;
        let time = commit_time(c.seconds, c.now);
        let front = touches(commits.drop_last());
        let back = commit_touches(c.changes, index, time);
        law_touches_in_order(commits.drop_last());
        lemma_commit_touches(c.changes, index, time);
        let ts = touches(commits);
        assert forall|i: int| 0 <= i < ts.len() implies 0 <= (#[trigger] ts[i]).index
            < commits.len() by {
            if i < front.len() {
                assert(ts[i] == front[i]);
            } else {
                assert(ts[i] == back[i - front.len()]);
            }
        }
        assert forall|i: int, j: int| 0 <= i <= j < ts.len() implies (#[trigger] ts[i]).index <= (
        #[trigger] ts[j]).index by {
            if j < front.len() {
                assert(ts[i] == front[i] && ts[j] == front[j]);
            } else {
                assert(ts[j] == back[j - front.len()]);
                if i >= front.len() {
                    assert(ts[i] == back[i - front.len()]);
                }
            }
        }
    }
}

/// Whether one of some changes is of a file.
pub open spec fn changes_file(changes: Seq<ChangedPaths>, path: Seq<char>) -> bool {
    exists|j: int| 0 <= j < changes.len() && path_of_change(#[trigger] changes[j]) == Some(path)
}

/// Whether a commit among some, at a position, is told to have changed a file.
pub open spec fn is_told(ts: Seq<Touch>, path: Seq<char>, index: int, time: Timestamp) -> bool {
    exists|k: int|
        0 <= k < ts.len() && (#[trigger] ts[k]).path == path && ts[k].index == index && ts[k].time
            == time
}

proof fn lemma_commit_told(
    changes: Seq<ChangedPaths>,
    index: int,
    time: Timestamp,
    path: Seq<char>,
)
    ensures
        is_told(commit_touches(changes, index, time), path, index, time) <==> changes_file(
            changes,
            path,
        ),
    decreases changes.len(),
{
    if changes.len() > 0 {
        let before = changes.drop_last();
        let some = commit_touches(before, index, time);
        let all = commit_touches(changes, index, time);
        let last = changes.len() - 1;
        lemma_commit_told(before, index, time, path);
        if is_told(all, path, index, time) {
            let k = choose|k: int|
                0 <= k < all.len() && (#[trigger] all[k]).path == path && all[k].index == index
                    && all[k].time == time;
            if k < some.len() {
                assert(some[k] == all[k]);
                let j = choose|j: int|
                    0 <= j < before.len() && path_of_change(#[trigger] before[j]) == Some(path);
                assert(changes[j] == before[j]);
            } else {
                assert(path_of_change(changes[last]) == Some(path));
            }
        }
        if changes_file(changes, path) {
            let j = choose|j: int|
                0 <= j < changes.len() && path_of_change(#[trigger] changes[j]) == Some(path);
            if j < last {
                assert(before[j] == changes[j]);
                let k = choose|k: int|
                    0 <= k < some.len() && (#[trigger] some[k]).path == path && some[k].index
                        == index && some[k].time == time;
                assert(all[k] == some[k]);
            } else {
                assert(all[some.len() as int].path == path);
            }
        }
    }
}

proof fn lemma_told_by_either(
    front: Seq<Touch>,
    back: Seq<Touch>,
    path: Seq<char>,
    index: int,
    time: Timestamp,
)
    ensures
        is_told(front + back, path, index, time) <==> is_told(front, path, index, time) || is_told(
            back,
            path,
            index,
            time,
        ),
{
    let all = front + back;
    if is_told(all, path, index, time) {
        let k = choose|k: int|
            0 <= k < all.len() && (#[trigger] all[k]).path == path && all[k].index == index
                && all[k].time == time;
        if k < front.len() {
            assert(front[k] == all[k]);
        } else {
            assert(back[k - front.len()] == all[k]);
        }
    }
    if is_told(front, path, index, time) {
        let k = choose|k: int|
            0 <= k < front.len() && (#[trigger] front[k]).path == path && front[k].index == index
                && front[k].time == time;
        assert(all[k] == front[k]);
    }
    if is_told(back, path, index, time) {
        let k = choose|k: int|
            0 <= k < back.len() && (#[trigger] back[k]).path == path && back[k].index == index
                && back[k].time == time;
        assert(all[k + front.len()] == back[k]);
    }
}

/// What commits tell is what they change: a file is told for the commit at a position, with the
/// time of that commit, exactly if that commit changes the file.
pub proof fn law_touches_are_changes(commits: Seq<CommitModel>, path: Seq<char>, i: int)
    requires
        0 <= i < commits.len(),
        commits.len() <= usize::MAX,
    ensures
        is_told(touches(commits), path, i, commit_time(commits[i].seconds, commits[i].now))
            <==> changes_file(commits[i].changes, path),
    decreases commits.len(),
{
    let before = commits.drop_last();
    let c = commits.last();
    let index = commits.len() - 1;
    let time = commit_time(c.seconds, c.now);
    let wanted = commit_time(commits[i].seconds, commits[i].now);
    lemma_commit_touches(c.changes, index, time);
    law_touches_in_order(before);
    lemma_told_by_either(
        touches(before),
        commit_touches(c.changes, index, time),
        path,
        i,
        wanted,
    );
    if i < index {
        assert(before[i] == commits[i]);
        law_touches_are_changes(before, path, i);
    } else {
        lemma_commit_told(c.changes, index, time, path);
    }
}

// ---------------------------------------------------------------------------
// What is promised of reading commits
// ---------------------------------------------------------------------------

/// A commit with parents is compared with the tree of its first parent; one without parents with
/// nothing.
pub proof fn law_commit_compared(
    repo: Seq<u8>,
    id: Seq<u8>,
    h: Seq<Reply>,
    at: int,
    c: CommitInfo,
    tree: Oid,
    parent: Oid,
    parent_tree: Oid,
)
    requires
        0 <= at,
        at + 1 < h.len(),
        h[at] == Reply::Commit(Ok::<CommitInfo, GitError>(c)),
        h[at + 1] == Reply::Id(Ok::<Oid, GitError>(tree)),
    ensures
        c.parents == 0 && h.len() == at + 2 ==> commit_changes_turn(repo, id, h, at)
            == ServiceTurn::<CommitModel>::Ask(RequestModel::ChangedFiles(repo, None, tree@)),
        c.parents > 0 && h.len() == at + 2 ==> commit_changes_turn(repo, id, h, at)
            == ServiceTurn::<CommitModel>::Ask(RequestModel::ParentOf(repo, id)),
        c.parents > 0 && h.len() == at + 4 && h[at + 2] == Reply::Id(Ok::<Oid, GitError>(parent))
            && h[at + 3] == Reply::Id(Ok::<Oid, GitError>(parent_tree)) ==> {
            &&& commit_changes_turn(repo, id, h.take(at + 3), at)
                == ServiceTurn::<CommitModel>::Ask(RequestModel::TreeOf(repo, parent@))
            &&& commit_changes_turn(repo, id, h, at) == ServiceTurn::<CommitModel>::Ask(
                RequestModel::ChangedFiles(repo, Some(parent_tree@), tree@),
            )
        },
{
}

proof fn lemma_walked(
    repo: Seq<u8>,
    ids: Seq<Result<Oid, GitError>>,
    i: int,
    done: Seq<CommitModel>,
    h: Seq<Reply>,
    at: int,
)
    requires
        0 <= i <= ids.len(),
        done.len() == i,
    ensures
        walked_turn(repo, ids, i, done, h, at) matches Turn::Done(cs, _) ==> {
            &&& cs.len() == ids.len()
            &&& forall|k: int| i <= k < ids.len() ==> (#[trigger] ids[k]) is Ok
        },
    decreases ids.len() - i,
{
    if i < ids.len() {
        if let Ok(id) = ids[i] {
            if let Turn::Done(c, n) = commit_changes_turn(repo, id@, h, at) {
                lemma_walked(repo, ids, i + 1, done.push(c), h, n);
            }
        }
    }
}

/// Statistics that come about tell of every commit of the walk up to the limit: none is passed over,
/// and a failure of the walk or of one of its commits is a failure of the whole.
pub proof fn law_all_commits_walked(
    repo: Seq<u8>,
    ids: Seq<Result<Oid, GitError>>,
    limit: int,
    h: Seq<Reply>,
    at: int,
)
    requires
        0 <= limit,
    ensures
        walked_turn(repo, limited(ids, limit), 0, seq![], h, at) matches Turn::Done(cs, _) ==> {
            &&& cs.len() == if ids.len() > limit {
                limit
            } else {
                ids.len() as int
            }
            &&& forall|k: int| 0 <= k < cs.len() ==> (#[trigger] ids[k]) is Ok
        },
{
    let walk = limited(ids, limit);
    lemma_walked(repo, walk, 0, seq![], h, at);
    assert forall|k: int| 0 <= k < walk.len() implies walk[k] == #[trigger] ids[k] by {}
}

// ---------------------------------------------------------------------------
// More commits
// ---------------------------------------------------------------------------

/// Whether statistics `b` of more commits keep what statistics `a` of the first `count` commits say
/// of a file: its position and its time; it was not changed less often; and a file that is new was
/// changed by a commit further back.
pub open spec fn keeps(
    a: Map<Seq<char>, FileStat>,
    b: Map<Seq<char>, FileStat>,
    count: int,
    path: Seq<char>,
) -> bool {
    &&& a.contains_key(path) ==> {
        &&& b.contains_key(path)
        &&& b[path].last_index == a[path].last_index
        &&& b[path].last_time == a[path].last_time
        &&& b[path].commit_count >= a[path].commit_count
    }
    &&& b.contains_key(path) && !a.contains_key(path) ==> b[path].last_index >= count
}

proof fn lemma_touches_grow(commits: Seq<CommitModel>, count: int)
    requires
        0 <= count <= commits.len(),
    ensures
        touches(commits.take(count)).is_prefix_of(touches(commits)),
        forall|i: int|
            touches(commits.take(count)).len() <= i < touches(commits).len() ==> (
            #[trigger] touches(commits)[i]).index >= count,
    decreases commits.len(),
{
    let some = touches(commits.take(count));
    if count == commits.len() {
        assert(commits.take(count) =~= commits);
    } else {
        let before = commits.drop_last();
        let c = commits.last();
        let time = commit_time(c.seconds, c.now);
        let back = commit_touches(c.changes, commits.len() - 1, time);
        lemma_touches_grow(before, count);
        assert(before.take(count) =~= commits.take(count));
        lemma_commit_touches(c.changes, commits.len() - 1, time);
        let front = touches(before);
        let all = touches(commits);
        assert forall|i: int| some.len() <= i < all.len() implies (#[trigger] all[i]).index
            >= count by {
            if i < front.len() {
                assert(all[i] == front[i]);
            } else {
                assert(all[i] == back[i - front.len()]);
            }
        }
        assert(all.take(some.len() as int) =~= some);
    }
}

proof fn lemma_more_touches(ts: Seq<Touch>, count: int, path: Seq<char>)
    requires
        0 <= count <= ts.len(),
    ensures
        times_touched(ts.take(count), path) <= times_touched(ts, path),
    decreases ts.len(),
{
    if count == ts.len() {
        assert(ts.take(count) =~= ts);
    } else {
        assert(ts.drop_last().take(count) =~= ts.take(count));
        lemma_more_touches(ts.drop_last(), count, path);
    }
}

/// The statistics of more commits keep what those of the first of them say; those of no commits say
/// nothing.
pub proof fn law_more_commits(commits: Seq<CommitModel>, count: int, path: Seq<char>)
    requires
        0 <= count <= commits.len(),
        commits.len() <= usize::MAX,
    ensures
        keeps(
            stats_after(touches(commits.take(count))),
            stats_after(touches(commits)),
            count,
            path,
        ),
        count == 0 ==> !stats_after(touches(commits.take(count))).contains_key(path),
{
    let some = touches(commits.take(count));
    let all = touches(commits);
    lemma_touches_grow(commits, count);
    law_touches_in_order(commits.take(count));
    law_touches_in_order(commits);
    law_stats_tell_of_files(some, path);
    law_stats_tell_of_files(all, path);
    lemma_more_touches(all, some.len() as int, path);
    assert(all.take(some.len() as int) =~= some);
    assert forall|i: int| 0 <= i < some.len() implies all[i] == #[trigger] some[i] by {}
    if stats_after(some).contains_key(path) {
        let i = choose|i: int|
            0 <= i < some.len() && #[trigger] some[i].path == path
                && stats_after(some)[path].last_index == some[i].index
                && stats_after(some)[path].last_time == some[i].time && (forall|j: int|
                0 <= j < i ==> #[trigger] some[j].path != path);
        assert(all[i].path == path);
        let j = choose|j: int|
            0 <= j < all.len() && #[trigger] all[j].path == path
                && stats_after(all)[path].last_index == all[j].index
                && stats_after(all)[path].last_time == all[j].time && (forall|k: int|
                0 <= k < j ==> #[trigger] all[k].path != path);
        assert(j <= i);
        assert(some[j].path == path);
    } else if stats_after(all).contains_key(path) {
        let j = choose|j: int|
            0 <= j < all.len() && #[trigger] all[j].path == path
                && stats_after(all)[path].last_index == all[j].index
                && stats_after(all)[path].last_time == all[j].time && (forall|k: int|
                0 <= k < j ==> #[trigger] all[k].path != path);
        if j < some.len() {
            assert(some[j].path == path);
        }
    }
    if count == 0 {
        assert(commits.take(count) =~= Seq::<CommitModel>::empty());
    }
}

proof fn lemma_walk_goes_on(
    repo: Seq<u8>,
    ids: Seq<Result<Oid, GitError>>,
    count: int,
    i: int,
    done: Seq<CommitModel>,
    h: Seq<Reply>,
    g: Seq<Reply>,
    at: int,
    commits: Seq<CommitModel>,
    n: int,
)
    requires
        0 <= i <= count <= ids.len(),
        0 <= at,
        walked_turn(repo, ids.take(count), i, done, h, at) == ServiceTurn::Done(commits, n),
        n <= g.len(),
        forall|k: int| at <= k < n ==> g[k] == #[trigger] h[k],
    ensures
        at <= n,
        walked_turn(repo, ids, i, done, g, at) == walked_turn(repo, ids, count, commits, g, n),
    decreases count - i,
{
    if i < count {
        assert(ids.take(count)[i] == ids[i]);
        if let Ok(id) = ids[i] {
            lemma_changes_same(repo, id@, h, g, at);
            if let Turn::Done(c, m) = commit_changes_turn(repo, id@, h, at) {
                lemma_walk_ends_later(repo, ids.take(count), i + 1, done.push(c), h, m);
                lemma_walk_goes_on(repo, ids, count, i + 1, done.push(c), h, g, m, commits, n);
            }
        }
    }
}

proof fn lemma_changes_same(repo: Seq<u8>, id: Seq<u8>, h: Seq<Reply>, g: Seq<Reply>, at: int)
    requires
        0 <= at,
    ensures
        commit_changes_turn(repo, id, h, at) matches Turn::Done(c, n) ==> {
            &&& at < n <= h.len()
            &&& n <= g.len() && (forall|k: int| at <= k < n ==> g[k] == #[trigger] h[k])
                ==> commit_changes_turn(repo, id, g, at) == commit_changes_turn(repo, id, h, at)
        },
{
}

proof fn lemma_walk_ends_later(
    repo: Seq<u8>,
    ids: Seq<Result<Oid, GitError>>,
    i: int,
    done: Seq<CommitModel>,
    h: Seq<Reply>,
    at: int,
)
    requires
        0 <= at,
    ensures
        walked_turn(repo, ids, i, done, h, at) matches Turn::Done(_, n) ==> at <= n,
    decreases ids.len() - i,
{
    if 0 <= i < ids.len() {
        if let Ok(id) = ids[i] {
            lemma_changes_same(repo, id@, h, h, at);
            if let Turn::Done(c, m) = commit_changes_turn(repo, id@, h, at) {
                lemma_walk_ends_later(repo, ids, i + 1, done.push(c), h, m);
            }
        }
    }
}

proof fn lemma_walk_extends(
    repo: Seq<u8>,
    ids: Seq<Result<Oid, GitError>>,
    i: int,
    done: Seq<CommitModel>,
    h: Seq<Reply>,
    at: int,
)
    requires
        0 <= i <= ids.len(),
        done.len() == i,
    ensures
        walked_turn(repo, ids, i, done, h, at) matches Turn::Done(commits, _) ==> {
            &&& commits.len() == ids.len()
            &&& commits.take(i) == done
        },
    decreases ids.len() - i,
{
    if i < ids.len() {
        if let Ok(id) = ids[i] {
            if let Turn::Done(c, m) = commit_changes_turn(repo, id@, h, at) {
                lemma_walk_extends(repo, ids, i + 1, done.push(c), h, m);
                if let Turn::Done(commits, _) = walked_turn(repo, ids, i + 1, done.push(c), h, m) {
                    assert(commits.take(i) =~= commits.take(i + 1).take(i));
                    assert(done.push(c).take(i) =~= done);
                }
            }
        }
    } else {
        assert(done.take(i) =~= done);
    }
}

/// Statistics with a larger limit keep what those with a smaller limit say of every file, as long as
/// the repository stays the same: the walk starts with the same commits, and what was replied for
/// them is replied again. With a limit of zero there are none.
pub proof fn law_larger_limit(
    repo: Seq<u8>,
    small: int,
    large: int,
    h: Seq<Reply>,
    g: Seq<Reply>,
    ids: Vec<Result<Oid, GitError>>,
    more_ids: Vec<Result<Oid, GitError>>,
    a: Map<Seq<char>, FileStat>,
    b: Map<Seq<char>, FileStat>,
    n: int,
    m: int,
    path: Seq<char>,
)
    requires
        0 <= small <= large <= usize::MAX,
        file_stats_turn(repo, small, h, 0) == ServiceTurn::Done(a, n),
        file_stats_turn(repo, large, g, 0) == ServiceTurn::Done(b, m),
        h.len() >= 2,
        g.len() >= 2,
        h[1] == Reply::Ids(Ok::<Vec<Result<Oid, GitError>>, GitError>(ids)),
        g[1] == Reply::Ids(Ok::<Vec<Result<Oid, GitError>>, GitError>(more_ids)),
        limited(ids@, small) == limited(more_ids@, small),
        n <= g.len(),
        forall|k: int| 2 <= k < n ==> g[k] == #[trigger] h[k],
    ensures
        keeps(a, b, small, path),
        small == 0 ==> !a.contains_key(path),
{
    let walk = limited(more_ids@, large);
    let count = limited(ids@, small).len() as int;
    assert(walk.take(count) =~= limited(ids@, small));
    let first = walked_turn(repo, walk.take(count), 0, Seq::<CommitModel>::empty(), h, 2);
    let second = walked_turn(repo, walk, 0, Seq::<CommitModel>::empty(), g, 2);
    assert(first is Done && second is Done);
    if let Turn::Done(commits, e) = first {
        assert(e == n && a == stats_after(touches(commits)));
        lemma_walk_extends(repo, walk.take(count), 0, Seq::<CommitModel>::empty(), h, 2);
        lemma_walk_goes_on(
            repo,
            walk,
            count,
            0,
            Seq::<CommitModel>::empty(),
            h,
            g,
            2,
            commits,
            n,
        );
        lemma_walk_extends(repo, walk, count, commits, g, n);
        if let Turn::Done(all, f) = second {
            assert(b == stats_after(touches(all)));
            assert(all.take(count) == commits);
            law_more_commits(all, count, path);
            if count < small {
                assert(walk.len() == count);
                assert(all.take(count) =~= all);
            }
        }
    }
}

} // verus!
