//! What statistics and lists tell, in terms of what was replied.
use vstd::prelude::*;

use crate::dialogue::{Reply, RequestModel, Turn, WalkOrder};
use crate::errors::{GitError, GitErrorModel};
use crate::listing::{
    all_branches_turn, branches_of_turn, comes_before, law_branches_in_order, law_branches_kept,
    listed, listed_branch, ordered, GitBranchModel,
};
use crate::model::Model;
use crate::oid::Oid;
use crate::records::{BranchRecord, BranchType, ChangedPaths, HeadRef};
use crate::service::ServiceTurn;
use crate::stats::{
    commit_changes_turn, commit_touches, file_stats_turn, law_stats_tell_of_files,
    law_touches_in_order, limited, stats_after, times_touched, touches, walked_turn, CommitModel,
    FileStat, Touch,
};
use crate::text::utf8_lossy;
use crate::time::{commit_time, Timestamp};

verus! {

// ---------------------------------------------------------------------------
// Times
// ---------------------------------------------------------------------------

/// Whether a time is that of these seconds where a calendar date stands for them, and else the time
/// of reading.
pub open spec fn is_time_of(t: Timestamp, seconds: Option<i64>, now: Timestamp) -> bool {
    match seconds {
        Some(s) => if -8334601228800 <= s && s <= 8210266876799 {
            t.seconds == s && t.nanos == 0
        } else {
            t == now
        },
        None => t == now,
    }
}

// ---------------------------------------------------------------------------
// Statistics
// ---------------------------------------------------------------------------

/// Whether a change is of the file whose whole path has this text: by its new path where it has
/// one, and else by its old one.
pub open spec fn is_of(c: ChangedPaths, path: Seq<char>) -> bool {
    if c.new_path is Some {
        path == utf8_lossy(c.new_path->0@)
    } else {
        c.old_path is Some && path == utf8_lossy(c.old_path->0@)
    }
}

/// How many of some changes are of a file.
pub open spec fn times_in(changes: Seq<ChangedPaths>, path: Seq<char>) -> int {
    changes.filter(|c: ChangedPaths| is_of(c, path)).len() as int
}

/// How many times some commits change a file.
pub open spec fn times_changed(commits: Seq<CommitModel>, path: Seq<char>) -> int
    decreases commits.len(),
{
    if commits.len() == 0 {
        0
    } else {
        times_changed(commits.drop_last(), path) + times_in(commits.last().changes, path)
    }
}

proof fn lemma_times_in_push(changes: Seq<ChangedPaths>, path: Seq<char>)
    requires
        changes.len() > 0,
    ensures
        times_in(changes, path) == times_in(changes.drop_last(), path) + if is_of(
            changes.last(),
            path,
        ) {
            1int
        } else {
            0
        },
{
    reveal(Seq::filter);
    assert(changes.drop_last().push(changes.last()) =~= changes);
}

proof fn lemma_times_touched_sum(front: Seq<Touch>, back: Seq<Touch>, path: Seq<char>)
    ensures
        times_touched(front + back, path) == times_touched(front, path) + times_touched(back, path),
    decreases back.len(),
{
    if back.len() == 0 {
        assert(front + back =~= front);
    } else {
        assert((front + back).drop_last() =~= front + back.drop_last());
        lemma_times_touched_sum(front, back.drop_last(), path);
    }
}

proof fn lemma_commit_counted(
    changes: Seq<ChangedPaths>,
    index: int,
    time: Timestamp,
    path: Seq<char>,
)
    ensures
        times_touched(commit_touches(changes, index, time), path) == times_in(changes, path),
        forall|k: int|
            0 <= k < commit_touches(changes, index, time).len() ==> (#[trigger] commit_touches(
                changes,
                index,
                time,
            )[k]).index == index && commit_touches(changes, index, time)[k].time == time,
    decreases changes.len(),
{
    if changes.len() > 0 {
        let before = commit_touches(changes.drop_last(), index, time);
        let all = commit_touches(changes, index, time);
        lemma_times_in_push(changes, path);
        lemma_commit_counted(changes.drop_last(), index, time, path);
        assert(all.len() > before.len() ==> all.drop_last() =~= before);
        assert forall|k: int| 0 <= k < all.len() implies (#[trigger] all[k]).index == index
            && all[k].time == time by {
            if k < before.len() {
                assert(all[k] == before[k]);
            }
        }
    } else {
        reveal(Seq::filter);
    }
}

proof fn lemma_counted(commits: Seq<CommitModel>, path: Seq<char>)
    ensures
        times_touched(touches(commits), path) == times_changed(commits, path),
    decreases commits.len(),
{
    if commits.len() > 0 {
        let c = commits.last();
        let index = commits.len() - 1;
        let time = commit_time(c.seconds, c.now);
        lemma_counted(commits.drop_last(), path);
        lemma_commit_counted(c.changes, index, time, path);
        lemma_times_touched_sum(
            touches(commits.drop_last()),
            commit_touches(c.changes, index, time),
            path,
        );
    }
}

proof fn lemma_touch_seen(ts: Seq<Touch>, path: Seq<char>)
    ensures
        times_touched(ts, path) >= 0,
        times_touched(ts, path) > 0 <==> exists|k: int|
            0 <= k < ts.len() && (#[trigger] ts[k]).path == path,
    decreases ts.len(),
{
    if ts.len() > 0 {
        lemma_touch_seen(ts.drop_last(), path);
        let before = ts.drop_last();
        if times_touched(ts, path) > 0 {
            if ts.last().path == path {
                assert(ts[ts.len() - 1].path == path);
            } else {
                let k = choose|k: int| 0 <= k < before.len() && (#[trigger] before[k]).path == path;
                assert(ts[k].path == path);
            }
        }
        if exists|k: int| 0 <= k < ts.len() && (#[trigger] ts[k]).path == path {
            let k = choose|k: int| 0 <= k < ts.len() && (#[trigger] ts[k]).path == path;
            if k < before.len() {
                assert(before[k].path == path);
            }
        }
    }
}

proof fn lemma_touch_of_commit(commits: Seq<CommitModel>, k: int)
    requires
        0 <= k < touches(commits).len(),
    ensures
        ({
            let t = touches(commits)[k];
            &&& 0 <= t.index < commits.len()
            &&& times_in(commits[t.index].changes, t.path) > 0
            &&& is_time_of(t.time, Some(commits[t.index].seconds), commits[t.index].now)
        }),
    decreases commits.len(),
{
    let c = commits.last();
    let index = commits.len() - 1;
    let time = commit_time(c.seconds, c.now);
    let front = touches(commits.drop_last());
    let back = commit_touches(c.changes, index, time);
    let t = touches(commits)[k];
    if k < front.len() {
        assert(t == front[k]);
        lemma_touch_of_commit(commits.drop_last(), k);
        assert(commits.drop_last()[t.index] == commits[t.index]);
    } else {
        assert(t == back[k - front.len()]);
        lemma_commit_counted(c.changes, index, time, t.path);
        lemma_touch_seen(back, t.path);
    }
}

proof fn lemma_commit_told(commits: Seq<CommitModel>, path: Seq<char>, i: int)
    requires
        0 <= i < commits.len(),
        times_in(commits[i].changes, path) > 0,
    ensures
        exists|k: int|
            0 <= k < touches(commits).len() && (#[trigger] touches(commits)[k]).path == path
                && touches(commits)[k].index == i,
    decreases commits.len(),
{
    let c = commits.last();
    let index = commits.len() - 1;
    let time = commit_time(c.seconds, c.now);
    let front = touches(commits.drop_last());
    let back = commit_touches(c.changes, index, time);
    let ts = touches(commits);
    if i < index {
        assert(commits.drop_last()[i] == commits[i]);
        lemma_commit_told(commits.drop_last(), path, i);
        let k = choose|k: int|
            0 <= k < front.len() && (#[trigger] front[k]).path == path && front[k].index == i;
        assert(ts[k] == front[k]);
    } else {
        lemma_commit_counted(c.changes, index, time, path);
        lemma_touch_seen(back, path);
        let k = choose|k: int| 0 <= k < back.len() && (#[trigger] back[k]).path == path;
        assert(ts[k + front.len()] == back[k]);
    }
}

/// Whether a statistic tells of a file as these commits, latest first, changed it: how many times
/// in all, and the position and the time of the first commit in the list that changed it.
pub open spec fn is_tally(stat: FileStat, commits: Seq<CommitModel>, path: Seq<char>) -> bool {
    &&& stat.commit_count == if times_changed(commits, path) <= usize::MAX {
        times_changed(commits, path)
    } else {
        usize::MAX as int
    }
    &&& (stat.last_index as int) < commits.len()
    &&& times_in(commits[stat.last_index as int].changes, path) > 0
    &&& forall|i: int|
        0 <= i < stat.last_index ==> times_in((#[trigger] commits[i]).changes, path) == 0
    &&& is_time_of(
        stat.last_time,
        Some(commits[stat.last_index as int].seconds),
        commits[stat.last_index as int].now,
    )
}

/// A file is in the statistics of some commits under the text of its whole path, exactly if one of
/// them has a change of that path. There it has the number of all such changes, and the position
/// and the time of the latest commit with one.
pub proof fn law_files_tallied(commits: Seq<CommitModel>, path: Seq<char>)
    requires
        commits.len() <= usize::MAX,
    ensures
        stats_after(touches(commits)).contains_key(path) <==> exists|i: int|
            0 <= i < commits.len() && times_in((#[trigger] commits[i]).changes, path) > 0,
        stats_after(touches(commits)).contains_key(path) ==> is_tally(
            stats_after(touches(commits))[path],
            commits,
            path,
        ),
{
    let ts = touches(commits);
    let stats = stats_after(ts);
    law_touches_in_order(commits);
    law_stats_tell_of_files(ts, path);
    lemma_counted(commits, path);
    lemma_touch_seen(ts, path);
    if stats.contains_key(path) {
        let k = choose|k: int|
            0 <= k < ts.len() && #[trigger] ts[k].path == path && stats[path].last_index
                == ts[k].index && stats[path].last_time == ts[k].time && (forall|j: int|
                0 <= j < k ==> #[trigger] ts[j].path != path);
        lemma_touch_of_commit(commits, k);
        assert(times_in(commits[ts[k].index].changes, path) > 0);
        assert forall|i: int| 0 <= i < stats[path].last_index implies times_in(
            (#[trigger] commits[i]).changes,
            path,
        ) == 0 by {
            if times_in(commits[i].changes, path) > 0 {
                lemma_commit_told(commits, path, i);
                let j = choose|j: int|
                    0 <= j < ts.len() && (#[trigger] ts[j]).path == path && ts[j].index == i;
                assert(ts[k].index <= ts[j].index);
            }
        }
    }
    if exists|i: int|
        0 <= i < commits.len() && times_in((#[trigger] commits[i]).changes, path) > 0 {
        let i = choose|i: int|
            0 <= i < commits.len() && times_in((#[trigger] commits[i]).changes, path) > 0;
        lemma_commit_told(commits, path, i);
    }
}

/// Files whose paths differ as text are counted apart: what is told of one does not depend on the
/// changes of another.
pub proof fn law_other_files_do_not_count(
    commits: Seq<CommitModel>,
    others: Seq<CommitModel>,
    path: Seq<char>,
)
    requires
        commits.len() == others.len(),
        commits.len() <= usize::MAX,
        forall|i: int|
            0 <= i < commits.len() ==> (#[trigger] commits[i]).seconds == others[i].seconds
                && commits[i].now == others[i].now && commits[i].changes.filter(
                |c: ChangedPaths| is_of(c, path),
            ) == others[i].changes.filter(|c: ChangedPaths| is_of(c, path)),
    ensures
        stats_after(touches(commits)).contains_key(path) <==> stats_after(
            touches(others),
        ).contains_key(path),
        stats_after(touches(commits)).contains_key(path) ==> stats_after(touches(commits))[path]
            == stats_after(touches(others))[path],
{
    assert forall|i: int| 0 <= i < commits.len() implies times_in(
        (#[trigger] commits[i]).changes,
        path,
    ) == times_in(others[i].changes, path) by {}
    law_files_tallied(commits, path);
    law_files_tallied(others, path);
    lemma_same_times(commits, others, path);
    let a = stats_after(touches(commits));
    let b = stats_after(touches(others));
    if a.contains_key(path) {
        let i = choose|i: int|
            0 <= i < commits.len() && times_in((#[trigger] commits[i]).changes, path) > 0;
        assert(times_in(others[i].changes, path) > 0);
    }
    if b.contains_key(path) {
        let i = choose|i: int|
            0 <= i < others.len() && times_in((#[trigger] others[i]).changes, path) > 0;
        assert(times_in(commits[i].changes, path) > 0);
    }
    if a.contains_key(path) {
        let x = a[path].last_index as int;
        let y = b[path].last_index as int;
        assert(times_in(commits[x].changes, path) > 0);
        assert(times_in(commits[y].changes, path) > 0);
        assert(times_in(others[x].changes, path) > 0);
        assert(x == y);
    }
}

proof fn lemma_same_times(commits: Seq<CommitModel>, others: Seq<CommitModel>, path: Seq<char>)
    requires
        commits.len() == others.len(),
        forall|i: int|
            0 <= i < commits.len() ==> times_in((#[trigger] commits[i]).changes, path) == times_in(
                others[i].changes,
                path,
            ),
    ensures
        times_changed(commits, path) == times_changed(others, path),
    decreases commits.len(),
{
    if commits.len() > 0 {
        assert forall|i: int| 0 <= i < commits.len() - 1 implies times_in(
            (#[trigger] commits.drop_last()[i]).changes,
            path,
        ) == times_in(others.drop_last()[i].changes, path) by {
            assert(commits[i] == commits.drop_last()[i]);
        }
        lemma_same_times(commits.drop_last(), others.drop_last(), path);
        assert(commits[commits.len() - 1] == commits.last());
    }
}

/// What is told of a commit is what was replied for it: its time, the time of reading, and the
/// changes that were replied last.
pub proof fn law_commit_as_replied(
    repo: Seq<u8>,
    id: Seq<u8>,
    h: Seq<Reply>,
    at: int,
    c: CommitModel,
    n: int,
)
    requires
        0 <= at,
        commit_changes_turn(repo, id, h, at) == ServiceTurn::Done(c, n),
    ensures
        at + 3 <= n <= h.len(),
        match h[at] {
            Reply::Commit(Ok(info)) => c.seconds == info.seconds && c.now == info.now && n == if (
            info.parents == 0) {
                at + 3
            } else {
                at + 5
            },
            _ => false,
        },
        match h[n - 1] {
            Reply::Paths(Ok(changes)) => c.changes == changes@,
            _ => false,
        },
{
}

/// Whether a commit is read from a record at a position.
pub open spec fn read_at(
    repo: Seq<u8>,
    id: Seq<u8>,
    c: CommitModel,
    h: Seq<Reply>,
    p: int,
) -> bool {
    0 <= p && (commit_changes_turn(repo, id, h, p) matches Turn::Done(v, _) && v == c)
}

/// Whether a commit is the one that was walked to, read from a record.
pub open spec fn is_read(
    repo: Seq<u8>,
    id: Result<Oid, GitError>,
    c: CommitModel,
    h: Seq<Reply>,
) -> bool {
    id is Ok && exists|p: int| read_at(repo, id->Ok_0@, c, h, p)
}

/// Whether these commits are those of a walk, each read from a record.
pub open spec fn are_read(
    repo: Seq<u8>,
    ids: Seq<Result<Oid, GitError>>,
    commits: Seq<CommitModel>,
    h: Seq<Reply>,
) -> bool {
    forall|i: int| 0 <= i < commits.len() ==> is_read(repo, ids[i], #[trigger] commits[i], h)
}

proof fn lemma_walk_read(
    repo: Seq<u8>,
    ids: Seq<Result<Oid, GitError>>,
    i: int,
    done: Seq<CommitModel>,
    h: Seq<Reply>,
    at: int,
)
    requires
        0 <= at,
        0 <= i <= ids.len(),
        done.len() == i,
        are_read(repo, ids, done, h),
    ensures
        walked_turn(repo, ids, i, done, h, at) matches Turn::Done(cs, _) ==> cs.len() == ids.len()
            && are_read(repo, ids, cs, h),
    decreases ids.len() - i,
{
    if i < ids.len() {
        if let Ok(id) = ids[i] {
            if let Turn::Done(c, n) = commit_changes_turn(repo, id@, h, at) {
                law_commit_as_replied(repo, id@, h, at, c, n);
                let more = done.push(c);
                assert(read_at(repo, id@, c, h, at));
                assert forall|k: int| 0 <= k < more.len() implies is_read(
                    repo,
                    ids[k],
                    #[trigger] more[k],
                    h,
                ) by {
                    if k < i {
                        assert(more[k] == done[k]);
                    }
                }
                lemma_walk_read(repo, ids, i + 1, more, h, n);
            }
        }
    }
}

/// Whether statistics tell of every file as these commits changed it.
pub open spec fn are_tallies(stats: Map<Seq<char>, FileStat>, commits: Seq<CommitModel>) -> bool {
    forall|path: Seq<char>| #[trigger]
        stats.contains_key(path) <==> exists|i: int|
            0 <= i < commits.len() && times_in((#[trigger] commits[i]).changes, path) > 0
}

/// Whether every statistic counts its file as these commits changed it.
pub open spec fn are_counts(stats: Map<Seq<char>, FileStat>, commits: Seq<CommitModel>) -> bool {
    forall|path: Seq<char>| #[trigger]
        stats.contains_key(path) ==> is_tally(stats[path], commits, path)
}

/// Statistics are those of the first commits of the walk, as many as the limit allows: each is
/// read, and every file that one of them changed is told of as they changed it.
pub proof fn law_latest_commits_tallied(
    path: Seq<u8>,
    limit: int,
    h: Seq<Reply>,
    at: int,
    stats: Map<Seq<char>, FileStat>,
    n: int,
) -> (commits: Seq<CommitModel>)
    requires
        0 <= at,
        0 <= limit <= usize::MAX,
        file_stats_turn(path, limit, h, at) == ServiceTurn::Done(stats, n),
    ensures
        at + 2 <= h.len(),
        match h[at + 1] {
            Reply::Ids(Ok(ids)) => {
                &&& commits.len() == if ids@.len() < limit {
                    ids@.len() as int
                } else {
                    limit
                }
                &&& are_read(path, ids@, commits, h)
            },
            _ => false,
        },
        are_tallies(stats, commits),
        are_counts(stats, commits),
{
    let ids = match h[at + 1] {
        Reply::Ids(Ok(ids)) => ids@,
        _ => Seq::<Result<Oid, GitError>>::empty(),
    };
    let walk = limited(ids, limit);
    let none = Seq::<CommitModel>::empty();
    assert(none =~= seq![]);
    lemma_walk_read(path, walk, 0, none, h, at + 2);
    let commits = match walked_turn(path, walk, 0, none, h, at + 2) {
        Turn::Done(cs, _) => cs,
        _ => none,
    };
    assert(stats == stats_after(touches(commits)));
    assert forall|i: int| 0 <= i < commits.len() implies is_read(
        path,
        ids[i],
        #[trigger] commits[i],
        h,
    ) by {
        assert(walk[i] == ids[i]);
    }
    assert forall|file: Seq<char>| #[trigger]
        stats.contains_key(file) <==> exists|i: int|
            0 <= i < commits.len() && times_in((#[trigger] commits[i]).changes, file) > 0 by {
        law_files_tallied(commits, file);
    }
    assert forall|file: Seq<char>| #[trigger] stats.contains_key(file) implies is_tally(
        stats[file],
        commits,
        file,
    ) by {
        law_files_tallied(commits, file);
    }
    commits
}

/// The walk that statistics ask for goes by time, and over no more commits than the limit says.
pub proof fn law_latest_commits_asked(path: Seq<u8>, limit: int, h: Seq<Reply>, at: int)
    requires
        0 <= at <= h.len(),
        h.len() > at ==> h[at] == Reply::Unit(Ok::<(), GitError>(())),
    ensures
        h.len() == at ==> file_stats_turn(path, limit, h, at) == ServiceTurn::<
            Map<Seq<char>, FileStat>,
        >::Ask(RequestModel::OpenRepo(path)),
        h.len() == at + 1 ==> file_stats_turn(path, limit, h, at) == ServiceTurn::<
            Map<Seq<char>, FileStat>,
        >::Ask(RequestModel::Walk(path, WalkOrder::ByTime, limit)),
{
}

// ---------------------------------------------------------------------------
// Lists of branches
// ---------------------------------------------------------------------------

/// Whether a branch of the list is the one that was read: by its name, by whether it is remote and
/// whether it is the current one, and by the time of its last commit where that is known, and else
/// the time of reading.
pub open spec fn is_listing_of(
    b: GitBranchModel,
    r: Result<BranchRecord, GitError>,
    remote: bool,
    current: Seq<char>,
) -> bool {
    r is Ok && r->Ok_0.name is Ok && r->Ok_0.name->Ok_0 is Some && {
        let name = r->Ok_0.name->Ok_0->0@;
        &&& b.name == name
        &&& b.is_remote == remote
        &&& b.is_current == (!remote && name == current)
        &&& is_time_of(b.last_commit_date, r->Ok_0.commit_seconds, r->Ok_0.now)
        &&& !(remote && "/HEAD"@.is_suffix_of(name))
    }
}

/// Whether a branch that was read has no place in the list: its name is not text, or is that of a
/// remote's HEAD.
pub open spec fn has_no_place(r: Result<BranchRecord, GitError>, remote: bool) -> bool {
    r is Ok && r->Ok_0.name is Ok
        && (r->Ok_0.name->Ok_0 is None || (remote && "/HEAD"@.is_suffix_of(
        r->Ok_0.name->Ok_0->0@,
    )))
}

/// Whether reading a branch, or its name, failed.
pub open spec fn failed_with(r: Result<BranchRecord, GitError>, e: GitErrorModel) -> bool {
    match r {
        Err(x) => e == x.model(),
        Ok(b) => match b.name {
            Err(x) => e == x.model(),
            Ok(_) => false,
        },
    }
}

/// Whether some positions are those of the branches that were read and are listed, in order: all
/// but those that have no place in the list.
pub open spec fn are_places(
    places: Seq<int>,
    list: Seq<GitBranchModel>,
    records: Seq<Result<BranchRecord, GitError>>,
    remote: bool,
    current: Seq<char>,
) -> bool {
    &&& places.len() == list.len()
    &&& forall|i: int|
        0 <= i < places.len() ==> 0 <= #[trigger] places[i] < records.len() && is_listing_of(
            list[i],
            records[places[i]],
            remote,
            current,
        )
    &&& forall|i: int, j: int| 0 <= i < j < places.len()
        ==> #[trigger] places[i] < #[trigger] places[j]
    &&& forall|k: int|
        0 <= k < records.len() && !places.contains(k)
            ==> has_no_place(#[trigger] records[k], remote)
}

/// Every branch that was read and has a place in the list is listed as it was read, once and in
/// order; nothing else is listed.
pub proof fn law_branches_listed_as_read(
    records: Seq<Result<BranchRecord, GitError>>,
    remote: bool,
    current: Seq<char>,
) -> (places: Seq<int>)
    ensures
        listed(records, remote, current) matches Ok(list) ==> are_places(
            places,
            list,
            records,
            remote,
            current,
        ),
    decreases records.len(),
{
    if records.len() == 0 {
        Seq::empty()
    } else {
        let tail = records.skip(1);
        let rest = law_branches_listed_as_read(tail, remote, current);
        let later = rest.map_values(|k: int| k + 1);
        let listed_first = listed_branch(records[0], remote, current) matches Ok(Some(_));
        let places = if listed_first {
            seq![0int] + later
        } else {
            later
        };
        if let Ok(list) = listed(records, remote, current) {
            let back = match listed(tail, remote, current) {
                Ok(s) => s,
                Err(_) => list,
            };
            assert(listed(tail, remote, current) == Ok::<Seq<GitBranchModel>, GitErrorModel>(back));
            let d: int = if listed_first {
                1
            } else {
                0
            };
            assert forall|i: int| 0 <= i < places.len() implies 0 <= #[trigger] places[i]
                < records.len() && is_listing_of(
                list[i],
                records[places[i]],
                remote,
                current,
            ) by {
                if i >= d {
                    assert(places[i] == rest[i - d] + 1);
                    assert(list[i] == back[i - d]);
                    assert(tail[rest[i - d]] == records[places[i]]);
                }
            }
            assert forall|i: int, j: int| 0 <= i < j < places.len() implies #[trigger] places[i]
                < #[trigger] places[j] by {
                assert(places[j] == rest[j - d] + 1);
                if i >= d {
                    assert(places[i] == rest[i - d] + 1);
                } else {
                    assert(0 <= rest[j - d]);
                }
            }
            assert forall|k: int|
                0 <= k < records.len() && !places.contains(k) implies has_no_place(
                #[trigger] records[k],
                remote,
            ) by {
                if k > 0 {
                    assert(tail[k - 1] == records[k]);
                    if rest.contains(k - 1) {
                        let i = choose|i: int| 0 <= i < rest.len() && rest[i] == k - 1;
                        assert(places[i + d] == k);
                    }
                } else if listed_first {
                    assert(places[0] == 0);
                }
            }
        }
        places
    }
}

/// A list fails exactly where reading a branch or its name failed, with the first such failure.
pub proof fn law_unread_branch_fails_list(
    records: Seq<Result<BranchRecord, GitError>>,
    remote: bool,
    current: Seq<char>,
)
    ensures
        match listed(records, remote, current) {
            Err(e) => exists|i: int|
                0 <= i < records.len() && failed_with(#[trigger] records[i], e) && (forall|j: int|
                    0 <= j < i ==> (#[trigger] records[j]) is Ok && records[j]->Ok_0.name is Ok),
            Ok(_) => forall|i: int|
                0 <= i < records.len()
                    ==> (#[trigger] records[i]) is Ok && records[i]->Ok_0.name is Ok,
        },
    decreases records.len(),
{
    if records.len() > 0 {
        let tail = records.skip(1);
        law_unread_branch_fails_list(tail, remote, current);
        if listed_branch(records[0], remote, current) is Err {
            assert(failed_with(records[0], listed_branch(records[0], remote, current)->Err_0));
        } else {
            match listed(tail, remote, current) {
                Err(e) => {
                    let i = choose|i: int|
                        0 <= i < tail.len() && failed_with(#[trigger] tail[i], e) && (forall|j: int|
                            0 <= j < i ==> (#[trigger] tail[j]) is Ok && tail[j]->Ok_0.name is Ok);
                    assert(records[i + 1] == tail[i]);
                    assert forall|j: int| 0 <= j < i + 1 implies (#[trigger] records[j]) is Ok
                        && records[j]->Ok_0.name is Ok by {
                        if j > 0 {
                            assert(tail[j - 1] == records[j]);
                        }
                    }
                },
                Ok(_) => {
                    assert forall|i: int|
                        0 <= i < records.len() implies (#[trigger] records[i]) is Ok
                        && records[i]->Ok_0.name is Ok by {
                        if i > 0 {
                            assert(tail[i - 1] == records[i]);
                        }
                    }
                },
            }
        }
    }
}

/// Whether a branch stands before another in the list rightly: it is the current one, or neither is
/// and its last commit is not the earlier one.
pub open spec fn rightly_before(a: GitBranchModel, b: GitBranchModel) -> bool {
    let (x, y) = (a.last_commit_date, b.last_commit_date);
    if a.is_current == b.is_current {
        x.seconds > y.seconds || (x.seconds == y.seconds && x.nanos >= y.nanos)
    } else {
        a.is_current
    }
}

/// A list of all branches holds the local branches and the remote ones, as they were read: the
/// current branch first, and then a later last commit before an earlier one.
pub proof fn law_all_branches_listed(
    path: Seq<u8>,
    current: Seq<char>,
    h: Seq<Reply>,
    at: int,
    list: Seq<GitBranchModel>,
    n: int,
) -> (parts: (Seq<GitBranchModel>, Seq<GitBranchModel>, Seq<int>, Seq<int>))
    requires
        0 <= at,
        branches_of_turn(path, current, h, at) == Turn::<Seq<GitBranchModel>, GitErrorModel>::Done(
            list,
            n,
        ),
    ensures
        n == at + 2,
        n <= h.len(),
        match (h[at], h[at + 1]) {
            (Reply::Branches(Ok(locals)), Reply::Branches(Ok(remotes))) => {
                &&& are_places(parts.2, parts.0, locals@, false, current)
                &&& are_places(parts.3, parts.1, remotes@, true, current)
            },
            _ => false,
        },
        list.to_multiset() == (parts.0 + parts.1).to_multiset(),
        list.len() == parts.0.len() + parts.1.len(),
        forall|i: int, j: int|
            0 <= i < j < list.len() ==> rightly_before(#[trigger] list[i], #[trigger] list[j]),
{
    let (locals, remotes) = match (h[at], h[at + 1]) {
        (Reply::Branches(Ok(locals)), Reply::Branches(Ok(remotes))) => (locals@, remotes@),
        _ => (Seq::empty(), Seq::empty()),
    };
    let local = match listed(locals, false, current) {
        Ok(s) => s,
        Err(_) => Seq::empty(),
    };
    let remote = match listed(remotes, true, current) {
        Ok(s) => s,
        Err(_) => Seq::empty(),
    };
    let a = law_branches_listed_as_read(locals, false, current);
    let b = law_branches_listed_as_read(remotes, true, current);
    assert(list == ordered(local + remote));
    law_branches_in_order(local + remote);
    law_branches_kept(local + remote);
    assert forall|i: int, j: int| 0 <= i < j < list.len() implies rightly_before(
        #[trigger] list[i],
        #[trigger] list[j],
    ) by {
        assert(!comes_before(list[j], list[i]));
    }
    (local, remote, a, b)
}

/// The name of the current branch: the one that HEAD names, `HEAD` where it names none, and no name
/// where it leads to no commit.
pub open spec fn current_name(head: Result<HeadRef, GitError>) -> Seq<char> {
    if head is Ok && head->Ok_0.target is Some {
        if head->Ok_0.shorthand is Some {
            head->Ok_0.shorthand->0@
        } else {
            "HEAD"@
        }
    } else {
        seq![]
    }
}

/// What a list of all branches asks: for the repository, for where HEAD is, and for the local and
/// the remote branches. The current branch is the one that HEAD names.
pub proof fn law_all_branches_asked(
    path: Seq<u8>,
    h: Seq<Reply>,
    at: int,
    head: Result<HeadRef, GitError>,
    locals: Vec<Result<BranchRecord, GitError>>,
)
    requires
        0 <= at <= h.len(),
        h.len() > at ==> h[at] == Reply::Unit(Ok::<(), GitError>(())),
        h.len() > at + 1 ==> h[at + 1] == Reply::Unit(Ok::<(), GitError>(())),
        h.len() > at + 2 ==> h[at + 2] == Reply::Head(head),
        h.len() > at + 3 ==> h[at + 3] == Reply::Branches(
            Ok::<Vec<Result<BranchRecord, GitError>>, GitError>(locals),
        ),
        forall|i: int|
            0 <= i < locals@.len() ==> (#[trigger] locals@[i]) is Ok && locals@[i]->Ok_0.name is Ok,
    ensures
        h.len() == at || h.len() == at + 1 ==> all_branches_turn(path, h, at) == Turn::<
            Seq<GitBranchModel>,
            GitErrorModel,
        >::Ask(RequestModel::OpenRepo(path)),
        h.len() == at + 2 ==> all_branches_turn(path, h, at) == Turn::<
            Seq<GitBranchModel>,
            GitErrorModel,
        >::Ask(RequestModel::Head(path)),
        h.len() == at + 3 ==> all_branches_turn(path, h, at) == Turn::<
            Seq<GitBranchModel>,
            GitErrorModel,
        >::Ask(RequestModel::ListBranches(path, BranchType::Local)),
        h.len() == at + 4 ==> all_branches_turn(path, h, at) == Turn::<
            Seq<GitBranchModel>,
            GitErrorModel,
        >::Ask(RequestModel::ListBranches(path, BranchType::Remote)),
        h.len() >= at + 3 ==> all_branches_turn(path, h, at) == branches_of_turn(
            path,
            current_name(head),
            h,
            at + 3,
        ),
{
    law_unread_branch_fails_list(locals@, false, current_name(head));
}

} // verus!
