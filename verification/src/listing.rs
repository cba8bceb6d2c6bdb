//! The list of all branches.
use vstd::prelude::*;

use crate::dialogue::{
    and_then, branches_turn, grant, granted, settle, settled, turn, unit_turn, Dialogue, Interrupt,
    Reply, Request, RequestModel, Turn,
};
use crate::errors::{GitError, GitErrorModel};
use crate::model::{lemma_models_push, models, Model};
use crate::raw::RawText;
use crate::records::{BranchRecord, BranchType};
use crate::service::GitService;
use crate::text::{ends_with, same};
use crate::time::{commit_time, is_later, later, time_of_commit, Timestamp};
use crate::worktrees::current_branch_turn;

verus! {

broadcast use lemma_models_push;

/// A branch as it is listed.
#[derive(Debug, PartialEq, Eq)]
pub struct GitBranch {
    pub name: String,
    pub is_current: bool,
    pub is_remote: bool,
    pub last_commit_date: Timestamp,
}

/// What a `GitBranch` stands for.
pub struct GitBranchModel {
    pub name: Seq<char>,
    pub is_current: bool,
    pub is_remote: bool,
    pub last_commit_date: Timestamp,
}

impl Model for GitBranch {
    type M = GitBranchModel;

    open spec fn model(&self) -> GitBranchModel {
        GitBranchModel {
            name: self.name@,
            is_current: self.is_current,
            is_remote: self.is_remote,
            last_commit_date: self.last_commit_date,
        }
    }
}

impl GitBranch {
    /// The same branch again.
    pub fn copy(&self) -> (r: GitBranch)
        ensures
            r.model() == self.model(),
    {
        GitBranch {
            name: self.name.clone(),
            is_current: self.is_current,
            is_remote: self.is_remote,
            last_commit_date: self.last_commit_date,
        }
    }
}

// ---------------------------------------------------------------------------
// What is listed
// ---------------------------------------------------------------------------

/// When the last commit of a branch was made: now, where that is not known.
pub open spec fn last_commit_date(b: BranchRecord) -> Timestamp {
    match b.commit_seconds {
        Some(s) => commit_time(s, b.now),
        None => b.now,
    }
}

/// How a branch is listed: not at all where its name is not text, or is that of a remote's HEAD.
/// Only a local branch can be the current one.
pub open spec fn listed_branch(
    record: Result<BranchRecord, GitError>,
    remote: bool,
    current: Seq<char>,
) -> Result<Option<GitBranchModel>, GitErrorModel> {
    match record {
        Err(e) => Err(e.model()),
        Ok(b) => match b.name {
            Err(e) => Err(e.model()),
            Ok(None) => Ok(None),
            Ok(Some(name)) => if remote && "/HEAD"@.is_suffix_of(name@) {
                Ok(None)
            } else {
                Ok(
                    Some(
                        GitBranchModel {
                            name: name@,
                            is_current: !remote && name@ == current,
                            is_remote: remote,
                            last_commit_date: last_commit_date(b),
                        },
                    ),
                )
            },
        },
    }
}

/// How some branches are listed, or the first failure among them.
pub open spec fn listed(
    records: Seq<Result<BranchRecord, GitError>>,
    remote: bool,
    current: Seq<char>,
) -> Result<Seq<GitBranchModel>, GitErrorModel>
    decreases records.len(),
{
    if records.len() == 0 {
        Ok(seq![])
    } else {
        match listed_branch(records[0], remote, current) {
            Err(e) => Err(e),
            Ok(None) => listed(records.skip(1), remote, current),
            Ok(Some(b)) => after(seq![b], listed(records.skip(1), remote, current)),
        }
    }
}

/// `front`, followed by what `rest` lists.
pub open spec fn after(
    front: Seq<GitBranchModel>,
    rest: Result<Seq<GitBranchModel>, GitErrorModel>,
) -> Result<Seq<GitBranchModel>, GitErrorModel> {
    match rest {
        Ok(s) => Ok(front + s),
        Err(e) => Err(e),
    }
}

/// How a branch is listed.
pub fn list_branch(record: &Result<BranchRecord, GitError>, remote: bool, current: &str) -> (r:
    Result<Option<GitBranch>, GitError>)
    ensures
        r.model() == listed_branch(*record, remote, current@),
{
    match record {
        Err(e) => Err(e.copy()),
        Ok(b) => match &b.name {
            Err(e) => Err(e.copy()),
            Ok(None) => Ok(None),
            Ok(Some(name)) => {
                if remote && ends_with(name.as_str(), "/HEAD") {
                    return Ok(None);
                }
                let date: Timestamp = match b.commit_seconds {
                    Some(s) => time_of_commit(s, b.now),
                    None => b.now,
                };
                Ok(
                    Some(
                        GitBranch {
                            name: name.clone(),
                            is_current: !remote && same(name.as_str(), current),
                            is_remote: remote,
                            last_commit_date: date,
                        },
                    ),
                )
            },
        },
    }
}

/// How some branches are listed, or the first failure among them.
pub fn list_branches(
    records: &Vec<Result<BranchRecord, GitError>>,
    remote: bool,
    current: &str,
) -> (r: Result<Vec<GitBranch>, GitError>)
    ensures
        r.model() == listed(records@, remote, current@),
{
    let mut out: Vec<GitBranch> = Vec::new();
    let mut i: usize = 0;
    let ghost whole = listed(records@, remote, current@);
    proof {
        assert(records@.skip(0) =~= records@);
        assert(out.model() =~= seq![]);
        if whole is Ok {
            assert(out.model() + whole->Ok_0 =~= whole->Ok_0);
        }
    }
    while i < records.len()
        invariant
            i <= records@.len(),
            whole == listed(records@, remote, current@),
            after(out.model(), listed(records@.skip(i as int), remote, current@)) == whole,
        decreases records@.len() - i,
    {
        let ghost rest = records@.skip(i as int);
        let ghost before = out.model();
        assert(rest[0] == records@[i as int]);
        assert(rest.skip(1) =~= records@.skip(i + 1));
        match list_branch(&records[i], remote, current) {
            Err(e) => {
                return Err(e);
            },
            Ok(None) => {},
            Ok(Some(b)) => {
                let ghost m = b.model();
                out.push(b);
                proof {
                    let tail = listed(records@.skip(i + 1), remote, current@);
                    if tail is Ok {
                        assert(before + (seq![m] + tail->Ok_0) =~= before.push(m) + tail->Ok_0);
                    }
                }
            },
        }
        i = i + 1;
    }
    proof {
        assert(listed(records@.skip(i as int), remote, current@) == Ok::<_, GitErrorModel>(
            Seq::<GitBranchModel>::empty(),
        ));
        assert(out.model() + Seq::<GitBranchModel>::empty() =~= out.model());
    }
    Ok(out)
}

// ---------------------------------------------------------------------------
// The order
// ---------------------------------------------------------------------------

/// Whether one branch is listed before another wherever both are listed: the current branch before
/// the others, and else a later commit before an earlier one.
pub open spec fn comes_before(a: GitBranchModel, b: GitBranchModel) -> bool {
    if a.is_current != b.is_current {
        a.is_current
    } else {
        is_later(a.last_commit_date, b.last_commit_date)
    }
}

/// Where a branch goes in an ordered list: after all that it does not come before.
pub open spec fn place_of(list: Seq<GitBranchModel>, b: GitBranchModel) -> int
    decreases list.len(),
{
    if list.len() > 0 && comes_before(b, list.last()) {
        place_of(list.drop_last(), b)
    } else {
        list.len() as int
    }
}

/// Some branches in their order; those of equal rank keep the order in which they are given.
pub open spec fn ordered(list: Seq<GitBranchModel>) -> Seq<GitBranchModel>
    decreases list.len(),
{
    if list.len() == 0 {
        seq![]
    } else {
        let before = ordered(list.drop_last());
        before.insert(place_of(before, list.last()), list.last())
    }
}

proof fn lemma_place(list: Seq<GitBranchModel>, b: GitBranchModel)
    ensures
        0 <= place_of(list, b) <= list.len(),
        forall|i: int| place_of(list, b) <= i < list.len() ==> comes_before(b, #[trigger] list[i]),
        place_of(list, b) > 0 ==> !comes_before(b, list[place_of(list, b) - 1]),
    decreases list.len(),
{
    if list.len() > 0 && comes_before(b, list.last()) {
        lemma_place(list.drop_last(), b);
        assert forall|i: int| place_of(list, b) <= i < list.len() implies comes_before(
            b,
            #[trigger] list[i],
        ) by {
            if i < list.len() - 1 {
                assert(list.drop_last()[i] == list[i]);
            }
        }
    }
}

/// No branch of a list comes before one that is listed ahead of it.
pub open spec fn is_ordered(list: Seq<GitBranchModel>) -> bool {
    forall|i: int, j: int|
        0 <= i < j < list.len() ==> !comes_before(#[trigger] list[j], #[trigger] list[i])
}

/// Branches are listed in their order: the current branch first, then by their last commits,
/// latest first.
pub proof fn law_branches_in_order(list: Seq<GitBranchModel>)
    ensures
        is_ordered(ordered(list)),
        ordered(list).len() == list.len(),
    decreases list.len(),
{
    if list.len() > 0 {
        let before = ordered(list.drop_last());
        let b = list.last();
        let p = place_of(before, b);
        law_branches_in_order(list.drop_last());
        lemma_place(before, b);
        let r = before.insert(p, b);
        assert forall|i: int, j: int| 0 <= i < j < r.len() implies !comes_before(
            #[trigger] r[j],
            #[trigger] r[i],
        ) by {
            if j < p {
                assert(r[i] == before[i] && r[j] == before[j]);
            } else if j == p {
                assert(r[i] == before[i]);
                assert(!comes_before(b, before[p - 1]));
                if i < p - 1 {
                    assert(!comes_before(before[p - 1], before[i]));
                }
            } else if i < p {
                assert(r[i] == before[i] && r[j] == before[j - 1]);
            } else if i == p {
                assert(r[j] == before[j - 1]);
                assert(comes_before(b, before[j - 1]));
            } else {
                assert(r[i] == before[i - 1] && r[j] == before[j - 1]);
            }
        }
    }
}

/// Ordering neither drops nor adds a branch.
pub proof fn law_branches_kept(list: Seq<GitBranchModel>)
    ensures
        ordered(list).to_multiset() == list.to_multiset(),
    decreases list.len(),
{
    broadcast use vstd::seq_lib::group_to_multiset_ensures;

    if list.len() > 0 {
        let before = ordered(list.drop_last());
        let b = list.last();
        law_branches_kept(list.drop_last());
        lemma_place(before, b);
        assert(list =~= list.drop_last().push(b));
    } else {
        assert(ordered(list) =~= list);
    }
}

/// Whether neither of two branches comes before the other.
pub open spec fn same_rank(a: GitBranchModel, b: GitBranchModel) -> bool {
    !comes_before(a, b) && !comes_before(b, a)
}

proof fn lemma_none_kept(list: Seq<GitBranchModel>, f: spec_fn(GitBranchModel) -> bool)
    requires
        forall|i: int| 0 <= i < list.len() ==> !f(#[trigger] list[i]),
    ensures
        list.filter(f) == Seq::<GitBranchModel>::empty(),
    decreases list.len(),
{
    reveal(Seq::filter);
    if list.len() > 0 {
        lemma_none_kept(list.drop_last(), f);
    }
}

/// Branches of equal rank are listed in the order in which they were given.
pub proof fn law_branches_stable(list: Seq<GitBranchModel>, x: GitBranchModel)
    ensures
        ordered(list).filter(|y: GitBranchModel| same_rank(x, y)) == list.filter(
            |y: GitBranchModel| same_rank(x, y),
        ),
    decreases list.len(),
{
    let f = |y: GitBranchModel| same_rank(x, y);
    if list.len() > 0 {
        let before = ordered(list.drop_last());
        let b = list.last();
        let p = place_of(before, b);
        law_branches_stable(list.drop_last(), x);
        lemma_place(before, b);
        let front = before.take(p);
        let back = before.skip(p);
        assert(before =~= front + back);
        assert(before.insert(p, b) =~= front.push(b) + back);
        Seq::filter_distributes_over_add(front, back, f);
        Seq::filter_distributes_over_add(front.push(b), back, f);
        assert(front.push(b).drop_last() =~= front);
        assert(front.push(b).filter(f) == if f(b) {
            front.filter(f).push(b)
        } else {
            front.filter(f)
        }) by {
            reveal(Seq::filter);
        }
        assert(list.filter(f) == if f(b) {
            list.drop_last().filter(f).push(b)
        } else {
            list.drop_last().filter(f)
        }) by {
            reveal(Seq::filter);
        }
        if f(b) {
            assert forall|i: int| 0 <= i < back.len() implies !f(#[trigger] back[i]) by {
                assert(back[i] == before[p + i]);
                assert(comes_before(b, before[p + i]));
            }
            lemma_none_kept(back, f);
            assert(front.filter(f) + Seq::<GitBranchModel>::empty() =~= front.filter(f));
            assert(front.filter(f).push(b) + Seq::<GitBranchModel>::empty() =~= front.filter(
                f,
            ).push(b));
        }
    } else {
        assert(ordered(list) =~= list);
    }
}

fn before(a: &GitBranch, b: &GitBranch) -> (r: bool)
    ensures
        r == comes_before(a.model(), b.model()),
{
    if a.is_current != b.is_current {
        a.is_current
    } else {
        later(&a.last_commit_date, &b.last_commit_date)
    }
}

proof fn lemma_models_insert(s: Seq<GitBranch>, i: int, b: GitBranch)
    requires
        0 <= i <= s.len(),
    ensures
        models(s.insert(i, b)) == models(s).insert(i, b.model()),
{
    assert(models(s.insert(i, b)) =~= models(s).insert(i, b.model()));
}

/// Some branches in their order.
pub fn sort_branches(list: &Vec<GitBranch>) -> (r: Vec<GitBranch>)
    ensures
        r.model() == ordered(list.model()),
{
    let ghost all = list.model();
    let mut out: Vec<GitBranch> = Vec::new();
    let mut i: usize = 0;
    assert(out.model() =~= ordered(all.take(0)));
    while i < list.len()
        invariant
            i <= list@.len(),
            all == list.model(),
            out.model() == ordered(all.take(i as int)),
        decreases list@.len() - i,
    {
        let b: GitBranch = list[i].copy();
        let ghost m = b.model();
        let ghost so_far = out.model();
        assert(all.take(i + 1).drop_last() =~= all.take(i as int));
        assert(all.take(i + 1).last() == m);
        let mut p: usize = out.len();
        assert(so_far.take(p as int) =~= so_far);
        while p > 0 && before(&b, &out[p - 1])
            invariant
                p <= out@.len(),
                m == b.model(),
                so_far == out.model(),
                place_of(so_far.take(p as int), m) == place_of(so_far, m),
            decreases p,
        {
            assert(so_far.take(p as int).last() == out@[p - 1].model());
            assert(so_far.take(p as int).drop_last() =~= so_far.take(p - 1));
            p = p - 1;
        }
        proof {
            if p > 0 {
                assert(so_far.take(p as int).last() == out@[p - 1].model());
            }
            assert(place_of(so_far, m) == p);
            lemma_models_insert(out@, p as int, b);
        }
        out.insert(p, b);
        i = i + 1;
    }
    assert(all.take(i as int) =~= all);
    out
}

// ---------------------------------------------------------------------------
// The list
// ---------------------------------------------------------------------------

/// All branches, local and remote, in their order.
pub open spec fn all_branches_turn(path: Seq<u8>, h: Seq<Reply>, at: int) -> Turn<
    Seq<GitBranchModel>,
    GitErrorModel,
> {
    and_then(
        granted(unit_turn(RequestModel::OpenRepo(path), h, at)),
        |u: (), n: int|
            and_then(
                settled(current_branch_turn(path, h, n)),
                |found: Result<Seq<char>, GitErrorModel>, n: int|
                    {
                        let current = match found {
                            Ok(name) => name,
                            Err(_) => seq![],
                        };
                        branches_of_turn(path, current, h, n)
                    },
            ),
    )
}

/// All branches, where the current branch is known.
pub open spec fn branches_of_turn(path: Seq<u8>, current: Seq<char>, h: Seq<Reply>, at: int) -> Turn<
    Seq<GitBranchModel>,
    GitErrorModel,
> {
    and_then(
        granted(branches_turn(RequestModel::ListBranches(path, BranchType::Local), h, at)),
        |locals: Vec<Result<BranchRecord, GitError>>, n: int|
            match listed(locals@, false, current) {
                Err(e) => Turn::Failed(e, n),
                Ok(local) => and_then(
                    granted(
                        branches_turn(RequestModel::ListBranches(path, BranchType::Remote), h, n),
                    ),
                    |remotes: Vec<Result<BranchRecord, GitError>>, n: int|
                        match listed(remotes@, true, current) {
                            Err(e) => Turn::Failed(e, n),
                            Ok(remote) => Turn::Done(ordered(local + remote), n),
                        },
                ),
            },
    )
}

fn append(front: Vec<GitBranch>, back: &Vec<GitBranch>) -> (r: Vec<GitBranch>)
    ensures
        r.model() == front.model() + back.model(),
{
    let ghost start = front.model();
    let mut out: Vec<GitBranch> = front;
    let mut i: usize = 0;
    assert(start + back.model().take(0) =~= start);
    while i < back.len()
        invariant
            i <= back@.len(),
            out.model() == start + back.model().take(i as int),
        decreases back@.len() - i,
    {
        out.push(back[i].copy());
        assert(start + back.model().take(i + 1) =~= (start + back.model().take(i as int)).push(
            back@[i as int].model(),
        ));
        i = i + 1;
    }
    assert(back.model().take(i as int) =~= back.model());
    out
}

impl GitService {
    /// All branches, local and remote: the current branch first, then by their last commits,
    /// latest first.
    pub fn get_all_branches(&self, repo_path: &RawText, io: &mut Dialogue) -> (r: Result<
        Vec<GitBranch>,
        Interrupt<GitError>,
    >)
        ensures
            final(io).record() == old(io).record(),
            turn(r, final(io)) == all_branches_turn(repo_path@, old(io).record(), old(io).at()),
    {
        grant(io.unit(Request::OpenRepo(repo_path.copy())))?;
        let found: Result<Result<String, GitError>, Interrupt<GitError>> = settle(
            self.get_current_branch(repo_path, io),
        );
        let current: String = match found? {
            Ok(name) => name,
            Err(_) => String::new(),
        };
        assert(current@.len() == 0 ==> current@ =~= seq![]);
        let locals: &Vec<Result<BranchRecord, GitError>> = grant(
            io.branches(Request::ListBranches(repo_path.copy(), BranchType::Local)),
        )?;
        let local: Vec<GitBranch> = match list_branches(locals, false, current.as_str()) {
            Ok(list) => list,
            Err(e) => {
                return Err(Interrupt::Failed(e));
            },
        };
        let remotes: &Vec<Result<BranchRecord, GitError>> = grant(
            io.branches(Request::ListBranches(repo_path.copy(), BranchType::Remote)),
        )?;
        match list_branches(remotes, true, current.as_str()) {
            Ok(remote) => Ok(sort_branches(&append(local, &remote))),
            Err(e) => Err(Interrupt::Failed(e)),
        }
    }
}

// ---------------------------------------------------------------------------
// What is promised of the list
// ---------------------------------------------------------------------------

/// Among the branches that are listed, remote ones are never current and never a remote's HEAD, and
/// the current one has the name of the current branch.
pub proof fn law_listed_branches(
    records: Seq<Result<BranchRecord, GitError>>,
    remote: bool,
    current: Seq<char>,
)
    ensures
        listed(records, remote, current) matches Ok(list) ==> forall|i: int|
            0 <= i < list.len() ==> {
                &&& (#[trigger] list[i]).is_remote == remote
                &&& list[i].is_current ==> !remote && list[i].name == current
                &&& remote ==> !"/HEAD"@.is_suffix_of(list[i].name)
                &&& !remote && list[i].name == current ==> list[i].is_current
            },
    decreases records.len(),
{
    if records.len() > 0 {
        law_listed_branches(records.skip(1), remote, current);
        if let Ok(Some(b)) = listed_branch(records[0], remote, current) {
            if let Ok(rest) = listed(records.skip(1), remote, current) {
                let list = seq![b] + rest;
                assert forall|i: int| 0 <= i < list.len() implies {
                    &&& (#[trigger] list[i]).is_remote == remote
                    &&& list[i].is_current ==> !remote && list[i].name == current
                    &&& remote ==> !"/HEAD"@.is_suffix_of(list[i].name)
                    &&& !remote && list[i].name == current ==> list[i].is_current
                } by {
                    if i > 0 {
                        assert(list[i] == rest[i - 1]);
                    }
                }
            }
        }
    }
}

/// Where the current branch is listed, it is listed first.
pub proof fn law_current_branch_first(list: Seq<GitBranchModel>, i: int)
    requires
        0 <= i < ordered(list).len(),
        ordered(list)[i].is_current,
    ensures
        ordered(list)[0].is_current,
{
    law_branches_in_order(list);
    if i > 0 {
        assert(!comes_before(ordered(list)[i], ordered(list)[0]));
    }
}

} // verus!
