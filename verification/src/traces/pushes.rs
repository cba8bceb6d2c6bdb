//! What pushes, fetches and questions to a remote ask, and what they come to.
use vstd::prelude::*;

use crate::branches::find_branch_turn;
use crate::cli::CliTurn;
use crate::commands::push_turn;
use crate::dialogue::{CommandModel, RefUpdateModel, Reply, RequestModel, Turn};
use crate::errors::{CliErrorModel, GitError, ServiceErrorModel};
use crate::model::Model;
use crate::oid::Oid;
use crate::raw::{strict_text, utf8, RawText};
use crate::records::{
    BranchInfo, BranchType, GitHubRepoInfo, RemoteInfo, RunEnd, RunReport, VersionReport,
};
use crate::remotes::{
    add_all_and_push_turn, default_url_turn, fetch_all_turn, fetch_branch_turn, fetch_from_turn,
    github_info_turn, law_name_on_remote, law_tracking_refspec, push_to_github_turn,
    remote_has_branch_turn, remote_name_turn, remote_of_ref_turn, track_turn, tracking_refspec,
};
use crate::service::{default_remote_turn, first_name, ServiceTurn};
use crate::text::{trimmed, utf8_lossy};
use crate::traces::{ended_well, leaves_out, lemma_left_out};
use crate::worktrees::check_clean_turn;

verus! {

/// A push from a clean worktree pushes the branch to the branch of the same name on the default
/// remote, by its URL; a plus sign forces it exactly where that is wanted. Then the tracking
/// reference of the remote points at the tip of the branch, and the branch has its name on the
/// remote as upstream.
pub proof fn law_branch_pushed(
    path: Seq<u8>,
    branch: Seq<char>,
    force: bool,
    p: int,
    q: int,
    name: Seq<char>,
    url: Seq<char>,
    found: BranchInfo,
    tip: Oid,
    end: RunEnd,
    h: Seq<Reply>,
    at: int,
    k: int,
    e: GitError,
    bad: RunEnd,
)
    requires
        0 <= at <= q <= h.len(),
        at < q,
        h[at] == Reply::Unit(Ok::<(), GitError>(())),
        check_clean_turn(path, h, at + 1) == ServiceTurn::Done((), p),
        default_url_turn(path, h, p) == ServiceTurn::Done((name, url), q),
        !found.is_remote,
        found.target == Some(tip),
        ended_well(end),
        bad.code != Some(0i32),
        k != 2,
        h.len() > q
            ==> h[q] == if k == 0 {
                Reply::Version(VersionReport::Missing)
            } else {
                Reply::Version(VersionReport::Ended(true))
            },
        h.len() > q + 1
            ==> h[q + 1] == if k == 1 {
                Reply::Ran(RunReport::Ended(bad))
            } else {
                Reply::Ran(RunReport::Ended(end))
            },
        h.len() > q + 2 ==> h[q + 2] == Reply::Branch(Ok::<BranchInfo, GitError>(found)),
        h.len() > q + 3
            ==> h[q + 3] == if k == 3 {
                Reply::Unit(Err::<(), GitError>(e))
            } else {
                Reply::Unit(Ok::<(), GitError>(()))
            },
        h.len() > q + 4
            ==> h[q + 4] == if k == 4 {
                Reply::Unit(Err::<(), GitError>(e))
            } else {
                Reply::Unit(Ok::<(), GitError>(()))
            },
    ensures
        h.len() == q
            ==> push_to_github_turn(path, branch, force, h, at) == ServiceTurn::<()>::Ask(
                RequestModel::Version,
            ),
        h.len() == q + 1 && !(0 <= k < 1)
            ==> push_to_github_turn(path, branch, force, h, at) == ServiceTurn::<()>::Ask(
                RequestModel::Run(
                    CommandModel {
                        dir: path,
                        args: seq![
                            utf8("push"@),
                            utf8(url),
                            utf8(
                                if force {
                                    "+refs/heads/"@ + branch + ":refs/heads/"@ + branch
                                } else {
                                    "refs/heads/"@ + branch + ":refs/heads/"@ + branch
                                },
                            )
                        ],
                        envs: seq![(utf8("GIT_TERMINAL_PROMPT"@), utf8("0"@))],
                        stdin: None,
                    },
                ),
            ),
        h.len() == q + 2 && !(0 <= k < 2)
            ==> push_to_github_turn(path, branch, force, h, at) == ServiceTurn::<()>::Ask(
                RequestModel::FindBranch(path, branch, BranchType::Local),
            ),
        h.len() == q + 3 && !(0 <= k < 3)
            ==> push_to_github_turn(path, branch, force, h, at) == ServiceTurn::<()>::Ask(
                RequestModel::UpdateReference(
                    path,
                    RefUpdateModel {
                        refname: "refs/remotes/"@ + name + "/"@ + branch,
                        target: tip@,
                        force: true,
                        log: "update remote tracking branch"@,
                    },
                ),
            ),
        h.len() == q + 4 && !(0 <= k < 4)
            ==> push_to_github_turn(path, branch, force, h, at) == ServiceTurn::<()>::Ask(
                RequestModel::SetUpstream(path, branch, BranchType::Local, name + "/"@ + branch),
            ),
        (k == 3 || k == 4) && h.len() > q + k
            ==> push_to_github_turn(path, branch, force, h, at) == ServiceTurn::<()>::Failed(
                ServiceErrorModel::Git(e.model()),
                q + k + 1,
            ),
        (k == 0 || k == 1) && h.len() > q + k
            ==> (
                push_to_github_turn(path, branch, force, h, at) matches Turn::Failed(_, m)
                    && m == q + k + 1
            ),
        h.len() >= q + 5 && !(0 <= k < 5)
            ==> push_to_github_turn(path, branch, force, h, at) == ServiceTurn::<()>::Done(
                (),
                q + 5,
            ),
{
    reveal_strlit("+");
    reveal_strlit("+refs/heads/");
    reveal_strlit("refs/heads/");
    let refspec = "refs/heads/"@ + branch + ":refs/heads/"@ + branch;
    assert("+"@ + refspec =~= "+refs/heads/"@ + branch + ":refs/heads/"@ + branch);
}

/// The remote that is pushed to is the default one, and its URL is the one that it was found with.
pub proof fn law_default_remote_found(
    repo: Seq<u8>,
    p: int,
    name: Seq<char>,
    info: RemoteInfo,
    url: String,
    h: Seq<Reply>,
    at: int,
    k: int,
    e: GitError,
)
    requires
        0 <= at <= p <= h.len(),
        default_remote_turn::<ServiceErrorModel>(repo, h, at) == ServiceTurn::Done(name, p),
        info.url == Some(url),
        h.len() > p
            ==> h[p] == if k == 0 {
                Reply::Remote(Err::<RemoteInfo, GitError>(e))
            } else {
                Reply::Remote(Ok::<RemoteInfo, GitError>(info))
            },
    ensures
        h.len() == p
            ==> default_url_turn(repo, h, at) == ServiceTurn::<(Seq<char>, Seq<char>)>::Ask(
                RequestModel::FindRemote(repo, name),
            ),
        (k == 0) && h.len() > p + k
            ==> default_url_turn(repo, h, at) == ServiceTurn::<(Seq<char>, Seq<char>)>::Failed(
                ServiceErrorModel::Git(e.model()),
                p + k + 1,
            ),
        h.len() >= p + 1 && !(0 <= k < 1)
            ==> default_url_turn(repo, h, at) == ServiceTurn::<(Seq<char>, Seq<char>)>::Done(
                (name, url@),
                p + 1,
            ),
{
}

/// Pushing everything stages and commits all changes but those in the directories that are left
/// out, pushes the branch without force to the default remote, and lets it track its branch there.
pub proof fn law_everything_pushed(
    dirs: Seq<Seq<char>>,
    path: Seq<u8>,
    branch: Seq<char>,
    args: Seq<Seq<u8>>,
    p: int,
    name: Seq<char>,
    url: Seq<char>,
    found: BranchInfo,
    tip: Oid,
    end1: RunEnd,
    end2: RunEnd,
    end3: RunEnd,
    end4: RunEnd,
    h: Seq<Reply>,
    at: int,
    k: int,
    e: GitError,
    bad: RunEnd,
)
    requires
        0 <= at <= p <= h.len(),
        at < p,
        h[at] == Reply::Unit(Ok::<(), GitError>(())),
        default_url_turn(path, h, at + 1) == ServiceTurn::Done((name, url), p),
        !found.is_remote,
        found.target == Some(tip),
        end1.stdout@.len() > 0,
        leaves_out(args, seq![utf8("add"@), utf8("-A"@)], dirs),
        ended_well(end1),
        ended_well(end2),
        ended_well(end3),
        ended_well(end4),
        bad.code != Some(0i32),
        k != 6,
        k != 7,
        k != 12,
        h.len() > p
            ==> h[p] == if k == 0 {
                Reply::Version(VersionReport::Missing)
            } else {
                Reply::Version(VersionReport::Ended(true))
            },
        h.len() > p + 1
            ==> h[p + 1] == if k == 1 {
                Reply::Ran(RunReport::Ended(bad))
            } else {
                Reply::Ran(RunReport::Ended(end1))
            },
        h.len() > p + 2
            ==> h[p + 2] == if k == 2 {
                Reply::Version(VersionReport::Missing)
            } else {
                Reply::Version(VersionReport::Ended(true))
            },
        h.len() > p + 3
            ==> h[p + 3] == if k == 3 {
                Reply::Ran(RunReport::Ended(bad))
            } else {
                Reply::Ran(RunReport::Ended(end2))
            },
        h.len() > p + 4
            ==> h[p + 4] == if k == 4 {
                Reply::Unit(Err::<(), GitError>(e))
            } else {
                Reply::Unit(Ok::<(), GitError>(()))
            },
        h.len() > p + 5
            ==> h[p + 5] == if k == 5 {
                Reply::Unit(Err::<(), GitError>(e))
            } else {
                Reply::Unit(Ok::<(), GitError>(()))
            },
        h.len() > p + 6 ==> h[p + 6] == Reply::Flag(true),
        h.len() > p + 7 ==> h[p + 7] == Reply::Flag(true),
        h.len() > p + 8
            ==> h[p + 8] == if k == 8 {
                Reply::Version(VersionReport::Missing)
            } else {
                Reply::Version(VersionReport::Ended(true))
            },
        h.len() > p + 9
            ==> h[p + 9] == if k == 9 {
                Reply::Ran(RunReport::Ended(bad))
            } else {
                Reply::Ran(RunReport::Ended(end3))
            },
        h.len() > p + 10
            ==> h[p + 10] == if k == 10 {
                Reply::Version(VersionReport::Missing)
            } else {
                Reply::Version(VersionReport::Ended(true))
            },
        h.len() > p + 11
            ==> h[p + 11] == if k == 11 {
                Reply::Ran(RunReport::Ended(bad))
            } else {
                Reply::Ran(RunReport::Ended(end4))
            },
        h.len() > p + 12 ==> h[p + 12] == Reply::Branch(Ok::<BranchInfo, GitError>(found)),
        h.len() > p + 13
            ==> h[p + 13] == if k == 13 {
                Reply::Unit(Err::<(), GitError>(e))
            } else {
                Reply::Unit(Ok::<(), GitError>(()))
            },
        h.len() > p + 14
            ==> h[p + 14] == if k == 14 {
                Reply::Unit(Err::<(), GitError>(e))
            } else {
                Reply::Unit(Ok::<(), GitError>(()))
            },
    ensures
        h.len() == p
            ==> add_all_and_push_turn(dirs, path, branch, h, at) == ServiceTurn::<()>::Ask(
                RequestModel::Version,
            ),
        h.len() == p + 1 && !(0 <= k < 1)
            ==> add_all_and_push_turn(dirs, path, branch, h, at) == ServiceTurn::<()>::Ask(
                RequestModel::Run(
                    CommandModel {
                        dir: path,
                        args: seq![
                            utf8("--no-optional-locks"@),
                            utf8("status"@),
                            utf8("--porcelain"@)
                        ],
                        envs: seq![],
                        stdin: None,
                    },
                ),
            ),
        h.len() == p + 2 && !(0 <= k < 2)
            ==> add_all_and_push_turn(dirs, path, branch, h, at) == ServiceTurn::<()>::Ask(
                RequestModel::Version,
            ),
        h.len() == p + 3 && !(0 <= k < 3)
            ==> add_all_and_push_turn(dirs, path, branch, h, at) == ServiceTurn::<()>::Ask(
                RequestModel::Run(
                    CommandModel { dir: path, args: args, envs: seq![], stdin: None },
                ),
            ),
        h.len() == p + 4 && !(0 <= k < 4)
            ==> add_all_and_push_turn(dirs, path, branch, h, at) == ServiceTurn::<()>::Ask(
                RequestModel::OpenRepo(path),
            ),
        h.len() == p + 5 && !(0 <= k < 5)
            ==> add_all_and_push_turn(dirs, path, branch, h, at) == ServiceTurn::<()>::Ask(
                RequestModel::OpenConfig(path),
            ),
        h.len() == p + 6 && !(0 <= k < 6)
            ==> add_all_and_push_turn(dirs, path, branch, h, at) == ServiceTurn::<()>::Ask(
                RequestModel::ConfigHas(path, "user.name"@),
            ),
        h.len() == p + 7 && !(0 <= k < 7)
            ==> add_all_and_push_turn(dirs, path, branch, h, at) == ServiceTurn::<()>::Ask(
                RequestModel::ConfigHas(path, "user.email"@),
            ),
        h.len() == p + 8 && !(0 <= k < 8)
            ==> add_all_and_push_turn(dirs, path, branch, h, at) == ServiceTurn::<()>::Ask(
                RequestModel::Version,
            ),
        h.len() == p + 9 && !(0 <= k < 9)
            ==> add_all_and_push_turn(dirs, path, branch, h, at) == ServiceTurn::<()>::Ask(
                RequestModel::Run(
                    CommandModel {
                        dir: path,
                        args: seq![
                            utf8("commit"@),
                            utf8("--no-verify"@),
                            utf8("-m"@),
                            utf8("update"@)
                        ],
                        envs: seq![],
                        stdin: None,
                    },
                ),
            ),
        h.len() == p + 10 && !(0 <= k < 10)
            ==> add_all_and_push_turn(dirs, path, branch, h, at) == ServiceTurn::<()>::Ask(
                RequestModel::Version,
            ),
        h.len() == p + 11 && !(0 <= k < 11)
            ==> add_all_and_push_turn(dirs, path, branch, h, at) == ServiceTurn::<()>::Ask(
                RequestModel::Run(
                    CommandModel {
                        dir: path,
                        args: seq![
                            utf8("push"@),
                            utf8(url),
                            utf8("refs/heads/"@ + branch + ":refs/heads/"@ + branch)
                        ],
                        envs: seq![(utf8("GIT_TERMINAL_PROMPT"@), utf8("0"@))],
                        stdin: None,
                    },
                ),
            ),
        h.len() == p + 12 && !(0 <= k < 12)
            ==> add_all_and_push_turn(dirs, path, branch, h, at) == ServiceTurn::<()>::Ask(
                RequestModel::FindBranch(path, branch, BranchType::Local),
            ),
        h.len() == p + 13 && !(0 <= k < 13)
            ==> add_all_and_push_turn(dirs, path, branch, h, at) == ServiceTurn::<()>::Ask(
                RequestModel::UpdateReference(
                    path,
                    RefUpdateModel {
                        refname: "refs/remotes/"@ + name + "/"@ + branch,
                        target: tip@,
                        force: true,
                        log: "update remote tracking branch"@,
                    },
                ),
            ),
        h.len() == p + 14 && !(0 <= k < 14)
            ==> add_all_and_push_turn(dirs, path, branch, h, at) == ServiceTurn::<()>::Ask(
                RequestModel::SetUpstream(path, branch, BranchType::Local, name + "/"@ + branch),
            ),
        (k == 4 || k == 5 || k == 13 || k == 14) && h.len() > p + k
            ==> add_all_and_push_turn(dirs, path, branch, h, at) == ServiceTurn::<()>::Failed(
                ServiceErrorModel::Git(e.model()),
                p + k + 1,
            ),
        (k == 0 || k == 1 || k == 2 || k == 3 || k == 8 || k == 9 || k == 10 || k == 11)
            && h.len() > p + k
            ==> (
                add_all_and_push_turn(dirs, path, branch, h, at) matches Turn::Failed(_, m)
                    && m == p + k + 1
            ),
        h.len() >= p + 15 && !(0 <= k < 15)
            ==> add_all_and_push_turn(dirs, path, branch, h, at) == ServiceTurn::<()>::Done(
                (),
                p + 15,
            ),
{
    lemma_left_out(args, seq![utf8("add"@), utf8("-A"@)], dirs);
}

/// A fetch runs `git fetch` with the URL of the remote and the refspec, in the own directory of
/// the repository.
pub proof fn law_refspec_fetched(
    repo: Seq<u8>,
    info: RemoteInfo,
    url: String,
    refspec: Seq<char>,
    dir: RawText,
    end: RunEnd,
    h: Seq<Reply>,
    at: int,
    k: int,
    e: GitError,
    bad: RunEnd,
)
    requires
        0 <= at <= h.len(),
        info.url == Some(url),
        ended_well(end),
        bad.code != Some(0i32),
        h.len() > at
            ==> h[at] == if k == 0 {
                Reply::Bytes(Err::<RawText, GitError>(e))
            } else {
                Reply::Bytes(Ok::<RawText, GitError>(dir))
            },
        h.len() > at + 1
            ==> h[at + 1] == if k == 1 {
                Reply::Version(VersionReport::Missing)
            } else {
                Reply::Version(VersionReport::Ended(true))
            },
        h.len() > at + 2
            ==> h[at + 2] == if k == 2 {
                Reply::Ran(RunReport::Ended(bad))
            } else {
                Reply::Ran(RunReport::Ended(end))
            },
    ensures
        h.len() == at
            ==> fetch_from_turn(repo, info, refspec, h, at) == ServiceTurn::<()>::Ask(
                RequestModel::GitDir(repo),
            ),
        h.len() == at + 1 && !(0 <= k < 1)
            ==> fetch_from_turn(repo, info, refspec, h, at) == ServiceTurn::<()>::Ask(
                RequestModel::Version,
            ),
        h.len() == at + 2 && !(0 <= k < 2)
            ==> fetch_from_turn(repo, info, refspec, h, at) == ServiceTurn::<()>::Ask(
                RequestModel::Run(
                    CommandModel {
                        dir: dir@,
                        args: seq![utf8("fetch"@), utf8(url@), utf8(refspec)],
                        envs: seq![(utf8("GIT_TERMINAL_PROMPT"@), utf8("0"@))],
                        stdin: None,
                    },
                ),
            ),
        (k == 0) && h.len() > at + k
            ==> fetch_from_turn(repo, info, refspec, h, at) == ServiceTurn::<()>::Failed(
                ServiceErrorModel::Git(e.model()),
                at + k + 1,
            ),
        (k == 1 || k == 2) && h.len() > at + k
            ==> (
                fetch_from_turn(repo, info, refspec, h, at) matches Turn::Failed(_, m)
                    && m == at + k + 1
            ),
        h.len() >= at + 3 && !(0 <= k < 3)
            ==> fetch_from_turn(repo, info, refspec, h, at) == ServiceTurn::<()>::Done((), at + 3),
{
}

/// Fetching all branches of a remote updates its tracking references by force.
pub proof fn law_all_branches_fetched(
    repo: Seq<u8>,
    info: RemoteInfo,
    url: String,
    name: String,
    v: Vec<Option<String>>,
    dir: RawText,
    end: RunEnd,
    h: Seq<Reply>,
    at: int,
    k: int,
    e: GitError,
    bad: RunEnd,
)
    requires
        0 <= at <= h.len(),
        info.url == Some(url),
        (info.name == Some(name) || (info.name is None && v@.len() > 0 && v@[0] == Some(name))),
        ended_well(end),
        bad.code != Some(0i32),
        k != 0,
        h.len() > at ==> h[at] == Reply::Names(Ok::<Vec<Option<String>>, GitError>(v)),
        h.len() > at + 1
            ==> h[at + 1] == if k == 1 {
                Reply::Bytes(Err::<RawText, GitError>(e))
            } else {
                Reply::Bytes(Ok::<RawText, GitError>(dir))
            },
        h.len() > at + 2
            ==> h[at + 2] == if k == 2 {
                Reply::Version(VersionReport::Missing)
            } else {
                Reply::Version(VersionReport::Ended(true))
            },
        h.len() > at + 3
            ==> h[at + 3] == if k == 3 {
                Reply::Ran(RunReport::Ended(bad))
            } else {
                Reply::Ran(RunReport::Ended(end))
            },
    ensures
        h.len() == at
            ==> fetch_all_turn(repo, info, h, at) == ServiceTurn::<()>::Ask(
                RequestModel::RemoteNames(repo),
            ),
        h.len() == at + 1 && !(0 <= k < 1)
            ==> fetch_all_turn(repo, info, h, at) == ServiceTurn::<()>::Ask(
                RequestModel::GitDir(repo),
            ),
        h.len() == at + 2 && !(0 <= k < 2)
            ==> fetch_all_turn(repo, info, h, at) == ServiceTurn::<()>::Ask(RequestModel::Version),
        h.len() == at + 3 && !(0 <= k < 3)
            ==> fetch_all_turn(repo, info, h, at) == ServiceTurn::<()>::Ask(
                RequestModel::Run(
                    CommandModel {
                        dir: dir@,
                        args: seq![
                            utf8("fetch"@),
                            utf8(url@),
                            utf8("+refs/heads/*:refs/remotes/"@ + name@ + "/*"@)
                        ],
                        envs: seq![(utf8("GIT_TERMINAL_PROMPT"@), utf8("0"@))],
                        stdin: None,
                    },
                ),
            ),
        (k == 1) && h.len() > at + k
            ==> fetch_all_turn(repo, info, h, at) == ServiceTurn::<()>::Failed(
                ServiceErrorModel::Git(e.model()),
                at + k + 1,
            ),
        (k == 2 || k == 3) && h.len() > at + k
            ==> (fetch_all_turn(repo, info, h, at) matches Turn::Failed(_, m) && m == at + k + 1),
        h.len() >= at + 4 && !(0 <= k < 4)
            ==> fetch_all_turn(repo, info, h, at) == ServiceTurn::<()>::Done((), at + 4),
{
}

/// Fetching a remote branch asks which remote it belongs to, and updates its tracking reference by
/// force from the branch of its name there.
pub proof fn law_one_branch_fetched(
    repo: Seq<u8>,
    branch: Seq<char>,
    info: BranchInfo,
    refname: String,
    raw_name: RawText,
    remote: RemoteInfo,
    name: String,
    url: String,
    v: Vec<Option<String>>,
    dir: RawText,
    end: RunEnd,
    h: Seq<Reply>,
    at: int,
    k: int,
    e: GitError,
    bad: RunEnd,
)
    requires
        0 <= at <= h.len(),
        info.refname == Some(refname),
        refname@ == "refs/remotes/"@ + name@ + "/"@ + branch,
        strict_text(raw_name@) == Some(name@),
        (remote.name == Some(name) || (remote.name is None && v@.len() > 0 && v@[0] == Some(name))),
        remote.url == Some(url),
        ended_well(end),
        bad.code != Some(0i32),
        k != 2,
        h.len() > at
            ==> h[at] == if k == 0 {
                Reply::Bytes(Err::<RawText, GitError>(e))
            } else {
                Reply::Bytes(Ok::<RawText, GitError>(raw_name))
            },
        h.len() > at + 1
            ==> h[at + 1] == if k == 1 {
                Reply::Remote(Err::<RemoteInfo, GitError>(e))
            } else {
                Reply::Remote(Ok::<RemoteInfo, GitError>(remote))
            },
        h.len() > at + 2 ==> h[at + 2] == Reply::Names(Ok::<Vec<Option<String>>, GitError>(v)),
        h.len() > at + 3
            ==> h[at + 3] == if k == 3 {
                Reply::Bytes(Err::<RawText, GitError>(e))
            } else {
                Reply::Bytes(Ok::<RawText, GitError>(dir))
            },
        h.len() > at + 4
            ==> h[at + 4] == if k == 4 {
                Reply::Version(VersionReport::Missing)
            } else {
                Reply::Version(VersionReport::Ended(true))
            },
        h.len() > at + 5
            ==> h[at + 5] == if k == 5 {
                Reply::Ran(RunReport::Ended(bad))
            } else {
                Reply::Ran(RunReport::Ended(end))
            },
    ensures
        h.len() == at
            ==> fetch_branch_turn(repo, info, h, at) == ServiceTurn::<()>::Ask(
                RequestModel::BranchRemoteName(repo, refname@),
            ),
        h.len() == at + 1 && !(0 <= k < 1)
            ==> fetch_branch_turn(repo, info, h, at) == ServiceTurn::<()>::Ask(
                RequestModel::FindRemote(repo, name@),
            ),
        h.len() == at + 2 && !(0 <= k < 2)
            ==> fetch_branch_turn(repo, info, h, at) == ServiceTurn::<()>::Ask(
                RequestModel::RemoteNames(repo),
            ),
        h.len() == at + 3 && !(0 <= k < 3)
            ==> fetch_branch_turn(repo, info, h, at) == ServiceTurn::<()>::Ask(
                RequestModel::GitDir(repo),
            ),
        h.len() == at + 4 && !(0 <= k < 4)
            ==> fetch_branch_turn(repo, info, h, at) == ServiceTurn::<()>::Ask(
                RequestModel::Version,
            ),
        h.len() == at + 5 && !(0 <= k < 5)
            ==> fetch_branch_turn(repo, info, h, at) == ServiceTurn::<()>::Ask(
                RequestModel::Run(
                    CommandModel {
                        dir: dir@,
                        args: seq![
                            utf8("fetch"@),
                            utf8(url@),
                            utf8(
                                "+refs/heads/"@ + branch + ":refs/remotes/"@ + name@ + "/"@
                                    + branch,
                            )
                        ],
                        envs: seq![(utf8("GIT_TERMINAL_PROMPT"@), utf8("0"@))],
                        stdin: None,
                    },
                ),
            ),
        (k == 0 || k == 3) && h.len() > at + k
            ==> fetch_branch_turn(repo, info, h, at) == ServiceTurn::<()>::Failed(
                ServiceErrorModel::Git(e.model()),
                at + k + 1,
            ),
        (k == 1 || k == 4 || k == 5) && h.len() > at + k
            ==> (
                fetch_branch_turn(repo, info, h, at) matches Turn::Failed(_, m) && m == at + k + 1
            ),
        h.len() >= at + 6 && !(0 <= k < 6)
            ==> fetch_branch_turn(repo, info, h, at) == ServiceTurn::<()>::Done((), at + 6),
{
    law_tracking_refspec(name@, branch);
    reveal_strlit("+");
    reveal_strlit("+refs/heads/");
    reveal_strlit("refs/heads/");
    reveal_strlit(":");
    reveal_strlit("refs/remotes/");
    reveal_strlit(":refs/remotes/");
    assert("+"@ + ("refs/heads/"@ + branch) + ":"@ + ("refs/remotes/"@ + name@ + "/"@ + branch)
        =~= "+refs/heads/"@ + branch + ":refs/remotes/"@ + name@ + "/"@ + branch);
}

/// Whether the default remote has a local branch is asked of the remote by its URL, without
/// fetching: it has the branch exactly where it lists something for it.
pub proof fn law_remote_asked_for_branch(
    path: Seq<u8>,
    branch: Seq<char>,
    v: Vec<Option<String>>,
    name: String,
    info: RemoteInfo,
    url: String,
    found: BranchInfo,
    end: RunEnd,
    h: Seq<Reply>,
    at: int,
    k: int,
    e: GitError,
    bad: RunEnd,
)
    requires
        0 <= at <= h.len(),
        v@.len() > 0,
        v@[0] == Some(name),
        info.url == Some(url),
        ended_well(end),
        bad.code != Some(0i32),
        k != 1,
        k != 3,
        h.len() > at
            ==> h[at] == if k == 0 {
                Reply::Unit(Err::<(), GitError>(e))
            } else {
                Reply::Unit(Ok::<(), GitError>(()))
            },
        h.len() > at + 1 ==> h[at + 1] == Reply::Names(Ok::<Vec<Option<String>>, GitError>(v)),
        h.len() > at + 2
            ==> h[at + 2] == if k == 2 {
                Reply::Unit(Err::<(), GitError>(e))
            } else {
                Reply::Unit(Ok::<(), GitError>(()))
            },
        h.len() > at + 3 ==> h[at + 3] == Reply::Branch(Ok::<BranchInfo, GitError>(found)),
        h.len() > at + 4
            ==> h[at + 4] == if k == 4 {
                Reply::Remote(Err::<RemoteInfo, GitError>(e))
            } else {
                Reply::Remote(Ok::<RemoteInfo, GitError>(info))
            },
        h.len() > at + 5
            ==> h[at + 5] == if k == 5 {
                Reply::Version(VersionReport::Missing)
            } else {
                Reply::Version(VersionReport::Ended(true))
            },
        h.len() > at + 6
            ==> h[at + 6] == if k == 6 {
                Reply::Ran(RunReport::Ended(bad))
            } else {
                Reply::Ran(RunReport::Ended(end))
            },
    ensures
        h.len() == at
            ==> remote_has_branch_turn(path, branch, h, at) == ServiceTurn::<bool>::Ask(
                RequestModel::OpenRepo(path),
            ),
        h.len() == at + 1 && !(0 <= k < 1)
            ==> remote_has_branch_turn(path, branch, h, at) == ServiceTurn::<bool>::Ask(
                RequestModel::RemoteNames(path),
            ),
        h.len() == at + 2 && !(0 <= k < 2)
            ==> remote_has_branch_turn(path, branch, h, at) == ServiceTurn::<bool>::Ask(
                RequestModel::OpenRepo(path),
            ),
        h.len() == at + 3 && !(0 <= k < 3)
            ==> remote_has_branch_turn(path, branch, h, at) == ServiceTurn::<bool>::Ask(
                RequestModel::FindBranch(path, branch, BranchType::Local),
            ),
        h.len() == at + 4 && !(0 <= k < 4)
            ==> remote_has_branch_turn(path, branch, h, at) == ServiceTurn::<bool>::Ask(
                RequestModel::FindRemote(path, name@),
            ),
        h.len() == at + 5 && !(0 <= k < 5)
            ==> remote_has_branch_turn(path, branch, h, at) == ServiceTurn::<bool>::Ask(
                RequestModel::Version,
            ),
        h.len() == at + 6 && !(0 <= k < 6)
            ==> remote_has_branch_turn(path, branch, h, at) == ServiceTurn::<bool>::Ask(
                RequestModel::Run(
                    CommandModel {
                        dir: path,
                        args: seq![
                            utf8("ls-remote"@),
                            utf8("--heads"@),
                            utf8(url@),
                            utf8("refs/heads/"@ + branch)
                        ],
                        envs: seq![(utf8("GIT_TERMINAL_PROMPT"@), utf8("0"@))],
                        stdin: None,
                    },
                ),
            ),
        (k == 0 || k == 2 || k == 4) && h.len() > at + k
            ==> remote_has_branch_turn(path, branch, h, at) == ServiceTurn::<bool>::Failed(
                ServiceErrorModel::Git(e.model()),
                at + k + 1,
            ),
        (k == 5 || k == 6) && h.len() > at + k
            ==> (
                remote_has_branch_turn(path, branch, h, at) matches Turn::Failed(_, m)
                    && m == at + k + 1
            ),
        h.len() >= at + 7 && !(0 <= k < 7)
            ==> remote_has_branch_turn(path, branch, h, at) == ServiceTurn::<bool>::Done(
                trimmed(utf8_lossy(end.stdout@)).len() > 0,
                at + 7,
            ),
{
}

/// For a remote branch of the default remote, the remote is asked for its name there, without the
/// name of the remote in front.
pub proof fn law_remote_asked_for_remote_branch(
    path: Seq<u8>,
    branch: Seq<char>,
    short: Seq<char>,
    v: Vec<Option<String>>,
    name: String,
    info: RemoteInfo,
    url: String,
    found: BranchInfo,
    x: GitError,
    end: RunEnd,
    h: Seq<Reply>,
    at: int,
    k: int,
    e: GitError,
    bad: RunEnd,
)
    requires
        0 <= at <= h.len(),
        v@.len() > 0,
        v@[0] == Some(name),
        info.url == Some(url),
        branch == name@ + "/"@ + short,
        ended_well(end),
        bad.code != Some(0i32),
        k != 1,
        k != 3,
        k != 4,
        h.len() > at
            ==> h[at] == if k == 0 {
                Reply::Unit(Err::<(), GitError>(e))
            } else {
                Reply::Unit(Ok::<(), GitError>(()))
            },
        h.len() > at + 1 ==> h[at + 1] == Reply::Names(Ok::<Vec<Option<String>>, GitError>(v)),
        h.len() > at + 2
            ==> h[at + 2] == if k == 2 {
                Reply::Unit(Err::<(), GitError>(e))
            } else {
                Reply::Unit(Ok::<(), GitError>(()))
            },
        h.len() > at + 3 ==> h[at + 3] == Reply::Branch(Err::<BranchInfo, GitError>(x)),
        h.len() > at + 4 ==> h[at + 4] == Reply::Branch(Ok::<BranchInfo, GitError>(found)),
        h.len() > at + 5
            ==> h[at + 5] == if k == 5 {
                Reply::Remote(Err::<RemoteInfo, GitError>(e))
            } else {
                Reply::Remote(Ok::<RemoteInfo, GitError>(info))
            },
        h.len() > at + 6
            ==> h[at + 6] == if k == 6 {
                Reply::Version(VersionReport::Missing)
            } else {
                Reply::Version(VersionReport::Ended(true))
            },
        h.len() > at + 7
            ==> h[at + 7] == if k == 7 {
                Reply::Ran(RunReport::Ended(bad))
            } else {
                Reply::Ran(RunReport::Ended(end))
            },
    ensures
        h.len() == at
            ==> remote_has_branch_turn(path, branch, h, at) == ServiceTurn::<bool>::Ask(
                RequestModel::OpenRepo(path),
            ),
        h.len() == at + 1 && !(0 <= k < 1)
            ==> remote_has_branch_turn(path, branch, h, at) == ServiceTurn::<bool>::Ask(
                RequestModel::RemoteNames(path),
            ),
        h.len() == at + 2 && !(0 <= k < 2)
            ==> remote_has_branch_turn(path, branch, h, at) == ServiceTurn::<bool>::Ask(
                RequestModel::OpenRepo(path),
            ),
        h.len() == at + 3 && !(0 <= k < 3)
            ==> remote_has_branch_turn(path, branch, h, at) == ServiceTurn::<bool>::Ask(
                RequestModel::FindBranch(path, branch, BranchType::Local),
            ),
        h.len() == at + 4 && !(0 <= k < 4)
            ==> remote_has_branch_turn(path, branch, h, at) == ServiceTurn::<bool>::Ask(
                RequestModel::FindBranch(path, branch, BranchType::Remote),
            ),
        h.len() == at + 5 && !(0 <= k < 5)
            ==> remote_has_branch_turn(path, branch, h, at) == ServiceTurn::<bool>::Ask(
                RequestModel::FindRemote(path, name@),
            ),
        h.len() == at + 6 && !(0 <= k < 6)
            ==> remote_has_branch_turn(path, branch, h, at) == ServiceTurn::<bool>::Ask(
                RequestModel::Version,
            ),
        h.len() == at + 7 && !(0 <= k < 7)
            ==> remote_has_branch_turn(path, branch, h, at) == ServiceTurn::<bool>::Ask(
                RequestModel::Run(
                    CommandModel {
                        dir: path,
                        args: seq![
                            utf8("ls-remote"@),
                            utf8("--heads"@),
                            utf8(url@),
                            utf8("refs/heads/"@ + short)
                        ],
                        envs: seq![(utf8("GIT_TERMINAL_PROMPT"@), utf8("0"@))],
                        stdin: None,
                    },
                ),
            ),
        (k == 0 || k == 2 || k == 5) && h.len() > at + k
            ==> remote_has_branch_turn(path, branch, h, at) == ServiceTurn::<bool>::Failed(
                ServiceErrorModel::Git(e.model()),
                at + k + 1,
            ),
        (k == 6 || k == 7) && h.len() > at + k
            ==> (
                remote_has_branch_turn(path, branch, h, at) matches Turn::Failed(_, m)
                    && m == at + k + 1
            ),
        h.len() >= at + 8 && !(0 <= k < 8)
            ==> remote_has_branch_turn(path, branch, h, at) == ServiceTurn::<bool>::Done(
                trimmed(utf8_lossy(end.stdout@)).len() > 0,
                at + 8,
            ),
{
    law_name_on_remote(name@, short);
}

/// A remote branch that does not belong to the default remote is asked for by its whole name.
pub proof fn law_remote_asked_for_foreign_branch(
    path: Seq<u8>,
    branch: Seq<char>,
    v: Vec<Option<String>>,
    name: String,
    info: RemoteInfo,
    url: String,
    found: BranchInfo,
    x: GitError,
    end: RunEnd,
    h: Seq<Reply>,
    at: int,
    k: int,
    e: GitError,
    bad: RunEnd,
)
    requires
        0 <= at <= h.len(),
        v@.len() > 0,
        v@[0] == Some(name),
        info.url == Some(url),
        !(name@ + "/"@).is_prefix_of(branch),
        ended_well(end),
        bad.code != Some(0i32),
        k != 1,
        k != 3,
        k != 4,
        h.len() > at
            ==> h[at] == if k == 0 {
                Reply::Unit(Err::<(), GitError>(e))
            } else {
                Reply::Unit(Ok::<(), GitError>(()))
            },
        h.len() > at + 1 ==> h[at + 1] == Reply::Names(Ok::<Vec<Option<String>>, GitError>(v)),
        h.len() > at + 2
            ==> h[at + 2] == if k == 2 {
                Reply::Unit(Err::<(), GitError>(e))
            } else {
                Reply::Unit(Ok::<(), GitError>(()))
            },
        h.len() > at + 3 ==> h[at + 3] == Reply::Branch(Err::<BranchInfo, GitError>(x)),
        h.len() > at + 4 ==> h[at + 4] == Reply::Branch(Ok::<BranchInfo, GitError>(found)),
        h.len() > at + 5
            ==> h[at + 5] == if k == 5 {
                Reply::Remote(Err::<RemoteInfo, GitError>(e))
            } else {
                Reply::Remote(Ok::<RemoteInfo, GitError>(info))
            },
        h.len() > at + 6
            ==> h[at + 6] == if k == 6 {
                Reply::Version(VersionReport::Missing)
            } else {
                Reply::Version(VersionReport::Ended(true))
            },
        h.len() > at + 7
            ==> h[at + 7] == if k == 7 {
                Reply::Ran(RunReport::Ended(bad))
            } else {
                Reply::Ran(RunReport::Ended(end))
            },
    ensures
        h.len() == at
            ==> remote_has_branch_turn(path, branch, h, at) == ServiceTurn::<bool>::Ask(
                RequestModel::OpenRepo(path),
            ),
        h.len() == at + 1 && !(0 <= k < 1)
            ==> remote_has_branch_turn(path, branch, h, at) == ServiceTurn::<bool>::Ask(
                RequestModel::RemoteNames(path),
            ),
        h.len() == at + 2 && !(0 <= k < 2)
            ==> remote_has_branch_turn(path, branch, h, at) == ServiceTurn::<bool>::Ask(
                RequestModel::OpenRepo(path),
            ),
        h.len() == at + 3 && !(0 <= k < 3)
            ==> remote_has_branch_turn(path, branch, h, at) == ServiceTurn::<bool>::Ask(
                RequestModel::FindBranch(path, branch, BranchType::Local),
            ),
        h.len() == at + 4 && !(0 <= k < 4)
            ==> remote_has_branch_turn(path, branch, h, at) == ServiceTurn::<bool>::Ask(
                RequestModel::FindBranch(path, branch, BranchType::Remote),
            ),
        h.len() == at + 5 && !(0 <= k < 5)
            ==> remote_has_branch_turn(path, branch, h, at) == ServiceTurn::<bool>::Ask(
                RequestModel::FindRemote(path, name@),
            ),
        h.len() == at + 6 && !(0 <= k < 6)
            ==> remote_has_branch_turn(path, branch, h, at) == ServiceTurn::<bool>::Ask(
                RequestModel::Version,
            ),
        h.len() == at + 7 && !(0 <= k < 7)
            ==> remote_has_branch_turn(path, branch, h, at) == ServiceTurn::<bool>::Ask(
                RequestModel::Run(
                    CommandModel {
                        dir: path,
                        args: seq![
                            utf8("ls-remote"@),
                            utf8("--heads"@),
                            utf8(url@),
                            utf8("refs/heads/"@ + branch)
                        ],
                        envs: seq![(utf8("GIT_TERMINAL_PROMPT"@), utf8("0"@))],
                        stdin: None,
                    },
                ),
            ),
        (k == 0 || k == 2 || k == 5) && h.len() > at + k
            ==> remote_has_branch_turn(path, branch, h, at) == ServiceTurn::<bool>::Failed(
                ServiceErrorModel::Git(e.model()),
                at + k + 1,
            ),
        (k == 6 || k == 7) && h.len() > at + k
            ==> (
                remote_has_branch_turn(path, branch, h, at) matches Turn::Failed(_, m)
                    && m == at + k + 1
            ),
        h.len() >= at + 8 && !(0 <= k < 8)
            ==> remote_has_branch_turn(path, branch, h, at) == ServiceTurn::<bool>::Done(
                trimmed(utf8_lossy(end.stdout@)).len() > 0,
                at + 8,
            ),
{
}

/// The remote of a branch is the one that its reference belongs to.
pub proof fn law_remote_of_branch_named(
    path: Seq<u8>,
    branch: Seq<char>,
    found: BranchInfo,
    refname: String,
    v: Vec<Option<String>>,
    raw_name: RawText,
    own: Seq<char>,
    name: String,
    info: RemoteInfo,
    h: Seq<Reply>,
    at: int,
    k: int,
    e: GitError,
)
    requires
        0 <= at <= h.len(),
        found.refname == Some(refname),
        strict_text(raw_name@) == Some(own),
        (info.name == Some(name) || (info.name is None && v@.len() > 0 && v@[0] == Some(name))),
        k != 1,
        k != 2,
        h.len() > at
            ==> h[at] == if k == 0 {
                Reply::Unit(Err::<(), GitError>(e))
            } else {
                Reply::Unit(Ok::<(), GitError>(()))
            },
        h.len() > at + 1 ==> h[at + 1] == Reply::Branch(Ok::<BranchInfo, GitError>(found)),
        h.len() > at + 2 ==> h[at + 2] == Reply::Names(Ok::<Vec<Option<String>>, GitError>(v)),
        h.len() > at + 3
            ==> h[at + 3] == if k == 3 {
                Reply::Bytes(Err::<RawText, GitError>(e))
            } else {
                Reply::Bytes(Ok::<RawText, GitError>(raw_name))
            },
        h.len() > at + 4
            ==> h[at + 4] == if k == 4 {
                Reply::Remote(Err::<RemoteInfo, GitError>(e))
            } else {
                Reply::Remote(Ok::<RemoteInfo, GitError>(info))
            },
    ensures
        h.len() == at
            ==> remote_name_turn(path, branch, h, at) == ServiceTurn::<Seq<char>>::Ask(
                RequestModel::OpenRepo(path),
            ),
        h.len() == at + 1 && !(0 <= k < 1)
            ==> remote_name_turn(path, branch, h, at) == ServiceTurn::<Seq<char>>::Ask(
                RequestModel::FindBranch(path, branch, BranchType::Local),
            ),
        h.len() == at + 2 && !(0 <= k < 2)
            ==> remote_name_turn(path, branch, h, at) == ServiceTurn::<Seq<char>>::Ask(
                RequestModel::RemoteNames(path),
            ),
        h.len() == at + 3 && !(0 <= k < 3)
            ==> remote_name_turn(path, branch, h, at) == ServiceTurn::<Seq<char>>::Ask(
                RequestModel::BranchRemoteName(path, refname@),
            ),
        h.len() == at + 4 && !(0 <= k < 4)
            ==> remote_name_turn(path, branch, h, at) == ServiceTurn::<Seq<char>>::Ask(
                RequestModel::FindRemote(path, own),
            ),
        (k == 0 || k == 3) && h.len() > at + k
            ==> remote_name_turn(path, branch, h, at) == ServiceTurn::<Seq<char>>::Failed(
                ServiceErrorModel::Git(e.model()),
                at + k + 1,
            ),
        (k == 4) && h.len() > at + k
            ==> (
                remote_name_turn(path, branch, h, at) matches Turn::Failed(_, m) && m == at + k + 1
            ),
        h.len() >= at + 5 && !(0 <= k < 5)
            ==> remote_name_turn(path, branch, h, at) == ServiceTurn::<Seq<char>>::Done(
                name@,
                at + 5,
            ),
{
}

/// The remote of a branch reference is the one of the name that libgit2 gives for it, where that
/// is text.
pub proof fn law_remote_of_reference_found(
    repo: Seq<u8>,
    info: BranchInfo,
    refname: String,
    raw_name: RawText,
    name: Seq<char>,
    remote: RemoteInfo,
    h: Seq<Reply>,
    at: int,
    k: int,
    e: GitError,
)
    requires
        0 <= at <= h.len(),
        info.refname == Some(refname),
        strict_text(raw_name@) == Some(name),
        h.len() > at
            ==> h[at] == if k == 0 {
                Reply::Bytes(Err::<RawText, GitError>(e))
            } else {
                Reply::Bytes(Ok::<RawText, GitError>(raw_name))
            },
        h.len() > at + 1
            ==> h[at + 1] == if k == 1 {
                Reply::Remote(Err::<RemoteInfo, GitError>(e))
            } else {
                Reply::Remote(Ok::<RemoteInfo, GitError>(remote))
            },
    ensures
        h.len() == at
            ==> remote_of_ref_turn(repo, info, h, at) == ServiceTurn::<RemoteInfo>::Ask(
                RequestModel::BranchRemoteName(repo, refname@),
            ),
        h.len() == at + 1 && !(0 <= k < 1)
            ==> remote_of_ref_turn(repo, info, h, at) == ServiceTurn::<RemoteInfo>::Ask(
                RequestModel::FindRemote(repo, name),
            ),
        (k == 0) && h.len() > at + k
            ==> remote_of_ref_turn(repo, info, h, at) == ServiceTurn::<RemoteInfo>::Failed(
                ServiceErrorModel::Git(e.model()),
                at + k + 1,
            ),
        (k == 1) && h.len() > at + k
            ==> (
                remote_of_ref_turn(repo, info, h, at) matches Turn::Failed(_, m) && m == at + k + 1
            ),
        h.len() >= at + 2 && !(0 <= k < 2)
            ==> remote_of_ref_turn(repo, info, h, at) == ServiceTurn::<RemoteInfo>::Done(
                remote,
                at + 2,
            ),
{
}

/// The GitHub repository is the one that the URL of the default remote names.
pub proof fn law_github_repository_named(
    path: Seq<u8>,
    v: Vec<Option<String>>,
    name: String,
    info: RemoteInfo,
    url: String,
    repo: GitHubRepoInfo,
    h: Seq<Reply>,
    at: int,
    k: int,
    e: GitError,
)
    requires
        0 <= at <= h.len(),
        v@.len() > 0,
        v@[0] == Some(name),
        info.url == Some(url),
        k != 1,
        k != 3,
        h.len() > at
            ==> h[at] == if k == 0 {
                Reply::Unit(Err::<(), GitError>(e))
            } else {
                Reply::Unit(Ok::<(), GitError>(()))
            },
        h.len() > at + 1 ==> h[at + 1] == Reply::Names(Ok::<Vec<Option<String>>, GitError>(v)),
        h.len() > at + 2
            ==> h[at + 2] == if k == 2 {
                Reply::Remote(Err::<RemoteInfo, GitError>(e))
            } else {
                Reply::Remote(Ok::<RemoteInfo, GitError>(info))
            },
        h.len() > at + 3 ==> h[at + 3] == Reply::RepoInfo(Ok::<GitHubRepoInfo, String>(repo)),
    ensures
        h.len() == at
            ==> github_info_turn(path, h, at) == ServiceTurn::<(Seq<char>, Seq<char>)>::Ask(
                RequestModel::OpenRepo(path),
            ),
        h.len() == at + 1 && !(0 <= k < 1)
            ==> github_info_turn(path, h, at) == ServiceTurn::<(Seq<char>, Seq<char>)>::Ask(
                RequestModel::RemoteNames(path),
            ),
        h.len() == at + 2 && !(0 <= k < 2)
            ==> github_info_turn(path, h, at) == ServiceTurn::<(Seq<char>, Seq<char>)>::Ask(
                RequestModel::FindRemote(path, name@),
            ),
        h.len() == at + 3 && !(0 <= k < 3)
            ==> github_info_turn(path, h, at) == ServiceTurn::<(Seq<char>, Seq<char>)>::Ask(
                RequestModel::ParseRemoteUrl(url@),
            ),
        (k == 0) && h.len() > at + k
            ==> github_info_turn(path, h, at) == ServiceTurn::<(Seq<char>, Seq<char>)>::Failed(
                ServiceErrorModel::Git(e.model()),
                at + k + 1,
            ),
        (k == 2) && h.len() > at + k
            ==> (github_info_turn(path, h, at) matches Turn::Failed(_, m) && m == at + k + 1),
        h.len() >= at + 4 && !(0 <= k < 4)
            ==> github_info_turn(path, h, at) == ServiceTurn::<(Seq<char>, Seq<char>)>::Done(
                (repo.owner@, repo.repo_name@),
                at + 4,
            ),
{
}

proof fn lemma_first_name(names: Seq<Option<String>>, i: int)
    requires
        0 <= i <= names.len(),
        forall|j: int| 0 <= j < i ==> (#[trigger] names[j]) is None,
        i < names.len() ==> names[i] is Some,
    ensures
        first_name(names) == if i < names.len() {
            names[i]->0@
        } else {
            "origin"@
        },
    decreases names.len(),
{
    if i > 0 {
        assert(names[0] is None);
        let tail = names.skip(1);
        assert forall|j: int| 0 <= j < i - 1 implies (#[trigger] tail[j]) is None by {
            assert(names[j + 1] is None);
        }
        lemma_first_name(tail, i - 1);
    }
}

/// The default remote is the first whose name is text, and `origin` where there is none.
pub proof fn law_default_remote(
    repo: Seq<u8>,
    h: Seq<Reply>,
    at: int,
    v: Vec<Option<String>>,
    i: int,
)
    requires
        0 <= at <= h.len(),
        h.len() > at ==> h[at] == Reply::Names(Ok::<Vec<Option<String>>, GitError>(v)),
        0 <= i <= v@.len(),
        forall|j: int| 0 <= j < i ==> (#[trigger] v@[j]) is None,
        i < v@.len() ==> v@[i] is Some,
    ensures
        h.len() == at ==> default_remote_turn::<ServiceErrorModel>(repo, h, at) == ServiceTurn::<
            Seq<char>,
        >::Ask(RequestModel::RemoteNames(repo)),
        h.len() > at ==> default_remote_turn::<ServiceErrorModel>(repo, h, at)
            == ServiceTurn::Done(
            if i < v@.len() {
                v@[i]->0@
            } else {
                "origin"@
            },
            at + 1,
        ),
{
    lemma_first_name(v@, i);
}

/// After a push, a branch that turns out to be a remote one is left as it is, and one without a tip
/// only gets its upstream.
pub proof fn law_other_branches_tracked(
    path: Seq<u8>,
    branch: Seq<char>,
    remote: Seq<char>,
    h: Seq<Reply>,
    at: int,
    found: (BranchType, BranchInfo),
    n: int,
)
    requires
        find_branch_turn(path, branch, h, at) == ServiceTurn::Done(found, n),
        0 <= n <= h.len(),
    ensures
        found.1.is_remote ==> track_turn(path, remote, branch, h, at) == ServiceTurn::Done((), n),
        !found.1.is_remote && found.1.target is None && h.len() == n ==> track_turn(
            path,
            remote,
            branch,
            h,
            at,
        ) == ServiceTurn::<()>::Ask(
            RequestModel::SetUpstream(path, branch, found.0, remote + "/"@ + branch),
        ),
        !found.1.is_remote && found.1.target is None && h.len() > n && h[n] == Reply::Unit(
            Ok::<(), GitError>(()),
        ) ==> track_turn(path, remote, branch, h, at) == ServiceTurn::Done((), n + 1),
{
}

/// A push whose command fails fails as the command did, and tracks nothing.
pub proof fn law_failed_push_passed_on(
    path: Seq<u8>,
    branch: Seq<char>,
    force: bool,
    h: Seq<Reply>,
    at: int,
    p: int,
    remote: (Seq<char>, Seq<char>),
    q: int,
    e: CliErrorModel,
    m: int,
)
    requires
        0 <= at < h.len(),
        h[at] == Reply::Unit(Ok::<(), GitError>(())),
        check_clean_turn(path, h, at + 1) == ServiceTurn::Done((), p),
        default_url_turn(path, h, p) == ServiceTurn::Done(remote, q),
        push_turn(path, remote.1, branch, force, h, q) == CliTurn::<()>::Failed(e, m),
    ensures
        push_to_github_turn(path, branch, force, h, at) == ServiceTurn::<()>::Failed(
            ServiceErrorModel::GitCLI(e),
            m,
        ),
{
}

/// Where the remotes cannot be listed, the default one has the usual name.
pub proof fn law_remotes_not_listed(
    repo: Seq<u8>,
    x: GitError,
    h: Seq<Reply>,
    at: int,
)
    requires
        0 <= at < h.len(),
        h[at] == Reply::Names(Err::<Vec<Option<String>>, GitError>(x)),
    ensures
        default_remote_turn::<ServiceErrorModel>(repo, h, at) == ServiceTurn::Done(
            "origin"@,
            at + 1,
        ),
{
}

/// A remote without a name goes by that of the default one: all its branches are fetched under that
/// name.
pub proof fn law_unnamed_remote_fetched(
    repo: Seq<u8>,
    remote: RemoteInfo,
    name: String,
    usual: Seq<char>,
    p: int,
    h: Seq<Reply>,
    at: int,
)
    requires
        default_remote_turn::<ServiceErrorModel>(repo, h, at) == ServiceTurn::Done(usual, p),
    ensures
        remote.name is None
            ==> fetch_all_turn(repo, remote, h, at) == fetch_from_turn(
                repo,
                remote,
                "+refs/heads/*:refs/remotes/"@ + usual + "/*"@,
                h,
                p,
            ),
        remote.name == Some(name)
            ==> fetch_all_turn(repo, remote, h, at) == fetch_from_turn(
                repo,
                remote,
                "+refs/heads/*:refs/remotes/"@ + name@ + "/*"@,
                h,
                p,
            ),
{
}

/// One branch is fetched to the reference that follows it: that of the remote it belongs to, under
/// the name of the remote or, where it has none, of the default one.
pub proof fn law_followed_branch_fetched(
    repo: Seq<u8>,
    info: BranchInfo,
    refname: String,
    remote: RemoteInfo,
    own: Seq<char>,
    branch: Seq<char>,
    usual: Seq<char>,
    p: int,
    q: int,
    h: Seq<Reply>,
    at: int,
)
    requires
        remote_of_ref_turn(repo, info, h, at) == ServiceTurn::Done(remote, p),
        default_remote_turn::<ServiceErrorModel>(repo, h, p) == ServiceTurn::Done(usual, q),
        info.refname == Some(refname),
        own == if remote.name is Some { remote.name->0@ } else { usual },
        refname@ == "refs/remotes/"@ + own + "/"@ + branch,
    ensures
        fetch_branch_turn(repo, info, h, at) == fetch_from_turn(
            repo,
            remote,
            "+refs/heads/"@ + branch + ":"@ + refname@,
            h,
            q,
        ),
{
    law_tracking_refspec(own, branch);
    reveal_strlit("+");
    reveal_strlit("refs/heads/");
    reveal_strlit("+refs/heads/");
    assert(tracking_refspec(refname@, own) =~= "+refs/heads/"@ + branch + ":"@ + refname@);
}

} // verus!
