//! Remotes: finding them, fetching and pushing.
use vstd::prelude::*;

use crate::branches::{branch_type_turn, find_branch_turn, status_between_turn, Branch};
use crate::cli::GitCli;
use crate::commands::{fetch_turn, has_changes_turn, push_turn, remote_branch_exists_turn};
use crate::dialogue::{
    accept, accepted, and_then, branch_turn, bytes_turn, explain, explained, pass_on, passed_on,
    remote_turn, repo_info_turn, turn, turn_ref, unit_turn, Dialogue, Interrupt, RefUpdate,
    RefUpdateModel, Reply, Request, RequestModel, Turn,
};
use crate::errors::{GitError, GitServiceError, ServiceErrorModel};
use crate::model::{lemma_models_push, Model};
use crate::raw::{checked_text, RawText};
use crate::records::{BranchInfo, BranchType, GitHubRepoInfo, RemoteInfo};
use crate::service::{
    default_remote_turn, open_turn, stage_and_commit_turn, GitService, ServiceResult, ServiceTurn,
};
use crate::text::{
    after_prefix, cat, cat3, law_after_prefix, replace_first, strip_prefix, with_first_replaced,
};
use crate::worktrees::check_clean_turn;

verus! {

broadcast use lemma_models_push;

// ---------------------------------------------------------------------------
// Finding remotes
// ---------------------------------------------------------------------------

/// A failure that is told as an invalid repository.
pub open spec fn invalid<A>(words: Seq<char>, at: int) -> ServiceTurn<A> {
    Turn::Failed(ServiceErrorModel::InvalidRepository(words), at)
}

fn invalid_repository<T>(words: String) -> (r: ServiceResult<T>)
    ensures
        r == Err::<T, Interrupt<GitServiceError>>(
            Interrupt::Failed(GitServiceError::InvalidRepository(words)),
        ),
{
    Err(Interrupt::Failed(GitServiceError::InvalidRepository(words)))
}

/// The remote that a branch reference belongs to.
pub open spec fn remote_of_ref_turn(repo: Seq<u8>, branch: BranchInfo, h: Seq<Reply>, at: int) ->
    ServiceTurn<RemoteInfo> {
    match branch.refname {
        None => invalid("Invalid branch ref"@, at),
        Some(refname) => and_then(
            accepted(bytes_turn(RequestModel::BranchRemoteName(repo, refname@), h, at)),
            |bytes: RawText, n: int|
                match checked_text(bytes@) {
                    Err(fault) => invalid(
                        "Invalid remote name for branch "@ + refname@ + ": "@ + fault,
                        n,
                    ),
                    Ok(name) => and_then(
                        remote_turn(RequestModel::FindRemote(repo, name), h, n),
                        |remote: Result<RemoteInfo, GitError>, n: int|
                            match remote {
                                Ok(r) => Turn::Done(r, n),
                                Err(_) => invalid(
                                    "Remote '"@ + name + "' for branch '"@ + refname@
                                        + "' not found"@,
                                    n,
                                ),
                            },
                    ),
                },
        ),
    }
}

/// The name of a remote, or other words where it has none.
pub open spec fn name_of_remote(remote: RemoteInfo, otherwise: Seq<char>) -> Seq<char> {
    match remote.name {
        Some(name) => name@,
        None => otherwise,
    }
}

/// The URL of a remote.
pub open spec fn url_turn(remote: RemoteInfo, at: int) -> ServiceTurn<Seq<char>> {
    match remote.url {
        Some(url) => Turn::Done(url@, at),
        None => invalid("Remote has no URL"@, at),
    }
}

/// The name of the remote that a branch belongs to.
pub open spec fn remote_name_turn(path: Seq<u8>, name: Seq<char>, h: Seq<Reply>, at: int) ->
    ServiceTurn<Seq<char>> {
    and_then(
        open_turn(path, h, at),
        |u: (), n: int|
            and_then(
                find_branch_turn(path, name, h, n),
                |branch: (BranchType, BranchInfo), n: int|
                    and_then(
                        default_remote_turn(path, h, n),
                        |default_name: Seq<char>, n: int|
                            and_then(
                                remote_of_ref_turn(path, branch.1, h, n),
                                |remote: RemoteInfo, n: int|
                                    Turn::Done(name_of_remote(remote, default_name), n),
                            ),
                    ),
            ),
    )
}

/// The default remote of a repository, with its URL.
pub open spec fn default_url_turn(repo: Seq<u8>, h: Seq<Reply>, at: int) -> ServiceTurn<
    (Seq<char>, Seq<char>),
> {
    and_then(
        default_remote_turn(repo, h, at),
        |name: Seq<char>, n: int|
            and_then(
                accepted(remote_turn(RequestModel::FindRemote(repo, name), h, n)),
                |remote: RemoteInfo, n: int|
                    and_then(
                        url_turn(remote, n),
                        |url: Seq<char>, n: int| Turn::Done((name, url), n),
                    ),
            ),
    )
}

/// The GitHub repository that the default remote of a repository names.
pub open spec fn github_info_turn(path: Seq<u8>, h: Seq<Reply>, at: int) -> ServiceTurn<
    (Seq<char>, Seq<char>),
> {
    and_then(
        open_turn(path, h, at),
        |u: (), n: int|
            and_then(
                default_remote_turn(path, h, n),
                |name: Seq<char>, n: int|
                    and_then(
                        remote_turn(RequestModel::FindRemote(path, name), h, n),
                        |remote: Result<RemoteInfo, GitError>, n: int|
                            match remote {
                                Err(_) => invalid("No '"@ + name + "' remote found"@, n),
                                Ok(r) => and_then(
                                    url_turn(r, n),
                                    |url: Seq<char>, n: int| parsed_url_turn(url, h, n),
                                ),
                            },
                    ),
            ),
    )
}

/// The GitHub repository that a URL names.
pub open spec fn parsed_url_turn(url: Seq<char>, h: Seq<Reply>, at: int) -> ServiceTurn<
    (Seq<char>, Seq<char>),
> {
    and_then(
        repo_info_turn(RequestModel::ParseRemoteUrl(url), h, at),
        |parsed: Result<GitHubRepoInfo, String>, n: int|
            match parsed {
                Ok(info) => Turn::Done(info.model(), n),
                Err(e) => invalid("Failed to parse remote URL: "@ + e@, n),
            },
    )
}

/// The name of a branch on its remote: without the name of the remote in front, where it is a
/// remote branch of that remote.
pub open spec fn name_on_remote(kind: BranchType, branch: Seq<char>, remote: Seq<char>) -> Seq<
    char,
> {
    match kind {
        BranchType::Local => branch,
        BranchType::Remote => match after_prefix(branch, remote + "/"@) {
            Some(rest) => rest,
            None => branch,
        },
    }
}

/// Whether the default remote has a branch.
pub open spec fn remote_has_branch_turn(path: Seq<u8>, branch: Seq<char>, h: Seq<Reply>, at: int) ->
    ServiceTurn<bool> {
    and_then(
        open_turn(path, h, at),
        |u: (), n: int|
            and_then(
                default_remote_turn(path, h, n),
                |name: Seq<char>, n: int|
                    and_then(
                        branch_type_turn(path, branch, h, n),
                        |kind: BranchType, n: int|
                            and_then(
                                accepted(remote_turn(RequestModel::FindRemote(path, name), h, n)),
                                |remote: RemoteInfo, n: int|
                                    and_then(
                                        url_turn(remote, n),
                                        |url: Seq<char>, n: int|
                                            passed_on(
                                                remote_branch_exists_turn(
                                                    path,
                                                    url,
                                                    name_on_remote(kind, branch, name),
                                                    h,
                                                    n,
                                                ),
                                            ),
                                    ),
                            ),
                    ),
            ),
    )
}

fn remote_name_or(remote: &RemoteInfo, otherwise: &str) -> (r: String)
    ensures
        r@ == name_of_remote(*remote, otherwise@),
{
    match &remote.name {
        Some(name) => name.clone(),
        None => otherwise.to_owned(),
    }
}

fn url_of(remote: &RemoteInfo) -> (r: ServiceResult<String>)
    ensures
        forall|io: &Dialogue| #[trigger] turn(r, io) == url_turn(*remote, io.at()),
{
    match &remote.url {
        Some(url) => Ok(url.clone()),
        None => invalid_repository("Remote has no URL".to_owned()),
    }
}

impl GitService {
    /// The remote that a branch reference belongs to.
    pub fn get_remote_from_branch_ref<'a>(
        &self,
        repo: &RawText,
        branch_ref: &BranchInfo,
        io: &mut Dialogue<'a>,
    ) -> (r: ServiceResult<&'a RemoteInfo>)
        ensures
            final(io).record() == old(io).record(),
            turn_ref(r, final(io)) == remote_of_ref_turn(
                repo@,
                *branch_ref,
                old(io).record(),
                old(io).at(),
            ),
    {
        let branch_name: &String = match &branch_ref.refname {
            Some(name) => name,
            None => {
                return invalid_repository("Invalid branch ref".to_owned());
            },
        };
        let bytes: &RawText = accept(
            io.bytes(Request::BranchRemoteName(repo.copy(), branch_name.clone())),
        )?;
        let remote_name: String = match bytes.check_text() {
            Ok(name) => name,
            Err(e) => {
                let words: String = cat3(
                    "Invalid remote name for branch ",
                    branch_name.as_str(),
                    ": ",
                );
                return invalid_repository(cat(words.as_str(), e.as_str()));
            },
        };
        match io.remote(Request::FindRemote(repo.copy(), remote_name.clone()))? {
            Ok(remote) => Ok(remote),
            Err(_) => {
                let words: String = cat3("Remote '", remote_name.as_str(), "' for branch '");
                invalid_repository(cat3(words.as_str(), branch_name.as_str(), "' not found"))
            },
        }
    }

    /// The name of the remote that a branch belongs to.
    pub fn get_remote_name_from_branch_name(
        &self,
        repo_path: &RawText,
        branch_name: &str,
        io: &mut Dialogue,
    ) -> (r: ServiceResult<String>)
        ensures
            final(io).record() == old(io).record(),
            turn(r, final(io)) == remote_name_turn(
                repo_path@,
                branch_name@,
                old(io).record(),
                old(io).at(),
            ),
    {
        self.open_repo(repo_path, io)?;
        let branch: Branch = GitService::find_branch(repo_path, branch_name, io)?;
        let default_remote: String = self.default_remote_name(repo_path, io)?;
        let remote: &RemoteInfo = self.get_remote_from_branch_ref(repo_path, branch.info, io)?;
        Ok(remote_name_or(remote, default_remote.as_str()))
    }

    /// The default remote of a repository, with its URL.
    fn default_remote_url(&self, repo: &RawText, io: &mut Dialogue) -> (r: ServiceResult<
        (String, String),
    >)
        ensures
            final(io).record() == old(io).record(),
            turn(r, final(io)) == default_url_turn(repo@, old(io).record(), old(io).at()),
    {
        let name: String = self.default_remote_name(repo, io)?;
        let remote: &RemoteInfo = accept(
            io.remote(Request::FindRemote(repo.copy(), name.clone())),
        )?;
        let found: ServiceResult<String> = url_of(remote);
        assert(turn(found, io) == url_turn(*remote, io.at()));
        let url: String = found?;
        Ok((name, url))
    }

    /// The GitHub repository that the default remote of a repository names.
    pub fn get_github_repo_info(&self, repo_path: &RawText, io: &mut Dialogue) -> (r: ServiceResult<
        GitHubRepoInfo,
    >)
        ensures
            final(io).record() == old(io).record(),
            turn(r, final(io)) == github_info_turn(repo_path@, old(io).record(), old(io).at()),
    {
        self.open_repo(repo_path, io)?;
        let remote_name: String = self.default_remote_name(repo_path, io)?;
        let remote: &RemoteInfo = match io.remote(
            Request::FindRemote(repo_path.copy(), remote_name.clone()),
        )? {
            Ok(remote) => remote,
            Err(_) => {
                return invalid_repository(cat3("No '", remote_name.as_str(), "' remote found"));
            },
        };
        let found: ServiceResult<String> = url_of(remote);
        assert(turn(found, io) == url_turn(*remote, io.at()));
        let url: String = found?;
        match io.repo_info(Request::ParseRemoteUrl(url))? {
            Ok(info) => Ok(
                GitHubRepoInfo { owner: info.owner.clone(), repo_name: info.repo_name.clone() },
            ),
            Err(e) => invalid_repository(cat("Failed to parse remote URL: ", e.as_str())),
        }
    }

    /// Whether the default remote has a branch: it is asked without fetching.
    pub fn check_remote_branch_exists(
        &self,
        repo_path: &RawText,
        branch_name: &str,
        io: &mut Dialogue,
    ) -> (r: ServiceResult<bool>)
        ensures
            final(io).record() == old(io).record(),
            turn(r, final(io)) == remote_has_branch_turn(
                repo_path@,
                branch_name@,
                old(io).record(),
                old(io).at(),
            ),
    {
        self.open_repo(repo_path, io)?;
        let remote_name: String = self.default_remote_name(repo_path, io)?;
        let kind: BranchType = self.find_branch_type(repo_path, branch_name, io)?;
        let name: String = match kind {
            BranchType::Local => branch_name.to_owned(),
            BranchType::Remote => {
                let prefix: String = cat(remote_name.as_str(), "/");
                match strip_prefix(branch_name, prefix.as_str()) {
                    Some(rest) => rest,
                    None => branch_name.to_owned(),
                }
            },
        };
        let remote: &RemoteInfo = accept(
            io.remote(Request::FindRemote(repo_path.copy(), remote_name)),
        )?;
        let found: ServiceResult<String> = url_of(remote);
        assert(turn(found, io) == url_turn(*remote, io.at()));
        let url: String = found?;
        pass_on(
            self.cli().check_remote_branch_exists(repo_path, url.as_str(), name.as_str(), io),
        )
    }
}

// ---------------------------------------------------------------------------
// Fetching
// ---------------------------------------------------------------------------

/// Fetch from a remote what a refspec says.
pub open spec fn fetch_from_turn(
    repo: Seq<u8>,
    remote: RemoteInfo,
    refspec: Seq<char>,
    h: Seq<Reply>,
    at: int,
) -> ServiceTurn<()> {
    and_then(
        url_turn(remote, at),
        |url: Seq<char>, n: int|
            and_then(
                accepted(bytes_turn(RequestModel::GitDir(repo), h, n)),
                |dir: RawText, n: int| passed_on(fetch_turn(dir@, url, refspec, h, n)),
            ),
    )
}

/// The refspec that updates one remote branch: from the branch that the reference tracks, whatever
/// is there.
pub open spec fn tracking_refspec(refname: Seq<char>, remote: Seq<char>) -> Seq<char> {
    "+"@ + with_first_replaced(refname, "refs/remotes/"@ + remote + "/"@, "refs/heads/"@) + ":"@
        + refname
}

/// The refspec that updates all remote branches, whatever is there.
pub open spec fn all_refspec(remote: Seq<char>) -> Seq<char> {
    "+refs/heads/*:refs/remotes/"@ + remote + "/*"@
}

/// Update one remote branch.
pub open spec fn fetch_branch_turn(repo: Seq<u8>, branch: BranchInfo, h: Seq<Reply>, at: int) ->
    ServiceTurn<()> {
    and_then(
        remote_of_ref_turn(repo, branch, h, at),
        |remote: RemoteInfo, n: int|
            and_then(
                default_remote_turn(repo, h, n),
                |default_name: Seq<char>, n: int|
                    match branch.refname {
                        None => invalid("Invalid branch ref"@, n),
                        Some(refname) => fetch_from_turn(
                            repo,
                            remote,
                            tracking_refspec(refname@, name_of_remote(remote, default_name)),
                            h,
                            n,
                        ),
                    },
            ),
    )
}

/// Update all branches of a remote.
pub open spec fn fetch_all_turn(repo: Seq<u8>, remote: RemoteInfo, h: Seq<Reply>, at: int) ->
    ServiceTurn<()> {
    and_then(
        default_remote_turn(repo, h, at),
        |default_name: Seq<char>, n: int|
            fetch_from_turn(repo, remote, all_refspec(name_of_remote(remote, default_name)), h, n),
    )
}

/// The branch that another one is compared with: the given one, or its upstream.
pub open spec fn base_or_upstream_turn(
    repo: Seq<u8>,
    name: Seq<char>,
    base: Option<Seq<char>>,
    h: Seq<Reply>,
    at: int,
) -> ServiceTurn<BranchInfo> {
    match base {
        Some(b) => and_then(
            find_branch_turn(repo, b, h, at),
            |found: (BranchType, BranchInfo), n: int| Turn::Done(found.1, n),
        ),
        None => and_then(
            accepted(branch_turn(RequestModel::FindBranch(repo, name, BranchType::Local), h, at)),
            |found: BranchInfo, n: int|
                accepted(branch_turn(RequestModel::Upstream(repo, name), h, n)),
        ),
    }
}

/// How many commits a branch is ahead of and behind a remote branch, after fetching.
pub open spec fn remote_status_turn(
    path: Seq<u8>,
    name: Seq<char>,
    base: Option<Seq<char>>,
    h: Seq<Reply>,
    at: int,
) -> ServiceTurn<(int, int)> {
    and_then(
        open_turn(path, h, at),
        |u: (), n: int|
            and_then(
                find_branch_turn(path, name, h, n),
                |branch: (BranchType, BranchInfo), n: int|
                    and_then(
                        base_or_upstream_turn(path, name, base, h, n),
                        |base_ref: BranchInfo, n: int|
                            and_then(
                                remote_of_ref_turn(path, base_ref, h, n),
                                |remote: RemoteInfo, n: int|
                                    and_then(
                                        fetch_all_turn(path, remote, h, n),
                                        |u: (), n: int|
                                            status_between_turn(path, branch.1, base_ref, h, n),
                                    ),
                            ),
                    ),
            ),
    )
}

impl GitService {
    /// Fetch from a remote what `refspec` says.
    pub fn fetch_from_remote(
        &self,
        repo: &RawText,
        remote: &RemoteInfo,
        refspec: &str,
        io: &mut Dialogue,
    ) -> (r: ServiceResult<()>)
        ensures
            final(io).record() == old(io).record(),
            turn(r, final(io)) == fetch_from_turn(
                repo@,
                *remote,
                refspec@,
                old(io).record(),
                old(io).at(),
            ),
    {
        let found: ServiceResult<String> = url_of(remote);
        assert(turn(found, io) == url_turn(*remote, io.at()));
        let url: String = found?;
        let dir: &RawText = accept(io.bytes(Request::GitDir(repo.copy())))?;
        pass_on(self.cli().fetch_with_refspec(dir, url.as_str(), refspec, io))
    }

    /// Update one remote branch.
    pub fn fetch_branch_from_remote(&self, repo: &RawText, branch: &BranchInfo, io: &mut Dialogue) -> (
    r: ServiceResult<()>)
        ensures
            final(io).record() == old(io).record(),
            turn(r, final(io)) == fetch_branch_turn(
                repo@,
                *branch,
                old(io).record(),
                old(io).at(),
            ),
    {
        let remote: &RemoteInfo = self.get_remote_from_branch_ref(repo, branch, io)?;
        let default_remote: String = self.default_remote_name(repo, io)?;
        let remote_name: String = remote_name_or(remote, default_remote.as_str());
        let dest_ref: &String = match &branch.refname {
            Some(name) => name,
            None => {
                return invalid_repository("Invalid branch ref".to_owned());
            },
        };
        let prefix: String = cat3("refs/remotes/", remote_name.as_str(), "/");
        let src_ref: String = replace_first(dest_ref.as_str(), prefix.as_str(), "refs/heads/");
        let refspec: String = cat(cat3("+", src_ref.as_str(), ":").as_str(), dest_ref.as_str());
        self.fetch_from_remote(repo, remote, refspec.as_str(), io)
    }

    /// Update all branches of a remote.
    pub fn fetch_all_from_remote(&self, repo: &RawText, remote: &RemoteInfo, io: &mut Dialogue) -> (r:
        ServiceResult<()>)
        ensures
            final(io).record() == old(io).record(),
            turn(r, final(io)) == fetch_all_turn(repo@, *remote, old(io).record(), old(io).at()),
    {
        let default_remote: String = self.default_remote_name(repo, io)?;
        let remote_name: String = remote_name_or(remote, default_remote.as_str());
        let refspec: String = cat3("+refs/heads/*:refs/remotes/", remote_name.as_str(), "/*");
        self.fetch_from_remote(repo, remote, refspec.as_str(), io)
    }

    /// How many commits a branch is ahead of and behind a remote branch, after fetching. The
    /// remote branch is the given one, or the upstream of the branch.
    pub fn get_remote_branch_status(
        &self,
        repo_path: &RawText,
        branch_name: &str,
        base_branch_name: Option<&str>,
        io: &mut Dialogue,
    ) -> (r: ServiceResult<(usize, usize)>)
        ensures
            final(io).record() == old(io).record(),
            turn(r, final(io)) == remote_status_turn(
                repo_path@,
                branch_name@,
                match base_branch_name {
                    Some(b) => Some(b@),
                    None => None,
                },
                old(io).record(),
                old(io).at(),
            ),
    {
        self.open_repo(repo_path, io)?;
        let branch: Branch = GitService::find_branch(repo_path, branch_name, io)?;
        let base_ref: &BranchInfo = match base_branch_name {
            Some(name) => {
                let base: Branch = GitService::find_branch(repo_path, name, io)?;
                base.info
            },
            None => {
                accept(
                    io.branch(
                        Request::FindBranch(
                            repo_path.copy(),
                            branch_name.to_owned(),
                            BranchType::Local,
                        ),
                    ),
                )?;
                accept(io.branch(Request::Upstream(repo_path.copy(), branch_name.to_owned())))?
            },
        };
        let remote: &RemoteInfo = self.get_remote_from_branch_ref(repo_path, base_ref, io)?;
        self.fetch_all_from_remote(repo_path, remote, io)?;
        self.get_branch_status_inner(repo_path, branch.info, base_ref, io)
    }
}

// ---------------------------------------------------------------------------
// Pushing
// ---------------------------------------------------------------------------

/// The tracking reference of a branch that was pushed.
pub open spec fn tracking_update(remote: Seq<char>, branch: Seq<char>, target: Seq<u8>) ->
    RefUpdateModel {
    RefUpdateModel {
        refname: "refs/remotes/"@ + remote + "/"@ + branch,
        target,
        force: true,
        log: "update remote tracking branch"@,
    }
}

/// After a push, let a local branch track its branch on the remote.
pub open spec fn track_turn(
    repo: Seq<u8>,
    remote: Seq<char>,
    branch: Seq<char>,
    h: Seq<Reply>,
    at: int,
) -> ServiceTurn<()> {
    and_then(
        find_branch_turn(repo, branch, h, at),
        |found: (BranchType, BranchInfo), n: int|
            if found.1.is_remote {
                Turn::Done((), n)
            } else {
                and_then(
                    match found.1.target {
                        None => Turn::Done((), n),
                        Some(id) => accepted(
                            unit_turn(
                                RequestModel::UpdateReference(
                                    repo,
                                    tracking_update(remote, branch, id@),
                                ),
                                h,
                                n,
                            ),
                        ),
                    },
                    |u: (), n: int|
                        accepted(
                            unit_turn(
                                RequestModel::SetUpstream(
                                    repo,
                                    branch,
                                    found.0,
                                    remote + "/"@ + branch,
                                ),
                                h,
                                n,
                            ),
                        ),
                )
            },
    )
}

/// Push a branch of a clean worktree to the default remote, and track it.
pub open spec fn push_to_github_turn(
    path: Seq<u8>,
    branch: Seq<char>,
    force: bool,
    h: Seq<Reply>,
    at: int,
) -> ServiceTurn<()> {
    and_then(
        open_turn(path, h, at),
        |u: (), n: int|
            and_then(
                check_clean_turn(path, h, n),
                |u: (), n: int|
                    and_then(
                        default_url_turn(path, h, n),
                        |remote: (Seq<char>, Seq<char>), n: int|
                            and_then(
                                passed_on(push_turn(path, remote.1, branch, force, h, n)),
                                |u: (), n: int| track_turn(path, remote.0, branch, h, n),
                            ),
                    ),
            ),
    )
}

/// Stage, commit and push everything to the default remote, and track the branch; nothing where
/// there are no changes.
pub open spec fn add_all_and_push_turn(
    dirs: Seq<Seq<char>>,
    path: Seq<u8>,
    branch: Seq<char>,
    h: Seq<Reply>,
    at: int,
) -> ServiceTurn<()> {
    and_then(
        open_turn(path, h, at),
        |u: (), n: int|
            and_then(
                default_url_turn(path, h, n),
                |remote: (Seq<char>, Seq<char>), n: int|
                    and_then(
                        explained(has_changes_turn(path, h, n), "git status failed: "@),
                        |changed: bool, n: int|
                            if !changed {
                                Turn::Done((), n)
                            } else {
                                and_then(
                                    stage_and_commit_turn(dirs, path, "update"@, h, n),
                                    |u: (), n: int|
                                        and_then(
                                            passed_on(
                                                push_turn(path, remote.1, branch, false, h, n),
                                            ),
                                            |u: (), n: int|
                                                track_turn(path, remote.0, branch, h, n),
                                        ),
                                )
                            },
                    ),
            ),
    )
}

impl GitService {
    /// After a push, let a local branch track its branch on the remote.
    fn track_pushed_branch(
        &self,
        repo: &RawText,
        remote_name: &str,
        branch_name: &str,
        io: &mut Dialogue,
    ) -> (r: ServiceResult<()>)
        ensures
            final(io).record() == old(io).record(),
            turn(r, final(io)) == track_turn(
                repo@,
                remote_name@,
                branch_name@,
                old(io).record(),
                old(io).at(),
            ),
    {
        let branch: Branch = GitService::find_branch(repo, branch_name, io)?;
        if branch.info.is_remote {
            return Ok(());
        }
        if let Some(target) = branch.info.target {
            let refname: String = cat(
                cat3("refs/remotes/", remote_name, "/").as_str(),
                branch_name,
            );
            let update: RefUpdate = RefUpdate {
                refname,
                target,
                force: true,
                log: "update remote tracking branch".to_owned(),
            };
            accept(io.unit(Request::UpdateReference(repo.copy(), update)))?;
        }
        let upstream: String = cat3(remote_name, "/", branch_name);
        accept(
            io.unit(
                Request::SetUpstream(repo.copy(), branch_name.to_owned(), branch.kind, upstream),
            ),
        )?;
        Ok(())
    }

    /// Push a branch of a clean worktree to the default remote, and track it.
    pub fn push_to_github(
        &self,
        worktree_path: &RawText,
        branch_name: &str,
        force: bool,
        io: &mut Dialogue,
    ) -> (r: ServiceResult<()>)
        ensures
            final(io).record() == old(io).record(),
            turn(r, final(io)) == push_to_github_turn(
                worktree_path@,
                branch_name@,
                force,
                old(io).record(),
                old(io).at(),
            ),
    {
        self.open_repo(worktree_path, io)?;
        self.check_worktree_clean(worktree_path, io)?;
        let (remote_name, url) = self.default_remote_url(worktree_path, io)?;
        pass_on(self.cli().push(worktree_path, url.as_str(), branch_name, force, io))?;
        self.track_pushed_branch(worktree_path, remote_name.as_str(), branch_name, io)
    }

    /// Stage, commit and push everything to the default remote, and track the branch. Nothing is
    /// done where there are no changes.
    pub fn add_all_and_push_to_github(
        &self,
        worktree_path: &RawText,
        branch_name: &str,
        io: &mut Dialogue,
    ) -> (r: ServiceResult<()>)
        ensures
            final(io).record() == old(io).record(),
            turn(r, final(io)) == add_all_and_push_turn(
                self.dirs(),
                worktree_path@,
                branch_name@,
                old(io).record(),
                old(io).at(),
            ),
    {
        self.open_repo(worktree_path, io)?;
        let (remote_name, url) = self.default_remote_url(worktree_path, io)?;
        let git: &GitCli = self.cli();
        let has_changes: bool = explain(
            git.has_changes(worktree_path, io),
            "git status failed: ",
        )?;
        if !has_changes {
            return Ok(());
        }
        self.stage_and_commit(worktree_path, "update", io)?;
        pass_on(git.push(worktree_path, url.as_str(), branch_name, false, io))?;
        self.track_pushed_branch(worktree_path, remote_name.as_str(), branch_name, io)
    }
}

// ---------------------------------------------------------------------------
// What is promised of names and refspecs
// ---------------------------------------------------------------------------

/// A remote branch is updated from the branch of that name on its remote.
pub proof fn law_tracking_refspec(remote: Seq<char>, branch: Seq<char>)
    ensures
        tracking_refspec("refs/remotes/"@ + remote + "/"@ + branch, remote) == "+"@ + (
        "refs/heads/"@ + branch) + ":"@ + ("refs/remotes/"@ + remote + "/"@ + branch),
{
    let prefix = "refs/remotes/"@ + remote + "/"@;
    let refname = prefix + branch;
    assert(refname.take(prefix.len() as int) =~= prefix);
    assert(refname.skip(prefix.len() as int) =~= branch);
}

/// A remote branch goes without the name of its remote there; a local one keeps its name.
pub proof fn law_name_on_remote(remote: Seq<char>, branch: Seq<char>)
    ensures
        name_on_remote(BranchType::Remote, remote + "/"@ + branch, remote) == branch,
        name_on_remote(BranchType::Local, branch, remote) == branch,
{
    law_after_prefix(remote + "/"@, branch);
}

} // verus!
