//! The service, and what it needs to make commits.
use vstd::prelude::*;

use crate::cli::GitCli;
use crate::commands::{add_all_turn, cli_commit_turn, has_changes_turn};
use crate::dialogue::{
    accept, accepted, and_then, count_turn, explain, explained, flag_turn, id_turn, io_done_turn,
    names_turn, turn, unit_turn, Dialogue, Interrupt, NewCommit, NewCommitModel, Reply, Request,
    RequestModel, Turn,
};
use crate::errors::{GitError, GitServiceError, ServiceErrorModel};
use crate::model::{lemma_models_push, Model};
use crate::oid::Oid;
use crate::raw::RawText;
use crate::records::Identity;
use crate::text::cat;

verus! {

broadcast use lemma_models_push;

/// How an operation of the service stands.
pub type ServiceTurn<A> = Turn<A, ServiceErrorModel>;

/// What an operation of the service returns.
pub type ServiceResult<T> = Result<T, Interrupt<GitServiceError>>;

/// The operations on repositories and worktrees.
pub struct GitService {
    cli: GitCli,
}

impl GitService {
    /// The names of the directories that staging and status leave out.
    pub closed spec fn dirs(&self) -> Seq<Seq<char>> {
        self.cli.dirs()
    }

    /// The service, with the names of the directories that staging and status leave out.
    pub fn new(skip_dirs: Vec<String>) -> (r: GitService)
        ensures
            r.dirs() == skip_dirs.model(),
    {
        GitService { cli: GitCli::new(skip_dirs) }
    }

    /// The `git` command as this service uses it.
    pub fn cli(&self) -> (r: &GitCli)
        ensures
            r.dirs() == self.dirs(),
    {
        &self.cli
    }
}

impl Clone for GitService {
    /// The same service again.
    fn clone(&self) -> (r: GitService)
        ensures
            r.dirs() == self.dirs(),
    {
        GitService { cli: self.cli.clone() }
    }
}

// ---------------------------------------------------------------------------
// Repositories
// ---------------------------------------------------------------------------

/// Open a repository.
pub open spec fn open_turn(path: Seq<u8>, h: Seq<Reply>, at: int) -> ServiceTurn<()> {
    accepted(unit_turn(RequestModel::OpenRepo(path), h, at))
}

/// The name that commits carry where no other is configured.
pub open spec fn fallback_name() -> Seq<char> {
    "Vibe Kanban"@
}

/// The address that commits carry where no other is configured.
pub open spec fn fallback_email() -> Seq<char> {
    "noreply@vibekanban.com"@
}

/// Set a key of the configuration, unless it is there.
pub open spec fn set_missing_turn(
    repo: Seq<u8>,
    present: bool,
    key: Seq<char>,
    value: Seq<char>,
    h: Seq<Reply>,
    at: int,
) -> ServiceTurn<()> {
    if present {
        Turn::Done((), at)
    } else {
        accepted(unit_turn(RequestModel::ConfigSet(repo, key, value), h, at))
    }
}

/// Set what is missing of the name and the address that commits carry.
pub open spec fn set_identity_turn(
    repo: Seq<u8>,
    has_name: bool,
    has_email: bool,
    h: Seq<Reply>,
    at: int,
) -> ServiceTurn<()> {
    and_then(
        accepted(unit_turn(RequestModel::OpenConfig(repo), h, at)),
        |u: (), n: int|
            and_then(
                set_missing_turn(repo, has_name, "user.name"@, fallback_name(), h, n),
                |u: (), n: int|
                    set_missing_turn(repo, has_email, "user.email"@, fallback_email(), h, n),
            ),
    )
}

/// Make sure that the configuration has a name and an address for commits: each is set only where
/// it is missing.
pub open spec fn ensure_identity_turn(path: Seq<u8>, h: Seq<Reply>, at: int) -> ServiceTurn<()> {
    and_then(
        open_turn(path, h, at),
        |u: (), n: int|
            and_then(
                accepted(unit_turn(RequestModel::OpenConfig(path), h, n)),
                |u: (), n: int|
                    and_then(
                        flag_turn(RequestModel::ConfigHas(path, "user.name"@), h, n),
                        |has_name: bool, n: int|
                            and_then(
                                flag_turn(RequestModel::ConfigHas(path, "user.email"@), h, n),
                                |has_email: bool, n: int|
                                    if has_name && has_email {
                                        Turn::Done((), n)
                                    } else {
                                        set_identity_turn(path, has_name, has_email, h, n)
                                    },
                            ),
                    ),
            ),
    )
}

/// Whose name a commit made by libgit2 carries.
pub open spec fn signature_turn(repo: Seq<u8>, h: Seq<Reply>, at: int) -> ServiceTurn<Identity> {
    and_then(
        unit_turn(RequestModel::Signature(repo), h, at),
        |own: Result<(), GitError>, n: int|
            match own {
                Ok(_) => Turn::Done(Identity::Configured, n),
                Err(_) => and_then(
                    accepted(
                        unit_turn(
                            RequestModel::NewSignature(fallback_name(), fallback_email()),
                            h,
                            n,
                        ),
                    ),
                    |u: (), n: int| Turn::Done(Identity::Fallback, n),
                ),
            },
    )
}

/// The first name that is text, or `origin`.
pub open spec fn first_name(names: Seq<Option<String>>) -> Seq<char>
    decreases names.len(),
{
    if names.len() == 0 {
        "origin"@
    } else {
        match names[0] {
            Some(name) => name@,
            None => first_name(names.skip(1)),
        }
    }
}

/// The remote that is used where no other is named: the first one, or `origin`.
pub open spec fn default_remote_turn<E>(repo: Seq<u8>, h: Seq<Reply>, at: int) -> Turn<
    Seq<char>,
    E,
> {
    and_then(
        names_turn(RequestModel::RemoteNames(repo), h, at),
        |names: Result<Vec<Option<String>>, GitError>, n: int|
            match names {
                Ok(v) => Turn::Done(first_name(v@), n),
                Err(_) => Turn::Done("origin"@, n),
            },
    )
}

/// The commit without files or parents on the main branch.
pub open spec fn initial_commit(identity: Identity, tree: Seq<u8>) -> NewCommitModel {
    NewCommitModel {
        update_ref: Some("refs/heads/main"@),
        identity,
        message: "Initial commit"@,
        tree,
        parents: seq![],
    }
}

/// Make the initial commit and let HEAD point at the main branch.
pub open spec fn create_initial_commit_turn(repo: Seq<u8>, h: Seq<Reply>, at: int) -> ServiceTurn<
    (),
> {
    and_then(
        signature_turn(repo, h, at),
        |identity: Identity, n: int|
            and_then(
                accepted(id_turn(RequestModel::EmptyTree(repo), h, n)),
                |tree: Oid, n: int|
                    and_then(
                        accepted(unit_turn(RequestModel::FindTree(repo, tree@), h, n)),
                        |u: (), n: int|
                            and_then(
                                accepted(
                                    id_turn(
                                        RequestModel::CreateCommit(
                                            repo,
                                            initial_commit(identity, tree@),
                                        ),
                                        h,
                                        n,
                                    ),
                                ),
                                |made: Oid, n: int|
                                    accepted(
                                        unit_turn(
                                            RequestModel::SetHead(repo, "refs/heads/main"@),
                                            h,
                                            n,
                                        ),
                                    ),
                            ),
                    ),
            ),
    )
}

/// Make sure that a directory exists.
pub open spec fn ensure_dir_turn(path: Seq<u8>, h: Seq<Reply>, at: int) -> ServiceTurn<()> {
    and_then(
        flag_turn(RequestModel::PathExists(path), h, at),
        |exists: bool, n: int|
            if exists {
                Turn::Done((), n)
            } else {
                create_dirs_turn(path, h, n)
            },
    )
}

/// Create a directory and those above it.
pub open spec fn create_dirs_turn(path: Seq<u8>, h: Seq<Reply>, at: int) -> ServiceTurn<()> {
    and_then(
        io_done_turn(RequestModel::CreateDirs(path), h, at),
        |made: Result<(), String>, n: int|
            match made {
                Ok(_) => Turn::Done((), n),
                Err(m) => Turn::Failed(ServiceErrorModel::IoError(m@), n),
            },
    )
}

/// Make a repository with a main branch and an initial commit.
pub open spec fn initialize_turn(path: Seq<u8>, h: Seq<Reply>, at: int) -> ServiceTurn<()> {
    and_then(
        ensure_dir_turn(path, h, at),
        |u: (), n: int|
            and_then(
                accepted(unit_turn(RequestModel::InitRepo(path, "main"@, true), h, n)),
                |u: (), n: int| create_initial_commit_turn(path, h, n),
            ),
    )
}

/// Make the initial commit in a repository that has no branches.
pub open spec fn ensure_main_turn(path: Seq<u8>, h: Seq<Reply>, at: int) -> ServiceTurn<()> {
    and_then(
        open_turn(path, h, at),
        |u: (), n: int|
            and_then(
                count_turn(RequestModel::CountBranches(path), h, n),
                |count: Result<usize, GitError>, n: int|
                    match count {
                        Ok(c) => if c == 0 {
                            create_initial_commit_turn(path, h, n)
                        } else {
                            Turn::Done((), n)
                        },
                        Err(e) => Turn::Failed(
                            ServiceErrorModel::InvalidRepository(
                                "Failed to list branches: "@ + e.shown@,
                            ),
                            n,
                        ),
                    },
            ),
    )
}

/// Stage and commit everything; false where there is nothing to commit.
pub open spec fn commit_all_turn(
    dirs: Seq<Seq<char>>,
    path: Seq<u8>,
    message: Seq<char>,
    h: Seq<Reply>,
    at: int,
) -> ServiceTurn<bool> {
    and_then(
        explained(has_changes_turn(path, h, at), "git status failed: "@),
        |changed: bool, n: int|
            if !changed {
                Turn::Done(false, n)
            } else {
                and_then(
                    stage_and_commit_turn(dirs, path, message, h, n),
                    |u: (), n: int| Turn::Done(true, n),
                )
            },
    )
}

/// Stage everything, make sure of an identity, and commit.
pub open spec fn stage_and_commit_turn(
    dirs: Seq<Seq<char>>,
    path: Seq<u8>,
    message: Seq<char>,
    h: Seq<Reply>,
    at: int,
) -> ServiceTurn<()> {
    and_then(
        explained(add_all_turn(dirs, path, h, at), "git add failed: "@),
        |u: (), n: int|
            and_then(
                ensure_identity_turn(path, h, n),
                |u: (), n: int|
                    explained(cli_commit_turn(path, message, h, n), "git commit failed: "@),
            ),
    )
}

fn first_name_of(names: &Vec<Option<String>>) -> (r: String)
    ensures
        r@ == first_name(names@),
{
    let mut i: usize = 0;
    assert(names@.skip(0) =~= names@);
    while i < names.len()
        invariant
            i <= names@.len(),
            first_name(names@.skip(i as int)) == first_name(names@),
        decreases names@.len() - i,
    {
        assert(names@.skip(i as int)[0] == names@[i as int]);
        assert(names@.skip(i as int).skip(1) =~= names@.skip(i + 1));
        match &names[i] {
            Some(name) => {
                return name.clone();
            },
            None => {},
        }
        i = i + 1;
    }
    "origin".to_owned()
}

impl GitService {
    /// Open a repository.
    pub fn open_repo(&self, repo_path: &RawText, io: &mut Dialogue) -> (r: ServiceResult<()>)
        ensures
            final(io).record() == old(io).record(),
            turn(r, final(io)) == open_turn(repo_path@, old(io).record(), old(io).at()),
    {
        accept(io.unit(Request::OpenRepo(repo_path.copy())))?;
        Ok(())
    }

    /// Make sure that the configuration of a repository has a name and an address for commits. Each
    /// is set only where it is missing.
    pub fn ensure_cli_commit_identity(&self, repo_path: &RawText, io: &mut Dialogue) -> (r:
        ServiceResult<()>)
        ensures
            final(io).record() == old(io).record(),
            turn(r, final(io)) == ensure_identity_turn(
                repo_path@,
                old(io).record(),
                old(io).at(),
            ),
    {
        self.open_repo(repo_path, io)?;
        accept(io.unit(Request::OpenConfig(repo_path.copy())))?;
        let has_name: bool = *io.flag(
            Request::ConfigHas(repo_path.copy(), "user.name".to_owned()),
        )?;
        let has_email: bool = *io.flag(
            Request::ConfigHas(repo_path.copy(), "user.email".to_owned()),
        )?;
        if !(has_name && has_email) {
            accept(io.unit(Request::OpenConfig(repo_path.copy())))?;
            if !has_name {
                accept(
                    io.unit(
                        Request::ConfigSet(
                            repo_path.copy(),
                            "user.name".to_owned(),
                            "Vibe Kanban".to_owned(),
                        ),
                    ),
                )?;
            }
            if !has_email {
                accept(
                    io.unit(
                        Request::ConfigSet(
                            repo_path.copy(),
                            "user.email".to_owned(),
                            "noreply@vibekanban.com".to_owned(),
                        ),
                    ),
                )?;
            }
        }
        Ok(())
    }

    /// Whose name a commit made by libgit2 carries: the configured one, else the service's own.
    pub fn signature_with_fallback(&self, repo: &RawText, io: &mut Dialogue) -> (r: ServiceResult<
        Identity,
    >)
        ensures
            final(io).record() == old(io).record(),
            turn(r, final(io)) == signature_turn(repo@, old(io).record(), old(io).at()),
    {
        match io.unit(Request::Signature(repo.copy()))? {
            Ok(_) => Ok(Identity::Configured),
            Err(_) => {
                accept(
                    io.unit(
                        Request::NewSignature(
                            "Vibe Kanban".to_owned(),
                            "noreply@vibekanban.com".to_owned(),
                        ),
                    ),
                )?;
                Ok(Identity::Fallback)
            },
        }
    }

    /// The remote that is used where no other is named: the first one, or `origin`.
    pub fn default_remote_name(&self, repo: &RawText, io: &mut Dialogue) -> (r: ServiceResult<
        String,
    >)
        ensures
            final(io).record() == old(io).record(),
            turn(r, final(io)) == default_remote_turn::<ServiceErrorModel>(
                repo@,
                old(io).record(),
                old(io).at(),
            ),
    {
        match io.names(Request::RemoteNames(repo.copy()))? {
            Ok(names) => Ok(first_name_of(names)),
            Err(_) => Ok("origin".to_owned()),
        }
    }

    /// Make a repository with a main branch and an initial commit.
    pub fn initialize_repo_with_main_branch(&self, repo_path: &RawText, io: &mut Dialogue) -> (r:
        ServiceResult<()>)
        ensures
            final(io).record() == old(io).record(),
            turn(r, final(io)) == initialize_turn(repo_path@, old(io).record(), old(io).at()),
    {
        if !*io.flag(Request::PathExists(repo_path.copy()))? {
            create_dirs(repo_path, io)?;
        }
        accept(io.unit(Request::InitRepo(repo_path.copy(), "main".to_owned(), true)))?;
        self.create_initial_commit(repo_path, io)
    }

    /// Make the initial commit in a repository that has no branches.
    pub fn ensure_main_branch_exists(&self, repo_path: &RawText, io: &mut Dialogue) -> (r:
        ServiceResult<()>)
        ensures
            final(io).record() == old(io).record(),
            turn(r, final(io)) == ensure_main_turn(repo_path@, old(io).record(), old(io).at()),
    {
        self.open_repo(repo_path, io)?;
        match io.count(Request::CountBranches(repo_path.copy()))? {
            Ok(count) => {
                if *count == 0 {
                    self.create_initial_commit(repo_path, io)?;
                }
                Ok(())
            },
            Err(e) => Err(
                Interrupt::Failed(
                    GitServiceError::InvalidRepository(
                        cat("Failed to list branches: ", e.shown.as_str()),
                    ),
                ),
            ),
        }
    }

    /// Make the initial commit and let HEAD point at the main branch.
    pub fn create_initial_commit(&self, repo: &RawText, io: &mut Dialogue) -> (r: ServiceResult<()>)
        ensures
            final(io).record() == old(io).record(),
            turn(r, final(io)) == create_initial_commit_turn(
                repo@,
                old(io).record(),
                old(io).at(),
            ),
    {
        let identity: Identity = self.signature_with_fallback(repo, io)?;
        let tree: &Oid = accept(io.id(Request::EmptyTree(repo.copy())))?;
        accept(io.unit(Request::FindTree(repo.copy(), *tree)))?;
        let commit: NewCommit = NewCommit {
            update_ref: Some("refs/heads/main".to_owned()),
            identity,
            message: "Initial commit".to_owned(),
            tree: *tree,
            parents: Vec::new(),
        };
        assert(commit.parents.model() =~= seq![]);
        accept(io.id(Request::CreateCommit(repo.copy(), commit)))?;
        accept(io.unit(Request::SetHead(repo.copy(), "refs/heads/main".to_owned())))?;
        Ok(())
    }

    /// Stage and commit everything; false where there is nothing to commit.
    pub fn commit(&self, path: &RawText, message: &str, io: &mut Dialogue) -> (r: ServiceResult<
        bool,
    >)
        ensures
            final(io).record() == old(io).record(),
            turn(r, final(io)) == commit_all_turn(
                self.dirs(),
                path@,
                message@,
                old(io).record(),
                old(io).at(),
            ),
    {
        let git: &GitCli = self.cli();
        let has_changes: bool = explain(git.has_changes(path, io), "git status failed: ")?;
        if !has_changes {
            return Ok(false);
        }
        self.stage_and_commit(path, message, io)?;
        Ok(true)
    }

    /// Stage everything, make sure of an identity, and commit.
    pub(crate) fn stage_and_commit(&self, path: &RawText, message: &str, io: &mut Dialogue) -> (r:
        ServiceResult<()>)
        ensures
            final(io).record() == old(io).record(),
            turn(r, final(io)) == stage_and_commit_turn(
                self.dirs(),
                path@,
                message@,
                old(io).record(),
                old(io).at(),
            ),
    {
        let git: &GitCli = self.cli();
        explain(git.add_all(path, io), "git add failed: ")?;
        self.ensure_cli_commit_identity(path, io)?;
        explain(git.commit(path, message, io), "git commit failed: ")
    }
}

/// Create a directory and those above it.
pub(crate) fn create_dirs(path: &RawText, io: &mut Dialogue) -> (r: ServiceResult<()>)
    ensures
        final(io).record() == old(io).record(),
        turn(r, final(io)) == create_dirs_turn(path@, old(io).record(), old(io).at()),
{
    match io.io_done(Request::CreateDirs(path.copy()))? {
        Ok(_) => Ok(()),
        Err(m) => Err(Interrupt::Failed(GitServiceError::IoError(m.clone()))),
    }
}

// ---------------------------------------------------------------------------
// What is promised of new repositories
// ---------------------------------------------------------------------------

/// An initial commit that succeeds has asked for the tree without entries, for a commit of that tree
/// on the main branch, without parents and with the message of an initial commit, and for HEAD to
/// point at that branch. The commit carries the identity that the repository's signature gave.
pub proof fn law_initial_commit(repo: Seq<u8>, h: Seq<Reply>, at: int, n: int)
    requires
        0 <= at,
        create_initial_commit_turn(repo, h, at) == ServiceTurn::Done((), n),
    ensures
        at + 5 <= n <= h.len(),
        create_initial_commit_turn(repo, h.take(n - 1), at) == ServiceTurn::<()>::Ask(
            RequestModel::SetHead(repo, "refs/heads/main"@),
        ),
        create_initial_commit_turn(repo, h.take(n - 4), at) == ServiceTurn::<()>::Ask(
            RequestModel::EmptyTree(repo),
        ),
        match (signature_turn(repo, h, at), h[n - 4]) {
            (Turn::Done(identity, m), Reply::Id(Ok(tree))) => m == n - 4
                && create_initial_commit_turn(repo, h.take(n - 2), at) == ServiceTurn::<()>::Ask(
                RequestModel::CreateCommit(repo, initial_commit(identity, tree@)),
            ),
            _ => false,
        },
{
}

/// A repository that has branches is left as it is.
pub proof fn law_main_branch_kept(path: Seq<u8>, h: Seq<Reply>, at: int, count: usize)
    requires
        0 <= at,
        at + 1 < h.len(),
        h[at] == Reply::Unit(Ok::<(), GitError>(())),
        h[at + 1] == Reply::Count(Ok::<usize, GitError>(count)),
        count > 0,
    ensures
        ensure_main_turn(path, h, at) == ServiceTurn::Done((), at + 2),
{
}

/// A repository without branches gets the initial commit.
pub proof fn law_main_branch_made(path: Seq<u8>, h: Seq<Reply>, at: int)
    requires
        0 <= at,
        at + 1 < h.len(),
        h[at] == Reply::Unit(Ok::<(), GitError>(())),
        h[at + 1] == Reply::Count(Ok::<usize, GitError>(0)),
    ensures
        ensure_main_turn(path, h, at) == create_initial_commit_turn(path, h, at + 2),
{
}

/// A new repository that is made successfully was asked for with the main branch as its initial
/// head, and then got the initial commit.
pub proof fn law_new_repository(path: Seq<u8>, h: Seq<Reply>, at: int, n: int)
    requires
        0 <= at,
        initialize_turn(path, h, at) == ServiceTurn::Done((), n),
    ensures
        at + 7 <= n <= h.len(),
        match ensure_dir_turn(path, h, at) {
            Turn::Done(_, m) => initialize_turn(path, h.take(m), at) == ServiceTurn::<()>::Ask(
                RequestModel::InitRepo(path, "main"@, true),
            ) && match (signature_turn(path, h, m + 1), h[n - 4]) {
                (Turn::Done(identity, k), Reply::Id(Ok(tree))) => k == n - 4 && initialize_turn(
                    path,
                    h.take(n - 2),
                    at,
                ) == ServiceTurn::<()>::Ask(
                    RequestModel::CreateCommit(path, initial_commit(identity, tree@)),
                ),
                _ => false,
            },
            _ => false,
        },
        initialize_turn(path, h.take(n - 4), at) == ServiceTurn::<()>::Ask(
            RequestModel::EmptyTree(path),
        ),
        initialize_turn(path, h.take(n - 1), at) == ServiceTurn::<()>::Ask(
            RequestModel::SetHead(path, "refs/heads/main"@),
        ),
{
}

} // verus!
