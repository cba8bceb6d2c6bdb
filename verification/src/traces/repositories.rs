//! What making and cloning a repository asks, and what it comes to.
use vstd::prelude::*;

use crate::cloning::{clone_turn, credentials_turn, CredentialsModel};
use crate::dialogue::{NewCommitModel, Reply, RequestModel, Turn};
use crate::errors::{GitError, GitErrorModel, ServiceErrorModel};
use crate::model::Model;
use crate::oid::Oid;
use crate::raw::RawText;
use crate::records::Identity;
use crate::service::{ensure_identity_turn, ensure_main_turn, initialize_turn, ServiceTurn};

verus! {

/// A new repository in a directory that is there has `main` as its initial head, and on it an
/// initial commit of the empty tree; HEAD points there.
pub proof fn law_repository_made(
    path: Seq<u8>,
    tree: Oid,
    made: Oid,
    h: Seq<Reply>,
    at: int,
    k: int,
    e: GitError,
)
    requires
        0 <= at <= h.len(),
        k != 0,
        k != 2,
        h.len() > at ==> h[at] == Reply::Flag(true),
        h.len() > at + 1
            ==> h[at + 1] == if k == 1 {
                Reply::Unit(Err::<(), GitError>(e))
            } else {
                Reply::Unit(Ok::<(), GitError>(()))
            },
        h.len() > at + 2 ==> h[at + 2] == Reply::Unit(Ok::<(), GitError>(())),
        h.len() > at + 3
            ==> h[at + 3] == if k == 3 {
                Reply::Id(Err::<Oid, GitError>(e))
            } else {
                Reply::Id(Ok::<Oid, GitError>(tree))
            },
        h.len() > at + 4
            ==> h[at + 4] == if k == 4 {
                Reply::Unit(Err::<(), GitError>(e))
            } else {
                Reply::Unit(Ok::<(), GitError>(()))
            },
        h.len() > at + 5
            ==> h[at + 5] == if k == 5 {
                Reply::Id(Err::<Oid, GitError>(e))
            } else {
                Reply::Id(Ok::<Oid, GitError>(made))
            },
        h.len() > at + 6
            ==> h[at + 6] == if k == 6 {
                Reply::Unit(Err::<(), GitError>(e))
            } else {
                Reply::Unit(Ok::<(), GitError>(()))
            },
    ensures
        h.len() == at
            ==> initialize_turn(path, h, at) == ServiceTurn::<()>::Ask(
                RequestModel::PathExists(path),
            ),
        h.len() == at + 1 && !(0 <= k < 1)
            ==> initialize_turn(path, h, at) == ServiceTurn::<()>::Ask(
                RequestModel::InitRepo(path, "main"@, true),
            ),
        h.len() == at + 2 && !(0 <= k < 2)
            ==> initialize_turn(path, h, at) == ServiceTurn::<()>::Ask(
                RequestModel::Signature(path),
            ),
        h.len() == at + 3 && !(0 <= k < 3)
            ==> initialize_turn(path, h, at) == ServiceTurn::<()>::Ask(
                RequestModel::EmptyTree(path),
            ),
        h.len() == at + 4 && !(0 <= k < 4)
            ==> initialize_turn(path, h, at) == ServiceTurn::<()>::Ask(
                RequestModel::FindTree(path, tree@),
            ),
        h.len() == at + 5 && !(0 <= k < 5)
            ==> initialize_turn(path, h, at) == ServiceTurn::<()>::Ask(
                RequestModel::CreateCommit(
                    path,
                    NewCommitModel {
                        update_ref: Some("refs/heads/main"@),
                        identity: Identity::Configured,
                        message: "Initial commit"@,
                        tree: tree@,
                        parents: seq![],
                    },
                ),
            ),
        h.len() == at + 6 && !(0 <= k < 6)
            ==> initialize_turn(path, h, at) == ServiceTurn::<()>::Ask(
                RequestModel::SetHead(path, "refs/heads/main"@),
            ),
        (k == 1 || k == 3 || k == 4 || k == 5 || k == 6) && h.len() > at + k
            ==> initialize_turn(path, h, at) == ServiceTurn::<()>::Failed(
                ServiceErrorModel::Git(e.model()),
                at + k + 1,
            ),
        h.len() >= at + 7 && !(0 <= k < 7)
            ==> initialize_turn(path, h, at) == ServiceTurn::<()>::Done((), at + 7),
{
}

/// Where the directory for a new repository is missing, it is made first.
pub proof fn law_repository_made_with_directory(
    path: Seq<u8>,
    tree: Oid,
    made: Oid,
    x: GitError,
    h: Seq<Reply>,
    at: int,
    k: int,
    e: GitError,
)
    requires
        0 <= at <= h.len(),
        k != 0,
        k != 1,
        k != 3,
        h.len() > at ==> h[at] == Reply::Flag(false),
        h.len() > at + 1 ==> h[at + 1] == Reply::Io(Ok::<(), String>(())),
        h.len() > at + 2
            ==> h[at + 2] == if k == 2 {
                Reply::Unit(Err::<(), GitError>(e))
            } else {
                Reply::Unit(Ok::<(), GitError>(()))
            },
        h.len() > at + 3 ==> h[at + 3] == Reply::Unit(Err::<(), GitError>(x)),
        h.len() > at + 4
            ==> h[at + 4] == if k == 4 {
                Reply::Unit(Err::<(), GitError>(e))
            } else {
                Reply::Unit(Ok::<(), GitError>(()))
            },
        h.len() > at + 5
            ==> h[at + 5] == if k == 5 {
                Reply::Id(Err::<Oid, GitError>(e))
            } else {
                Reply::Id(Ok::<Oid, GitError>(tree))
            },
        h.len() > at + 6
            ==> h[at + 6] == if k == 6 {
                Reply::Unit(Err::<(), GitError>(e))
            } else {
                Reply::Unit(Ok::<(), GitError>(()))
            },
        h.len() > at + 7
            ==> h[at + 7] == if k == 7 {
                Reply::Id(Err::<Oid, GitError>(e))
            } else {
                Reply::Id(Ok::<Oid, GitError>(made))
            },
        h.len() > at + 8
            ==> h[at + 8] == if k == 8 {
                Reply::Unit(Err::<(), GitError>(e))
            } else {
                Reply::Unit(Ok::<(), GitError>(()))
            },
    ensures
        h.len() == at
            ==> initialize_turn(path, h, at) == ServiceTurn::<()>::Ask(
                RequestModel::PathExists(path),
            ),
        h.len() == at + 1 && !(0 <= k < 1)
            ==> initialize_turn(path, h, at) == ServiceTurn::<()>::Ask(
                RequestModel::CreateDirs(path),
            ),
        h.len() == at + 2 && !(0 <= k < 2)
            ==> initialize_turn(path, h, at) == ServiceTurn::<()>::Ask(
                RequestModel::InitRepo(path, "main"@, true),
            ),
        h.len() == at + 3 && !(0 <= k < 3)
            ==> initialize_turn(path, h, at) == ServiceTurn::<()>::Ask(
                RequestModel::Signature(path),
            ),
        h.len() == at + 4 && !(0 <= k < 4)
            ==> initialize_turn(path, h, at) == ServiceTurn::<()>::Ask(
                RequestModel::NewSignature("Vibe Kanban"@, "noreply@vibekanban.com"@),
            ),
        h.len() == at + 5 && !(0 <= k < 5)
            ==> initialize_turn(path, h, at) == ServiceTurn::<()>::Ask(
                RequestModel::EmptyTree(path),
            ),
        h.len() == at + 6 && !(0 <= k < 6)
            ==> initialize_turn(path, h, at) == ServiceTurn::<()>::Ask(
                RequestModel::FindTree(path, tree@),
            ),
        h.len() == at + 7 && !(0 <= k < 7)
            ==> initialize_turn(path, h, at) == ServiceTurn::<()>::Ask(
                RequestModel::CreateCommit(
                    path,
                    NewCommitModel {
                        update_ref: Some("refs/heads/main"@),
                        identity: Identity::Fallback,
                        message: "Initial commit"@,
                        tree: tree@,
                        parents: seq![],
                    },
                ),
            ),
        h.len() == at + 8 && !(0 <= k < 8)
            ==> initialize_turn(path, h, at) == ServiceTurn::<()>::Ask(
                RequestModel::SetHead(path, "refs/heads/main"@),
            ),
        (k == 2 || k == 4 || k == 5 || k == 6 || k == 7 || k == 8) && h.len() > at + k
            ==> initialize_turn(path, h, at) == ServiceTurn::<()>::Failed(
                ServiceErrorModel::Git(e.model()),
                at + k + 1,
            ),
        h.len() >= at + 9 && !(0 <= k < 9)
            ==> initialize_turn(path, h, at) == ServiceTurn::<()>::Done((), at + 9),
{
}

/// A repository without branches gets the initial commit on `main`.
pub proof fn law_main_branch_made_where_missing(
    path: Seq<u8>,
    tree: Oid,
    made: Oid,
    h: Seq<Reply>,
    at: int,
    k: int,
    e: GitError,
)
    requires
        0 <= at <= h.len(),
        k != 1,
        k != 2,
        h.len() > at
            ==> h[at] == if k == 0 {
                Reply::Unit(Err::<(), GitError>(e))
            } else {
                Reply::Unit(Ok::<(), GitError>(()))
            },
        h.len() > at + 1 ==> h[at + 1] == Reply::Count(Ok::<usize, GitError>(0)),
        h.len() > at + 2 ==> h[at + 2] == Reply::Unit(Ok::<(), GitError>(())),
        h.len() > at + 3
            ==> h[at + 3] == if k == 3 {
                Reply::Id(Err::<Oid, GitError>(e))
            } else {
                Reply::Id(Ok::<Oid, GitError>(tree))
            },
        h.len() > at + 4
            ==> h[at + 4] == if k == 4 {
                Reply::Unit(Err::<(), GitError>(e))
            } else {
                Reply::Unit(Ok::<(), GitError>(()))
            },
        h.len() > at + 5
            ==> h[at + 5] == if k == 5 {
                Reply::Id(Err::<Oid, GitError>(e))
            } else {
                Reply::Id(Ok::<Oid, GitError>(made))
            },
        h.len() > at + 6
            ==> h[at + 6] == if k == 6 {
                Reply::Unit(Err::<(), GitError>(e))
            } else {
                Reply::Unit(Ok::<(), GitError>(()))
            },
    ensures
        h.len() == at
            ==> ensure_main_turn(path, h, at) == ServiceTurn::<()>::Ask(
                RequestModel::OpenRepo(path),
            ),
        h.len() == at + 1 && !(0 <= k < 1)
            ==> ensure_main_turn(path, h, at) == ServiceTurn::<()>::Ask(
                RequestModel::CountBranches(path),
            ),
        h.len() == at + 2 && !(0 <= k < 2)
            ==> ensure_main_turn(path, h, at) == ServiceTurn::<()>::Ask(
                RequestModel::Signature(path),
            ),
        h.len() == at + 3 && !(0 <= k < 3)
            ==> ensure_main_turn(path, h, at) == ServiceTurn::<()>::Ask(
                RequestModel::EmptyTree(path),
            ),
        h.len() == at + 4 && !(0 <= k < 4)
            ==> ensure_main_turn(path, h, at) == ServiceTurn::<()>::Ask(
                RequestModel::FindTree(path, tree@),
            ),
        h.len() == at + 5 && !(0 <= k < 5)
            ==> ensure_main_turn(path, h, at) == ServiceTurn::<()>::Ask(
                RequestModel::CreateCommit(
                    path,
                    NewCommitModel {
                        update_ref: Some("refs/heads/main"@),
                        identity: Identity::Configured,
                        message: "Initial commit"@,
                        tree: tree@,
                        parents: seq![],
                    },
                ),
            ),
        h.len() == at + 6 && !(0 <= k < 6)
            ==> ensure_main_turn(path, h, at) == ServiceTurn::<()>::Ask(
                RequestModel::SetHead(path, "refs/heads/main"@),
            ),
        (k == 0 || k == 3 || k == 4 || k == 5 || k == 6) && h.len() > at + k
            ==> ensure_main_turn(path, h, at) == ServiceTurn::<()>::Failed(
                ServiceErrorModel::Git(e.model()),
                at + k + 1,
            ),
        h.len() >= at + 7 && !(0 <= k < 7)
            ==> ensure_main_turn(path, h, at) == ServiceTurn::<()>::Done((), at + 7),
{
}

/// A clone makes the directory above its own, and clones from the URL into its path with the token
/// that was given.
pub proof fn law_repository_cloned(
    url: Seq<char>,
    target: Seq<u8>,
    parent: Seq<u8>,
    token: Option<Seq<char>>,
    h: Seq<Reply>,
    at: int,
    k: int,
    e: GitError,
)
    requires
        0 <= at <= h.len(),
        k != 0,
        h.len() > at ==> h[at] == Reply::Io(Ok::<(), String>(())),
        h.len() > at + 1
            ==> h[at + 1] == if k == 1 {
                Reply::Unit(Err::<(), GitError>(e))
            } else {
                Reply::Unit(Ok::<(), GitError>(()))
            },
    ensures
        h.len() == at
            ==> clone_turn(url, target, Some(parent), token, h, at) == ServiceTurn::<()>::Ask(
                RequestModel::CreateDirs(parent),
            ),
        h.len() == at + 1 && !(0 <= k < 1)
            ==> clone_turn(url, target, Some(parent), token, h, at) == ServiceTurn::<()>::Ask(
                RequestModel::CloneRepo(url, target, token),
            ),
        (k == 1) && h.len() > at + k
            ==> clone_turn(url, target, Some(parent), token, h, at) == ServiceTurn::<()>::Failed(
                ServiceErrorModel::Git(e.model()),
                at + k + 1,
            ),
        h.len() >= at + 2 && !(0 <= k < 2)
            ==> clone_turn(url, target, Some(parent), token, h, at) == ServiceTurn::<()>::Done(
                (),
                at + 2,
            ),
{
}

/// A clone into a path without a directory above it makes none.
pub proof fn law_repository_cloned_without_directory(
    url: Seq<char>,
    target: Seq<u8>,
    token: Option<Seq<char>>,
    h: Seq<Reply>,
    at: int,
    k: int,
    e: GitError,
)
    requires
        0 <= at <= h.len(),
        h.len() > at
            ==> h[at] == if k == 0 {
                Reply::Unit(Err::<(), GitError>(e))
            } else {
                Reply::Unit(Ok::<(), GitError>(()))
            },
    ensures
        h.len() == at
            ==> clone_turn(url, target, None, token, h, at) == ServiceTurn::<()>::Ask(
                RequestModel::CloneRepo(url, target, token),
            ),
        (k == 0) && h.len() > at + k
            ==> clone_turn(url, target, None, token, h, at) == ServiceTurn::<()>::Failed(
                ServiceErrorModel::Git(e.model()),
                at + k + 1,
            ),
        h.len() >= at + 1 && !(0 <= k < 1)
            ==> clone_turn(url, target, None, token, h, at) == ServiceTurn::<()>::Done((), at + 1),
{
}

/// Without a token, the key that the SSH agent has for the user of the URL is offered.
pub proof fn law_agent_key_offered(
    user: Seq<char>,
    h: Seq<Reply>,
    at: int,
)
    requires
        0 <= at <= h.len(),
        h.len() > at ==> h[at] == Reply::Flag(true),
    ensures
        h.len() == at
            ==> credentials_turn(None, Some(user), h, at)
                == Turn::<CredentialsModel, GitErrorModel>::Ask(RequestModel::AgentKey(user)),
        h.len() >= at + 1
            ==> credentials_turn(None, Some(user), h, at)
                == Turn::<CredentialsModel, GitErrorModel>::Done(
                    CredentialsModel::Agent { username: user },
                    at + 1,
                ),
{
}

/// Where the SSH agent has no key for the user, the key file in the home directory is offered.
pub proof fn law_key_file_offered(
    user: Seq<char>,
    home: RawText,
    h: Seq<Reply>,
    at: int,
)
    requires
        0 <= at <= h.len(),
        h.len() > at ==> h[at] == Reply::Flag(false),
        h.len() > at + 1 ==> h[at + 1] == Reply::Found(Some(home)),
    ensures
        h.len() == at
            ==> credentials_turn(None, Some(user), h, at)
                == Turn::<CredentialsModel, GitErrorModel>::Ask(RequestModel::AgentKey(user)),
        h.len() == at + 1
            ==> credentials_turn(
                None,
                Some(user),
                h,
                at,
            ) == Turn::<CredentialsModel, GitErrorModel>::Ask(RequestModel::HomeDir),
        h.len() >= at + 2
            ==> credentials_turn(None, Some(user), h, at)
                == Turn::<CredentialsModel, GitErrorModel>::Done(
                    CredentialsModel::KeyFile { username: user, home: home@, file: ".ssh/id_rsa"@ },
                    at + 2,
                ),
{
}

/// Where the URL names no user, the key file is offered for the user `git`.
pub proof fn law_key_file_offered_to_git(
    home: RawText,
    h: Seq<Reply>,
    at: int,
)
    requires
        0 <= at <= h.len(),
        h.len() > at ==> h[at] == Reply::Found(Some(home)),
    ensures
        h.len() == at
            ==> credentials_turn(None, None, h, at) == Turn::<CredentialsModel, GitErrorModel>::Ask(
                RequestModel::HomeDir,
            ),
        h.len() >= at + 1
            ==> credentials_turn(None, None, h, at)
                == Turn::<CredentialsModel, GitErrorModel>::Done(
                    CredentialsModel::KeyFile {
                        username: "git"@,
                        home: home@,
                        file: ".ssh/id_rsa"@,
                    },
                    at + 1,
                ),
{
}

/// With a token, the user of the URL is offered it as a password, or the user `git` where the URL
/// names none.
pub proof fn law_token_offered(token: Seq<char>, user: Seq<char>, h: Seq<Reply>, at: int)
    ensures
        credentials_turn(Some(token), Some(user), h, at) == Turn::<
            CredentialsModel,
            GitErrorModel,
        >::Done(CredentialsModel::Token { username: user, token }, at),
        credentials_turn(Some(token), None, h, at) == Turn::<
            CredentialsModel,
            GitErrorModel,
        >::Done(CredentialsModel::Token { username: "git"@, token }, at),
{
}

/// Where only the address for commits is missing, only the address is set.
pub proof fn law_missing_email_set(
    path: Seq<u8>,
    h: Seq<Reply>,
    at: int,
    k: int,
    e: GitError,
)
    requires
        0 <= at <= h.len(),
        k != 2,
        k != 3,
        h.len() > at
            ==> h[at] == if k == 0 {
                Reply::Unit(Err::<(), GitError>(e))
            } else {
                Reply::Unit(Ok::<(), GitError>(()))
            },
        h.len() > at + 1
            ==> h[at + 1] == if k == 1 {
                Reply::Unit(Err::<(), GitError>(e))
            } else {
                Reply::Unit(Ok::<(), GitError>(()))
            },
        h.len() > at + 2 ==> h[at + 2] == Reply::Flag(true),
        h.len() > at + 3 ==> h[at + 3] == Reply::Flag(false),
        h.len() > at + 4
            ==> h[at + 4] == if k == 4 {
                Reply::Unit(Err::<(), GitError>(e))
            } else {
                Reply::Unit(Ok::<(), GitError>(()))
            },
        h.len() > at + 5
            ==> h[at + 5] == if k == 5 {
                Reply::Unit(Err::<(), GitError>(e))
            } else {
                Reply::Unit(Ok::<(), GitError>(()))
            },
    ensures
        h.len() == at
            ==> ensure_identity_turn(path, h, at) == ServiceTurn::<()>::Ask(
                RequestModel::OpenRepo(path),
            ),
        h.len() == at + 1 && !(0 <= k < 1)
            ==> ensure_identity_turn(path, h, at) == ServiceTurn::<()>::Ask(
                RequestModel::OpenConfig(path),
            ),
        h.len() == at + 2 && !(0 <= k < 2)
            ==> ensure_identity_turn(path, h, at) == ServiceTurn::<()>::Ask(
                RequestModel::ConfigHas(path, "user.name"@),
            ),
        h.len() == at + 3 && !(0 <= k < 3)
            ==> ensure_identity_turn(path, h, at) == ServiceTurn::<()>::Ask(
                RequestModel::ConfigHas(path, "user.email"@),
            ),
        h.len() == at + 4 && !(0 <= k < 4)
            ==> ensure_identity_turn(path, h, at) == ServiceTurn::<()>::Ask(
                RequestModel::OpenConfig(path),
            ),
        h.len() == at + 5 && !(0 <= k < 5)
            ==> ensure_identity_turn(path, h, at) == ServiceTurn::<()>::Ask(
                RequestModel::ConfigSet(path, "user.email"@, "noreply@vibekanban.com"@),
            ),
        (k == 0 || k == 1 || k == 4 || k == 5) && h.len() > at + k
            ==> ensure_identity_turn(path, h, at) == ServiceTurn::<()>::Failed(
                ServiceErrorModel::Git(e.model()),
                at + k + 1,
            ),
        h.len() >= at + 6 && !(0 <= k < 6)
            ==> ensure_identity_turn(path, h, at) == ServiceTurn::<()>::Done((), at + 6),
{
}

/// Where only the name for commits is missing, only the name is set.
pub proof fn law_missing_name_set(
    path: Seq<u8>,
    h: Seq<Reply>,
    at: int,
    k: int,
    e: GitError,
)
    requires
        0 <= at <= h.len(),
        k != 2,
        k != 3,
        h.len() > at
            ==> h[at] == if k == 0 {
                Reply::Unit(Err::<(), GitError>(e))
            } else {
                Reply::Unit(Ok::<(), GitError>(()))
            },
        h.len() > at + 1
            ==> h[at + 1] == if k == 1 {
                Reply::Unit(Err::<(), GitError>(e))
            } else {
                Reply::Unit(Ok::<(), GitError>(()))
            },
        h.len() > at + 2 ==> h[at + 2] == Reply::Flag(false),
        h.len() > at + 3 ==> h[at + 3] == Reply::Flag(true),
        h.len() > at + 4
            ==> h[at + 4] == if k == 4 {
                Reply::Unit(Err::<(), GitError>(e))
            } else {
                Reply::Unit(Ok::<(), GitError>(()))
            },
        h.len() > at + 5
            ==> h[at + 5] == if k == 5 {
                Reply::Unit(Err::<(), GitError>(e))
            } else {
                Reply::Unit(Ok::<(), GitError>(()))
            },
    ensures
        h.len() == at
            ==> ensure_identity_turn(path, h, at) == ServiceTurn::<()>::Ask(
                RequestModel::OpenRepo(path),
            ),
        h.len() == at + 1 && !(0 <= k < 1)
            ==> ensure_identity_turn(path, h, at) == ServiceTurn::<()>::Ask(
                RequestModel::OpenConfig(path),
            ),
        h.len() == at + 2 && !(0 <= k < 2)
            ==> ensure_identity_turn(path, h, at) == ServiceTurn::<()>::Ask(
                RequestModel::ConfigHas(path, "user.name"@),
            ),
        h.len() == at + 3 && !(0 <= k < 3)
            ==> ensure_identity_turn(path, h, at) == ServiceTurn::<()>::Ask(
                RequestModel::ConfigHas(path, "user.email"@),
            ),
        h.len() == at + 4 && !(0 <= k < 4)
            ==> ensure_identity_turn(path, h, at) == ServiceTurn::<()>::Ask(
                RequestModel::OpenConfig(path),
            ),
        h.len() == at + 5 && !(0 <= k < 5)
            ==> ensure_identity_turn(path, h, at) == ServiceTurn::<()>::Ask(
                RequestModel::ConfigSet(path, "user.name"@, "Vibe Kanban"@),
            ),
        (k == 0 || k == 1 || k == 4 || k == 5) && h.len() > at + k
            ==> ensure_identity_turn(path, h, at) == ServiceTurn::<()>::Failed(
                ServiceErrorModel::Git(e.model()),
                at + k + 1,
            ),
        h.len() >= at + 6 && !(0 <= k < 6)
            ==> ensure_identity_turn(path, h, at) == ServiceTurn::<()>::Done((), at + 6),
{
}

/// Where the name and the address for commits are missing, both are set.
pub proof fn law_missing_both_set(
    path: Seq<u8>,
    h: Seq<Reply>,
    at: int,
    k: int,
    e: GitError,
)
    requires
        0 <= at <= h.len(),
        k != 2,
        k != 3,
        h.len() > at
            ==> h[at] == if k == 0 {
                Reply::Unit(Err::<(), GitError>(e))
            } else {
                Reply::Unit(Ok::<(), GitError>(()))
            },
        h.len() > at + 1
            ==> h[at + 1] == if k == 1 {
                Reply::Unit(Err::<(), GitError>(e))
            } else {
                Reply::Unit(Ok::<(), GitError>(()))
            },
        h.len() > at + 2 ==> h[at + 2] == Reply::Flag(false),
        h.len() > at + 3 ==> h[at + 3] == Reply::Flag(false),
        h.len() > at + 4
            ==> h[at + 4] == if k == 4 {
                Reply::Unit(Err::<(), GitError>(e))
            } else {
                Reply::Unit(Ok::<(), GitError>(()))
            },
        h.len() > at + 5
            ==> h[at + 5] == if k == 5 {
                Reply::Unit(Err::<(), GitError>(e))
            } else {
                Reply::Unit(Ok::<(), GitError>(()))
            },
        h.len() > at + 6
            ==> h[at + 6] == if k == 6 {
                Reply::Unit(Err::<(), GitError>(e))
            } else {
                Reply::Unit(Ok::<(), GitError>(()))
            },
    ensures
        h.len() == at
            ==> ensure_identity_turn(path, h, at) == ServiceTurn::<()>::Ask(
                RequestModel::OpenRepo(path),
            ),
        h.len() == at + 1 && !(0 <= k < 1)
            ==> ensure_identity_turn(path, h, at) == ServiceTurn::<()>::Ask(
                RequestModel::OpenConfig(path),
            ),
        h.len() == at + 2 && !(0 <= k < 2)
            ==> ensure_identity_turn(path, h, at) == ServiceTurn::<()>::Ask(
                RequestModel::ConfigHas(path, "user.name"@),
            ),
        h.len() == at + 3 && !(0 <= k < 3)
            ==> ensure_identity_turn(path, h, at) == ServiceTurn::<()>::Ask(
                RequestModel::ConfigHas(path, "user.email"@),
            ),
        h.len() == at + 4 && !(0 <= k < 4)
            ==> ensure_identity_turn(path, h, at) == ServiceTurn::<()>::Ask(
                RequestModel::OpenConfig(path),
            ),
        h.len() == at + 5 && !(0 <= k < 5)
            ==> ensure_identity_turn(path, h, at) == ServiceTurn::<()>::Ask(
                RequestModel::ConfigSet(path, "user.name"@, "Vibe Kanban"@),
            ),
        h.len() == at + 6 && !(0 <= k < 6)
            ==> ensure_identity_turn(path, h, at) == ServiceTurn::<()>::Ask(
                RequestModel::ConfigSet(path, "user.email"@, "noreply@vibekanban.com"@),
            ),
        (k == 0 || k == 1 || k == 4 || k == 5 || k == 6) && h.len() > at + k
            ==> ensure_identity_turn(path, h, at) == ServiceTurn::<()>::Failed(
                ServiceErrorModel::Git(e.model()),
                at + k + 1,
            ),
        h.len() >= at + 7 && !(0 <= k < 7)
            ==> ensure_identity_turn(path, h, at) == ServiceTurn::<()>::Done((), at + 7),
{
}

} // verus!
