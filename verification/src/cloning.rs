//! Clones, and the credentials for them.
use vstd::prelude::*;

use crate::dialogue::{
    accept, accepted, and_then, flag_turn, found_turn, turn, unit_turn, Dialogue, Interrupt, Reply,
    Request, RequestModel, Turn,
};
use crate::errors::{plain_git_error, GitError, GitErrorModel};
use crate::model::Model;
use crate::raw::RawText;
use crate::service::{create_dirs, create_dirs_turn, GitService, ServiceResult, ServiceTurn};

verus! {

/// What is shown to a remote that asks who is there.
#[derive(Debug, PartialEq, Eq)]
pub enum Credentials {
    /// A user name and an access token in place of the password.
    Token { username: String, token: String },
    /// A key of the SSH agent.
    Agent { username: String },
    /// The key in a file below the home directory, without a passphrase.
    KeyFile { username: String, home: RawText, file: String },
}

/// What `Credentials` stand for.
pub enum CredentialsModel {
    Token { username: Seq<char>, token: Seq<char> },
    Agent { username: Seq<char> },
    KeyFile { username: Seq<char>, home: Seq<u8>, file: Seq<char> },
}

impl Model for Credentials {
    type M = CredentialsModel;

    open spec fn model(&self) -> CredentialsModel {
        match self {
            Credentials::Token { username, token } => CredentialsModel::Token {
                username: username@,
                token: token@,
            },
            Credentials::Agent { username } => CredentialsModel::Agent { username: username@ },
            Credentials::KeyFile { username, home, file } => CredentialsModel::KeyFile {
                username: username@,
                home: home@,
                file: file@,
            },
        }
    }
}

/// The user name of a URL, or `git`.
pub open spec fn user_or_git(username: Option<Seq<char>>) -> Seq<char> {
    match username {
        Some(u) => u,
        None => "git"@,
    }
}

/// The key file below the home directory.
pub open spec fn key_file_turn(username: Option<Seq<char>>, h: Seq<Reply>, at: int) -> Turn<
    CredentialsModel,
    GitErrorModel,
> {
    and_then(
        found_turn(RequestModel::HomeDir, h, at),
        |home: Option<RawText>, n: int|
            match home {
                None => Turn::Failed(plain_git_error("Could not find home directory"@), n),
                Some(dir) => Turn::Done(
                    CredentialsModel::KeyFile {
                        username: user_or_git(username),
                        home: dir@,
                        file: ".ssh/id_rsa"@,
                    },
                    n,
                ),
            },
    )
}

/// The credentials for a clone: the token where there is one; else the SSH agent, where the URL
/// names a user for which it has a key; else the key file.
pub open spec fn credentials_turn(
    token: Option<Seq<char>>,
    username: Option<Seq<char>>,
    h: Seq<Reply>,
    at: int,
) -> Turn<CredentialsModel, GitErrorModel> {
    match token {
        Some(t) => Turn::Done(
            CredentialsModel::Token { username: user_or_git(username), token: t },
            at,
        ),
        None => match username {
            None => key_file_turn(username, h, at),
            Some(u) => and_then(
                flag_turn(RequestModel::AgentKey(u), h, at),
                |has_key: bool, n: int|
                    if has_key {
                        Turn::Done(CredentialsModel::Agent { username: u }, n)
                    } else {
                        key_file_turn(username, h, n)
                    },
            ),
        },
    }
}

/// Clone a repository, after creating the directory that its own goes into.
pub open spec fn clone_turn(
    url: Seq<char>,
    target: Seq<u8>,
    parent: Option<Seq<u8>>,
    token: Option<Seq<char>>,
    h: Seq<Reply>,
    at: int,
) -> ServiceTurn<()> {
    and_then(
        match parent {
            Some(p) => create_dirs_turn(p, h, at),
            None => Turn::Done((), at),
        },
        |u: (), n: int| accepted(unit_turn(RequestModel::CloneRepo(url, target, token), h, n)),
    )
}

fn user_of(username: Option<&str>) -> (r: String)
    ensures
        r@ == user_or_git(
            match username {
                Some(u) => Some(u@),
                None => None,
            },
        ),
{
    match username {
        Some(u) => u.to_owned(),
        None => "git".to_owned(),
    }
}

impl GitService {
    /// The credentials for a clone, where the URL names `username`.
    pub fn clone_credentials(
        token: Option<&str>,
        username: Option<&str>,
        io: &mut Dialogue,
    ) -> (r: Result<Credentials, Interrupt<GitError>>)
        ensures
            final(io).record() == old(io).record(),
            turn(r, final(io)) == credentials_turn(
                match token {
                    Some(t) => Some(t@),
                    None => None,
                },
                match username {
                    Some(u) => Some(u@),
                    None => None,
                },
                old(io).record(),
                old(io).at(),
            ),
    {
        if let Some(t) = token {
            return Ok(Credentials::Token { username: user_of(username), token: t.to_owned() });
        }
        if let Some(u) = username {
            if *io.flag(Request::AgentKey(u.to_owned()))? {
                return Ok(Credentials::Agent { username: u.to_owned() });
            }
        }
        match io.found(Request::HomeDir)? {
            None => Err(Interrupt::Failed(GitError::from_str("Could not find home directory"))),
            Some(home) => Ok(
                Credentials::KeyFile {
                    username: user_of(username),
                    home: home.copy(),
                    file: ".ssh/id_rsa".to_owned(),
                },
            ),
        }
    }

    /// Clone a repository into `target_path`, after creating the directory `parent` that it goes
    /// into.
    pub fn clone_repository(
        clone_url: &str,
        target_path: &RawText,
        parent: Option<&RawText>,
        token: Option<&str>,
        io: &mut Dialogue,
    ) -> (r: ServiceResult<()>)
        ensures
            final(io).record() == old(io).record(),
            turn(r, final(io)) == clone_turn(
                clone_url@,
                target_path@,
                match parent {
                    Some(p) => Some(p@),
                    None => None,
                },
                match token {
                    Some(t) => Some(t@),
                    None => None,
                },
                old(io).record(),
                old(io).at(),
            ),
    {
        if let Some(dir) = parent {
            create_dirs(dir, io)?;
        }
        let access: Option<String> = match token {
            Some(t) => Some(t.to_owned()),
            None => None,
        };
        accept(io.unit(Request::CloneRepo(clone_url.to_owned(), target_path.copy(), access)))?;
        Ok(())
    }
}

/// With a token no other credentials are looked for.
pub proof fn law_token_suffices(
    token: Seq<char>,
    username: Option<Seq<char>>,
    h: Seq<Reply>,
    at: int,
)
    ensures
        credentials_turn(Some(token), username, h, at) == Turn::<_, GitErrorModel>::Done(
            CredentialsModel::Token { username: user_or_git(username), token },
            at,
        ),
{
}

} // verus!
