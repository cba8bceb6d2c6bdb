//! What can go wrong.
use vstd::prelude::*;

use crate::model::Model;
use crate::text::{cat, cat3};

verus! {

/// A failure that libgit2 reports.
#[derive(Debug, PartialEq, Eq)]
pub struct GitError {
    pub code: i32,
    pub class: i32,
    pub message: String,
    /// The message as it is shown: followed by the class and the code where these say something.
    pub shown: String,
}

/// What a `GitError` stands for.
pub struct GitErrorModel {
    pub code: int,
    pub class: int,
    pub message: Seq<char>,
    pub shown: Seq<char>,
}

impl Model for GitError {
    type M = GitErrorModel;

    open spec fn model(&self) -> GitErrorModel {
        GitErrorModel {
            code: self.code as int,
            class: self.class as int,
            message: self.message@,
            shown: self.shown@,
        }
    }
}

/// The failure of no class and of libgit2's general code that carries `message`.
pub open spec fn plain_git_error(message: Seq<char>) -> GitErrorModel {
    GitErrorModel { code: -1, class: 0, message, shown: message }
}

impl GitError {
    /// The failure of no class and of libgit2's general code that carries `message`.
    pub fn from_str(message: &str) -> (r: GitError)
        ensures
            r.model() == plain_git_error(message@),
    {
        GitError {
            code: -1,
            class: 0,
            message: message.to_owned(),
            shown: message.to_owned(),
        }
    }

    /// The same failure again.
    pub fn copy(&self) -> (r: GitError)
        ensures
            r.model() == self.model(),
    {
        GitError {
            code: self.code,
            class: self.class,
            message: self.message.clone(),
            shown: self.shown.clone(),
        }
    }
}

/// A failure of the `git` command.
#[derive(Debug, PartialEq, Eq)]
pub enum GitCliError {
    /// The executable was not found, or could not be run.
    NotAvailable,
    /// The command failed, with this output.
    CommandFailed(String),
    /// The remote refused the credentials.
    AuthFailed(String),
    /// The remote refused the push.
    PushRejected(String),
    /// A rebase is in progress in the worktree.
    RebaseInProgress,
}

/// What a `GitCliError` stands for.
pub enum CliErrorModel {
    NotAvailable,
    CommandFailed(Seq<char>),
    AuthFailed(Seq<char>),
    PushRejected(Seq<char>),
    RebaseInProgress,
}

impl Model for GitCliError {
    type M = CliErrorModel;

    open spec fn model(&self) -> CliErrorModel {
        match self {
            GitCliError::NotAvailable => CliErrorModel::NotAvailable,
            GitCliError::CommandFailed(m) => CliErrorModel::CommandFailed(m@),
            GitCliError::AuthFailed(m) => CliErrorModel::AuthFailed(m@),
            GitCliError::PushRejected(m) => CliErrorModel::PushRejected(m@),
            GitCliError::RebaseInProgress => CliErrorModel::RebaseInProgress,
        }
    }
}

/// What a failure of the `git` command says to its reader.
pub open spec fn cli_error_text(e: CliErrorModel) -> Seq<char> {
    match e {
        CliErrorModel::NotAvailable => "git executable not found or not runnable"@,
        CliErrorModel::CommandFailed(m) => "git command failed: "@ + m,
        CliErrorModel::AuthFailed(m) => "authentication failed: "@ + m,
        CliErrorModel::PushRejected(m) => "push rejected: "@ + m,
        CliErrorModel::RebaseInProgress => "rebase in progress in this worktree"@,
    }
}

impl GitCliError {
    /// What this failure says to its reader.
    pub fn to_text(&self) -> (r: String)
        ensures
            r@ == cli_error_text(self.model()),
    {
        match self {
            GitCliError::NotAvailable => "git executable not found or not runnable".to_owned(),
            GitCliError::CommandFailed(m) => cat("git command failed: ", m.as_str()),
            GitCliError::AuthFailed(m) => cat("authentication failed: ", m.as_str()),
            GitCliError::PushRejected(m) => cat("push rejected: ", m.as_str()),
            GitCliError::RebaseInProgress => "rebase in progress in this worktree".to_owned(),
        }
    }
}

/// A failure of the service.
#[derive(Debug, PartialEq, Eq)]
pub enum GitServiceError {
    /// libgit2 failed.
    Git(GitError),
    /// The `git` command failed.
    GitCLI(GitCliError),
    /// Reading or writing files failed, with this message.
    IoError(String),
    InvalidRepository(String),
    BranchNotFound(String),
    MergeConflicts(String),
    BranchesDiverged(String),
    /// A branch, and what is uncommitted there.
    WorktreeDirty(String, String),
    RebaseInProgress,
}

/// What a `GitServiceError` stands for.
pub enum ServiceErrorModel {
    Git(GitErrorModel),
    GitCLI(CliErrorModel),
    IoError(Seq<char>),
    InvalidRepository(Seq<char>),
    BranchNotFound(Seq<char>),
    MergeConflicts(Seq<char>),
    BranchesDiverged(Seq<char>),
    WorktreeDirty(Seq<char>, Seq<char>),
    RebaseInProgress,
}

impl Model for GitServiceError {
    type M = ServiceErrorModel;

    open spec fn model(&self) -> ServiceErrorModel {
        match self {
            GitServiceError::Git(e) => ServiceErrorModel::Git(e.model()),
            GitServiceError::GitCLI(e) => ServiceErrorModel::GitCLI(e.model()),
            GitServiceError::IoError(m) => ServiceErrorModel::IoError(m@),
            GitServiceError::InvalidRepository(m) => ServiceErrorModel::InvalidRepository(m@),
            GitServiceError::BranchNotFound(m) => ServiceErrorModel::BranchNotFound(m@),
            GitServiceError::MergeConflicts(m) => ServiceErrorModel::MergeConflicts(m@),
            GitServiceError::BranchesDiverged(m) => ServiceErrorModel::BranchesDiverged(m@),
            GitServiceError::WorktreeDirty(b, m) => ServiceErrorModel::WorktreeDirty(b@, m@),
            GitServiceError::RebaseInProgress => ServiceErrorModel::RebaseInProgress,
        }
    }
}

/// What a failure of the service says to its reader.
pub open spec fn service_error_text(e: ServiceErrorModel) -> Seq<char> {
    match e {
        ServiceErrorModel::Git(e) => e.shown,
        ServiceErrorModel::GitCLI(e) => cli_error_text(e),
        ServiceErrorModel::IoError(m) => m,
        ServiceErrorModel::InvalidRepository(m) => "Invalid repository: "@ + m,
        ServiceErrorModel::BranchNotFound(m) => "Branch not found: "@ + m,
        ServiceErrorModel::MergeConflicts(m) => "Merge conflicts: "@ + m,
        ServiceErrorModel::BranchesDiverged(m) => "Branches diverged: "@ + m,
        ServiceErrorModel::WorktreeDirty(b, m) => b + " has uncommitted changes: "@ + m,
        ServiceErrorModel::RebaseInProgress =>
            "Rebase in progress; resolve or abort it before retrying"@,
    }
}

impl GitServiceError {
    /// What this failure says to its reader.
    pub fn to_text(&self) -> (r: String)
        ensures
            r@ == service_error_text(self.model()),
    {
        match self {
            GitServiceError::Git(e) => e.shown.clone(),
            GitServiceError::GitCLI(e) => e.to_text(),
            GitServiceError::IoError(m) => m.clone(),
            GitServiceError::InvalidRepository(m) => cat("Invalid repository: ", m.as_str()),
            GitServiceError::BranchNotFound(m) => cat("Branch not found: ", m.as_str()),
            GitServiceError::MergeConflicts(m) => cat("Merge conflicts: ", m.as_str()),
            GitServiceError::BranchesDiverged(m) => cat("Branches diverged: ", m.as_str()),
            GitServiceError::WorktreeDirty(b, m) => cat3(
                b.as_str(),
                " has uncommitted changes: ",
                m.as_str(),
            ),
            GitServiceError::RebaseInProgress =>
                "Rebase in progress; resolve or abort it before retrying".to_owned(),
        }
    }
}

} // verus!
