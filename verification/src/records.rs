//! What the outside world answers, as plain values.
use vstd::prelude::*;

use crate::errors::GitError;
use crate::model::Model;
use crate::oid::Oid;
use crate::raw::RawText;
use crate::time::Timestamp;

verus! {

/// Where a branch lives.
#[derive(Debug, Clone, Copy, PartialEq, Eq, Structural)]
pub enum BranchType {
    Local,
    Remote,
}

impl Model for BranchType {
    type M = BranchType;

    open spec fn model(&self) -> BranchType {
        *self
    }
}

/// Whose name a commit carries.
#[derive(Debug, Clone, Copy, PartialEq, Eq, Structural)]
pub enum Identity {
    /// The one that is configured for the repository.
    Configured,
    /// The service's own.
    Fallback,
}

impl Model for Identity {
    type M = Identity;

    open spec fn model(&self) -> Identity {
        *self
    }
}

/// How `git --version` went.
#[derive(Debug, PartialEq, Eq)]
pub enum VersionReport {
    /// No executable was found.
    Missing,
    /// The executable could not be run.
    NotRun,
    /// It ran, and said whether it succeeded.
    Ended(bool),
}

/// How a command went.
#[derive(Debug, PartialEq, Eq)]
pub enum RunReport {
    /// No executable was found.
    Missing,
    /// The command could not be started or waited for, with this message.
    NotStarted(String),
    /// The command ran to its end.
    Ended(RunEnd),
}

/// What a finished command left behind.
#[derive(Debug, PartialEq, Eq)]
pub struct RunEnd {
    /// The exit code; none where a signal ended the command.
    pub code: Option<i32>,
    pub stdout: RawText,
    pub stderr: RawText,
    /// The message of a failure to write the command's input.
    pub stdin_error: Option<String>,
}

/// A branch that was found.
#[derive(Debug, PartialEq, Eq)]
pub struct BranchInfo {
    /// The full name of its reference, where that is text.
    pub refname: Option<String>,
    /// The object it points at; none where it points at another reference.
    pub target: Option<Oid>,
    /// Whether its reference is a remote-tracking one.
    pub is_remote: bool,
}

/// A remote that was found.
#[derive(Debug, PartialEq, Eq)]
pub struct RemoteInfo {
    pub name: Option<String>,
    pub url: Option<String>,
}

/// Where HEAD points.
#[derive(Debug, PartialEq, Eq)]
pub struct HeadRef {
    pub shorthand: Option<String>,
    pub target: Option<Oid>,
}

/// What differs for one file: between HEAD and index, and between index and worktree.
#[derive(Debug, Clone, Copy, PartialEq, Eq)]
pub struct FileFlags {
    pub index_new: bool,
    pub index_modified: bool,
    pub index_deleted: bool,
    pub index_renamed: bool,
    pub index_typechange: bool,
    pub wt_new: bool,
    pub wt_modified: bool,
    pub wt_deleted: bool,
    pub wt_typechange: bool,
    pub wt_renamed: bool,
    pub ignored: bool,
    pub conflicted: bool,
}

/// The status of one file.
#[derive(Debug, PartialEq, Eq)]
pub struct StatusRecord {
    pub flags: FileFlags,
    /// The path, as raw bytes.
    pub path: RawText,
}

/// A commit that was found.
#[derive(Debug, PartialEq, Eq)]
pub struct CommitInfo {
    /// The first paragraph of its message, where there is one that is text.
    pub summary: Option<String>,
    /// When the commit was made.
    pub seconds: i64,
    /// How many parents it has.
    pub parents: usize,
    /// The time at which this commit was read.
    pub now: Timestamp,
}

/// What kind of change a delta records.
#[derive(Debug, Clone, Copy, PartialEq, Eq, Structural)]
pub enum DeltaKind {
    Unmodified,
    Added,
    Deleted,
    Modified,
    Renamed,
    Copied,
    Ignored,
    Untracked,
    Typechange,
    Unreadable,
    Conflicted,
}

/// One side of a delta.
#[derive(Debug, PartialEq, Eq)]
pub struct DeltaFile {
    pub id: Oid,
    pub path: Option<RawText>,
    pub mode: u32,
}

/// The change of one file between two trees.
#[derive(Debug, PartialEq, Eq)]
pub struct DeltaRecord {
    pub status: DeltaKind,
    pub old_file: DeltaFile,
    pub new_file: DeltaFile,
}

/// How many lines a change adds and deletes.
#[derive(Debug, Clone, Copy, PartialEq, Eq)]
pub struct LineCounts {
    pub additions: usize,
    pub deletions: usize,
}

/// The changes between two trees.
#[derive(Debug, PartialEq, Eq)]
pub struct DiffRecord {
    pub deltas: Vec<DeltaRecord>,
    /// For each position in the diff the lines that its patch adds and deletes, where there is a
    /// patch with such numbers.
    pub line_stats: Vec<Option<LineCounts>>,
}

/// A blob that was found.
#[derive(Debug, PartialEq, Eq)]
pub struct BlobRecord {
    pub is_binary: bool,
    pub size: usize,
    pub content: RawText,
}

/// An entry of a tree that was found.
#[derive(Debug, PartialEq, Eq)]
pub struct TreeEntry {
    pub is_blob: bool,
    pub id: Oid,
}

/// A branch among all branches.
#[derive(Debug, PartialEq, Eq)]
pub struct BranchRecord {
    /// The name, where it is text, or the failure to get it.
    pub name: Result<Option<String>, GitError>,
    /// When the commit that the branch points at was made, where there is such a commit.
    pub commit_seconds: Option<i64>,
    /// The time at which this branch was read.
    pub now: Timestamp,
}

/// The paths of one changed file.
#[derive(Debug, PartialEq, Eq)]
pub struct ChangedPaths {
    pub new_path: Option<RawText>,
    pub old_path: Option<RawText>,
}

/// A repository on GitHub.
#[derive(Debug, PartialEq, Eq)]
pub struct GitHubRepoInfo {
    pub owner: String,
    pub repo_name: String,
}

impl Model for GitHubRepoInfo {
    type M = (Seq<char>, Seq<char>);

    open spec fn model(&self) -> (Seq<char>, Seq<char>) {
        (self.owner@, self.repo_name@)
    }
}

} // verus!
