//! The dialogue between the service and the outside world.
//!
//! Nothing here touches a repository or runs a command. An operation is a function of its
//! arguments and of the record of replies so far: it says which request comes next, or how it
//! ends. Whoever runs it performs the request, appends the reply to the record, and calls the
//! operation again, until it ends.
use vstd::prelude::*;

use crate::errors::{
    cli_error_text, CliErrorModel, GitCliError, GitError, GitErrorModel, GitServiceError,
    ServiceErrorModel,
};
use crate::model::Model;
use crate::oid::Oid;
use crate::raw::RawText;
use crate::records::{
    BlobRecord, BranchInfo, BranchRecord, BranchType, ChangedPaths, CommitInfo, DiffRecord,
    GitHubRepoInfo, HeadRef, Identity, LineCounts, RemoteInfo, RunReport, StatusRecord, TreeEntry,
    VersionReport,
};
use crate::text::cat;

verus! {

// ---------------------------------------------------------------------------
// Requests
// ---------------------------------------------------------------------------

/// A run of `git -C <dir> <args>`.
#[derive(Debug, PartialEq, Eq)]
pub struct Command {
    pub dir: RawText,
    pub args: Vec<RawText>,
    /// What is set in the environment of the command.
    pub envs: Vec<(RawText, RawText)>,
    /// What the command reads; none where its input is closed.
    pub stdin: Option<RawText>,
}

/// What a `Command` stands for.
pub struct CommandModel {
    pub dir: Seq<u8>,
    pub args: Seq<Seq<u8>>,
    pub envs: Seq<(Seq<u8>, Seq<u8>)>,
    pub stdin: Option<Seq<u8>>,
}

impl Model for Command {
    type M = CommandModel;

    open spec fn model(&self) -> CommandModel {
        CommandModel {
            dir: self.dir@,
            args: self.args.model(),
            envs: self.envs.model(),
            stdin: self.stdin.model(),
        }
    }
}

/// A commit to be made.
#[derive(Debug, PartialEq, Eq)]
pub struct NewCommit {
    /// The reference that is to point at the commit.
    pub update_ref: Option<String>,
    /// Author and committer.
    pub identity: Identity,
    pub message: String,
    pub tree: Oid,
    pub parents: Vec<Oid>,
}

/// What a `NewCommit` stands for.
pub struct NewCommitModel {
    pub update_ref: Option<Seq<char>>,
    pub identity: Identity,
    pub message: Seq<char>,
    pub tree: Seq<u8>,
    pub parents: Seq<Seq<u8>>,
}

impl Model for NewCommit {
    type M = NewCommitModel;

    open spec fn model(&self) -> NewCommitModel {
        NewCommitModel {
            update_ref: self.update_ref.model(),
            identity: self.identity,
            message: self.message@,
            tree: self.tree@,
            parents: self.parents.model(),
        }
    }
}

/// A reference and where it is to point.
#[derive(Debug, PartialEq, Eq)]
pub struct RefUpdate {
    pub refname: String,
    pub target: Oid,
    /// Whether a reference that exists is to be overwritten.
    pub force: bool,
    /// The line for the log of the reference.
    pub log: String,
}

/// What a `RefUpdate` stands for.
pub struct RefUpdateModel {
    pub refname: Seq<char>,
    pub target: Seq<u8>,
    pub force: bool,
    pub log: Seq<char>,
}

impl Model for RefUpdate {
    type M = RefUpdateModel;

    open spec fn model(&self) -> RefUpdateModel {
        RefUpdateModel {
            refname: self.refname@,
            target: self.target@,
            force: self.force,
            log: self.log@,
        }
    }
}

/// Two trees to be compared, the paths that the comparison is limited to, and what it looks for.
#[derive(Debug, PartialEq, Eq)]
pub struct TreeDiff {
    pub old_tree: Oid,
    pub new_tree: Oid,
    pub pathspecs: Vec<String>,
    /// Whether a change of a file's type is reported as such.
    pub typechanges: bool,
    /// Whether renames are searched for.
    pub renames: bool,
}

/// What a `TreeDiff` stands for.
pub struct TreeDiffModel {
    pub old_tree: Seq<u8>,
    pub new_tree: Seq<u8>,
    pub pathspecs: Seq<Seq<char>>,
    pub typechanges: bool,
    pub renames: bool,
}

impl Model for TreeDiff {
    type M = TreeDiffModel;

    open spec fn model(&self) -> TreeDiffModel {
        TreeDiffModel {
            old_tree: self.old_tree@,
            new_tree: self.new_tree@,
            pathspecs: self.pathspecs.model(),
            typechanges: self.typechanges,
            renames: self.renames,
        }
    }
}

/// How two commits are merged in memory.
#[derive(Debug, Clone, Copy, PartialEq, Eq, Structural)]
pub struct MergeSettings {
    /// Whether renames are searched for.
    pub renames: bool,
    /// Whether a conflict ends the merge at once.
    pub fail_on_conflict: bool,
}

impl Model for MergeSettings {
    type M = MergeSettings;

    open spec fn model(&self) -> MergeSettings {
        *self
    }
}

/// Which files a status tells of, besides the tracked ones.
#[derive(Debug, Clone, Copy, PartialEq, Eq, Structural)]
pub struct StatusScope {
    pub untracked: bool,
    pub ignored: bool,
}

impl Model for StatusScope {
    type M = StatusScope;

    open spec fn model(&self) -> StatusScope {
        *self
    }
}

/// In which order commits are walked.
#[derive(Debug, Clone, Copy, PartialEq, Eq, Structural)]
pub enum WalkOrder {
    /// In no order of their own.
    Unsorted,
    /// By the time of the commit, latest first.
    ByTime,
}

impl Model for WalkOrder {
    type M = WalkOrder;

    open spec fn model(&self) -> WalkOrder {
        *self
    }
}

/// Something that only the outside world can do. Where the first part is a path, and the request
/// is not about that path itself, it is the path of the repository.
#[derive(Debug, PartialEq, Eq)]
pub enum Request {
    /// Run `git --version`.
    Version,
    /// Run `git` with these arguments.
    Run(Command),
    /// Make a temporary directory and name a file in it for an index.
    TempIndex,
    /// Whether something exists at this path.
    PathExists(RawText),
    /// Whether something exists at the second path, which starts at the first where it is relative.
    PathExistsIn(RawText, RawText),
    /// Create this directory and those above it.
    CreateDirs(RawText),
    /// The home directory.
    HomeDir,
    /// Whether the SSH agent has a key for this user.
    AgentKey(String),
    /// Open the repository at this path.
    OpenRepo(RawText),
    /// Make a repository at this path, with this branch as its initial head, and say whether
    /// missing directories are made for it.
    InitRepo(RawText, String, bool),
    /// Clone from this URL into this path, with this access token where there is one.
    CloneRepo(String, RawText, Option<String>),
    /// Open the configuration of a repository.
    OpenConfig(RawText),
    /// Whether the configuration has this key.
    ConfigHas(RawText, String),
    /// Set a key of the configuration.
    ConfigSet(RawText, String, String),
    /// Get the configured signature of a repository.
    Signature(RawText),
    /// Make a signature of this name and address, as of now.
    NewSignature(String, String),
    /// The names of the remotes of a repository.
    RemoteNames(RawText),
    /// Find a remote by its name.
    FindRemote(RawText, String),
    /// The name of the remote that a branch reference belongs to.
    BranchRemoteName(RawText, String),
    /// The path of the repository's own directory.
    GitDir(RawText),
    /// The path of the repository's working directory.
    Workdir(RawText),
    /// How many branches there are.
    CountBranches(RawText),
    /// Find a branch by its name.
    FindBranch(RawText, String, BranchType),
    /// Find the upstream of a local branch.
    Upstream(RawText, String),
    /// The commit that a branch leads to.
    PeelBranch(RawText, String, BranchType),
    /// Give a local branch another name, and say whether a branch of that name is overwritten.
    RenameBranch(RawText, String, String, bool),
    /// Set the upstream of a branch.
    SetUpstream(RawText, String, BranchType, String),
    /// All branches of one kind.
    ListBranches(RawText, BranchType),
    /// Where HEAD points.
    Head(RawText),
    /// The commit that HEAD leads to.
    HeadCommit(RawText),
    /// Let HEAD point at a reference.
    SetHead(RawText, String),
    /// The status of the files in this scope.
    Statuses(RawText, StatusScope),
    /// How many commits the first is ahead of and behind the second.
    AheadBehind(RawText, Oid, Oid),
    /// The merge base of two commits.
    MergeBase(RawText, Oid, Oid),
    /// Find a commit.
    FindCommit(RawText, Oid),
    /// The first parent of a commit.
    ParentOf(RawText, Oid),
    /// The tree of a commit.
    TreeOf(RawText, Oid),
    /// Find a tree.
    FindTree(RawText, Oid),
    /// Write the tree without entries.
    EmptyTree(RawText),
    /// Make a commit.
    CreateCommit(RawText, NewCommit),
    /// Let a reference point at an object.
    UpdateReference(RawText, RefUpdate),
    /// Merge two commits in memory.
    MergeCommits(RawText, Oid, Oid, MergeSettings),
    /// Write the tree that merging two commits in memory gave.
    WriteMergedTree(RawText, Oid, Oid, MergeSettings),
    /// Compare two trees.
    DiffTrees(RawText, TreeDiff),
    /// Find a blob.
    FindBlob(RawText, Oid),
    /// Find the entry of a tree at a path.
    FindEntry(RawText, Oid, RawText),
    /// The size of the file at a path below a directory.
    FileSize(RawText, RawText),
    /// The bytes of the file at a path below a directory.
    ReadFile(RawText, RawText),
    /// How many lines were added and deleted between two texts.
    CountLineChanges(String, String),
    /// The GitHub repository that a URL names.
    ParseRemoteUrl(String),
    /// Up to so many commits from HEAD, in this order.
    Walk(RawText, WalkOrder, usize),
    /// The files that differ between two trees, without a search for renames; between no files and
    /// a tree where there is no first tree.
    ChangedFiles(RawText, Option<Oid>, Oid),
}

/// What a `Request` stands for.
pub enum RequestModel {
    Version,
    Run(CommandModel),
    TempIndex,
    PathExists(Seq<u8>),
    PathExistsIn(Seq<u8>, Seq<u8>),
    CreateDirs(Seq<u8>),
    HomeDir,
    AgentKey(Seq<char>),
    OpenRepo(Seq<u8>),
    InitRepo(Seq<u8>, Seq<char>, bool),
    CloneRepo(Seq<char>, Seq<u8>, Option<Seq<char>>),
    OpenConfig(Seq<u8>),
    ConfigHas(Seq<u8>, Seq<char>),
    ConfigSet(Seq<u8>, Seq<char>, Seq<char>),
    Signature(Seq<u8>),
    NewSignature(Seq<char>, Seq<char>),
    RemoteNames(Seq<u8>),
    FindRemote(Seq<u8>, Seq<char>),
    BranchRemoteName(Seq<u8>, Seq<char>),
    GitDir(Seq<u8>),
    Workdir(Seq<u8>),
    CountBranches(Seq<u8>),
    FindBranch(Seq<u8>, Seq<char>, BranchType),
    Upstream(Seq<u8>, Seq<char>),
    PeelBranch(Seq<u8>, Seq<char>, BranchType),
    RenameBranch(Seq<u8>, Seq<char>, Seq<char>, bool),
    SetUpstream(Seq<u8>, Seq<char>, BranchType, Seq<char>),
    ListBranches(Seq<u8>, BranchType),
    Head(Seq<u8>),
    HeadCommit(Seq<u8>),
    SetHead(Seq<u8>, Seq<char>),
    Statuses(Seq<u8>, StatusScope),
    AheadBehind(Seq<u8>, Seq<u8>, Seq<u8>),
    MergeBase(Seq<u8>, Seq<u8>, Seq<u8>),
    FindCommit(Seq<u8>, Seq<u8>),
    ParentOf(Seq<u8>, Seq<u8>),
    TreeOf(Seq<u8>, Seq<u8>),
    FindTree(Seq<u8>, Seq<u8>),
    EmptyTree(Seq<u8>),
    CreateCommit(Seq<u8>, NewCommitModel),
    UpdateReference(Seq<u8>, RefUpdateModel),
    MergeCommits(Seq<u8>, Seq<u8>, Seq<u8>, MergeSettings),
    WriteMergedTree(Seq<u8>, Seq<u8>, Seq<u8>, MergeSettings),
    DiffTrees(Seq<u8>, TreeDiffModel),
    FindBlob(Seq<u8>, Seq<u8>),
    FindEntry(Seq<u8>, Seq<u8>, Seq<u8>),
    FileSize(Seq<u8>, Seq<u8>),
    ReadFile(Seq<u8>, Seq<u8>),
    CountLineChanges(Seq<char>, Seq<char>),
    ParseRemoteUrl(Seq<char>),
    Walk(Seq<u8>, WalkOrder, int),
    ChangedFiles(Seq<u8>, Option<Seq<u8>>, Seq<u8>),
}

impl Model for Request {
    type M = RequestModel;

    open spec fn model(&self) -> RequestModel {
        match self {
            Request::Version => RequestModel::Version,
            Request::Run(a) => RequestModel::Run(a.model()),
            Request::TempIndex => RequestModel::TempIndex,
            Request::PathExists(a) => RequestModel::PathExists(a.model()),
            Request::PathExistsIn(a, b) => RequestModel::PathExistsIn(a.model(), b.model()),
            Request::CreateDirs(a) => RequestModel::CreateDirs(a.model()),
            Request::HomeDir => RequestModel::HomeDir,
            Request::AgentKey(a) => RequestModel::AgentKey(a.model()),
            Request::OpenRepo(a) => RequestModel::OpenRepo(a.model()),
            Request::InitRepo(a, b, c) => RequestModel::InitRepo(a.model(), b.model(), c.model()),
            Request::CloneRepo(a, b, c) => RequestModel::CloneRepo(a.model(), b.model(), c.model()),
            Request::OpenConfig(a) => RequestModel::OpenConfig(a.model()),
            Request::ConfigHas(a, b) => RequestModel::ConfigHas(a.model(), b.model()),
            Request::ConfigSet(a, b, c) => RequestModel::ConfigSet(a.model(), b.model(), c.model()),
            Request::Signature(a) => RequestModel::Signature(a.model()),
            Request::NewSignature(a, b) => RequestModel::NewSignature(a.model(), b.model()),
            Request::RemoteNames(a) => RequestModel::RemoteNames(a.model()),
            Request::FindRemote(a, b) => RequestModel::FindRemote(a.model(), b.model()),
            Request::BranchRemoteName(a, b) => RequestModel::BranchRemoteName(a.model(), b.model()),
            Request::GitDir(a) => RequestModel::GitDir(a.model()),
            Request::Workdir(a) => RequestModel::Workdir(a.model()),
            Request::CountBranches(a) => RequestModel::CountBranches(a.model()),
            Request::FindBranch(a, b, c) => RequestModel::FindBranch(
                a.model(),
                b.model(),
                c.model(),
            ),
            Request::Upstream(a, b) => RequestModel::Upstream(a.model(), b.model()),
            Request::PeelBranch(a, b, c) => RequestModel::PeelBranch(
                a.model(),
                b.model(),
                c.model(),
            ),
            Request::RenameBranch(a, b, c, d) => RequestModel::RenameBranch(
                a.model(),
                b.model(),
                c.model(),
                d.model(),
            ),
            Request::SetUpstream(a, b, c, d) => RequestModel::SetUpstream(
                a.model(),
                b.model(),
                c.model(),
                d.model(),
            ),
            Request::ListBranches(a, b) => RequestModel::ListBranches(a.model(), b.model()),
            Request::Head(a) => RequestModel::Head(a.model()),
            Request::HeadCommit(a) => RequestModel::HeadCommit(a.model()),
            Request::SetHead(a, b) => RequestModel::SetHead(a.model(), b.model()),
            Request::Statuses(a, b) => RequestModel::Statuses(a.model(), b.model()),
            Request::AheadBehind(a, b, c) => RequestModel::AheadBehind(
                a.model(),
                b.model(),
                c.model(),
            ),
            Request::MergeBase(a, b, c) => RequestModel::MergeBase(a.model(), b.model(), c.model()),
            Request::FindCommit(a, b) => RequestModel::FindCommit(a.model(), b.model()),
            Request::ParentOf(a, b) => RequestModel::ParentOf(a.model(), b.model()),
            Request::TreeOf(a, b) => RequestModel::TreeOf(a.model(), b.model()),
            Request::FindTree(a, b) => RequestModel::FindTree(a.model(), b.model()),
            Request::EmptyTree(a) => RequestModel::EmptyTree(a.model()),
            Request::CreateCommit(a, b) => RequestModel::CreateCommit(a.model(), b.model()),
            Request::UpdateReference(a, b) => RequestModel::UpdateReference(a.model(), b.model()),
            Request::MergeCommits(a, b, c, d) => RequestModel::MergeCommits(
                a.model(),
                b.model(),
                c.model(),
                d.model(),
            ),
            Request::WriteMergedTree(a, b, c, d) => RequestModel::WriteMergedTree(
                a.model(),
                b.model(),
                c.model(),
                d.model(),
            ),
            Request::DiffTrees(a, b) => RequestModel::DiffTrees(a.model(), b.model()),
            Request::FindBlob(a, b) => RequestModel::FindBlob(a.model(), b.model()),
            Request::FindEntry(a, b, c) => RequestModel::FindEntry(a.model(), b.model(), c.model()),
            Request::FileSize(a, b) => RequestModel::FileSize(a.model(), b.model()),
            Request::ReadFile(a, b) => RequestModel::ReadFile(a.model(), b.model()),
            Request::CountLineChanges(a, b) => RequestModel::CountLineChanges(a.model(), b.model()),
            Request::ParseRemoteUrl(a) => RequestModel::ParseRemoteUrl(a.model()),
            Request::Walk(a, b, c) => RequestModel::Walk(a.model(), b.model(), c.model()),
            Request::ChangedFiles(a, b, c) => RequestModel::ChangedFiles(
                a.model(),
                b.model(),
                c.model(),
            ),
        }
    }
}

// ---------------------------------------------------------------------------
// Replies
// ---------------------------------------------------------------------------

/// What the outside world answers to a request.
#[derive(Debug, PartialEq, Eq)]
pub enum Reply {
    /// How `git --version` went.
    Version(VersionReport),
    /// How a command went.
    Ran(RunReport),
    /// The path for an index, or why there is none.
    TempIndex(Result<RawText, String>),
    /// Yes or no.
    Flag(bool),
    /// Done, or the message of the failure.
    Io(Result<(), String>),
    /// Done, or libgit2's failure.
    Unit(Result<(), GitError>),
    /// An object.
    Id(Result<Oid, GitError>),
    /// A number.
    Count(Result<usize, GitError>),
    /// Two numbers.
    Counts(Result<(usize, usize), GitError>),
    /// Names; none for one that is not text.
    Names(Result<Vec<Option<String>>, GitError>),
    /// A remote.
    Remote(Result<RemoteInfo, GitError>),
    /// Some bytes.
    Bytes(Result<RawText, GitError>),
    /// Some bytes, where there are any: a path, or the content of a file.
    Found(Option<RawText>),
    /// A branch.
    Branch(Result<BranchInfo, GitError>),
    /// All branches of one kind, each of them or the failure to read it.
    Branches(Result<Vec<Result<BranchRecord, GitError>>, GitError>),
    /// Where HEAD points.
    Head(Result<HeadRef, GitError>),
    /// The status of files.
    Statuses(Result<Vec<StatusRecord>, GitError>),
    /// A commit.
    Commit(Result<CommitInfo, GitError>),
    /// Whether a merge left conflicts.
    Merged(Result<bool, GitError>),
    /// The changes between two trees.
    Deltas(Result<DiffRecord, GitError>),
    /// A blob, where there is one.
    Blob(Option<BlobRecord>),
    /// An entry of a tree, where there is one.
    Entry(Option<TreeEntry>),
    /// A size, where it could be read.
    Size(Option<u64>),
    /// Lines added and lines deleted.
    LineCounts(LineCounts),
    /// A repository on GitHub, or why the URL names none.
    RepoInfo(Result<GitHubRepoInfo, String>),
    /// Commits, each of them or the failure to go on to it.
    Ids(Result<Vec<Result<Oid, GitError>>, GitError>),
    /// The paths of files that differ.
    Paths(Result<Vec<ChangedPaths>, GitError>),
}

// ---------------------------------------------------------------------------
// Turns
// ---------------------------------------------------------------------------

/// Why an operation did not come to a value.
#[derive(Debug, PartialEq, Eq)]
pub enum Interrupt<E> {
    /// The record ends here: this request is to be performed.
    Ask(Request),
    /// The record holds a reply that does not answer the request it stands for.
    OutOfStep,
    /// The operation failed.
    Failed(E),
}

/// How an operation stands after a record of replies.
pub enum Turn<A, E> {
    /// It came to a value, with the record read up to a position.
    Done(A, int),
    /// It failed, with the record read up to a position.
    Failed(E, int),
    /// It asks for this request, with all of the record read.
    Ask(RequestModel),
    /// The record holds a reply of the wrong kind.
    OutOfStep,
}

/// The record of replies, and how far an operation has read it.
pub struct Dialogue<'a> {
    replies: &'a Vec<Reply>,
    next: usize,
}

impl<'a> Dialogue<'a> {
    /// All replies of the record.
    pub closed spec fn record(&self) -> Seq<Reply> {
        self.replies@
    }

    /// The position up to which the record was read.
    pub closed spec fn at(&self) -> int {
        self.next as int
    }

    /// A record, of which nothing was read.
    pub fn new(replies: &'a Vec<Reply>) -> (r: Dialogue<'a>)
        ensures
            r.record() == replies@,
            r.at() == 0,
    {
        Dialogue { replies, next: 0 }
    }
}

/// How an operation stands that returned `r` and left the record read as `io` says.
pub open spec fn turn<T: Model, E: Model>(
    r: Result<T, Interrupt<E>>,
    io: &Dialogue,
) -> Turn<T::M, E::M> {
    match r {
        Ok(t) => Turn::Done(t.model(), io.at()),
        Err(Interrupt::Failed(e)) => Turn::Failed(e.model(), io.at()),
        Err(Interrupt::Ask(q)) => Turn::Ask(q.model()),
        Err(Interrupt::OutOfStep) => Turn::OutOfStep,
    }
}

/// The same where what is returned is a reference to a part of the record.
pub open spec fn turn_ref<T, E: Model>(
    r: Result<&T, Interrupt<E>>,
    io: &Dialogue,
) -> Turn<T, E::M> {
    match r {
        Ok(t) => Turn::Done(*t, io.at()),
        Err(Interrupt::Failed(e)) => Turn::Failed(e.model(), io.at()),
        Err(Interrupt::Ask(q)) => Turn::Ask(q.model()),
        Err(Interrupt::OutOfStep) => Turn::OutOfStep,
    }
}

/// First `t`; where it comes to a value, what `f` makes of that value from there on.
pub open spec fn and_then<A, B, E>(t: Turn<A, E>, f: spec_fn(A, int) -> Turn<B, E>) -> Turn<B, E> {
    match t {
        Turn::Done(a, n) => f(a, n),
        Turn::Failed(e, n) => Turn::Failed(e, n),
        Turn::Ask(q) => Turn::Ask(q),
        Turn::OutOfStep => Turn::OutOfStep,
    }
}

/// `t` with its failure taken as a value: what follows goes on either way.
pub open spec fn settled<A, E, F>(t: Turn<A, E>) -> Turn<Result<A, E>, F> {
    match t {
        Turn::Done(a, n) => Turn::Done(Ok(a), n),
        Turn::Failed(e, n) => Turn::Done(Err(e), n),
        Turn::Ask(q) => Turn::Ask(q),
        Turn::OutOfStep => Turn::OutOfStep,
    }
}

/// `t` with its failure told in other words.
pub open spec fn refailed<A, E, F>(t: Turn<A, E>, f: spec_fn(E) -> F) -> Turn<A, F> {
    match t {
        Turn::Done(a, n) => Turn::Done(a, n),
        Turn::Failed(e, n) => Turn::Failed(f(e), n),
        Turn::Ask(q) => Turn::Ask(q),
        Turn::OutOfStep => Turn::OutOfStep,
    }
}

/// `t` with a failure of the `git` command passed on as it is.
pub open spec fn passed_on<A>(t: Turn<A, CliErrorModel>) -> Turn<A, ServiceErrorModel> {
    refailed(t, |e: CliErrorModel| ServiceErrorModel::GitCLI(e))
}

/// `t` with a failure of the `git` command told as an invalid repository, after some words.
pub open spec fn explained<A>(t: Turn<A, CliErrorModel>, words: Seq<char>) -> Turn<
    A,
    ServiceErrorModel,
> {
    refailed(t, |e: CliErrorModel| ServiceErrorModel::InvalidRepository(words + cli_error_text(e)))
}

/// `t` with a failure of the `git` command told as an invalid repository.
pub open spec fn told<A>(t: Turn<A, CliErrorModel>) -> Turn<A, ServiceErrorModel> {
    refailed(t, |e: CliErrorModel| ServiceErrorModel::InvalidRepository(cli_error_text(e)))
}

/// The value that libgit2 gave, or its failure passed on as it is.
pub open spec fn accepted<T>(t: Turn<Result<T, GitError>, ServiceErrorModel>) -> Turn<
    T,
    ServiceErrorModel,
> {
    and_then(
        t,
        |r: Result<T, GitError>, n: int|
            match r {
                Ok(v) => Turn::Done(v, n),
                Err(e) => Turn::Failed(ServiceErrorModel::Git(e.model()), n),
            },
    )
}

/// The value that libgit2 gave, or its failure, for an operation that can only fail so.
pub open spec fn granted<T>(t: Turn<Result<T, GitError>, GitErrorModel>) -> Turn<
    T,
    GitErrorModel,
> {
    and_then(
        t,
        |r: Result<T, GitError>, n: int|
            match r {
                Ok(v) => Turn::Done(v, n),
                Err(e) => Turn::Failed(e.model(), n),
            },
    )
}

/// The reply at a position of a record, or the request where the record ends there.
pub open spec fn heard<E>(q: RequestModel, h: Seq<Reply>, at: int) -> Turn<Reply, E> {
    if 0 <= at < h.len() {
        Turn::Done(h[at], at + 1)
    } else {
        Turn::Ask(q)
    }
}

/// `settled`, on what an operation returned.
pub fn settle<T: Model, E: Model, F: Model>(r: Result<T, Interrupt<E>>) -> (s: Result<
    Result<T, E>,
    Interrupt<F>,
>)
    ensures
        forall|io: &Dialogue|
            turn::<Result<T, E>, F>(s, io) == settled::<T::M, E::M, F::M>(#[trigger] turn(r, io)),
{
    match r {
        Ok(t) => Ok(Ok(t)),
        Err(Interrupt::Failed(e)) => Ok(Err(e)),
        Err(Interrupt::Ask(q)) => Err(Interrupt::Ask(q)),
        Err(Interrupt::OutOfStep) => Err(Interrupt::OutOfStep),
    }
}

/// `passed_on`, on what an operation returned.
pub fn pass_on<T: Model>(r: Result<T, Interrupt<GitCliError>>) -> (s: Result<
    T,
    Interrupt<GitServiceError>,
>)
    ensures
        forall|io: &Dialogue| turn(s, io) == passed_on(#[trigger] turn(r, io)),
{
    match r {
        Ok(t) => Ok(t),
        Err(Interrupt::Failed(e)) => Err(Interrupt::Failed(GitServiceError::GitCLI(e))),
        Err(Interrupt::Ask(q)) => Err(Interrupt::Ask(q)),
        Err(Interrupt::OutOfStep) => Err(Interrupt::OutOfStep),
    }
}

/// `explained`, on what an operation returned.
pub fn explain<T: Model>(r: Result<T, Interrupt<GitCliError>>, words: &str) -> (s: Result<
    T,
    Interrupt<GitServiceError>,
>)
    ensures
        forall|io: &Dialogue| turn(s, io) == explained(#[trigger] turn(r, io), words@),
{
    match r {
        Ok(t) => Ok(t),
        Err(Interrupt::Failed(e)) => {
            let told: String = cat(words, e.to_text().as_str());
            Err(Interrupt::Failed(GitServiceError::InvalidRepository(told)))
        },
        Err(Interrupt::Ask(q)) => Err(Interrupt::Ask(q)),
        Err(Interrupt::OutOfStep) => Err(Interrupt::OutOfStep),
    }
}

/// `told`, on what an operation returned.
pub fn tell<T: Model>(r: Result<T, Interrupt<GitCliError>>) -> (s: Result<
    T,
    Interrupt<GitServiceError>,
>)
    ensures
        forall|io: &Dialogue| turn(s, io) == told(#[trigger] turn(r, io)),
{
    match r {
        Ok(t) => Ok(t),
        Err(Interrupt::Failed(e)) => Err(
            Interrupt::Failed(GitServiceError::InvalidRepository(e.to_text())),
        ),
        Err(Interrupt::Ask(q)) => Err(Interrupt::Ask(q)),
        Err(Interrupt::OutOfStep) => Err(Interrupt::OutOfStep),
    }
}

/// `accepted`, on what was read from the record.
pub fn accept<'a, T>(r: Result<&'a Result<T, GitError>, Interrupt<GitServiceError>>) -> (s: Result<
    &'a T,
    Interrupt<GitServiceError>,
>)
    ensures
        forall|io: &Dialogue| turn_ref(s, io) == accepted(#[trigger] turn_ref(r, io)),
{
    match r {
        Ok(Ok(t)) => Ok(t),
        Ok(Err(e)) => Err(Interrupt::Failed(GitServiceError::Git(e.copy()))),
        Err(Interrupt::Failed(e)) => Err(Interrupt::Failed(e)),
        Err(Interrupt::Ask(q)) => Err(Interrupt::Ask(q)),
        Err(Interrupt::OutOfStep) => Err(Interrupt::OutOfStep),
    }
}

/// `granted`, on what was read from the record.
pub fn grant<'a, T>(r: Result<&'a Result<T, GitError>, Interrupt<GitError>>) -> (s: Result<
    &'a T,
    Interrupt<GitError>,
>)
    ensures
        forall|io: &Dialogue| turn_ref(s, io) == granted(#[trigger] turn_ref(r, io)),
{
    match r {
        Ok(Ok(t)) => Ok(t),
        Ok(Err(e)) => Err(Interrupt::Failed(e.copy())),
        Err(Interrupt::Failed(e)) => Err(Interrupt::Failed(e)),
        Err(Interrupt::Ask(q)) => Err(Interrupt::Ask(q)),
        Err(Interrupt::OutOfStep) => Err(Interrupt::OutOfStep),
    }
}

// ---------------------------------------------------------------------------
// Reading the record
// ---------------------------------------------------------------------------

/// The reply of kind `Version` to a request.
pub open spec fn version_turn<E>(q: RequestModel, h: Seq<Reply>, at: int) -> Turn<
    VersionReport,
    E,
> {
    and_then(
        heard(q, h, at),
        |reply: Reply, n: int|
            match reply {
                Reply::Version(v) => Turn::Done(v, n),
                _ => Turn::OutOfStep,
            },
    )
}

/// The reply of kind `Ran` to a request.
pub open spec fn ran_turn<E>(q: RequestModel, h: Seq<Reply>, at: int) -> Turn<
    RunReport,
    E,
> {
    and_then(
        heard(q, h, at),
        |reply: Reply, n: int|
            match reply {
                Reply::Ran(v) => Turn::Done(v, n),
                _ => Turn::OutOfStep,
            },
    )
}

/// The reply of kind `TempIndex` to a request.
pub open spec fn temp_index_turn<E>(q: RequestModel, h: Seq<Reply>, at: int) -> Turn<
    Result<RawText, String>,
    E,
> {
    and_then(
        heard(q, h, at),
        |reply: Reply, n: int|
            match reply {
                Reply::TempIndex(v) => Turn::Done(v, n),
                _ => Turn::OutOfStep,
            },
    )
}

/// The reply of kind `Flag` to a request.
pub open spec fn flag_turn<E>(q: RequestModel, h: Seq<Reply>, at: int) -> Turn<
    bool,
    E,
> {
    and_then(
        heard(q, h, at),
        |reply: Reply, n: int|
            match reply {
                Reply::Flag(v) => Turn::Done(v, n),
                _ => Turn::OutOfStep,
            },
    )
}

/// The reply of kind `Io` to a request.
pub open spec fn io_done_turn<E>(q: RequestModel, h: Seq<Reply>, at: int) -> Turn<
    Result<(), String>,
    E,
> {
    and_then(
        heard(q, h, at),
        |reply: Reply, n: int|
            match reply {
                Reply::Io(v) => Turn::Done(v, n),
                _ => Turn::OutOfStep,
            },
    )
}

/// The reply of kind `Unit` to a request.
pub open spec fn unit_turn<E>(q: RequestModel, h: Seq<Reply>, at: int) -> Turn<
    Result<(), GitError>,
    E,
> {
    and_then(
        heard(q, h, at),
        |reply: Reply, n: int|
            match reply {
                Reply::Unit(v) => Turn::Done(v, n),
                _ => Turn::OutOfStep,
            },
    )
}

/// The reply of kind `Id` to a request.
pub open spec fn id_turn<E>(q: RequestModel, h: Seq<Reply>, at: int) -> Turn<
    Result<Oid, GitError>,
    E,
> {
    and_then(
        heard(q, h, at),
        |reply: Reply, n: int|
            match reply {
                Reply::Id(v) => Turn::Done(v, n),
                _ => Turn::OutOfStep,
            },
    )
}

/// The reply of kind `Count` to a request.
pub open spec fn count_turn<E>(q: RequestModel, h: Seq<Reply>, at: int) -> Turn<
    Result<usize, GitError>,
    E,
> {
    and_then(
        heard(q, h, at),
        |reply: Reply, n: int|
            match reply {
                Reply::Count(v) => Turn::Done(v, n),
                _ => Turn::OutOfStep,
            },
    )
}

/// The reply of kind `Counts` to a request.
pub open spec fn counts_turn<E>(q: RequestModel, h: Seq<Reply>, at: int) -> Turn<
    Result<(usize, usize), GitError>,
    E,
> {
    and_then(
        heard(q, h, at),
        |reply: Reply, n: int|
            match reply {
                Reply::Counts(v) => Turn::Done(v, n),
                _ => Turn::OutOfStep,
            },
    )
}

/// The reply of kind `Names` to a request.
pub open spec fn names_turn<E>(q: RequestModel, h: Seq<Reply>, at: int) -> Turn<
    Result<Vec<Option<String>>, GitError>,
    E,
> {
    and_then(
        heard(q, h, at),
        |reply: Reply, n: int|
            match reply {
                Reply::Names(v) => Turn::Done(v, n),
                _ => Turn::OutOfStep,
            },
    )
}

/// The reply of kind `Remote` to a request.
pub open spec fn remote_turn<E>(q: RequestModel, h: Seq<Reply>, at: int) -> Turn<
    Result<RemoteInfo, GitError>,
    E,
> {
    and_then(
        heard(q, h, at),
        |reply: Reply, n: int|
            match reply {
                Reply::Remote(v) => Turn::Done(v, n),
                _ => Turn::OutOfStep,
            },
    )
}

/// The reply of kind `Bytes` to a request.
pub open spec fn bytes_turn<E>(q: RequestModel, h: Seq<Reply>, at: int) -> Turn<
    Result<RawText, GitError>,
    E,
> {
    and_then(
        heard(q, h, at),
        |reply: Reply, n: int|
            match reply {
                Reply::Bytes(v) => Turn::Done(v, n),
                _ => Turn::OutOfStep,
            },
    )
}

/// The reply of kind `Found` to a request.
pub open spec fn found_turn<E>(q: RequestModel, h: Seq<Reply>, at: int) -> Turn<
    Option<RawText>,
    E,
> {
    and_then(
        heard(q, h, at),
        |reply: Reply, n: int|
            match reply {
                Reply::Found(v) => Turn::Done(v, n),
                _ => Turn::OutOfStep,
            },
    )
}

/// The reply of kind `Branch` to a request.
pub open spec fn branch_turn<E>(q: RequestModel, h: Seq<Reply>, at: int) -> Turn<
    Result<BranchInfo, GitError>,
    E,
> {
    and_then(
        heard(q, h, at),
        |reply: Reply, n: int|
            match reply {
                Reply::Branch(v) => Turn::Done(v, n),
                _ => Turn::OutOfStep,
            },
    )
}

/// The reply of kind `Branches` to a request.
pub open spec fn branches_turn<E>(q: RequestModel, h: Seq<Reply>, at: int) -> Turn<
    Result<Vec<Result<BranchRecord, GitError>>, GitError>,
    E,
> {
    and_then(
        heard(q, h, at),
        |reply: Reply, n: int|
            match reply {
                Reply::Branches(v) => Turn::Done(v, n),
                _ => Turn::OutOfStep,
            },
    )
}

/// The reply of kind `Head` to a request.
pub open spec fn head_turn<E>(q: RequestModel, h: Seq<Reply>, at: int) -> Turn<
    Result<HeadRef, GitError>,
    E,
> {
    and_then(
        heard(q, h, at),
        |reply: Reply, n: int|
            match reply {
                Reply::Head(v) => Turn::Done(v, n),
                _ => Turn::OutOfStep,
            },
    )
}

/// The reply of kind `Statuses` to a request.
pub open spec fn statuses_turn<E>(q: RequestModel, h: Seq<Reply>, at: int) -> Turn<
    Result<Vec<StatusRecord>, GitError>,
    E,
> {
    and_then(
        heard(q, h, at),
        |reply: Reply, n: int|
            match reply {
                Reply::Statuses(v) => Turn::Done(v, n),
                _ => Turn::OutOfStep,
            },
    )
}

/// The reply of kind `Commit` to a request.
pub open spec fn commit_turn<E>(q: RequestModel, h: Seq<Reply>, at: int) -> Turn<
    Result<CommitInfo, GitError>,
    E,
> {
    and_then(
        heard(q, h, at),
        |reply: Reply, n: int|
            match reply {
                Reply::Commit(v) => Turn::Done(v, n),
                _ => Turn::OutOfStep,
            },
    )
}

/// The reply of kind `Merged` to a request.
pub open spec fn merged_turn<E>(q: RequestModel, h: Seq<Reply>, at: int) -> Turn<
    Result<bool, GitError>,
    E,
> {
    and_then(
        heard(q, h, at),
        |reply: Reply, n: int|
            match reply {
                Reply::Merged(v) => Turn::Done(v, n),
                _ => Turn::OutOfStep,
            },
    )
}

/// The reply of kind `Deltas` to a request.
pub open spec fn deltas_turn<E>(q: RequestModel, h: Seq<Reply>, at: int) -> Turn<
    Result<DiffRecord, GitError>,
    E,
> {
    and_then(
        heard(q, h, at),
        |reply: Reply, n: int|
            match reply {
                Reply::Deltas(v) => Turn::Done(v, n),
                _ => Turn::OutOfStep,
            },
    )
}

/// The reply of kind `Blob` to a request.
pub open spec fn blob_turn<E>(q: RequestModel, h: Seq<Reply>, at: int) -> Turn<
    Option<BlobRecord>,
    E,
> {
    and_then(
        heard(q, h, at),
        |reply: Reply, n: int|
            match reply {
                Reply::Blob(v) => Turn::Done(v, n),
                _ => Turn::OutOfStep,
            },
    )
}

/// The reply of kind `Entry` to a request.
pub open spec fn entry_turn<E>(q: RequestModel, h: Seq<Reply>, at: int) -> Turn<
    Option<TreeEntry>,
    E,
> {
    and_then(
        heard(q, h, at),
        |reply: Reply, n: int|
            match reply {
                Reply::Entry(v) => Turn::Done(v, n),
                _ => Turn::OutOfStep,
            },
    )
}

/// The reply of kind `Size` to a request.
pub open spec fn size_turn<E>(q: RequestModel, h: Seq<Reply>, at: int) -> Turn<
    Option<u64>,
    E,
> {
    and_then(
        heard(q, h, at),
        |reply: Reply, n: int|
            match reply {
                Reply::Size(v) => Turn::Done(v, n),
                _ => Turn::OutOfStep,
            },
    )
}

/// The reply of kind `LineCounts` to a request.
pub open spec fn line_counts_turn<E>(q: RequestModel, h: Seq<Reply>, at: int) -> Turn<
    LineCounts,
    E,
> {
    and_then(
        heard(q, h, at),
        |reply: Reply, n: int|
            match reply {
                Reply::LineCounts(v) => Turn::Done(v, n),
                _ => Turn::OutOfStep,
            },
    )
}

/// The reply of kind `RepoInfo` to a request.
pub open spec fn repo_info_turn<E>(q: RequestModel, h: Seq<Reply>, at: int) -> Turn<
    Result<GitHubRepoInfo, String>,
    E,
> {
    and_then(
        heard(q, h, at),
        |reply: Reply, n: int|
            match reply {
                Reply::RepoInfo(v) => Turn::Done(v, n),
                _ => Turn::OutOfStep,
            },
    )
}

/// The reply of kind `Ids` to a request.
pub open spec fn ids_turn<E>(q: RequestModel, h: Seq<Reply>, at: int) -> Turn<
    Result<Vec<Result<Oid, GitError>>, GitError>,
    E,
> {
    and_then(
        heard(q, h, at),
        |reply: Reply, n: int|
            match reply {
                Reply::Ids(v) => Turn::Done(v, n),
                _ => Turn::OutOfStep,
            },
    )
}

/// The reply of kind `Paths` to a request.
pub open spec fn paths_turn<E>(q: RequestModel, h: Seq<Reply>, at: int) -> Turn<
    Result<Vec<ChangedPaths>, GitError>,
    E,
> {
    and_then(
        heard(q, h, at),
        |reply: Reply, n: int|
            match reply {
                Reply::Paths(v) => Turn::Done(v, n),
                _ => Turn::OutOfStep,
            },
    )
}

impl<'a> Dialogue<'a> {
    /// The next reply of the record, or the request where the record ends.
    pub fn ask<E: Model>(&mut self, q: Request) -> (r: Result<&'a Reply, Interrupt<E>>)
        ensures
            final(self).record() == old(self).record(),
            turn_ref(r, final(self)) == heard::<E::M>(
                q.model(),
                old(self).record(),
                old(self).at(),
            ),
    {
        let replies: &'a Vec<Reply> = self.replies;
        let at: usize = self.next;
        if at < replies.len() {
            self.next = at + 1;
            Ok(&replies[at])
        } else {
            Err(Interrupt::Ask(q))
        }
    }

    /// The reply of kind `Version` to a request.
    pub fn version<E: Model>(&mut self, q: Request) -> (r: Result<
        &'a VersionReport,
        Interrupt<E>,
    >)
        ensures
            final(self).record() == old(self).record(),
            turn_ref(r, final(self)) == version_turn::<E::M>(
                q.model(),
                old(self).record(),
                old(self).at(),
            ),
    {
        match self.ask(q)? {
            Reply::Version(v) => Ok(v),
            _ => Err(Interrupt::OutOfStep),
        }
    }

    /// The reply of kind `Ran` to a request.
    pub fn ran<E: Model>(&mut self, q: Request) -> (r: Result<
        &'a RunReport,
        Interrupt<E>,
    >)
        ensures
            final(self).record() == old(self).record(),
            turn_ref(r, final(self)) == ran_turn::<E::M>(
                q.model(),
                old(self).record(),
                old(self).at(),
            ),
    {
        match self.ask(q)? {
            Reply::Ran(v) => Ok(v),
            _ => Err(Interrupt::OutOfStep),
        }
    }

    /// The reply of kind `TempIndex` to a request.
    pub fn temp_index<E: Model>(&mut self, q: Request) -> (r: Result<
        &'a Result<RawText, String>,
        Interrupt<E>,
    >)
        ensures
            final(self).record() == old(self).record(),
            turn_ref(r, final(self)) == temp_index_turn::<E::M>(
                q.model(),
                old(self).record(),
                old(self).at(),
            ),
    {
        match self.ask(q)? {
            Reply::TempIndex(v) => Ok(v),
            _ => Err(Interrupt::OutOfStep),
        }
    }

    /// The reply of kind `Flag` to a request.
    pub fn flag<E: Model>(&mut self, q: Request) -> (r: Result<
        &'a bool,
        Interrupt<E>,
    >)
        ensures
            final(self).record() == old(self).record(),
            turn_ref(r, final(self)) == flag_turn::<E::M>(
                q.model(),
                old(self).record(),
                old(self).at(),
            ),
    {
        match self.ask(q)? {
            Reply::Flag(v) => Ok(v),
            _ => Err(Interrupt::OutOfStep),
        }
    }

    /// The reply of kind `Io` to a request.
    pub fn io_done<E: Model>(&mut self, q: Request) -> (r: Result<
        &'a Result<(), String>,
        Interrupt<E>,
    >)
        ensures
            final(self).record() == old(self).record(),
            turn_ref(r, final(self)) == io_done_turn::<E::M>(
                q.model(),
                old(self).record(),
                old(self).at(),
            ),
    {
        match self.ask(q)? {
            Reply::Io(v) => Ok(v),
            _ => Err(Interrupt::OutOfStep),
        }
    }

    /// The reply of kind `Unit` to a request.
    pub fn unit<E: Model>(&mut self, q: Request) -> (r: Result<
        &'a Result<(), GitError>,
        Interrupt<E>,
    >)
        ensures
            final(self).record() == old(self).record(),
            turn_ref(r, final(self)) == unit_turn::<E::M>(
                q.model(),
                old(self).record(),
                old(self).at(),
            ),
    {
        match self.ask(q)? {
            Reply::Unit(v) => Ok(v),
            _ => Err(Interrupt::OutOfStep),
        }
    }

    /// The reply of kind `Id` to a request.
    pub fn id<E: Model>(&mut self, q: Request) -> (r: Result<
        &'a Result<Oid, GitError>,
        Interrupt<E>,
    >)
        ensures
            final(self).record() == old(self).record(),
            turn_ref(r, final(self)) == id_turn::<E::M>(
                q.model(),
                old(self).record(),
                old(self).at(),
            ),
    {
        match self.ask(q)? {
            Reply::Id(v) => Ok(v),
            _ => Err(Interrupt::OutOfStep),
        }
    }

    /// The reply of kind `Count` to a request.
    pub fn count<E: Model>(&mut self, q: Request) -> (r: Result<
        &'a Result<usize, GitError>,
        Interrupt<E>,
    >)
        ensures
            final(self).record() == old(self).record(),
            turn_ref(r, final(self)) == count_turn::<E::M>(
                q.model(),
                old(self).record(),
                old(self).at(),
            ),
    {
        match self.ask(q)? {
            Reply::Count(v) => Ok(v),
            _ => Err(Interrupt::OutOfStep),
        }
    }

    /// The reply of kind `Counts` to a request.
    pub fn counts<E: Model>(&mut self, q: Request) -> (r: Result<
        &'a Result<(usize, usize), GitError>,
        Interrupt<E>,
    >)
        ensures
            final(self).record() == old(self).record(),
            turn_ref(r, final(self)) == counts_turn::<E::M>(
                q.model(),
                old(self).record(),
                old(self).at(),
            ),
    {
        match self.ask(q)? {
            Reply::Counts(v) => Ok(v),
            _ => Err(Interrupt::OutOfStep),
        }
    }

    /// The reply of kind `Names` to a request.
    pub fn names<E: Model>(&mut self, q: Request) -> (r: Result<
        &'a Result<Vec<Option<String>>, GitError>,
        Interrupt<E>,
    >)
        ensures
            final(self).record() == old(self).record(),
            turn_ref(r, final(self)) == names_turn::<E::M>(
                q.model(),
                old(self).record(),
                old(self).at(),
            ),
    {
        match self.ask(q)? {
            Reply::Names(v) => Ok(v),
            _ => Err(Interrupt::OutOfStep),
        }
    }

    /// The reply of kind `Remote` to a request.
    pub fn remote<E: Model>(&mut self, q: Request) -> (r: Result<
        &'a Result<RemoteInfo, GitError>,
        Interrupt<E>,
    >)
        ensures
            final(self).record() == old(self).record(),
            turn_ref(r, final(self)) == remote_turn::<E::M>(
                q.model(),
                old(self).record(),
                old(self).at(),
            ),
    {
        match self.ask(q)? {
            Reply::Remote(v) => Ok(v),
            _ => Err(Interrupt::OutOfStep),
        }
    }

    /// The reply of kind `Bytes` to a request.
    pub fn bytes<E: Model>(&mut self, q: Request) -> (r: Result<
        &'a Result<RawText, GitError>,
        Interrupt<E>,
    >)
        ensures
            final(self).record() == old(self).record(),
            turn_ref(r, final(self)) == bytes_turn::<E::M>(
                q.model(),
                old(self).record(),
                old(self).at(),
            ),
    {
        match self.ask(q)? {
            Reply::Bytes(v) => Ok(v),
            _ => Err(Interrupt::OutOfStep),
        }
    }

    /// The reply of kind `Found` to a request.
    pub fn found<E: Model>(&mut self, q: Request) -> (r: Result<
        &'a Option<RawText>,
        Interrupt<E>,
    >)
        ensures
            final(self).record() == old(self).record(),
            turn_ref(r, final(self)) == found_turn::<E::M>(
                q.model(),
                old(self).record(),
                old(self).at(),
            ),
    {
        match self.ask(q)? {
            Reply::Found(v) => Ok(v),
            _ => Err(Interrupt::OutOfStep),
        }
    }

    /// The reply of kind `Branch` to a request.
    pub fn branch<E: Model>(&mut self, q: Request) -> (r: Result<
        &'a Result<BranchInfo, GitError>,
        Interrupt<E>,
    >)
        ensures
            final(self).record() == old(self).record(),
            turn_ref(r, final(self)) == branch_turn::<E::M>(
                q.model(),
                old(self).record(),
                old(self).at(),
            ),
    {
        match self.ask(q)? {
            Reply::Branch(v) => Ok(v),
            _ => Err(Interrupt::OutOfStep),
        }
    }

    /// The reply of kind `Branches` to a request.
    pub fn branches<E: Model>(&mut self, q: Request) -> (r: Result<
        &'a Result<Vec<Result<BranchRecord, GitError>>, GitError>,
        Interrupt<E>,
    >)
        ensures
            final(self).record() == old(self).record(),
            turn_ref(r, final(self)) == branches_turn::<E::M>(
                q.model(),
                old(self).record(),
                old(self).at(),
            ),
    {
        match self.ask(q)? {
            Reply::Branches(v) => Ok(v),
            _ => Err(Interrupt::OutOfStep),
        }
    }

    /// The reply of kind `Head` to a request.
    pub fn head<E: Model>(&mut self, q: Request) -> (r: Result<
        &'a Result<HeadRef, GitError>,
        Interrupt<E>,
    >)
        ensures
            final(self).record() == old(self).record(),
            turn_ref(r, final(self)) == head_turn::<E::M>(
                q.model(),
                old(self).record(),
                old(self).at(),
            ),
    {
        match self.ask(q)? {
            Reply::Head(v) => Ok(v),
            _ => Err(Interrupt::OutOfStep),
        }
    }

    /// The reply of kind `Statuses` to a request.
    pub fn statuses<E: Model>(&mut self, q: Request) -> (r: Result<
        &'a Result<Vec<StatusRecord>, GitError>,
        Interrupt<E>,
    >)
        ensures
            final(self).record() == old(self).record(),
            turn_ref(r, final(self)) == statuses_turn::<E::M>(
                q.model(),
                old(self).record(),
                old(self).at(),
            ),
    {
        match self.ask(q)? {
            Reply::Statuses(v) => Ok(v),
            _ => Err(Interrupt::OutOfStep),
        }
    }

    /// The reply of kind `Commit` to a request.
    pub fn commit<E: Model>(&mut self, q: Request) -> (r: Result<
        &'a Result<CommitInfo, GitError>,
        Interrupt<E>,
    >)
        ensures
            final(self).record() == old(self).record(),
            turn_ref(r, final(self)) == commit_turn::<E::M>(
                q.model(),
                old(self).record(),
                old(self).at(),
            ),
    {
        match self.ask(q)? {
            Reply::Commit(v) => Ok(v),
            _ => Err(Interrupt::OutOfStep),
        }
    }

    /// The reply of kind `Merged` to a request.
    pub fn merged<E: Model>(&mut self, q: Request) -> (r: Result<
        &'a Result<bool, GitError>,
        Interrupt<E>,
    >)
        ensures
            final(self).record() == old(self).record(),
            turn_ref(r, final(self)) == merged_turn::<E::M>(
                q.model(),
                old(self).record(),
                old(self).at(),
            ),
    {
        match self.ask(q)? {
            Reply::Merged(v) => Ok(v),
            _ => Err(Interrupt::OutOfStep),
        }
    }

    /// The reply of kind `Deltas` to a request.
    pub fn deltas<E: Model>(&mut self, q: Request) -> (r: Result<
        &'a Result<DiffRecord, GitError>,
        Interrupt<E>,
    >)
        ensures
            final(self).record() == old(self).record(),
            turn_ref(r, final(self)) == deltas_turn::<E::M>(
                q.model(),
                old(self).record(),
                old(self).at(),
            ),
    {
        match self.ask(q)? {
            Reply::Deltas(v) => Ok(v),
            _ => Err(Interrupt::OutOfStep),
        }
    }

    /// The reply of kind `Blob` to a request.
    pub fn blob<E: Model>(&mut self, q: Request) -> (r: Result<
        &'a Option<BlobRecord>,
        Interrupt<E>,
    >)
        ensures
            final(self).record() == old(self).record(),
            turn_ref(r, final(self)) == blob_turn::<E::M>(
                q.model(),
                old(self).record(),
                old(self).at(),
            ),
    {
        match self.ask(q)? {
            Reply::Blob(v) => Ok(v),
            _ => Err(Interrupt::OutOfStep),
        }
    }

    /// The reply of kind `Entry` to a request.
    pub fn entry<E: Model>(&mut self, q: Request) -> (r: Result<
        &'a Option<TreeEntry>,
        Interrupt<E>,
    >)
        ensures
            final(self).record() == old(self).record(),
            turn_ref(r, final(self)) == entry_turn::<E::M>(
                q.model(),
                old(self).record(),
                old(self).at(),
            ),
    {
        match self.ask(q)? {
            Reply::Entry(v) => Ok(v),
            _ => Err(Interrupt::OutOfStep),
        }
    }

    /// The reply of kind `Size` to a request.
    pub fn size<E: Model>(&mut self, q: Request) -> (r: Result<
        &'a Option<u64>,
        Interrupt<E>,
    >)
        ensures
            final(self).record() == old(self).record(),
            turn_ref(r, final(self)) == size_turn::<E::M>(
                q.model(),
                old(self).record(),
                old(self).at(),
            ),
    {
        match self.ask(q)? {
            Reply::Size(v) => Ok(v),
            _ => Err(Interrupt::OutOfStep),
        }
    }

    /// The reply of kind `LineCounts` to a request.
    pub fn line_counts<E: Model>(&mut self, q: Request) -> (r: Result<
        &'a LineCounts,
        Interrupt<E>,
    >)
        ensures
            final(self).record() == old(self).record(),
            turn_ref(r, final(self)) == line_counts_turn::<E::M>(
                q.model(),
                old(self).record(),
                old(self).at(),
            ),
    {
        match self.ask(q)? {
            Reply::LineCounts(v) => Ok(v),
            _ => Err(Interrupt::OutOfStep),
        }
    }

    /// The reply of kind `RepoInfo` to a request.
    pub fn repo_info<E: Model>(&mut self, q: Request) -> (r: Result<
        &'a Result<GitHubRepoInfo, String>,
        Interrupt<E>,
    >)
        ensures
            final(self).record() == old(self).record(),
            turn_ref(r, final(self)) == repo_info_turn::<E::M>(
                q.model(),
                old(self).record(),
                old(self).at(),
            ),
    {
        match self.ask(q)? {
            Reply::RepoInfo(v) => Ok(v),
            _ => Err(Interrupt::OutOfStep),
        }
    }

    /// The reply of kind `Ids` to a request.
    pub fn ids<E: Model>(&mut self, q: Request) -> (r: Result<
        &'a Result<Vec<Result<Oid, GitError>>, GitError>,
        Interrupt<E>,
    >)
        ensures
            final(self).record() == old(self).record(),
            turn_ref(r, final(self)) == ids_turn::<E::M>(
                q.model(),
                old(self).record(),
                old(self).at(),
            ),
    {
        match self.ask(q)? {
            Reply::Ids(v) => Ok(v),
            _ => Err(Interrupt::OutOfStep),
        }
    }

    /// The reply of kind `Paths` to a request.
    pub fn paths<E: Model>(&mut self, q: Request) -> (r: Result<
        &'a Result<Vec<ChangedPaths>, GitError>,
        Interrupt<E>,
    >)
        ensures
            final(self).record() == old(self).record(),
            turn_ref(r, final(self)) == paths_turn::<E::M>(
                q.model(),
                old(self).record(),
                old(self).at(),
            ),
    {
        match self.ask(q)? {
            Reply::Paths(v) => Ok(v),
            _ => Err(Interrupt::OutOfStep),
        }
    }
}

} // verus!
