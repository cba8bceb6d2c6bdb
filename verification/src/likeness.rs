//! What values stand for, part by part.
use vstd::prelude::*;

use crate::cloning::{Credentials, CredentialsModel};
use crate::comparing::{DiffTarget, TargetModel};
use crate::dialogue::{
    turn, Command, Dialogue, Interrupt, NewCommit, RefUpdate, Request, RequestModel, TreeDiff, Turn,
};
use crate::diff::{Diff, FileDiffDetails};
use crate::errors::{CliErrorModel, GitCliError, GitError, GitServiceError, ServiceErrorModel};
use crate::listing::GitBranch;
use crate::model::Model;
use crate::oid::Oid;
use crate::porcelain::{
    ChangeType, ChangeTypeModel, StatusDiffEntry, StatusEntry, WorktreeEntry, WorktreeStatus,
};
use crate::raw::RawText;
use crate::records::GitHubRepoInfo;
use crate::worktrees::HeadInfo;

verus! {

/// A request stands for what it asks, with its arguments in their places.
pub proof fn law_requests_stand_for_what_they_ask(q: Request)
    ensures
        match q {
            Request::Version => q.model() == RequestModel::Version,
            Request::Run(a) => q.model() == RequestModel::Run(a.model()),
            Request::TempIndex => q.model() == RequestModel::TempIndex,
            Request::PathExists(a) => q.model() == RequestModel::PathExists(a@),
            Request::PathExistsIn(a, b) => q.model() == RequestModel::PathExistsIn(a@, b@),
            Request::CreateDirs(a) => q.model() == RequestModel::CreateDirs(a@),
            Request::HomeDir => q.model() == RequestModel::HomeDir,
            Request::AgentKey(a) => q.model() == RequestModel::AgentKey(a@),
            Request::OpenRepo(a) => q.model() == RequestModel::OpenRepo(a@),
            Request::InitRepo(a, b, c) => q.model() == RequestModel::InitRepo(a@, b@, c),
            Request::CloneRepo(a, b, c) => q.model() == RequestModel::CloneRepo(
                a@,
                b@,
                match c { Some(x) => Some(x@), None => None },
            ),
            Request::OpenConfig(a) => q.model() == RequestModel::OpenConfig(a@),
            Request::ConfigHas(a, b) => q.model() == RequestModel::ConfigHas(a@, b@),
            Request::ConfigSet(a, b, c) => q.model() == RequestModel::ConfigSet(a@, b@, c@),
            Request::Signature(a) => q.model() == RequestModel::Signature(a@),
            Request::NewSignature(a, b) => q.model() == RequestModel::NewSignature(a@, b@),
            Request::RemoteNames(a) => q.model() == RequestModel::RemoteNames(a@),
            Request::FindRemote(a, b) => q.model() == RequestModel::FindRemote(a@, b@),
            Request::BranchRemoteName(a, b) => q.model() == RequestModel::BranchRemoteName(a@, b@),
            Request::GitDir(a) => q.model() == RequestModel::GitDir(a@),
            Request::Workdir(a) => q.model() == RequestModel::Workdir(a@),
            Request::CountBranches(a) => q.model() == RequestModel::CountBranches(a@),
            Request::FindBranch(a, b, c) => q.model() == RequestModel::FindBranch(a@, b@, c),
            Request::Upstream(a, b) => q.model() == RequestModel::Upstream(a@, b@),
            Request::PeelBranch(a, b, c) => q.model() == RequestModel::PeelBranch(a@, b@, c),
            Request::RenameBranch(a, b, c, d) => q.model() == RequestModel::RenameBranch(
                a@,
                b@,
                c@,
                d,
            ),
            Request::SetUpstream(a, b, c, d) => q.model() == RequestModel::SetUpstream(
                a@,
                b@,
                c,
                d@,
            ),
            Request::ListBranches(a, b) => q.model() == RequestModel::ListBranches(a@, b),
            Request::Head(a) => q.model() == RequestModel::Head(a@),
            Request::HeadCommit(a) => q.model() == RequestModel::HeadCommit(a@),
            Request::SetHead(a, b) => q.model() == RequestModel::SetHead(a@, b@),
            Request::Statuses(a, b) => q.model() == RequestModel::Statuses(a@, b),
            Request::AheadBehind(a, b, c) => q.model() == RequestModel::AheadBehind(a@, b@, c@),
            Request::MergeBase(a, b, c) => q.model() == RequestModel::MergeBase(a@, b@, c@),
            Request::FindCommit(a, b) => q.model() == RequestModel::FindCommit(a@, b@),
            Request::ParentOf(a, b) => q.model() == RequestModel::ParentOf(a@, b@),
            Request::TreeOf(a, b) => q.model() == RequestModel::TreeOf(a@, b@),
            Request::FindTree(a, b) => q.model() == RequestModel::FindTree(a@, b@),
            Request::EmptyTree(a) => q.model() == RequestModel::EmptyTree(a@),
            Request::CreateCommit(a, b) => q.model() == RequestModel::CreateCommit(a@, b.model()),
            Request::UpdateReference(a, b) => q.model() == RequestModel::UpdateReference(
                a@,
                b.model(),
            ),
            Request::MergeCommits(a, b, c, d) => q.model() == RequestModel::MergeCommits(
                a@,
                b@,
                c@,
                d,
            ),
            Request::WriteMergedTree(a, b, c, d) => q.model() == RequestModel::WriteMergedTree(
                a@,
                b@,
                c@,
                d,
            ),
            Request::DiffTrees(a, b) => q.model() == RequestModel::DiffTrees(a@, b.model()),
            Request::FindBlob(a, b) => q.model() == RequestModel::FindBlob(a@, b@),
            Request::FindEntry(a, b, c) => q.model() == RequestModel::FindEntry(a@, b@, c@),
            Request::FileSize(a, b) => q.model() == RequestModel::FileSize(a@, b@),
            Request::ReadFile(a, b) => q.model() == RequestModel::ReadFile(a@, b@),
            Request::CountLineChanges(a, b) => q.model() == RequestModel::CountLineChanges(a@, b@),
            Request::ParseRemoteUrl(a) => q.model() == RequestModel::ParseRemoteUrl(a@),
            Request::Walk(a, b, c) => q.model() == RequestModel::Walk(a@, b, c as int),
            Request::ChangedFiles(a, b, c) => q.model() == RequestModel::ChangedFiles(
                a@,
                match b { Some(x) => Some(x@), None => None },
                c@,
            ),
        },
{
}

/// The parts of a command, of a commit to make, of a reference to update and of a comparison stand
/// for themselves.
pub proof fn law_parts_of_requests(c: Command, n: NewCommit, u: RefUpdate, t: TreeDiff)
    ensures
        c.model().dir == c.dir@,
        c.model().args == c.args@.map_values(|a: RawText| a@),
        c.model().envs == c.envs@.map_values(|e: (RawText, RawText)| (e.0@, e.1@)),
        c.stdin matches Some(s) ==> c.model().stdin == Some(s@),
        c.stdin is None ==> c.model().stdin is None,
        n.update_ref matches Some(r) ==> n.model().update_ref == Some(r@),
        n.update_ref is None ==> n.model().update_ref is None,
        n.model().identity == n.identity,
        n.model().message == n.message@,
        n.model().tree == n.tree@,
        n.model().parents == n.parents@.map_values(|p: Oid| p@),
        u.model().refname == u.refname@,
        u.model().target == u.target@,
        u.model().force == u.force,
        u.model().log == u.log@,
        t.model().old_tree == t.old_tree@,
        t.model().new_tree == t.new_tree@,
        t.model().pathspecs == t.pathspecs@.map_values(|p: String| p@),
        t.model().typechanges == t.typechanges,
        t.model().renames == t.renames,
{
    assert(c.model().args =~= c.args@.map_values(|a: RawText| a@));
    assert(c.model().envs =~= c.envs@.map_values(|e: (RawText, RawText)| (e.0@, e.1@)));
    assert(n.model().parents =~= n.parents@.map_values(|p: Oid| p@));
    assert(t.model().pathspecs =~= t.pathspecs@.map_values(|p: String| p@));
}

/// A failure stands for the failure of the same kind, with the same words.
pub proof fn law_failures_stand_for_themselves(g: GitError, c: GitCliError, s: GitServiceError)
    ensures
        g.model().code == g.code,
        g.model().class == g.class,
        g.model().message == g.message@,
        g.model().shown == g.shown@,
        match c {
            GitCliError::NotAvailable => c.model() == CliErrorModel::NotAvailable,
            GitCliError::CommandFailed(m) => c.model() == CliErrorModel::CommandFailed(m@),
            GitCliError::AuthFailed(m) => c.model() == CliErrorModel::AuthFailed(m@),
            GitCliError::PushRejected(m) => c.model() == CliErrorModel::PushRejected(m@),
            GitCliError::RebaseInProgress => c.model() == CliErrorModel::RebaseInProgress,
        },
        match s {
            GitServiceError::Git(e) => s.model() == ServiceErrorModel::Git(e.model()),
            GitServiceError::GitCLI(e) => s.model() == ServiceErrorModel::GitCLI(e.model()),
            GitServiceError::IoError(m) => s.model() == ServiceErrorModel::IoError(m@),
            GitServiceError::InvalidRepository(m) => s.model()
                == ServiceErrorModel::InvalidRepository(m@),
            GitServiceError::BranchNotFound(m) => s.model() == ServiceErrorModel::BranchNotFound(
                m@,
            ),
            GitServiceError::MergeConflicts(m) => s.model() == ServiceErrorModel::MergeConflicts(
                m@,
            ),
            GitServiceError::BranchesDiverged(m) => s.model()
                == ServiceErrorModel::BranchesDiverged(m@),
            GitServiceError::WorktreeDirty(b, m) => s.model() == ServiceErrorModel::WorktreeDirty(
                b@,
                m@,
            ),
            GitServiceError::RebaseInProgress => s.model() == ServiceErrorModel::RebaseInProgress,
        },
{
}

/// A change of a file stands for its kind, its paths, its contents and its numbers of lines.
pub proof fn law_parts_of_changes(d: Diff, f: FileDiffDetails)
    ensures
        d.model().change == d.change,
        d.model().content_omitted == d.content_omitted,
        d.old_path matches Some(t) ==> d.model().old_path == Some(t@),
        d.old_path is None ==> d.model().old_path is None,
        d.new_path matches Some(t) ==> d.model().new_path == Some(t@),
        d.new_path is None ==> d.model().new_path is None,
        d.old_content matches Some(t) ==> d.model().old_content == Some(t@),
        d.old_content is None ==> d.model().old_content is None,
        d.new_content matches Some(t) ==> d.model().new_content == Some(t@),
        d.new_content is None ==> d.model().new_content is None,
        d.additions matches Some(k) ==> d.model().additions == Some(k as int),
        d.additions is None ==> d.model().additions is None,
        d.deletions matches Some(k) ==> d.model().deletions == Some(k as int),
        d.deletions is None ==> d.model().deletions is None,
        f.file_name matches Some(t) ==> f.model().file_name == Some(t@),
        f.file_name is None ==> f.model().file_name is None,
        f.content matches Some(t) ==> f.model().content == Some(t@),
        f.content is None ==> f.model().content is None,
{
}

/// An entry of a status, of a comparison or of a list of worktrees stands for its parts.
pub proof fn law_parts_of_entries(
    e: StatusEntry,
    w: WorktreeStatus,
    d: StatusDiffEntry,
    t: WorktreeEntry,
)
    ensures
        e.model().staged == e.staged,
        e.model().unstaged == e.unstaged,
        e.model().path == e.path@,
        e.orig_path matches Some(p) ==> e.model().orig_path == Some(p@),
        e.orig_path is None ==> e.model().orig_path is None,
        e.model().is_untracked == e.is_untracked,
        w.model().uncommitted_tracked == w.uncommitted_tracked,
        w.model().untracked == w.untracked,
        w.model().entries == w.entries@.map_values(|x: StatusEntry| x.model()),
        d.model().change == d.change.model(),
        d.model().path == d.path@,
        d.old_path matches Some(p) ==> d.model().old_path == Some(p@),
        d.old_path is None ==> d.model().old_path is None,
        t.model().path == t.path@,
        t.branch matches Some(b) ==> t.model().branch == Some(b@),
        t.branch is None ==> t.model().branch is None,
{
    assert(w.model().entries =~= w.entries@.map_values(|x: StatusEntry| x.model()));
}

/// A kind of change stands for itself.
pub proof fn law_kinds_of_changes(c: ChangeType)
    ensures
        match c {
            ChangeType::Added => c.model() == ChangeTypeModel::Added,
            ChangeType::Modified => c.model() == ChangeTypeModel::Modified,
            ChangeType::Deleted => c.model() == ChangeTypeModel::Deleted,
            ChangeType::Renamed => c.model() == ChangeTypeModel::Renamed,
            ChangeType::Copied => c.model() == ChangeTypeModel::Copied,
            ChangeType::TypeChanged => c.model() == ChangeTypeModel::TypeChanged,
            ChangeType::Unmerged => c.model() == ChangeTypeModel::Unmerged,
            ChangeType::Unknown(s) => c.model() == ChangeTypeModel::Unknown(s@),
        },
{
}

/// A branch of a list, where HEAD is and the name of a repository on the service stand for their
/// parts.
pub proof fn law_parts_of_places(b: GitBranch, i: HeadInfo, r: GitHubRepoInfo)
    ensures
        b.model().name == b.name@,
        b.model().is_current == b.is_current,
        b.model().is_remote == b.is_remote,
        b.model().last_commit_date == b.last_commit_date,
        i.model().branch == i.branch@,
        i.model().oid == i.oid@,
        r.model() == (r.owner@, r.repo_name@),
{
}

/// Credentials, and what is to be compared, stand for their parts.
pub proof fn law_parts_of_orders(c: Credentials, t: DiffTarget)
    ensures
        match c {
            Credentials::Token { username, token } => c.model() == CredentialsModel::Token {
                username: username@,
                token: token@,
            },
            Credentials::Agent { username } => c.model() == CredentialsModel::Agent {
                username: username@,
            },
            Credentials::KeyFile { username, home, file } => c.model()
                == CredentialsModel::KeyFile { username: username@, home: home@, file: file@ },
        },
        match t {
            DiffTarget::Worktree { worktree_path, base_commit } => t.model()
                == TargetModel::Worktree { path: worktree_path@, base: base_commit@ },
            DiffTarget::Branch { repo_path, branch_name, base_branch } => t.model()
                == TargetModel::Branch {
                path: repo_path@,
                branch: branch_name@,
                base: base_branch@,
            },
            DiffTarget::Commit { repo_path, commit_sha } => t.model() == TargetModel::Commit {
                path: repo_path@,
                sha: commit_sha@,
            },
        },
{
}

/// What an operation hands back is what its turn is: a result where it is done, a failure where it
/// failed, a request where the record ended.
pub proof fn law_results_stand_for_turns<T: Model, E: Model>(
    r: Result<T, Interrupt<E>>,
    io: &Dialogue,
)
    ensures
        match r {
            Ok(t) => turn(r, io) == Turn::<T::M, E::M>::Done(t.model(), io.at()),
            Err(Interrupt::Failed(e)) => turn(r, io) == Turn::<T::M, E::M>::Failed(
                e.model(),
                io.at(),
            ),
            Err(Interrupt::Ask(q)) => turn(r, io) == Turn::<T::M, E::M>::Ask(q.model()),
            Err(Interrupt::OutOfStep) => turn(r, io) == Turn::<T::M, E::M>::OutOfStep,
        },
{
}

} // verus!
