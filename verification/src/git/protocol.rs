//! The protocol between an operation and whoever performs its requests:
//! every reply that answers what an operation asks is a reply it takes, from
//! its first request to its last. A driver that performs each request and
//! hands back its reply therefore always meets `step`'s precondition.
use vstd::prelude::*;

use crate::git::command::{answers, run_request, GitReply, GitReplyView, GitRequest, GitRequestView, StepView};
use crate::git::cloning::{clone_accepts, clone_begun, clone_next, CloneView};
use crate::git::commands::{branch_ref, remotes_command, show_ref_command};
use crate::git::creation::{
    creation_accepts, creation_begun, creation_next, local_accepts, local_begun, local_next, LocalCreationView,
    RemoteCreationView,
};
use crate::git::removal::{
    preflight_accepts, preflight_begun, preflight_next, removal_accepts, removal_begun, removal_next,
    PreflightMachineView, RemovalView,
};
use crate::git::repository::{
    ref_listing_next, validation_accepts, validation_begun, validation_next, RefListingView, ValidationView,
};
use crate::git::snapshot::{snapshot_begun, snapshot_next, snapshot_request, RefSnapshotView};
use crate::git::worktrees::{list_command, listing_accepts, listing_begun, listing_next, WorktreeListingView};

verus! {

impl GitReply {
    /// Whether this reply is of the kind that answers `request`.
    pub fn answers(&self, request: &GitRequest) -> (r: bool)
        ensures
            r == answers(request@, self@),
    {
        match request {
            GitRequest::Canonicalize { .. } => match self {
                GitReply::Canonical { .. } | GitReply::CanonicalizeFailed { .. } => true,
                _ => false,
            },
            GitRequest::ResolveWorktreePath { .. } => match self {
                GitReply::Canonical { .. } | GitReply::CanonicalizeFailed { .. } | GitReply::PathMissing { .. } => true,
                _ => false,
            },
            GitRequest::Run { .. } => match self {
                GitReply::Ran { .. } => true,
                _ => false,
            },
            GitRequest::InspectTarget { .. } => match self {
                GitReply::TargetMissing | GitReply::TargetPresent | GitReply::TargetInspectionFailed { .. } => true,
                _ => false,
            },
            GitRequest::CheckExists { .. } => match self {
                GitReply::Exists { .. } => true,
                _ => false,
            },
            GitRequest::CheckDirectory { .. } => match self {
                GitReply::IsDirectory { .. } | GitReply::TargetInspectionFailed { .. } => true,
                _ => false,
            },
            GitRequest::CreateDirectory { .. } | GitRequest::RemoveDirectoryTree { .. } | GitRequest::RemoveEmptyDirectory { .. } => match self {
                GitReply::DirectoryDone | GitReply::DirectoryFailed { .. } => true,
                _ => false,
            },
            GitRequest::ReadFile { .. } => match self {
                GitReply::FileRead { .. } | GitReply::FileFailed { .. } => true,
                _ => false,
            },
            GitRequest::PrepareRefTransaction { .. } => match self {
                GitReply::TransactionPrepared | GitReply::TransactionFailed { .. } => true,
                _ => false,
            },
            GitRequest::CommitRefTransaction | GitRequest::AbortRefTransaction => match self {
                GitReply::TransactionDone | GitReply::TransactionFailed { .. } => true,
                _ => false,
            },
            GitRequest::ClaimDirectory { .. } => match self {
                GitReply::DirectoryDone | GitReply::DirectoryExists | GitReply::DirectoryFailed { .. } => true,
                _ => false,
            },
        }
    }
}

/// A worktree listing takes every reply that answers what it asks.
pub proof fn law_listing_takes_its_answers(repo: Seq<u8>, m: WorktreeListingView, reply: GitReplyView, later: GitReplyView)
    requires
        listing_accepts(m, reply),
    ensures
        answers(run_request(list_command(repo)), later) ==> listing_accepts(listing_begun(repo), later),
        listing_next(m, reply) matches StepView::Ask(n, q) ==> (answers(q, later) ==> listing_accepts(n, later)),
{
}

/// A ref read asks only for Git runs, and takes every reply that answers them.
pub proof fn law_snapshot_takes_its_answers(repo: Seq<u8>, full_ref: Seq<char>, m: RefSnapshotView, reply: GitReplyView, later: GitReplyView)
    requires
        reply is Ran,
    ensures
        answers(snapshot_request(snapshot_begun(repo, full_ref)), later) ==> later is Ran,
        snapshot_next(m, reply) matches StepView::Ask(n, q) ==> (q == snapshot_request(n) && (answers(q, later) ==> later is Ran)),
{
}

/// A ref listing asks only for Git runs, and takes every reply that answers them.
pub proof fn law_ref_listing_takes_its_answers(repo: Seq<u8>, m: RefListingView, reply: GitReplyView, later: GitReplyView)
    requires
        reply is Ran,
    ensures
        answers(run_request(remotes_command(repo)), later) ==> later is Ran,
        ref_listing_next(m, reply) matches StepView::Ask(n, q) ==> (answers(q, later) ==> later is Ran),
{
}

/// A repository validation takes every reply that answers what it asks.
pub proof fn law_validation_takes_its_answers(path: Seq<u8>, m: ValidationView, reply: GitReplyView, later: GitReplyView)
    requires
        validation_accepts(m, reply),
    ensures
        answers(GitRequestView::Canonicalize { path }, later) ==> validation_accepts(validation_begun(path), later),
        validation_next(m, reply) matches StepView::Ask(n, q) ==> (answers(q, later) ==> validation_accepts(n, later)),
{
}

/// The checks before a removal take every reply that answers what they ask.
pub proof fn law_preflight_takes_its_answers(
    repository: Seq<u8>,
    worktree_path: Seq<u8>,
    delete_branch: bool,
    m: PreflightMachineView,
    reply: GitReplyView,
    later: GitReplyView,
)
    requires
        preflight_accepts(m, reply),
    ensures
        answers(GitRequestView::Canonicalize { path: worktree_path }, later) ==> preflight_accepts(
            preflight_begun(repository, worktree_path, delete_branch),
            later,
        ),
        preflight_next(m, reply) matches StepView::Ask(n, q) ==> (answers(q, later) ==> preflight_accepts(n, later)),
{
}

/// A removal takes every reply that answers what it asks.
pub proof fn law_removal_takes_its_answers(
    repository: Seq<u8>,
    worktree_path: Seq<u8>,
    branch: Seq<char>,
    delete_branch: bool,
    force_branch: bool,
    m: RemovalView,
    reply: GitReplyView,
    later: GitReplyView,
)
    requires
        removal_accepts(m, reply),
    ensures
        answers(GitRequestView::Canonicalize { path: worktree_path }, later) ==> removal_accepts(
            removal_begun(repository, worktree_path, branch, delete_branch, force_branch),
            later,
        ),
        removal_next(m, reply) matches StepView::Ask(n, q) ==> (answers(q, later) ==> removal_accepts(n, later)),
{
}

/// A worktree creation from a remote branch takes every reply that answers what it asks.
pub proof fn law_remote_creation_takes_its_answers(
    repository: Seq<u8>,
    remote_ref: Seq<char>,
    new_branch: Seq<char>,
    worktree_path: Seq<u8>,
    m: RemoteCreationView,
    reply: GitReplyView,
    later: GitReplyView,
)
    requires
        creation_accepts(m, reply),
    ensures
        answers(run_request(remotes_command(repository)), later) ==> creation_accepts(
            creation_begun(repository, remote_ref, new_branch, worktree_path),
            later,
        ),
        creation_next(m, reply) matches StepView::Ask(n, q) ==> (answers(q, later) ==> creation_accepts(n, later)),
{
}

/// A worktree creation for a local branch takes every reply that answers what it asks.
pub proof fn law_local_creation_takes_its_answers(
    repository: Seq<u8>,
    local_branch: Seq<char>,
    worktree_path: Seq<u8>,
    m: LocalCreationView,
    reply: GitReplyView,
    later: GitReplyView,
)
    requires
        local_accepts(m, reply),
    ensures
        answers(run_request(show_ref_command(repository, branch_ref(local_branch))), later) ==> local_accepts(
            local_begun(repository, local_branch, worktree_path),
            later,
        ),
        local_next(m, reply) matches StepView::Ask(n, q) ==> (answers(q, later) ==> local_accepts(n, later)),
{
}

/// A clone takes every reply that answers what it asks.
pub proof fn law_clone_takes_its_answers(
    url: Seq<char>,
    target: Seq<u8>,
    m: CloneView,
    reply: GitReplyView,
    later: GitReplyView,
)
    requires
        clone_accepts(m, reply),
    ensures
        answers(GitRequestView::CheckExists { path: target }, later) ==> clone_accepts(clone_begun(url, target), later),
        clone_next(m, reply) matches StepView::Ask(n, q) ==> (answers(q, later) ==> clone_accepts(n, later)),
{
}

} // verus!
