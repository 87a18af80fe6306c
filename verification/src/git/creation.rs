//! Creating linked worktrees: a new local branch from a remote branch, or an
//! existing local branch. The worktree path is claimed by creating its
//! directory; when Git then fails to add the worktree, no ref is deleted,
//! since nothing proves that this call created the branch.
use vstd::prelude::*;

use crate::git::command::{
    checked_output, checked_stdout, command_failed, command_failed_error, command_io,
    command_io_error, run_request, text, GitOutcome, GitOutcomeView, GitReply, GitReplyView,
    GitRequest, GitRequestView, Step, StepView,
};
use crate::git::commands::{
    add_command, branch_name_command, branch_ref, canonical_of, commit_command, make_add_command,
    make_branch_name_command, make_branch_ref, make_commit_command, make_new_branch_add_command,
    make_remote_symbolic_command, make_remotes_command, make_show_ref_command, make_upstream_command,
    new_branch_add_command, remote_symbolic_command, remotes_command, show_ref_command, take_canonical,
    take_target_missing, target_missing_of, upstream_command,
};
use crate::git::decide::{
    answer_yes_or_no, exited_ok, exited_successfully, read_remotes, read_text_output, read_upstream,
    remotes_of, text_output_of, upstream_of, yes_or_no,
};
use crate::git::refs::{branch_ref_of, parse_branch_ref};
use crate::git::removal::{boxed, boxed_error};
use crate::git::snapshot::{
    is_snapshot_at, snapshot_at, snapshot_begun,
    snapshot_next, snapshot_request, DirectRefSnapshot, RefSnapshot, RefSnapshotView,
    SnapshotView,
};
use crate::git::types::{
    clone_opt_text, opt_error, opt_text, BranchRef, BranchRefView, GitErrorView,
    GitWorkspaceError, WorktreeInfo, WorktreeView,
};
use crate::git::worktrees::{
    find_registered, list_command, listing_accepts, listing_begun, listing_next,
    registered_worktree, WorktreeListing, WorktreeListingView,
};

verus! {

/// A remote ref that worktrees may be created from: a branch of exactly one
/// configured remote, other than `HEAD`.
pub open spec fn remote_ref_check(remote_ref: Seq<char>, remotes: Seq<Seq<char>>) -> Result<(), GitErrorView> {
    let invalid = GitErrorView::InvalidRemoteRef { full_ref: remote_ref };
    match branch_ref_of(remote_ref, remotes) {
        Ok(BranchRefView::Remote { name, .. }) => if name != "HEAD"@ {
            Ok(())
        } else {
            Err(invalid)
        },
        Ok(BranchRefView::Local { .. }) => Err(invalid),
        Err(GitErrorView::InvalidBranchRef { .. }) => Err(invalid),
        Err(GitErrorView::AmbiguousRemoteRef { .. }) => Err(invalid),
        Err(e) => Err(e),
    }
}

/// Checks a remote ref against the configured remotes.
pub fn check_remote_ref(remote_ref: &str, remotes: &[String]) -> (r: Result<(), GitWorkspaceError>)
    ensures
        crate::git::types::result_view(r) == remote_ref_check(remote_ref@, crate::git::types::texts_view(remotes@)),
{
    match parse_branch_ref(remote_ref, remotes) {
        Ok(BranchRef::Remote { name, .. }) => {
            if crate::text::text_eq(name.as_str(), "HEAD") {
                Err(GitWorkspaceError::InvalidRemoteRef { full_ref: text(remote_ref) })
            } else {
                Ok(())
            }
        },
        Ok(BranchRef::Local { .. }) => Err(GitWorkspaceError::InvalidRemoteRef { full_ref: text(remote_ref) }),
        Err(GitWorkspaceError::InvalidBranchRef { .. }) => Err(GitWorkspaceError::InvalidRemoteRef { full_ref: text(remote_ref) }),
        Err(GitWorkspaceError::AmbiguousRemoteRef { .. }) => Err(GitWorkspaceError::InvalidRemoteRef { full_ref: text(remote_ref) }),
        Err(e) => Err(e),
    }
}

/// A created worktree must be attached to the new branch.
pub open spec fn created_branch_check(w: WorktreeView, expected: Seq<char>) -> Result<(), GitErrorView> {
    if w.is_bare || w.is_detached || w.branch != Some(expected) {
        Err(GitErrorView::WorktreeBranchMismatch {
            expected,
            actual: match w.branch {
                Some(b) => b,
                None => "<detached or missing>"@,
            },
        })
    } else {
        Ok(())
    }
}

/// Checks that a created worktree is attached to the new branch.
fn check_created_branch(w: &WorktreeInfo, expected: &String) -> (r: Result<(), GitWorkspaceError>)
    ensures
        crate::git::types::result_view(r) == created_branch_check(w@, expected@),
{
    let matches = match &w.branch {
        Some(b) => crate::text::text_eq(b.as_str(), expected.as_str()),
        None => false,
    };
    if w.is_bare || w.is_detached || !matches {
        let actual = match &w.branch {
            Some(b) => b.clone(),
            None => text("<detached or missing>"),
        };
        Err(GitWorkspaceError::WorktreeBranchMismatch { expected: expected.clone(), actual })
    } else {
        Ok(())
    }
}

/// Where a creation from a remote branch stands.
pub enum CreationStage {
    Remotes,
    RemoteExists,
    RemoteSymbolic,
    RemoteCommit,
    BranchName { oid: String },
    BranchExists { oid: String },
    Claim { oid: String },
    Rechecking { oid: String },
    Adding { oid: String },
    VerifyPath { oid: String },
    VerifyListing { oid: String, registered: Vec<u8>, listing: WorktreeListing },
    VerifyReading { oid: String, snapshot: RefSnapshot },
    VerifyUpstream { oid: String },
    FailedPath { create_error: GitWorkspaceError },
    FailedListing { create_error: GitWorkspaceError, registered: Vec<u8>, listing: WorktreeListing },
    FailedRemoving { create_error: GitWorkspaceError },
}

/// Model of a creation's stage.
pub enum CreationStageView {
    Remotes,
    RemoteExists,
    RemoteSymbolic,
    RemoteCommit,
    BranchName { oid: Seq<char> },
    BranchExists { oid: Seq<char> },
    Claim { oid: Seq<char> },
    Rechecking { oid: Seq<char> },
    Adding { oid: Seq<char> },
    VerifyPath { oid: Seq<char> },
    VerifyListing { oid: Seq<char>, registered: Seq<u8>, listing: WorktreeListingView },
    VerifyReading { oid: Seq<char>, snapshot: RefSnapshotView },
    VerifyUpstream { oid: Seq<char> },
    FailedPath { create_error: GitErrorView },
    FailedListing { create_error: GitErrorView, registered: Seq<u8>, listing: WorktreeListingView },
    FailedRemoving { create_error: GitErrorView },
}

/// What a creation from a remote branch was asked to do.
struct CreationInputs {
    repository: Vec<u8>,
    remote_ref: String,
    new_branch: String,
    full_ref: String,
    worktree_path: Vec<u8>,
}

/// A worktree creation from a remote branch, in progress.
pub struct RemoteCreation {
    inputs: CreationInputs,
    stage: CreationStage,
}

/// Model of a creation from a remote branch.
pub struct RemoteCreationView {
    pub repository: Seq<u8>,
    pub remote_ref: Seq<char>,
    pub new_branch: Seq<char>,
    pub full_ref: Seq<char>,
    pub worktree_path: Seq<u8>,
    pub stage: CreationStageView,
}

impl View for RemoteCreation {
    type V = RemoteCreationView;

    closed spec fn view(&self) -> RemoteCreationView {
        RemoteCreationView {
            repository: self.inputs.repository@,
            remote_ref: self.inputs.remote_ref@,
            new_branch: self.inputs.new_branch@,
            full_ref: self.inputs.full_ref@,
            worktree_path: self.inputs.worktree_path@,
            stage: match self.stage {
                CreationStage::Remotes => CreationStageView::Remotes,
                CreationStage::RemoteExists => CreationStageView::RemoteExists,
                CreationStage::RemoteSymbolic => CreationStageView::RemoteSymbolic,
                CreationStage::RemoteCommit => CreationStageView::RemoteCommit,
                CreationStage::BranchName { oid } => CreationStageView::BranchName { oid: oid@ },
                CreationStage::BranchExists { oid } => CreationStageView::BranchExists { oid: oid@ },
                CreationStage::Claim { oid } => CreationStageView::Claim { oid: oid@ },
                CreationStage::Rechecking { oid } => CreationStageView::Rechecking { oid: oid@ },
                CreationStage::Adding { oid } => CreationStageView::Adding { oid: oid@ },
                CreationStage::VerifyPath { oid } => CreationStageView::VerifyPath { oid: oid@ },
                CreationStage::VerifyListing { oid, registered, listing } => CreationStageView::VerifyListing {
                    oid: oid@,
                    registered: registered@,
                    listing: listing@,
                },
                CreationStage::VerifyReading { oid, snapshot } => CreationStageView::VerifyReading { oid: oid@, snapshot: snapshot@ },
                CreationStage::VerifyUpstream { oid } => CreationStageView::VerifyUpstream { oid: oid@ },
                CreationStage::FailedPath { create_error } => CreationStageView::FailedPath { create_error: create_error@ },
                CreationStage::FailedListing { create_error, registered, listing } => CreationStageView::FailedListing {
                    create_error: create_error@,
                    registered: registered@,
                    listing: listing@,
                },
                CreationStage::FailedRemoving { create_error } => CreationStageView::FailedRemoving { create_error: create_error@ },
            },
        }
    }
}

/// A creation that has just begun.
pub open spec fn creation_begun(repository: Seq<u8>, remote_ref: Seq<char>, new_branch: Seq<char>, worktree_path: Seq<u8>) -> RemoteCreationView {
    RemoteCreationView {
        repository,
        remote_ref,
        new_branch,
        full_ref: branch_ref(new_branch),
        worktree_path,
        stage: CreationStageView::Remotes,
    }
}

/// The replies a creation takes in its stage.
pub open spec fn creation_accepts(m: RemoteCreationView, reply: GitReplyView) -> bool {
    match m.stage {
        CreationStageView::Claim { .. } => (reply is DirectoryDone) || (reply is DirectoryExists) || (reply is DirectoryFailed),
        CreationStageView::Rechecking { .. } => (reply is IsDirectory) || (reply is TargetInspectionFailed),
        CreationStageView::VerifyPath { .. } | CreationStageView::FailedPath { .. } => (reply is Canonical) || (reply is CanonicalizeFailed),
        CreationStageView::VerifyListing { listing, .. } => listing_accepts(listing, reply),
        CreationStageView::FailedListing { listing, .. } => listing_accepts(listing, reply),
        CreationStageView::FailedRemoving { .. } => (reply is DirectoryDone) || (reply is DirectoryFailed),
        _ => reply is Ran,
    }
}

/// The creation in another stage.
pub open spec fn creation_at(m: RemoteCreationView, stage: CreationStageView) -> RemoteCreationView {
    RemoteCreationView { stage, ..m }
}

/// The error for a created worktree that could not be verified.
pub open spec fn verification_failed(m: RemoteCreationView, oid: Seq<char>, e: GitErrorView) -> GitErrorView {
    GitErrorView::WorktreeCreationVerificationFailed {
        worktree_path: m.worktree_path,
        branch: m.new_branch,
        expected_oid: oid,
        verification_error: Box::new(e),
    }
}

/// The error for a worktree that Git failed to add: Git's error, and what
/// may remain. The branch may remain in every case: Git may have created it,
/// and nothing proves that this call did, so it is never deleted.
pub open spec fn creation_failed(
    m: RemoteCreationView,
    create_error: GitErrorView,
    worktree_registered: bool,
    claimed_directory_removed: bool,
    cleanup_error: Option<GitErrorView>,
) -> GitErrorView {
    GitErrorView::WorktreeCreationFailed {
        worktree_path: m.worktree_path,
        branch: m.new_branch,
        create_error: Box::new(create_error),
        branch_may_remain: true,
        worktree_registered,
        claimed_directory_removed,
        cleanup_error: match cleanup_error {
            Some(e) => Some(Box::new(e)),
            None => None,
        },
    }
}

/// Some listed worktree is at `path`.
pub open spec fn lists_path(ws: Seq<WorktreeView>, path: Seq<u8>) -> bool {
    exists|i: int| 0 <= i < ws.len() && #[trigger] ws[i].path == path
}

/// How a creation from a remote branch proceeds on a reply.
///
/// Checks first, none of which changes anything: the remote ref must be a
/// branch of one configured remote, exist, and not be symbolic; its commit
/// is resolved; the new branch name must be valid and unused. Then the
/// worktree path is claimed by creating its directory, which fails when
/// anything is already there; the claimed path must still be a directory
/// when Git is to add the worktree there, else nothing more is done; and Git
/// adds the worktree on the new branch, created at the remote ref, in one
/// command. A worktree that Git added must
/// be registered once at the canonical path, attached to the new branch,
/// with the branch a direct ref at the resolved commit and no upstream.
/// When Git fails to add it, no ref is touched: the claimed directory is
/// removed only when no worktree is registered there and it is still empty,
/// and Git's error is reported with what may remain.
pub open spec fn creation_next(m: RemoteCreationView, reply: GitReplyView) -> StepView<RemoteCreationView, ()> {
    match m.stage {
        CreationStageView::Remotes => match reply {
            GitReplyView::Ran { outcome } => match remotes_of(remotes_command(m.repository), outcome) {
                Err(e) => StepView::Done(Err(e)),
                Ok(remotes) => match remote_ref_check(m.remote_ref, remotes) {
                    Err(e) => StepView::Done(Err(e)),
                    Ok(()) => StepView::Ask(
                        creation_at(m, CreationStageView::RemoteExists),
                        run_request(show_ref_command(m.repository, m.remote_ref)),
                    ),
                },
            },
            _ => arbitrary(),
        },
        CreationStageView::RemoteExists => match reply {
            GitReplyView::Ran { outcome } => match yes_or_no(show_ref_command(m.repository, m.remote_ref), outcome) {
                Err(e) => StepView::Done(Err(e)),
                Ok(false) => StepView::Done(Err(GitErrorView::BranchNotFound { full_ref: m.remote_ref })),
                Ok(true) => StepView::Ask(
                    creation_at(m, CreationStageView::RemoteSymbolic),
                    run_request(remote_symbolic_command(m.repository, m.remote_ref)),
                ),
            },
            _ => arbitrary(),
        },
        CreationStageView::RemoteSymbolic => match reply {
            GitReplyView::Ran { outcome } => match yes_or_no(remote_symbolic_command(m.repository, m.remote_ref), outcome) {
                Err(e) => StepView::Done(Err(e)),
                Ok(true) => StepView::Done(Err(GitErrorView::InvalidRemoteRef { full_ref: m.remote_ref })),
                Ok(false) => StepView::Ask(
                    creation_at(m, CreationStageView::RemoteCommit),
                    run_request(commit_command(m.repository, m.remote_ref)),
                ),
            },
            _ => arbitrary(),
        },
        CreationStageView::RemoteCommit => match reply {
            GitReplyView::Ran { outcome } => match text_output_of(commit_command(m.repository, m.remote_ref), outcome) {
                Err(e) => StepView::Done(Err(e)),
                Ok(oid) => StepView::Ask(
                    creation_at(m, CreationStageView::BranchName { oid }),
                    run_request(branch_name_command(m.repository, m.new_branch)),
                ),
            },
            _ => arbitrary(),
        },
        CreationStageView::BranchName { oid } => match reply {
            GitReplyView::Ran { outcome } => match outcome {
                GitOutcomeView::SpawnFailed { message } => StepView::Done(
                    Err(command_io_error(branch_name_command(m.repository, m.new_branch), message)),
                ),
                GitOutcomeView::Exited { .. } => if exited_ok(outcome) {
                    StepView::Ask(
                        creation_at(m, CreationStageView::BranchExists { oid }),
                        run_request(show_ref_command(m.repository, m.full_ref)),
                    )
                } else {
                    StepView::Done(Err(GitErrorView::InvalidBranchName { branch: m.new_branch }))
                },
            },
            _ => arbitrary(),
        },
        CreationStageView::BranchExists { oid } => match reply {
            GitReplyView::Ran { outcome } => match yes_or_no(show_ref_command(m.repository, m.full_ref), outcome) {
                Err(e) => StepView::Done(Err(e)),
                Ok(true) => StepView::Done(Err(GitErrorView::BranchAlreadyExists { branch: m.new_branch })),
                Ok(false) => StepView::Ask(
                    creation_at(m, CreationStageView::Claim { oid }),
                    GitRequestView::ClaimDirectory { path: m.worktree_path },
                ),
            },
            _ => arbitrary(),
        },
        CreationStageView::Claim { oid } => match reply {
            GitReplyView::DirectoryDone => StepView::Ask(
                creation_at(m, CreationStageView::Rechecking { oid }),
                GitRequestView::CheckDirectory { path: m.worktree_path },
            ),
            GitReplyView::DirectoryExists => StepView::Done(Err(GitErrorView::TargetExists { path: m.worktree_path })),
            GitReplyView::DirectoryFailed { message } => StepView::Done(
                Err(GitErrorView::ClaimTarget { path: m.worktree_path, message }),
            ),
            _ => arbitrary(),
        },
        CreationStageView::Rechecking { oid } => match reply {
            GitReplyView::IsDirectory { directory } => if directory {
                StepView::Ask(
                    creation_at(m, CreationStageView::Adding { oid }),
                    run_request(new_branch_add_command(m.repository, m.worktree_path, m.new_branch, m.remote_ref)),
                )
            } else {
                StepView::Done(Err(GitErrorView::ClaimedTargetChanged { path: m.worktree_path }))
            },
            GitReplyView::TargetInspectionFailed { message } => StepView::Done(
                Err(GitErrorView::TargetInspection { path: m.worktree_path, source: message }),
            ),
            _ => arbitrary(),
        },
        CreationStageView::Adding { oid } => match reply {
            GitReplyView::Ran { outcome } => match checked_output(new_branch_add_command(m.repository, m.worktree_path, m.new_branch, m.remote_ref), outcome) {
                Ok(_) => StepView::Ask(
                    creation_at(m, CreationStageView::VerifyPath { oid }),
                    GitRequestView::Canonicalize { path: m.worktree_path },
                ),
                Err(create_error) => StepView::Ask(
                    creation_at(m, CreationStageView::FailedPath { create_error }),
                    GitRequestView::Canonicalize { path: m.worktree_path },
                ),
            },
            _ => arbitrary(),
        },
        CreationStageView::VerifyPath { oid } => match canonical_of(m.worktree_path, reply) {
            Err(e) => StepView::Done(Err(verification_failed(m, oid, e))),
            Ok(registered) => StepView::Ask(
                creation_at(m, CreationStageView::VerifyListing { oid, registered, listing: listing_begun(m.repository) }),
                run_request(list_command(m.repository)),
            ),
        },
        CreationStageView::VerifyListing { oid, registered, listing } => match listing_next(listing, reply) {
            StepView::Ask(l, q) => StepView::Ask(creation_at(m, CreationStageView::VerifyListing { oid, registered, listing: l }), q),
            StepView::Done(Err(e)) => StepView::Done(Err(verification_failed(m, oid, e))),
            StepView::Done(Ok(ws)) => match registered_worktree(ws, registered) {
                Err(e) => StepView::Done(Err(verification_failed(m, oid, e))),
                Ok(w) => match created_branch_check(w, m.full_ref) {
                    Err(e) => StepView::Done(Err(verification_failed(m, oid, e))),
                    Ok(()) => {
                        let snapshot = snapshot_begun(m.repository, m.full_ref);
                        StepView::Ask(creation_at(m, CreationStageView::VerifyReading { oid, snapshot }), snapshot_request(snapshot))
                    },
                },
            },
        },
        CreationStageView::VerifyReading { oid, snapshot } => match snapshot_next(snapshot, reply) {
            StepView::Ask(s, q) => StepView::Ask(creation_at(m, CreationStageView::VerifyReading { oid, snapshot: s }), q),
            StepView::Done(Err(e)) => StepView::Done(Err(verification_failed(m, oid, e))),
            StepView::Done(Ok(snap)) => if !snapshot_at(snap, oid) {
                StepView::Done(Err(verification_failed(
                    m,
                    oid,
                    GitErrorView::BranchChanged {
                        branch: m.new_branch,
                        expected_oid: oid,
                        actual_oid: snap.direct_oid,
                        actual_symbolic_target: snap.symbolic_target,
                    },
                )))
            } else {
                StepView::Ask(
                    creation_at(m, CreationStageView::VerifyUpstream { oid }),
                    run_request(upstream_command(m.repository, m.full_ref)),
                )
            },
        },
        CreationStageView::VerifyUpstream { oid } => match reply {
            GitReplyView::Ran { outcome } => match upstream_of(upstream_command(m.repository, m.full_ref), outcome) {
                Err(e) => StepView::Done(Err(verification_failed(m, oid, e))),
                Ok(Some(upstream)) => StepView::Done(Err(verification_failed(
                    m,
                    oid,
                    GitErrorView::UnexpectedUpstream { branch: m.new_branch, upstream },
                ))),
                Ok(None) => StepView::Done(Ok(())),
            },
            _ => arbitrary(),
        },
        CreationStageView::FailedPath { create_error } => match canonical_of(m.worktree_path, reply) {
            Err(e) => StepView::Done(Err(creation_failed(m, create_error, false, false, Some(e)))),
            Ok(registered) => StepView::Ask(
                creation_at(m, CreationStageView::FailedListing { create_error, registered, listing: listing_begun(m.repository) }),
                run_request(list_command(m.repository)),
            ),
        },
        CreationStageView::FailedListing { create_error, registered, listing } => match listing_next(listing, reply) {
            StepView::Ask(l, q) => StepView::Ask(creation_at(m, CreationStageView::FailedListing { create_error, registered, listing: l }), q),
            StepView::Done(Err(e)) => StepView::Done(Err(creation_failed(m, create_error, false, false, Some(e)))),
            StepView::Done(Ok(ws)) => if lists_path(ws, registered) {
                StepView::Done(Err(creation_failed(m, create_error, true, false, None)))
            } else {
                StepView::Ask(
                    creation_at(m, CreationStageView::FailedRemoving { create_error }),
                    GitRequestView::RemoveEmptyDirectory { path: m.worktree_path },
                )
            },
        },
        CreationStageView::FailedRemoving { create_error } => match reply {
            GitReplyView::DirectoryDone => StepView::Done(Err(creation_failed(m, create_error, false, true, None))),
            GitReplyView::DirectoryFailed { message } => StepView::Done(Err(creation_failed(
                m,
                create_error,
                false,
                false,
                Some(GitErrorView::RemoveClaimedTarget { path: m.worktree_path, message }),
            ))),
            _ => arbitrary(),
        },
    }
}

impl RemoteCreation {
    /// Begins creating a worktree at `worktree_path` on a new local branch
    /// `new_branch` that starts at the remote branch `remote_ref` and tracks nothing.
    pub fn start(repository: &Vec<u8>, remote_ref: &str, new_branch: &str, worktree_path: &Vec<u8>) -> (r: (RemoteCreation, GitRequest))
        ensures
            r.0@ == creation_begun(repository@, remote_ref@, new_branch@, worktree_path@),
            r.1@ == run_request(remotes_command(repository@)),
    {
        let inputs = CreationInputs {
            repository: repository.clone(),
            remote_ref: text(remote_ref),
            new_branch: text(new_branch),
            full_ref: make_branch_ref(new_branch),
            worktree_path: worktree_path.clone(),
        };
        (RemoteCreation { inputs, stage: CreationStage::Remotes }, GitRequest::Run { command: make_remotes_command(repository) })
    }

    fn on_claim(inputs: CreationInputs, oid: String, reply: GitReply) -> (r: Step<RemoteCreation, ()>)
        requires
            (reply@ is DirectoryDone) || (reply@ is DirectoryExists) || (reply@ is DirectoryFailed),
        ensures
            r@ == creation_next((RemoteCreation { inputs, stage: CreationStage::Claim { oid } })@, reply@),
    {
        match reply {
            GitReply::DirectoryDone => {
                let q = GitRequest::CheckDirectory { path: inputs.worktree_path.clone() };
                Step::Ask(RemoteCreation { inputs, stage: CreationStage::Rechecking { oid } }, q)
            },
            GitReply::DirectoryExists => Step::Done(Err(GitWorkspaceError::TargetExists { path: inputs.worktree_path.clone() })),
            GitReply::DirectoryFailed { message } => Step::Done(
                Err(GitWorkspaceError::ClaimTarget { path: inputs.worktree_path.clone(), message }),
            ),
            _ => vstd::pervasive::unreached(),
        }
    }

    fn on_recheck(inputs: CreationInputs, oid: String, reply: GitReply) -> (r: Step<RemoteCreation, ()>)
        requires
            (reply@ is IsDirectory) || (reply@ is TargetInspectionFailed),
        ensures
            r@ == creation_next((RemoteCreation { inputs, stage: CreationStage::Rechecking { oid } })@, reply@),
    {
        match reply {
            GitReply::IsDirectory { directory } => if directory {
                let q = GitRequest::Run {
                    command: make_new_branch_add_command(
                        &inputs.repository,
                        &inputs.worktree_path,
                        inputs.new_branch.as_str(),
                        inputs.remote_ref.as_str(),
                    ),
                };
                Step::Ask(RemoteCreation { inputs, stage: CreationStage::Adding { oid } }, q)
            } else {
                Step::Done(Err(GitWorkspaceError::ClaimedTargetChanged { path: inputs.worktree_path.clone() }))
            },
            GitReply::TargetInspectionFailed { message } => Step::Done(
                Err(GitWorkspaceError::TargetInspection { path: inputs.worktree_path.clone(), source: message }),
            ),
            _ => vstd::pervasive::unreached(),
        }
    }

    fn on_verify_path(inputs: CreationInputs, oid: String, reply: GitReply) -> (r: Step<RemoteCreation, ()>)
        requires
            (reply@ is Canonical) || (reply@ is CanonicalizeFailed),
        ensures
            r@ == creation_next((RemoteCreation { inputs, stage: CreationStage::VerifyPath { oid } })@, reply@),
    {
        match take_canonical(&inputs.worktree_path, reply) {
            Err(e) => Step::Done(Err(verification_error(&inputs, oid, e))),
            Ok(registered) => {
                let (listing, q) = WorktreeListing::start(&inputs.repository);
                Step::Ask(RemoteCreation { inputs, stage: CreationStage::VerifyListing { oid, registered, listing } }, q)
            },
        }
    }

    fn on_verify_listing(inputs: CreationInputs, oid: String, registered: Vec<u8>, listing: WorktreeListing, reply: GitReply) -> (r: Step<RemoteCreation, ()>)
        requires
            listing_accepts(listing@, reply@),
        ensures
            r@ == creation_next((RemoteCreation { inputs, stage: CreationStage::VerifyListing { oid, registered, listing } })@, reply@),
    {
        match listing.step(reply) {
            Step::Ask(l, q) => Step::Ask(RemoteCreation { inputs, stage: CreationStage::VerifyListing { oid, registered, listing: l } }, q),
            Step::Done(Err(e)) => Step::Done(Err(verification_error(&inputs, oid, e))),
            Step::Done(Ok(ws)) => {
                proof {
                    assert(ws.deep_view() =~= crate::git::types::worktree_views(ws@));
                }
                let index = match find_registered(&ws, &registered) {
                    Err(e) => {
                        return Step::Done(Err(verification_error(&inputs, oid, e)));
                    },
                    Ok(i) => i,
                };
                match check_created_branch(&ws[index], &inputs.full_ref) {
                    Err(e) => Step::Done(Err(verification_error(&inputs, oid, e))),
                    Ok(()) => {
                        let (snapshot, q) = RefSnapshot::start(&inputs.repository, inputs.full_ref.as_str());
                        Step::Ask(RemoteCreation { inputs, stage: CreationStage::VerifyReading { oid, snapshot } }, q)
                    },
                }
            },
        }
    }

    fn on_verify_reading(inputs: CreationInputs, oid: String, snapshot: RefSnapshot, reply: GitReply) -> (r: Step<RemoteCreation, ()>)
        requires
            reply@ is Ran,
        ensures
            r@ == creation_next((RemoteCreation { inputs, stage: CreationStage::VerifyReading { oid, snapshot } })@, reply@),
    {
        match snapshot.step(reply) {
            Step::Ask(s, q) => Step::Ask(RemoteCreation { inputs, stage: CreationStage::VerifyReading { oid, snapshot: s } }, q),
            Step::Done(Err(e)) => Step::Done(Err(verification_error(&inputs, oid, e))),
            Step::Done(Ok(snap)) => if !is_snapshot_at(&snap, oid.as_str()) {
                let changed = GitWorkspaceError::BranchChanged {
                    branch: inputs.new_branch.clone(),
                    expected_oid: oid.clone(),
                    actual_oid: snap.direct_oid,
                    actual_symbolic_target: snap.symbolic_target,
                };
                Step::Done(Err(verification_error(&inputs, oid, changed)))
            } else {
                let q = GitRequest::Run { command: make_upstream_command(&inputs.repository, inputs.full_ref.as_str()) };
                Step::Ask(RemoteCreation { inputs, stage: CreationStage::VerifyUpstream { oid } }, q)
            },
        }
    }

    fn on_failed_path(inputs: CreationInputs, create_error: GitWorkspaceError, reply: GitReply) -> (r: Step<RemoteCreation, ()>)
        requires
            (reply@ is Canonical) || (reply@ is CanonicalizeFailed),
        ensures
            r@ == creation_next((RemoteCreation { inputs, stage: CreationStage::FailedPath { create_error } })@, reply@),
    {
        match take_canonical(&inputs.worktree_path, reply) {
            Err(e) => Step::Done(Err(failure_error(&inputs, create_error, false, false, Some(e)))),
            Ok(registered) => {
                let (listing, q) = WorktreeListing::start(&inputs.repository);
                Step::Ask(RemoteCreation { inputs, stage: CreationStage::FailedListing { create_error, registered, listing } }, q)
            },
        }
    }

    fn on_failed_listing(
        inputs: CreationInputs,
        create_error: GitWorkspaceError,
        registered: Vec<u8>,
        listing: WorktreeListing,
        reply: GitReply,
    ) -> (r: Step<RemoteCreation, ()>)
        requires
            listing_accepts(listing@, reply@),
        ensures
            r@ == creation_next((RemoteCreation { inputs, stage: CreationStage::FailedListing { create_error, registered, listing } })@, reply@),
    {
        match listing.step(reply) {
            Step::Ask(l, q) => Step::Ask(RemoteCreation { inputs, stage: CreationStage::FailedListing { create_error, registered, listing: l } }, q),
            Step::Done(Err(e)) => Step::Done(Err(failure_error(&inputs, create_error, false, false, Some(e)))),
            Step::Done(Ok(ws)) => {
                proof {
                    assert(ws.deep_view() =~= crate::git::types::worktree_views(ws@));
                }
                if lists_worktree_at(&ws, &registered) {
                    Step::Done(Err(failure_error(&inputs, create_error, true, false, None)))
                } else {
                    let q = GitRequest::RemoveEmptyDirectory { path: inputs.worktree_path.clone() };
                    Step::Ask(RemoteCreation { inputs, stage: CreationStage::FailedRemoving { create_error } }, q)
                }
            },
        }
    }

    fn on_failed_removing(inputs: CreationInputs, create_error: GitWorkspaceError, reply: GitReply) -> (r: Step<RemoteCreation, ()>)
        requires
            (reply@ is DirectoryDone) || (reply@ is DirectoryFailed),
        ensures
            r@ == creation_next((RemoteCreation { inputs, stage: CreationStage::FailedRemoving { create_error } })@, reply@),
    {
        match reply {
            GitReply::DirectoryDone => Step::Done(Err(failure_error(&inputs, create_error, false, true, None))),
            GitReply::DirectoryFailed { message } => {
                let e = GitWorkspaceError::RemoveClaimedTarget { path: inputs.worktree_path.clone(), message };
                Step::Done(Err(failure_error(&inputs, create_error, false, false, Some(e))))
            },
            _ => vstd::pervasive::unreached(),
        }
    }

    /// Takes the reply to the pending request.
    pub fn step(self, reply: GitReply) -> (r: Step<RemoteCreation, ()>)
        requires
            creation_accepts(self@, reply@),
        ensures
            r@ == creation_next(self@, reply@),
    {
        let RemoteCreation { inputs, stage } = self;
        match stage {
            CreationStage::Claim { oid } => Self::on_claim(inputs, oid, reply),
            CreationStage::Rechecking { oid } => Self::on_recheck(inputs, oid, reply),
            CreationStage::VerifyPath { oid } => Self::on_verify_path(inputs, oid, reply),
            CreationStage::VerifyListing { oid, registered, listing } => Self::on_verify_listing(inputs, oid, registered, listing, reply),
            CreationStage::VerifyReading { oid, snapshot } => Self::on_verify_reading(inputs, oid, snapshot, reply),
            CreationStage::FailedPath { create_error } => Self::on_failed_path(inputs, create_error, reply),
            CreationStage::FailedListing { create_error, registered, listing } => Self::on_failed_listing(
                inputs,
                create_error,
                registered,
                listing,
                reply,
            ),
            CreationStage::FailedRemoving { create_error } => Self::on_failed_removing(inputs, create_error, reply),
            other => {
                let outcome = match reply {
                    GitReply::Ran { outcome } => outcome,
                    _ => {
                        return vstd::pervasive::unreached();
                    },
                };
                Self::ran(inputs, other, outcome)
            },
        }
    }
}

/// Whether some listed worktree is at `path`.
fn lists_worktree_at(ws: &Vec<WorktreeInfo>, path: &Vec<u8>) -> (r: bool)
    ensures
        r == lists_path(crate::git::types::worktree_views(ws@), path@),
{
    let ghost views = crate::git::types::worktree_views(ws@);
    let mut i: usize = 0;
    while i < ws.len()
        invariant
            0 <= i <= ws@.len(),
            views == crate::git::types::worktree_views(ws@),
            views.len() == ws@.len(),
            forall|j: int| 0 <= j < i ==> views[j].path != path@,
        decreases ws@.len() - i,
    {
        if crate::bytes::bytes_eq(ws[i].path.as_slice(), path.as_slice()) {
            assert(views[i as int].path == path@);
            return true;
        }
        i = i + 1;
    }
    false
}

fn verification_error(inputs: &CreationInputs, oid: String, e: GitWorkspaceError) -> (r: GitWorkspaceError)
    ensures
        r@ == (GitErrorView::WorktreeCreationVerificationFailed {
            worktree_path: inputs.worktree_path@,
            branch: inputs.new_branch@,
            expected_oid: oid@,
            verification_error: Box::new(e@),
        }),
{
    GitWorkspaceError::WorktreeCreationVerificationFailed {
        worktree_path: inputs.worktree_path.clone(),
        branch: inputs.new_branch.clone(),
        expected_oid: oid,
        verification_error: Box::new(e),
    }
}

fn failure_error(
    inputs: &CreationInputs,
    create_error: GitWorkspaceError,
    worktree_registered: bool,
    claimed_directory_removed: bool,
    cleanup_error: Option<GitWorkspaceError>,
) -> (r: GitWorkspaceError)
    ensures
        r@ == (GitErrorView::WorktreeCreationFailed {
            worktree_path: inputs.worktree_path@,
            branch: inputs.new_branch@,
            create_error: Box::new(create_error@),
            branch_may_remain: true,
            worktree_registered,
            claimed_directory_removed,
            cleanup_error: match cleanup_error {
                Some(e) => Some(Box::new(e@)),
                None => None,
            },
        }),
{
    let cleanup = match cleanup_error {
        Some(e) => Some(Box::new(e)),
        None => None,
    };
    GitWorkspaceError::WorktreeCreationFailed {
        worktree_path: inputs.worktree_path.clone(),
        branch: inputs.new_branch.clone(),
        create_error: Box::new(create_error),
        branch_may_remain: true,
        worktree_registered,
        claimed_directory_removed,
        cleanup_error: cleanup,
    }
}

impl RemoteCreation {
    /// The stages that wait for a Git command.
    closed spec fn runs_git(stage: CreationStage) -> bool {
        !(stage is Claim || stage is Rechecking || stage is VerifyPath || stage is VerifyListing || stage is VerifyReading || stage is FailedPath
            || stage is FailedListing || stage is FailedRemoving)
    }

    fn ran(inputs: CreationInputs, stage: CreationStage, outcome: GitOutcome) -> (r: Step<RemoteCreation, ()>)
        requires
            Self::runs_git(stage),
        ensures
            r@ == creation_next((RemoteCreation { inputs, stage })@, GitReplyView::Ran { outcome: outcome@ }),
    {
        match stage {
            CreationStage::Remotes => {
                let command = make_remotes_command(&inputs.repository);
                match read_remotes(&command, outcome) {
                    Err(e) => Step::Done(Err(e)),
                    Ok(remotes) => match check_remote_ref(inputs.remote_ref.as_str(), remotes.as_slice()) {
                        Err(e) => Step::Done(Err(e)),
                        Ok(()) => {
                            let q = GitRequest::Run { command: make_show_ref_command(&inputs.repository, inputs.remote_ref.as_str()) };
                            Step::Ask(RemoteCreation { inputs, stage: CreationStage::RemoteExists }, q)
                        },
                    },
                }
            },
            CreationStage::RemoteExists => {
                let command = make_show_ref_command(&inputs.repository, inputs.remote_ref.as_str());
                match answer_yes_or_no(&command, outcome) {
                    Err(e) => Step::Done(Err(e)),
                    Ok(false) => Step::Done(Err(GitWorkspaceError::BranchNotFound { full_ref: inputs.remote_ref.clone() })),
                    Ok(true) => {
                        let q = GitRequest::Run { command: make_remote_symbolic_command(&inputs.repository, inputs.remote_ref.as_str()) };
                        Step::Ask(RemoteCreation { inputs, stage: CreationStage::RemoteSymbolic }, q)
                    },
                }
            },
            CreationStage::RemoteSymbolic => {
                let command = make_remote_symbolic_command(&inputs.repository, inputs.remote_ref.as_str());
                match answer_yes_or_no(&command, outcome) {
                    Err(e) => Step::Done(Err(e)),
                    Ok(true) => Step::Done(Err(GitWorkspaceError::InvalidRemoteRef { full_ref: inputs.remote_ref.clone() })),
                    Ok(false) => {
                        let q = GitRequest::Run { command: make_commit_command(&inputs.repository, inputs.remote_ref.as_str()) };
                        Step::Ask(RemoteCreation { inputs, stage: CreationStage::RemoteCommit }, q)
                    },
                }
            },
            CreationStage::RemoteCommit => {
                let command = make_commit_command(&inputs.repository, inputs.remote_ref.as_str());
                match read_text_output(&command, outcome) {
                    Err(e) => Step::Done(Err(e)),
                    Ok(oid) => {
                        let q = GitRequest::Run { command: make_branch_name_command(&inputs.repository, inputs.new_branch.as_str()) };
                        Step::Ask(RemoteCreation { inputs, stage: CreationStage::BranchName { oid } }, q)
                    },
                }
            },
            CreationStage::BranchName { oid } => {
                let command = make_branch_name_command(&inputs.repository, inputs.new_branch.as_str());
                let ok = exited_successfully(&outcome);
                match outcome {
                    GitOutcome::SpawnFailed { message } => Step::Done(Err(command_io(&command, message))),
                    GitOutcome::Exited { .. } => if ok {
                        let q = GitRequest::Run { command: make_show_ref_command(&inputs.repository, inputs.full_ref.as_str()) };
                        Step::Ask(RemoteCreation { inputs, stage: CreationStage::BranchExists { oid } }, q)
                    } else {
                        Step::Done(Err(GitWorkspaceError::InvalidBranchName { branch: inputs.new_branch.clone() }))
                    },
                }
            },
            CreationStage::BranchExists { oid } => {
                let command = make_show_ref_command(&inputs.repository, inputs.full_ref.as_str());
                match answer_yes_or_no(&command, outcome) {
                    Err(e) => Step::Done(Err(e)),
                    Ok(true) => Step::Done(Err(GitWorkspaceError::BranchAlreadyExists { branch: inputs.new_branch.clone() })),
                    Ok(false) => {
                        let q = GitRequest::ClaimDirectory { path: inputs.worktree_path.clone() };
                        Step::Ask(RemoteCreation { inputs, stage: CreationStage::Claim { oid } }, q)
                    },
                }
            },
            CreationStage::Adding { oid } => {
                let command = make_new_branch_add_command(
                    &inputs.repository,
                    &inputs.worktree_path,
                    inputs.new_branch.as_str(),
                    inputs.remote_ref.as_str(),
                );
                match checked_stdout(&command, outcome) {
                    Ok(_) => {
                        let q = GitRequest::Canonicalize { path: inputs.worktree_path.clone() };
                        Step::Ask(RemoteCreation { inputs, stage: CreationStage::VerifyPath { oid } }, q)
                    },
                    Err(create_error) => {
                        let q = GitRequest::Canonicalize { path: inputs.worktree_path.clone() };
                        Step::Ask(RemoteCreation { inputs, stage: CreationStage::FailedPath { create_error } }, q)
                    },
                }
            },
            CreationStage::VerifyUpstream { oid } => {
                let command = make_upstream_command(&inputs.repository, inputs.full_ref.as_str());
                match read_upstream(&command, outcome) {
                    Err(e) => Step::Done(Err(verification_error(&inputs, oid, e))),
                    Ok(Some(upstream)) => {
                        let e = GitWorkspaceError::UnexpectedUpstream { branch: inputs.new_branch.clone(), upstream };
                        Step::Done(Err(verification_error(&inputs, oid, e)))
                    },
                    Ok(None) => Step::Done(Ok(())),
                }
            },
            _ => vstd::pervasive::unreached(),
        }
    }
}

/// The first listed worktree that checks out `full_ref`.
pub open spec fn first_checkout(ws: Seq<WorktreeView>, full_ref: Seq<char>) -> Option<WorktreeView>
    decreases ws.len(),
{
    if ws.len() == 0 {
        None
    } else if ws[0].branch == Some(full_ref) {
        Some(ws[0])
    } else {
        first_checkout(ws.drop_first(), full_ref)
    }
}

/// Finds the first listed worktree that checks out `full_ref`.
fn find_checkout(ws: &Vec<WorktreeInfo>, full_ref: &String) -> (r: Option<usize>)
    ensures
        match (r, first_checkout(crate::git::types::worktree_views(ws@), full_ref@)) {
            (Some(i), Some(w)) => i < ws@.len() && ws@[i as int]@ == w,
            (None, None) => true,
            _ => false,
        },
{
    let ghost views = crate::git::types::worktree_views(ws@);
    let mut i: usize = 0;
    assert(views.skip(0) =~= views);
    while i < ws.len()
        invariant
            0 <= i <= ws@.len(),
            views == crate::git::types::worktree_views(ws@),
            first_checkout(views, full_ref@) == first_checkout(views.skip(i as int), full_ref@),
        decreases ws@.len() - i,
    {
        proof {
            assert(views.skip(i as int)[0] == ws@[i as int]@);
            assert(views.skip(i as int).drop_first() =~= views.skip(i + 1));
        }
        let matches = match &ws[i].branch {
            Some(b) => crate::text::text_eq(b.as_str(), full_ref.as_str()),
            None => false,
        };
        if matches {
            return Some(i);
        }
        i = i + 1;
    }
    None
}

/// Where a creation from a local branch stands.
pub enum LocalStage {
    Exists,
    Listing { listing: WorktreeListing },
    Target,
    Adding,
}

/// Model of a local creation's stage.
pub enum LocalStageView {
    Exists,
    Listing { listing: WorktreeListingView },
    Target,
    Adding,
}

/// A worktree creation from an existing local branch, in progress.
pub struct LocalCreation {
    repository: Vec<u8>,
    local_branch: String,
    full_ref: String,
    worktree_path: Vec<u8>,
    stage: LocalStage,
}

/// Model of a local creation.
pub struct LocalCreationView {
    pub repository: Seq<u8>,
    pub local_branch: Seq<char>,
    pub full_ref: Seq<char>,
    pub worktree_path: Seq<u8>,
    pub stage: LocalStageView,
}

impl View for LocalCreation {
    type V = LocalCreationView;

    closed spec fn view(&self) -> LocalCreationView {
        LocalCreationView {
            repository: self.repository@,
            local_branch: self.local_branch@,
            full_ref: self.full_ref@,
            worktree_path: self.worktree_path@,
            stage: match self.stage {
                LocalStage::Exists => LocalStageView::Exists,
                LocalStage::Listing { listing } => LocalStageView::Listing { listing: listing@ },
                LocalStage::Target => LocalStageView::Target,
                LocalStage::Adding => LocalStageView::Adding,
            },
        }
    }
}

/// A local creation that has just begun.
pub open spec fn local_begun(repository: Seq<u8>, local_branch: Seq<char>, worktree_path: Seq<u8>) -> LocalCreationView {
    LocalCreationView { repository, local_branch, full_ref: branch_ref(local_branch), worktree_path, stage: LocalStageView::Exists }
}

/// The replies a local creation takes in its stage.
pub open spec fn local_accepts(m: LocalCreationView, reply: GitReplyView) -> bool {
    match m.stage {
        LocalStageView::Listing { listing } => listing_accepts(listing, reply),
        LocalStageView::Target => (reply is TargetMissing) || (reply is TargetPresent) || (reply is TargetInspectionFailed),
        _ => reply is Ran,
    }
}

/// The operation name of worktree creation from a local branch.
pub open spec fn local_add_operation() -> Seq<char> {
    "create worktree from local branch"@
}

/// How a creation from a local branch proceeds on a reply: the branch must
/// exist and be checked out nowhere, nothing may be at the path, and then
/// Git adds the worktree.
pub open spec fn local_next(m: LocalCreationView, reply: GitReplyView) -> StepView<LocalCreationView, ()> {
    match m.stage {
        LocalStageView::Exists => match reply {
            GitReplyView::Ran { outcome } => match yes_or_no(show_ref_command(m.repository, m.full_ref), outcome) {
                Err(e) => StepView::Done(Err(e)),
                Ok(false) => StepView::Done(Err(GitErrorView::BranchNotFound { full_ref: m.full_ref })),
                Ok(true) => StepView::Ask(
                    LocalCreationView { stage: LocalStageView::Listing { listing: listing_begun(m.repository) }, ..m },
                    run_request(list_command(m.repository)),
                ),
            },
            _ => arbitrary(),
        },
        LocalStageView::Listing { listing } => match listing_next(listing, reply) {
            StepView::Ask(l, q) => StepView::Ask(LocalCreationView { stage: LocalStageView::Listing { listing: l }, ..m }, q),
            StepView::Done(Err(e)) => StepView::Done(Err(e)),
            StepView::Done(Ok(ws)) => match first_checkout(ws, m.full_ref) {
                Some(w) => StepView::Done(Err(GitErrorView::BranchAlreadyCheckedOut { branch: m.local_branch, path: w.path })),
                None => StepView::Ask(
                    LocalCreationView { stage: LocalStageView::Target, ..m },
                    GitRequestView::InspectTarget { path: m.worktree_path },
                ),
            },
        },
        LocalStageView::Target => match target_missing_of(m.worktree_path, reply) {
            Err(e) => StepView::Done(Err(e)),
            Ok(()) => StepView::Ask(
                LocalCreationView { stage: LocalStageView::Adding, ..m },
                run_request(add_command(m.repository, local_add_operation(), m.worktree_path, m.local_branch)),
            ),
        },
        LocalStageView::Adding => match reply {
            GitReplyView::Ran { outcome } => match checked_output(add_command(m.repository, local_add_operation(), m.worktree_path, m.local_branch), outcome) {
                Err(e) => StepView::Done(Err(e)),
                Ok(_) => StepView::Done(Ok(())),
            },
            _ => arbitrary(),
        },
    }
}

impl LocalCreation {
    /// Begins creating a worktree at `worktree_path` for the existing local branch `local_branch`.
    pub fn start(repository: &Vec<u8>, local_branch: &str, worktree_path: &Vec<u8>) -> (r: (LocalCreation, GitRequest))
        ensures
            r.0@ == local_begun(repository@, local_branch@, worktree_path@),
            r.1@ == run_request(show_ref_command(repository@, branch_ref(local_branch@))),
    {
        let full_ref = make_branch_ref(local_branch);
        let q = GitRequest::Run { command: make_show_ref_command(repository, full_ref.as_str()) };
        let m = LocalCreation {
            repository: repository.clone(),
            local_branch: text(local_branch),
            full_ref,
            worktree_path: worktree_path.clone(),
            stage: LocalStage::Exists,
        };
        (m, q)
    }

    /// Takes the reply to the pending request.
    pub fn step(self, reply: GitReply) -> (r: Step<LocalCreation, ()>)
        requires
            local_accepts(self@, reply@),
        ensures
            r@ == local_next(self@, reply@),
    {
        let LocalCreation { repository, local_branch, full_ref, worktree_path, stage } = self;
        match stage {
            LocalStage::Exists => {
                let outcome = match reply {
                    GitReply::Ran { outcome } => outcome,
                    _ => {
                        return vstd::pervasive::unreached();
                    },
                };
                let command = make_show_ref_command(&repository, full_ref.as_str());
                match answer_yes_or_no(&command, outcome) {
                    Err(e) => Step::Done(Err(e)),
                    Ok(false) => Step::Done(Err(GitWorkspaceError::BranchNotFound { full_ref })),
                    Ok(true) => {
                        let (listing, q) = WorktreeListing::start(&repository);
                        Step::Ask(LocalCreation { repository, local_branch, full_ref, worktree_path, stage: LocalStage::Listing { listing } }, q)
                    },
                }
            },
            LocalStage::Listing { listing } => match listing.step(reply) {
                Step::Ask(l, q) => Step::Ask(LocalCreation { repository, local_branch, full_ref, worktree_path, stage: LocalStage::Listing { listing: l } }, q),
                Step::Done(Err(e)) => Step::Done(Err(e)),
                Step::Done(Ok(ws)) => {
                    proof {
                        assert(ws.deep_view() =~= crate::git::types::worktree_views(ws@));
                    }
                    match find_checkout(&ws, &full_ref) {
                        Some(i) => Step::Done(Err(GitWorkspaceError::BranchAlreadyCheckedOut { branch: local_branch, path: ws[i].path.clone() })),
                        None => {
                            let q = GitRequest::InspectTarget { path: worktree_path.clone() };
                            Step::Ask(LocalCreation { repository, local_branch, full_ref, worktree_path, stage: LocalStage::Target }, q)
                        },
                    }
                },
            },
            LocalStage::Target => match take_target_missing(&worktree_path, reply) {
                Err(e) => Step::Done(Err(e)),
                Ok(()) => {
                    let q = GitRequest::Run {
                        command: make_add_command(&repository, "create worktree from local branch", &worktree_path, local_branch.as_str()),
                    };
                    Step::Ask(LocalCreation { repository, local_branch, full_ref, worktree_path, stage: LocalStage::Adding }, q)
                },
            },
            LocalStage::Adding => {
                let outcome = match reply {
                    GitReply::Ran { outcome } => outcome,
                    _ => {
                        return vstd::pervasive::unreached();
                    },
                };
                let command = make_add_command(&repository, "create worktree from local branch", &worktree_path, local_branch.as_str());
                match checked_stdout(&command, outcome) {
                    Err(e) => Step::Done(Err(e)),
                    Ok(_) => Step::Done(Ok(())),
                }
            },
        }
    }
}

} // verus!
