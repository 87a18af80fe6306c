//! The debug rendering of an error: the variant's name and each field's
//! rendering, as `{:?}` shows a struct-like enum variant.
use vstd::prelude::*;

use crate::bytes::{byte_list_string, byte_list_text};
use crate::git::command::{debug_string, debug_text};
use crate::git::message::{list_debug, option_debug, push_list, push_option};
use crate::git::types::{GitErrorView, GitWorkspaceError};
use crate::text::append_str;

verus! {

/// How a flag renders: `true` or `false`.
pub open spec fn bool_text(b: bool) -> Seq<char> {
    if b {
        "true"@
    } else {
        "false"@
    }
}

/// The debug rendering of an error, such as
/// `BranchNotFound { full_ref: "refs/heads/a" }`; paths render as byte lists.
pub open spec fn error_debug(e: GitErrorView) -> Seq<char>
    decreases e,
{
    match e {
        GitErrorView::Canonicalize { path, source } => "Canonicalize { path: "@ + byte_list_text(path) + ", source: "@ + debug_text(source) + " }"@,
        GitErrorView::NotRepositoryRoot { selected, root } => "NotRepositoryRoot { selected: "@ + byte_list_text(selected) + ", root: "@ + byte_list_text(root) + " }"@,
        GitErrorView::LinkedWorktree { git_dir, common_dir } => "LinkedWorktree { git_dir: "@ + byte_list_text(git_dir) + ", common_dir: "@ + byte_list_text(common_dir) + " }"@,
        GitErrorView::RemoteNotFound { repo } => "RemoteNotFound { repo: "@ + byte_list_text(repo) + " }"@,
        GitErrorView::DefaultBranchNotFound { repo, remote, stderr } => "DefaultBranchNotFound { repo: "@ + byte_list_text(repo) + ", remote: "@ + debug_text(remote) + ", stderr: "@ + debug_text(stderr) + " }"@,
        GitErrorView::CommandIo { operation, args, source } => "CommandIo { operation: "@ + debug_text(operation) + ", args: "@ + list_debug(args) + ", source: "@ + debug_text(source) + " }"@,
        GitErrorView::CommandFailed { operation, args, stderr } => "CommandFailed { operation: "@ + debug_text(operation) + ", args: "@ + list_debug(args) + ", stderr: "@ + debug_text(stderr) + " }"@,
        GitErrorView::InvalidUtf8 { operation } => "InvalidUtf8 { operation: "@ + debug_text(operation) + " }"@,
        GitErrorView::InvalidBranchRef { full_ref } => "InvalidBranchRef { full_ref: "@ + debug_text(full_ref) + " }"@,
        GitErrorView::InvalidRemoteRef { full_ref } => "InvalidRemoteRef { full_ref: "@ + debug_text(full_ref) + " }"@,
        GitErrorView::BranchNotFound { full_ref } => "BranchNotFound { full_ref: "@ + debug_text(full_ref) + " }"@,
        GitErrorView::InvalidBranchName { branch } => "InvalidBranchName { branch: "@ + debug_text(branch) + " }"@,
        GitErrorView::BranchAlreadyExists { branch } => "BranchAlreadyExists { branch: "@ + debug_text(branch) + " }"@,
        GitErrorView::BranchClaimFailed { branch, expected_oid, claim_error } => "BranchClaimFailed { branch: "@ + debug_text(branch) + ", expected_oid: "@ + debug_text(expected_oid) + ", claim_error: "@ + error_debug(*claim_error) + " }"@,
        GitErrorView::BranchAlreadyCheckedOut { branch, path } => "BranchAlreadyCheckedOut { branch: "@ + debug_text(branch) + ", path: "@ + byte_list_text(path) + " }"@,
        GitErrorView::WorktreeNotFound { path } => "WorktreeNotFound { path: "@ + byte_list_text(path) + " }"@,
        GitErrorView::AmbiguousWorktree { path } => "AmbiguousWorktree { path: "@ + byte_list_text(path) + " }"@,
        GitErrorView::WorktreeHasNoLocalBranch { path } => "WorktreeHasNoLocalBranch { path: "@ + byte_list_text(path) + " }"@,
        GitErrorView::DirtyWorktree { path } => "DirtyWorktree { path: "@ + byte_list_text(path) + " }"@,
        GitErrorView::WorktreeBranchMismatch { expected, actual } => "WorktreeBranchMismatch { expected: "@ + debug_text(expected) + ", actual: "@ + debug_text(actual) + " }"@,
        GitErrorView::BranchNotMerged { branch, merge_target } => "BranchNotMerged { branch: "@ + debug_text(branch) + ", merge_target: "@ + debug_text(merge_target) + " }"@,
        GitErrorView::BranchChanged { branch, expected_oid, actual_oid, actual_symbolic_target } => "BranchChanged { branch: "@ + debug_text(branch) + ", expected_oid: "@ + debug_text(expected_oid) + ", actual_oid: "@ + option_debug(actual_oid) + ", actual_symbolic_target: "@ + option_debug(actual_symbolic_target) + " }"@,
        GitErrorView::BranchDeleteNotCompleted { full_ref, expected_oid } => "BranchDeleteNotCompleted { full_ref: "@ + debug_text(full_ref) + ", expected_oid: "@ + debug_text(expected_oid) + " }"@,
        GitErrorView::BranchCleanupFailed { full_ref, expected_oid, actual_oid, actual_symbolic_target, delete_error, inspection_error } => "BranchCleanupFailed { full_ref: "@ + debug_text(full_ref) + ", expected_oid: "@ + debug_text(expected_oid) + ", actual_oid: "@ + option_debug(actual_oid) + ", actual_symbolic_target: "@ + option_debug(actual_symbolic_target) + ", delete_error: "@ + error_debug(*delete_error) + ", inspection_error: "@ + (match inspection_error { Some(b) => "Some("@ + error_debug(*b) + ")"@, None => "None"@ }) + " }"@,
        GitErrorView::BranchDeleteFailed { worktree_path, worktree_removed, branch, expected_oid, actual_oid, actual_symbolic_target, delete_error, inspection_error } => "BranchDeleteFailed { worktree_path: "@ + byte_list_text(worktree_path) + ", worktree_removed: "@ + bool_text(worktree_removed) + ", branch: "@ + debug_text(branch) + ", expected_oid: "@ + debug_text(expected_oid) + ", actual_oid: "@ + option_debug(actual_oid) + ", actual_symbolic_target: "@ + option_debug(actual_symbolic_target) + ", delete_error: "@ + error_debug(*delete_error) + ", inspection_error: "@ + (match inspection_error { Some(b) => "Some("@ + error_debug(*b) + ")"@, None => "None"@ }) + " }"@,
        GitErrorView::InvalidBranchRefRecord { record } => "InvalidBranchRefRecord { record: "@ + debug_text(record) + " }"@,
        GitErrorView::AmbiguousRemoteRef { full_ref, remotes } => "AmbiguousRemoteRef { full_ref: "@ + debug_text(full_ref) + ", remotes: "@ + list_debug(remotes) + " }"@,
        GitErrorView::InvalidWorktreeRecord { record } => "InvalidWorktreeRecord { record: "@ + debug_text(record) + " }"@,
        GitErrorView::TargetExists { path } => "TargetExists { path: "@ + byte_list_text(path) + " }"@,
        GitErrorView::TargetInspection { path, source } => "TargetInspection { path: "@ + byte_list_text(path) + ", source: "@ + debug_text(source) + " }"@,
        GitErrorView::WorktreeCreationBranchChanged { branch, expected_oid, actual_oid, actual_symbolic_target, create_error } => "WorktreeCreationBranchChanged { branch: "@ + debug_text(branch) + ", expected_oid: "@ + debug_text(expected_oid) + ", actual_oid: "@ + option_debug(actual_oid) + ", actual_symbolic_target: "@ + option_debug(actual_symbolic_target) + ", create_error: "@ + error_debug(*create_error) + " }"@,
        GitErrorView::WorktreeCreationCleanupFailed { branch, create_error, cleanup_error } => "WorktreeCreationCleanupFailed { branch: "@ + debug_text(branch) + ", create_error: "@ + error_debug(*create_error) + ", cleanup_error: "@ + error_debug(*cleanup_error) + " }"@,
        GitErrorView::WorktreeCreationVerificationFailed { worktree_path, branch, expected_oid, verification_error } => "WorktreeCreationVerificationFailed { worktree_path: "@ + byte_list_text(worktree_path) + ", branch: "@ + debug_text(branch) + ", expected_oid: "@ + debug_text(expected_oid) + ", verification_error: "@ + error_debug(*verification_error) + " }"@,
        GitErrorView::InvalidDirectRefRecord { record } => "InvalidDirectRefRecord { record: "@ + debug_text(record) + " }"@,
        GitErrorView::CreateTarget { path, source } => "CreateTarget { path: "@ + byte_list_text(path) + ", source: "@ + debug_text(source) + " }"@,
        GitErrorView::CleanupFailed { path, cleanup_source, clone_error } => "CleanupFailed { path: "@ + byte_list_text(path) + ", cleanup_source: "@ + debug_text(cleanup_source) + ", clone_error: "@ + error_debug(*clone_error) + " }"@,
        GitErrorView::RepositoryNameMissing { url } => "RepositoryNameMissing { url: "@ + debug_text(url) + " }"@,
        GitErrorView::InvalidCloneDirectoryName { name } => "InvalidCloneDirectoryName { name: "@ + debug_text(name) + " }"@,
        GitErrorView::BackgroundTaskFailed { operation, message } => "BackgroundTaskFailed { operation: "@ + debug_text(operation) + ", message: "@ + debug_text(message) + " }"@,
        GitErrorView::ClaimTarget { path, message } => "ClaimTarget { path: "@ + byte_list_text(path) + ", message: "@ + debug_text(message) + " }"@,
        GitErrorView::RemoveClaimedTarget { path, message } => "RemoveClaimedTarget { path: "@ + byte_list_text(path) + ", message: "@ + debug_text(message) + " }"@,
        GitErrorView::UnexpectedUpstream { branch, upstream } => "UnexpectedUpstream { branch: "@ + debug_text(branch) + ", upstream: "@ + debug_text(upstream) + " }"@,
        GitErrorView::WorktreeCreationFailed { worktree_path, branch, create_error, branch_may_remain, worktree_registered, claimed_directory_removed, cleanup_error } => "WorktreeCreationFailed { worktree_path: "@ + byte_list_text(worktree_path) + ", branch: "@ + debug_text(branch) + ", create_error: "@ + error_debug(*create_error) + ", branch_may_remain: "@ + bool_text(branch_may_remain) + ", worktree_registered: "@ + bool_text(worktree_registered) + ", claimed_directory_removed: "@ + bool_text(claimed_directory_removed) + ", cleanup_error: "@ + (match cleanup_error { Some(b) => "Some("@ + error_debug(*b) + ")"@, None => "None"@ }) + " }"@,
        GitErrorView::ReflogUnavailable { branch, path, message } => "ReflogUnavailable { branch: "@ + debug_text(branch) + ", path: "@ + byte_list_text(path) + ", message: "@ + debug_text(message) + " }"@,
        GitErrorView::BranchGenerationChanged { branch } => "BranchGenerationChanged { branch: "@ + debug_text(branch) + " }"@,
        GitErrorView::RefTransactionFailed { stage, message } => "RefTransactionFailed { stage: "@ + debug_text(stage) + ", message: "@ + debug_text(message) + " }"@,
        GitErrorView::TransactionAbortFailed { cause, abort_error } => "TransactionAbortFailed { cause: "@ + error_debug(*cause) + ", abort_error: "@ + error_debug(*abort_error) + " }"@,
        GitErrorView::BranchDeleteTransactionFailed { worktree_path, worktree_removed, branch_ref, expected_oid, merge_target, merge_target_oid, actual_oid, actual_symbolic_target, transaction_error, inspection_error } => "BranchDeleteTransactionFailed { worktree_path: "@ + byte_list_text(worktree_path) + ", worktree_removed: "@ + bool_text(worktree_removed) + ", branch_ref: "@ + debug_text(branch_ref) + ", expected_oid: "@ + debug_text(expected_oid) + ", merge_target: "@ + debug_text(merge_target) + ", merge_target_oid: "@ + debug_text(merge_target_oid) + ", actual_oid: "@ + option_debug(actual_oid) + ", actual_symbolic_target: "@ + option_debug(actual_symbolic_target) + ", transaction_error: "@ + error_debug(*transaction_error) + ", inspection_error: "@ + (match inspection_error { Some(b) => "Some("@ + error_debug(*b) + ")"@, None => "None"@ }) + " }"@,
        GitErrorView::ClaimedTargetChanged { path } => "ClaimedTargetChanged { path: "@ + byte_list_text(path) + " }"@,
    }
}

fn push_bytes(s: &mut String, p: &Vec<u8>)
    ensures
        final(s)@ == old(s)@ + byte_list_text(p@),
{
    let t = byte_list_string(p.as_slice());
    append_str(s, t.as_str());
}

fn push_debug_str(s: &mut String, t: &String)
    ensures
        final(s)@ == old(s)@ + debug_text(t@),
{
    let d = debug_string(t.as_str());
    append_str(s, d.as_str());
}

pub(crate) fn push_bool(s: &mut String, b: bool)
    ensures
        final(s)@ == old(s)@ + bool_text(b),
{
    if b {
        append_str(s, "true");
    } else {
        append_str(s, "false");
    }
}

/// The errors of the checks that guard what a worktree operation owns: the
/// claimed target, the new branch's upstream, the reflog generation and the
/// ref transactions.
pub open spec fn is_ownership_error(e: GitErrorView) -> bool {
    (e is ClaimTarget) || (e is RemoveClaimedTarget) || (e is UnexpectedUpstream) || (e is WorktreeCreationFailed) || (e is ReflogUnavailable) || (e is BranchGenerationChanged) || (e is RefTransactionFailed) || (e is TransactionAbortFailed) || (e is BranchDeleteTransactionFailed) || (e is ClaimedTargetChanged)
}

impl GitWorkspaceError {
    /// The debug rendering of this error.
    #[verifier::rlimit(100)]
    pub fn debug_rendering(&self) -> (r: String)
        ensures
            r@ == error_debug(self@),
        decreases self, 1nat,
    {
        let mut s = String::new();
        match self {
            GitWorkspaceError::Canonicalize { path, source } => {
                append_str(&mut s, "Canonicalize { path: ");
                push_bytes(&mut s, path);
                append_str(&mut s, ", source: ");
                push_debug_str(&mut s, source);
                append_str(&mut s, " }");
            },
            GitWorkspaceError::NotRepositoryRoot { selected, root } => {
                append_str(&mut s, "NotRepositoryRoot { selected: ");
                push_bytes(&mut s, selected);
                append_str(&mut s, ", root: ");
                push_bytes(&mut s, root);
                append_str(&mut s, " }");
            },
            GitWorkspaceError::LinkedWorktree { git_dir, common_dir } => {
                append_str(&mut s, "LinkedWorktree { git_dir: ");
                push_bytes(&mut s, git_dir);
                append_str(&mut s, ", common_dir: ");
                push_bytes(&mut s, common_dir);
                append_str(&mut s, " }");
            },
            GitWorkspaceError::RemoteNotFound { repo } => {
                append_str(&mut s, "RemoteNotFound { repo: ");
                push_bytes(&mut s, repo);
                append_str(&mut s, " }");
            },
            GitWorkspaceError::DefaultBranchNotFound { repo, remote, stderr } => {
                append_str(&mut s, "DefaultBranchNotFound { repo: ");
                push_bytes(&mut s, repo);
                append_str(&mut s, ", remote: ");
                push_debug_str(&mut s, remote);
                append_str(&mut s, ", stderr: ");
                push_debug_str(&mut s, stderr);
                append_str(&mut s, " }");
            },
            GitWorkspaceError::CommandIo { operation, args, source } => {
                append_str(&mut s, "CommandIo { operation: ");
                push_debug_str(&mut s, operation);
                append_str(&mut s, ", args: ");
                push_list(&mut s, args);
                append_str(&mut s, ", source: ");
                push_debug_str(&mut s, source);
                append_str(&mut s, " }");
            },
            GitWorkspaceError::CommandFailed { operation, args, stderr } => {
                append_str(&mut s, "CommandFailed { operation: ");
                push_debug_str(&mut s, operation);
                append_str(&mut s, ", args: ");
                push_list(&mut s, args);
                append_str(&mut s, ", stderr: ");
                push_debug_str(&mut s, stderr);
                append_str(&mut s, " }");
            },
            GitWorkspaceError::InvalidUtf8 { operation } => {
                append_str(&mut s, "InvalidUtf8 { operation: ");
                push_debug_str(&mut s, operation);
                append_str(&mut s, " }");
            },
            GitWorkspaceError::InvalidBranchRef { full_ref } => {
                append_str(&mut s, "InvalidBranchRef { full_ref: ");
                push_debug_str(&mut s, full_ref);
                append_str(&mut s, " }");
            },
            GitWorkspaceError::InvalidRemoteRef { full_ref } => {
                append_str(&mut s, "InvalidRemoteRef { full_ref: ");
                push_debug_str(&mut s, full_ref);
                append_str(&mut s, " }");
            },
            GitWorkspaceError::BranchNotFound { full_ref } => {
                append_str(&mut s, "BranchNotFound { full_ref: ");
                push_debug_str(&mut s, full_ref);
                append_str(&mut s, " }");
            },
            GitWorkspaceError::InvalidBranchName { branch } => {
                append_str(&mut s, "InvalidBranchName { branch: ");
                push_debug_str(&mut s, branch);
                append_str(&mut s, " }");
            },
            GitWorkspaceError::BranchAlreadyExists { branch } => {
                append_str(&mut s, "BranchAlreadyExists { branch: ");
                push_debug_str(&mut s, branch);
                append_str(&mut s, " }");
            },
            GitWorkspaceError::BranchClaimFailed { branch, expected_oid, claim_error } => {
                append_str(&mut s, "BranchClaimFailed { branch: ");
                push_debug_str(&mut s, branch);
                append_str(&mut s, ", expected_oid: ");
                push_debug_str(&mut s, expected_oid);
                append_str(&mut s, ", claim_error: ");
                let inner = claim_error.debug_rendering();
                append_str(&mut s, inner.as_str());
                append_str(&mut s, " }");
            },
            GitWorkspaceError::BranchAlreadyCheckedOut { branch, path } => {
                append_str(&mut s, "BranchAlreadyCheckedOut { branch: ");
                push_debug_str(&mut s, branch);
                append_str(&mut s, ", path: ");
                push_bytes(&mut s, path);
                append_str(&mut s, " }");
            },
            GitWorkspaceError::WorktreeNotFound { path } => {
                append_str(&mut s, "WorktreeNotFound { path: ");
                push_bytes(&mut s, path);
                append_str(&mut s, " }");
            },
            GitWorkspaceError::AmbiguousWorktree { path } => {
                append_str(&mut s, "AmbiguousWorktree { path: ");
                push_bytes(&mut s, path);
                append_str(&mut s, " }");
            },
            GitWorkspaceError::WorktreeHasNoLocalBranch { path } => {
                append_str(&mut s, "WorktreeHasNoLocalBranch { path: ");
                push_bytes(&mut s, path);
                append_str(&mut s, " }");
            },
            GitWorkspaceError::DirtyWorktree { path } => {
                append_str(&mut s, "DirtyWorktree { path: ");
                push_bytes(&mut s, path);
                append_str(&mut s, " }");
            },
            GitWorkspaceError::WorktreeBranchMismatch { expected, actual } => {
                append_str(&mut s, "WorktreeBranchMismatch { expected: ");
                push_debug_str(&mut s, expected);
                append_str(&mut s, ", actual: ");
                push_debug_str(&mut s, actual);
                append_str(&mut s, " }");
            },
            GitWorkspaceError::BranchNotMerged { branch, merge_target } => {
                append_str(&mut s, "BranchNotMerged { branch: ");
                push_debug_str(&mut s, branch);
                append_str(&mut s, ", merge_target: ");
                push_debug_str(&mut s, merge_target);
                append_str(&mut s, " }");
            },
            GitWorkspaceError::BranchChanged { branch, expected_oid, actual_oid, actual_symbolic_target } => {
                append_str(&mut s, "BranchChanged { branch: ");
                push_debug_str(&mut s, branch);
                append_str(&mut s, ", expected_oid: ");
                push_debug_str(&mut s, expected_oid);
                append_str(&mut s, ", actual_oid: ");
                push_option(&mut s, actual_oid);
                append_str(&mut s, ", actual_symbolic_target: ");
                push_option(&mut s, actual_symbolic_target);
                append_str(&mut s, " }");
            },
            GitWorkspaceError::BranchDeleteNotCompleted { full_ref, expected_oid } => {
                append_str(&mut s, "BranchDeleteNotCompleted { full_ref: ");
                push_debug_str(&mut s, full_ref);
                append_str(&mut s, ", expected_oid: ");
                push_debug_str(&mut s, expected_oid);
                append_str(&mut s, " }");
            },
            GitWorkspaceError::BranchCleanupFailed { full_ref, expected_oid, actual_oid, actual_symbolic_target, delete_error, inspection_error } => {
                append_str(&mut s, "BranchCleanupFailed { full_ref: ");
                push_debug_str(&mut s, full_ref);
                append_str(&mut s, ", expected_oid: ");
                push_debug_str(&mut s, expected_oid);
                append_str(&mut s, ", actual_oid: ");
                push_option(&mut s, actual_oid);
                append_str(&mut s, ", actual_symbolic_target: ");
                push_option(&mut s, actual_symbolic_target);
                append_str(&mut s, ", delete_error: ");
                let inner = delete_error.debug_rendering();
                append_str(&mut s, inner.as_str());
                append_str(&mut s, ", inspection_error: ");
                match inspection_error {
                    Some(b) => {
                        append_str(&mut s, "Some(");
                        let inner = b.debug_rendering();
                        append_str(&mut s, inner.as_str());
                        append_str(&mut s, ")");
                    },
                    None => append_str(&mut s, "None"),
                }
                append_str(&mut s, " }");
            },
            GitWorkspaceError::BranchDeleteFailed { worktree_path, worktree_removed, branch, expected_oid, actual_oid, actual_symbolic_target, delete_error, inspection_error } => {
                append_str(&mut s, "BranchDeleteFailed { worktree_path: ");
                push_bytes(&mut s, worktree_path);
                append_str(&mut s, ", worktree_removed: ");
                push_bool(&mut s, *worktree_removed);
                append_str(&mut s, ", branch: ");
                push_debug_str(&mut s, branch);
                append_str(&mut s, ", expected_oid: ");
                push_debug_str(&mut s, expected_oid);
                append_str(&mut s, ", actual_oid: ");
                push_option(&mut s, actual_oid);
                append_str(&mut s, ", actual_symbolic_target: ");
                push_option(&mut s, actual_symbolic_target);
                append_str(&mut s, ", delete_error: ");
                let inner = delete_error.debug_rendering();
                append_str(&mut s, inner.as_str());
                append_str(&mut s, ", inspection_error: ");
                match inspection_error {
                    Some(b) => {
                        append_str(&mut s, "Some(");
                        let inner = b.debug_rendering();
                        append_str(&mut s, inner.as_str());
                        append_str(&mut s, ")");
                    },
                    None => append_str(&mut s, "None"),
                }
                append_str(&mut s, " }");
            },
            GitWorkspaceError::InvalidBranchRefRecord { record } => {
                append_str(&mut s, "InvalidBranchRefRecord { record: ");
                push_debug_str(&mut s, record);
                append_str(&mut s, " }");
            },
            GitWorkspaceError::AmbiguousRemoteRef { full_ref, remotes } => {
                append_str(&mut s, "AmbiguousRemoteRef { full_ref: ");
                push_debug_str(&mut s, full_ref);
                append_str(&mut s, ", remotes: ");
                push_list(&mut s, remotes);
                append_str(&mut s, " }");
            },
            GitWorkspaceError::InvalidWorktreeRecord { record } => {
                append_str(&mut s, "InvalidWorktreeRecord { record: ");
                push_debug_str(&mut s, record);
                append_str(&mut s, " }");
            },
            GitWorkspaceError::TargetExists { path } => {
                append_str(&mut s, "TargetExists { path: ");
                push_bytes(&mut s, path);
                append_str(&mut s, " }");
            },
            GitWorkspaceError::TargetInspection { path, source } => {
                append_str(&mut s, "TargetInspection { path: ");
                push_bytes(&mut s, path);
                append_str(&mut s, ", source: ");
                push_debug_str(&mut s, source);
                append_str(&mut s, " }");
            },
            GitWorkspaceError::WorktreeCreationBranchChanged { branch, expected_oid, actual_oid, actual_symbolic_target, create_error } => {
                append_str(&mut s, "WorktreeCreationBranchChanged { branch: ");
                push_debug_str(&mut s, branch);
                append_str(&mut s, ", expected_oid: ");
                push_debug_str(&mut s, expected_oid);
                append_str(&mut s, ", actual_oid: ");
                push_option(&mut s, actual_oid);
                append_str(&mut s, ", actual_symbolic_target: ");
                push_option(&mut s, actual_symbolic_target);
                append_str(&mut s, ", create_error: ");
                let inner = create_error.debug_rendering();
                append_str(&mut s, inner.as_str());
                append_str(&mut s, " }");
            },
            GitWorkspaceError::WorktreeCreationCleanupFailed { branch, create_error, cleanup_error } => {
                append_str(&mut s, "WorktreeCreationCleanupFailed { branch: ");
                push_debug_str(&mut s, branch);
                append_str(&mut s, ", create_error: ");
                let inner = create_error.debug_rendering();
                append_str(&mut s, inner.as_str());
                append_str(&mut s, ", cleanup_error: ");
                let inner = cleanup_error.debug_rendering();
                append_str(&mut s, inner.as_str());
                append_str(&mut s, " }");
            },
            GitWorkspaceError::WorktreeCreationVerificationFailed { worktree_path, branch, expected_oid, verification_error } => {
                append_str(&mut s, "WorktreeCreationVerificationFailed { worktree_path: ");
                push_bytes(&mut s, worktree_path);
                append_str(&mut s, ", branch: ");
                push_debug_str(&mut s, branch);
                append_str(&mut s, ", expected_oid: ");
                push_debug_str(&mut s, expected_oid);
                append_str(&mut s, ", verification_error: ");
                let inner = verification_error.debug_rendering();
                append_str(&mut s, inner.as_str());
                append_str(&mut s, " }");
            },
            GitWorkspaceError::InvalidDirectRefRecord { record } => {
                append_str(&mut s, "InvalidDirectRefRecord { record: ");
                push_debug_str(&mut s, record);
                append_str(&mut s, " }");
            },
            GitWorkspaceError::CreateTarget { path, source } => {
                append_str(&mut s, "CreateTarget { path: ");
                push_bytes(&mut s, path);
                append_str(&mut s, ", source: ");
                push_debug_str(&mut s, source);
                append_str(&mut s, " }");
            },
            GitWorkspaceError::CleanupFailed { path, cleanup_source, clone_error } => {
                append_str(&mut s, "CleanupFailed { path: ");
                push_bytes(&mut s, path);
                append_str(&mut s, ", cleanup_source: ");
                push_debug_str(&mut s, cleanup_source);
                append_str(&mut s, ", clone_error: ");
                let inner = clone_error.debug_rendering();
                append_str(&mut s, inner.as_str());
                append_str(&mut s, " }");
            },
            GitWorkspaceError::RepositoryNameMissing { url } => {
                append_str(&mut s, "RepositoryNameMissing { url: ");
                push_debug_str(&mut s, url);
                append_str(&mut s, " }");
            },
            GitWorkspaceError::InvalidCloneDirectoryName { name } => {
                append_str(&mut s, "InvalidCloneDirectoryName { name: ");
                push_debug_str(&mut s, name);
                append_str(&mut s, " }");
            },
            GitWorkspaceError::BackgroundTaskFailed { operation, message } => {
                append_str(&mut s, "BackgroundTaskFailed { operation: ");
                push_debug_str(&mut s, operation);
                append_str(&mut s, ", message: ");
                push_debug_str(&mut s, message);
                append_str(&mut s, " }");
            },
            _ => {
                return self.ownership_debug_rendering();
            },
        }
        s
    }

    /// The debug rendering of an error of the ownership checks.
    fn ownership_debug_rendering(&self) -> (r: String)
        requires
            is_ownership_error(self@),
        ensures
            r@ == error_debug(self@),
        decreases self, 0nat,
    {
        let mut s = String::new();
        match self {
            GitWorkspaceError::ClaimTarget { path, message } => {
                append_str(&mut s, "ClaimTarget { path: ");
                push_bytes(&mut s, path);
                append_str(&mut s, ", message: ");
                push_debug_str(&mut s, message);
                append_str(&mut s, " }");
            },
            GitWorkspaceError::RemoveClaimedTarget { path, message } => {
                append_str(&mut s, "RemoveClaimedTarget { path: ");
                push_bytes(&mut s, path);
                append_str(&mut s, ", message: ");
                push_debug_str(&mut s, message);
                append_str(&mut s, " }");
            },
            GitWorkspaceError::UnexpectedUpstream { branch, upstream } => {
                append_str(&mut s, "UnexpectedUpstream { branch: ");
                push_debug_str(&mut s, branch);
                append_str(&mut s, ", upstream: ");
                push_debug_str(&mut s, upstream);
                append_str(&mut s, " }");
            },
            GitWorkspaceError::WorktreeCreationFailed { worktree_path, branch, create_error, branch_may_remain, worktree_registered, claimed_directory_removed, cleanup_error } => {
                append_str(&mut s, "WorktreeCreationFailed { worktree_path: ");
                push_bytes(&mut s, worktree_path);
                append_str(&mut s, ", branch: ");
                push_debug_str(&mut s, branch);
                append_str(&mut s, ", create_error: ");
                let inner = create_error.debug_rendering();
                append_str(&mut s, inner.as_str());
                append_str(&mut s, ", branch_may_remain: ");
                push_bool(&mut s, *branch_may_remain);
                append_str(&mut s, ", worktree_registered: ");
                push_bool(&mut s, *worktree_registered);
                append_str(&mut s, ", claimed_directory_removed: ");
                push_bool(&mut s, *claimed_directory_removed);
                append_str(&mut s, ", cleanup_error: ");
                match cleanup_error {
                    Some(b) => {
                        append_str(&mut s, "Some(");
                        let inner = b.debug_rendering();
                        append_str(&mut s, inner.as_str());
                        append_str(&mut s, ")");
                    },
                    None => append_str(&mut s, "None"),
                }
                append_str(&mut s, " }");
            },
            GitWorkspaceError::ReflogUnavailable { branch, path, message } => {
                append_str(&mut s, "ReflogUnavailable { branch: ");
                push_debug_str(&mut s, branch);
                append_str(&mut s, ", path: ");
                push_bytes(&mut s, path);
                append_str(&mut s, ", message: ");
                push_debug_str(&mut s, message);
                append_str(&mut s, " }");
            },
            GitWorkspaceError::BranchGenerationChanged { branch } => {
                append_str(&mut s, "BranchGenerationChanged { branch: ");
                push_debug_str(&mut s, branch);
                append_str(&mut s, " }");
            },
            GitWorkspaceError::RefTransactionFailed { stage, message } => {
                append_str(&mut s, "RefTransactionFailed { stage: ");
                push_debug_str(&mut s, stage);
                append_str(&mut s, ", message: ");
                push_debug_str(&mut s, message);
                append_str(&mut s, " }");
            },
            GitWorkspaceError::TransactionAbortFailed { cause, abort_error } => {
                append_str(&mut s, "TransactionAbortFailed { cause: ");
                let inner = cause.debug_rendering();
                append_str(&mut s, inner.as_str());
                append_str(&mut s, ", abort_error: ");
                let inner = abort_error.debug_rendering();
                append_str(&mut s, inner.as_str());
                append_str(&mut s, " }");
            },
            GitWorkspaceError::BranchDeleteTransactionFailed { worktree_path, worktree_removed, branch_ref, expected_oid, merge_target, merge_target_oid, actual_oid, actual_symbolic_target, transaction_error, inspection_error } => {
                append_str(&mut s, "BranchDeleteTransactionFailed { worktree_path: ");
                push_bytes(&mut s, worktree_path);
                append_str(&mut s, ", worktree_removed: ");
                push_bool(&mut s, *worktree_removed);
                append_str(&mut s, ", branch_ref: ");
                push_debug_str(&mut s, branch_ref);
                append_str(&mut s, ", expected_oid: ");
                push_debug_str(&mut s, expected_oid);
                append_str(&mut s, ", merge_target: ");
                push_debug_str(&mut s, merge_target);
                append_str(&mut s, ", merge_target_oid: ");
                push_debug_str(&mut s, merge_target_oid);
                append_str(&mut s, ", actual_oid: ");
                push_option(&mut s, actual_oid);
                append_str(&mut s, ", actual_symbolic_target: ");
                push_option(&mut s, actual_symbolic_target);
                append_str(&mut s, ", transaction_error: ");
                let inner = transaction_error.debug_rendering();
                append_str(&mut s, inner.as_str());
                append_str(&mut s, ", inspection_error: ");
                match inspection_error {
                    Some(b) => {
                        append_str(&mut s, "Some(");
                        let inner = b.debug_rendering();
                        append_str(&mut s, inner.as_str());
                        append_str(&mut s, ")");
                    },
                    None => append_str(&mut s, "None"),
                }
                append_str(&mut s, " }");
            },
            GitWorkspaceError::ClaimedTargetChanged { path } => {
                append_str(&mut s, "ClaimedTargetChanged { path: ");
                push_bytes(&mut s, path);
                append_str(&mut s, " }");
            },
            _ => {
                return vstd::pervasive::unreached();
            },
        }
        s
    }
}

} // verus!
