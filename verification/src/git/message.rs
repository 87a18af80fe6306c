//! The text each error shows to a user.
use vstd::prelude::*;

use crate::git::command::debug_text;
use crate::git::debug::error_debug;
use crate::git::types::{GitErrorView, GitWorkspaceError};
use crate::text::{append_str, lossy_text, utf8_lossy};

verus! {

/// How a path shows in a message: its bytes decoded, invalid sequences replaced.
pub open spec fn path_text(p: Seq<u8>) -> Seq<char> {
    lossy_text(p)
}

/// The `{:?}` renderings of texts, separated by `", "`.
pub open spec fn joined_debug(items: Seq<Seq<char>>) -> Seq<char>
    decreases items.len(),
{
    if items.len() == 0 {
        Seq::empty()
    } else if items.len() == 1 {
        debug_text(items[0])
    } else {
        joined_debug(items.drop_last()) + ", "@ + debug_text(items.last())
    }
}

/// How `{:?}` renders a list of texts: `["a", "b"]`.
pub open spec fn list_debug(items: Seq<Seq<char>>) -> Seq<char> {
    "["@ + joined_debug(items) + "]"@
}

/// How `{:?}` renders an optional text: `None` or `Some("a")`.
pub open spec fn option_debug(o: Option<Seq<char>>) -> Seq<char> {
    match o {
        None => "None"@,
        Some(t) => "Some("@ + debug_text(t) + ")"@,
    }
}

/// How `{:?}` renders an optional boxed error.
pub open spec fn inspection_debug(o: Option<Box<GitErrorView>>) -> Seq<char> {
    match o {
        None => "None"@,
        Some(b) => "Some("@ + error_debug(*b) + ")"@,
    }
}

/// The message of an error.
pub open spec fn error_message(e: GitErrorView) -> Seq<char>
    decreases e,
{
    match e {
        GitErrorView::Canonicalize { path, source } => "failed to canonicalize `"@ + path_text(path) + "`: "@ + source,
        GitErrorView::NotRepositoryRoot { selected, root } => "selected path `"@ + path_text(selected) + "` is not repository root `"@
            + path_text(root) + "`"@,
        GitErrorView::LinkedWorktree { git_dir, common_dir } => "linked worktree cannot be registered as a repository: git dir `"@
            + path_text(git_dir) + "`, common dir `"@ + path_text(common_dir) + "`"@,
        GitErrorView::RemoteNotFound { repo } => "repository `"@ + path_text(repo) + "` has no configured remote"@,
        GitErrorView::DefaultBranchNotFound { repo, remote, stderr } => "remote `"@ + remote + "` in repository `"@ + path_text(repo)
            + "` has no default branch: "@ + stderr,
        GitErrorView::CommandIo { operation, args, source } => "failed to execute git for "@ + operation + " with arguments "@
            + list_debug(args) + ": "@ + source,
        GitErrorView::CommandFailed { operation, args, stderr } => "git failed to "@ + operation + " with arguments "@ + list_debug(
            args,
        ) + ": "@ + stderr,
        GitErrorView::InvalidUtf8 { operation } => "git returned invalid UTF-8 while attempting to "@ + operation,
        GitErrorView::InvalidBranchRef { full_ref } => "git returned invalid branch ref `"@ + full_ref + "`"@,
        GitErrorView::InvalidRemoteRef { full_ref } => "selected remote ref `"@ + full_ref
            + "` is not a direct ref of a configured remote"@,
        GitErrorView::BranchNotFound { full_ref } => "branch ref `"@ + full_ref + "` does not exist"@,
        GitErrorView::InvalidBranchName { branch } => "branch name `"@ + branch + "` is invalid"@,
        GitErrorView::BranchAlreadyExists { branch } => "local branch `"@ + branch + "` already exists"@,
        GitErrorView::BranchClaimFailed { branch, expected_oid, claim_error } => "failed to atomically claim local branch `"@ + branch
            + "` at expected OID "@ + expected_oid + ": "@ + error_message(*claim_error),
        GitErrorView::BranchAlreadyCheckedOut { branch, path } => "local branch `"@ + branch + "` is already checked out at `"@
            + path_text(path) + "`"@,
        GitErrorView::WorktreeNotFound { path } => "worktree `"@ + path_text(path) + "` is not registered in the repository"@,
        GitErrorView::AmbiguousWorktree { path } => "worktree `"@ + path_text(path) + "` appears more than once in the repository"@,
        GitErrorView::WorktreeHasNoLocalBranch { path } => "worktree `"@ + path_text(path) + "` does not check out a local branch"@,
        GitErrorView::DirtyWorktree { path } => "worktree `"@ + path_text(path) + "` contains uncommitted changes"@,
        GitErrorView::WorktreeBranchMismatch { expected, actual } => "worktree branch mismatch: expected `"@ + expected
            + "`, found `"@ + actual + "`"@,
        GitErrorView::BranchNotMerged { branch, merge_target } => "branch `"@ + branch + "` is not merged into `"@ + merge_target
            + "`"@,
        GitErrorView::BranchChanged { branch, expected_oid, actual_oid, .. } => "branch `"@ + branch
            + "` changed after preflight: expected "@ + expected_oid + ", found "@ + option_debug(actual_oid),
        GitErrorView::BranchDeleteNotCompleted { full_ref, expected_oid } => "git reported success deleting branch ref `"@ + full_ref
            + "` at expected OID "@ + expected_oid + ", but deletion could not be confirmed"@,
        GitErrorView::BranchCleanupFailed {
            full_ref,
            expected_oid,
            actual_oid,
            actual_symbolic_target,
            delete_error,
            inspection_error,
        } => "failed to clean up branch ref `"@ + full_ref + "` at expected OID "@ + expected_oid + ": "@ + error_message(*delete_error)
            + "; current direct OID "@ + option_debug(actual_oid) + ", symbolic target "@ + option_debug(actual_symbolic_target)
            + ", inspection error "@ + inspection_debug(inspection_error),
        GitErrorView::BranchDeleteFailed {
            worktree_path,
            branch,
            expected_oid,
            actual_oid,
            actual_symbolic_target,
            delete_error,
            inspection_error,
            ..
        } => "worktree `"@ + path_text(worktree_path) + "` was removed, but deleting branch `"@ + branch + "` at expected OID "@
            + expected_oid + " failed: "@ + error_message(*delete_error) + "; current direct OID "@ + option_debug(actual_oid)
            + ", symbolic target "@ + option_debug(actual_symbolic_target) + ", inspection error "@ + inspection_debug(
            inspection_error,
        ),
        GitErrorView::InvalidBranchRefRecord { record } => "git returned invalid branch ref record `"@ + record + "`"@,
        GitErrorView::AmbiguousRemoteRef { full_ref, remotes } => "remote ref `"@ + full_ref + "` matches multiple remotes: "@
            + list_debug(remotes),
        GitErrorView::InvalidWorktreeRecord { record } => "git returned invalid worktree record: "@ + record,
        GitErrorView::TargetExists { path } => "target `"@ + path_text(path) + "` already exists"@,
        GitErrorView::TargetInspection { path, source } => "failed to inspect target `"@ + path_text(path) + "`: "@ + source,
        GitErrorView::WorktreeCreationBranchChanged { branch, expected_oid, actual_oid, actual_symbolic_target, create_error } =>
            "worktree creation for branch `"@ + branch + "` failed and the branch changed from expected OID "@ + expected_oid
            + " to direct OID "@ + option_debug(actual_oid) + ", symbolic target "@ + option_debug(actual_symbolic_target) + ": "@
            + error_message(*create_error),
        GitErrorView::WorktreeCreationCleanupFailed { branch, create_error, cleanup_error } => "worktree creation for branch `"@
            + branch + "` failed: "@ + error_message(*create_error) + "; branch cleanup also failed: "@ + error_message(
            *cleanup_error,
        ),
        GitErrorView::WorktreeCreationVerificationFailed { worktree_path, branch, expected_oid, verification_error } => "worktree `"@
            + path_text(worktree_path) + "` for branch `"@ + branch + "` was created but could not be verified at expected OID "@
            + expected_oid + "; the worktree and branch may remain: "@ + error_message(*verification_error),
        GitErrorView::InvalidDirectRefRecord { record } => "git returned invalid direct ref record `"@ + record + "`"@,
        GitErrorView::CreateTarget { path, source } => "failed to create clone target `"@ + path_text(path) + "`: "@ + source,
        GitErrorView::CleanupFailed { path, cleanup_source, clone_error } => "clone failed: "@ + error_message(*clone_error)
            + "; target `"@ + path_text(path) + "` could not be cleaned up: "@ + cleanup_source,
        GitErrorView::RepositoryNameMissing { url } => "Git URL `"@ + url + "` does not contain a repository name"@,
        GitErrorView::InvalidCloneDirectoryName { name } => "clone directory name `"@ + name
            + "` must be a single normal path component"@,
        GitErrorView::BackgroundTaskFailed { operation, message } => "background Git operation `"@ + operation + "` failed: "@
            + message,
        GitErrorView::ClaimTarget { path, message } => "failed to claim worktree target `"@ + path_text(path) + "`: "@ + message,
        GitErrorView::RemoveClaimedTarget { path, message } => "failed to remove claimed worktree target `"@ + path_text(path) + "`: "@ + message,
        GitErrorView::UnexpectedUpstream { branch, upstream } => "branch `"@ + branch + "` has upstream `"@ + upstream + "` configured"@,
        GitErrorView::WorktreeCreationFailed { worktree_path, branch, create_error, branch_may_remain, worktree_registered, claimed_directory_removed, cleanup_error } => "creating worktree `"@ + path_text(worktree_path) + "` for branch `"@ + branch + "` failed: "@ + error_message(*create_error) + "; branch may remain: "@ + crate::git::debug::bool_text(branch_may_remain) + ", worktree registered: "@ + crate::git::debug::bool_text(worktree_registered) + ", claimed directory removed: "@ + crate::git::debug::bool_text(claimed_directory_removed) + ", cleanup error "@ + inspection_debug(cleanup_error),
        GitErrorView::ReflogUnavailable { branch, path, message } => "reflog `"@ + path_text(path) + "` of branch `"@ + branch + "` cannot be read: "@ + message,
        GitErrorView::BranchGenerationChanged { branch } => "branch `"@ + branch + "` changed generation since the preflight"@,
        GitErrorView::RefTransactionFailed { stage, message } => "ref transaction failed to "@ + stage + ": "@ + message,
        GitErrorView::TransactionAbortFailed { cause, abort_error } => error_message(*cause) + "; the ref transaction could not be aborted: "@ + error_message(*abort_error),
        GitErrorView::BranchDeleteTransactionFailed { worktree_path, worktree_removed, branch_ref, expected_oid, merge_target, merge_target_oid, actual_oid, actual_symbolic_target, transaction_error, inspection_error } => "worktree `"@ + path_text(worktree_path) + "` was removed, but the ref transaction deleting `"@ + branch_ref + "` at expected OID "@ + expected_oid + " (merge target `"@ + merge_target + "` at "@ + merge_target_oid + ") failed: "@ + error_message(*transaction_error) + "; current direct OID "@ + option_debug(actual_oid) + ", symbolic target "@ + option_debug(actual_symbolic_target) + ", inspection error "@ + inspection_debug(inspection_error),
        GitErrorView::ClaimedTargetChanged { path } => "claimed worktree target `"@ + path_text(path) + "` is no longer a directory"@,
    }
}

fn push_path(s: &mut String, p: &Vec<u8>)
    ensures
        final(s)@ == old(s)@ + path_text(p@),
{
    let t = utf8_lossy(p.as_slice());
    append_str(s, t.as_str());
}

pub(crate) fn push_list(s: &mut String, items: &Vec<String>)
    ensures
        final(s)@ == old(s)@ + list_debug(crate::git::types::texts_view(items@)),
{
    let ghost start = old(s)@;
    let ghost views = crate::git::types::texts_view(items@);
    append_str(s, "[");
    let ghost opened = s@;
    let mut i: usize = 0;
    while i < items.len()
        invariant
            0 <= i <= items@.len(),
            views == crate::git::types::texts_view(items@),
            s@ == opened + joined_debug(views.take(i as int)),
        decreases items@.len() - i,
    {
        let ghost before = s@;
        if i > 0 {
            append_str(s, ", ");
        }
        let d = crate::git::command::debug_string(items[i].as_str());
        append_str(s, d.as_str());
        i = i + 1;
        proof {
            let t = views.take(i as int);
            assert(t.drop_last() =~= views.take(i - 1));
            if i == 1 {
                assert(joined_debug(views.take(0)) =~= Seq::<char>::empty());
                assert(s@ =~= opened + joined_debug(t));
            } else {
                assert(s@ =~= opened + joined_debug(t));
            }
        }
    }
    assert(views.take(items@.len() as int) =~= views);
    append_str(s, "]");
    assert(s@ =~= start + list_debug(views));
}

pub(crate) fn push_option(s: &mut String, o: &Option<String>)
    ensures
        final(s)@ == old(s)@ + option_debug(crate::git::types::opt_text(*o)),
{
    match o {
        None => append_str(s, "None"),
        Some(t) => {
            let ghost start = s@;
            append_str(s, "Some(");
            let d = crate::git::command::debug_string(t.as_str());
            append_str(s, d.as_str());
            append_str(s, ")");
            assert(s@ =~= start + ("Some("@ + debug_text(t@) + ")"@));
        },
    }
}

fn push_inspection(s: &mut String, o: &Option<Box<GitWorkspaceError>>)
    ensures
        final(s)@ == old(s)@ + inspection_debug(match *o {
            Some(b) => Some(Box::new((*b)@)),
            None => None,
        }),
{
    match o {
        None => append_str(s, "None"),
        Some(b) => {
            let ghost start = s@;
            append_str(s, "Some(");
            let d = b.debug_rendering();
            append_str(s, d.as_str());
            append_str(s, ")");
            assert(s@ =~= start + ("Some("@ + error_debug((**b)@) + ")"@));
        },
    }
}

impl GitWorkspaceError {
    /// The text that shows this error to a user.
    #[verifier::rlimit(60)]
    pub fn message(&self) -> (r: String)
        ensures
            r@ == error_message(self@),
        decreases self,
    {
        let mut s = String::new();
        match self {
            GitWorkspaceError::Canonicalize { path, source } => {
                append_str(&mut s, "failed to canonicalize `");
                push_path(&mut s, path);
                append_str(&mut s, "`: ");
                append_str(&mut s, source.as_str());
            },
            GitWorkspaceError::NotRepositoryRoot { selected, root } => {
                append_str(&mut s, "selected path `");
                push_path(&mut s, selected);
                append_str(&mut s, "` is not repository root `");
                push_path(&mut s, root);
                append_str(&mut s, "`");
            },
            GitWorkspaceError::LinkedWorktree { git_dir, common_dir } => {
                append_str(&mut s, "linked worktree cannot be registered as a repository: git dir `");
                push_path(&mut s, git_dir);
                append_str(&mut s, "`, common dir `");
                push_path(&mut s, common_dir);
                append_str(&mut s, "`");
            },
            GitWorkspaceError::RemoteNotFound { repo } => {
                append_str(&mut s, "repository `");
                push_path(&mut s, repo);
                append_str(&mut s, "` has no configured remote");
            },
            GitWorkspaceError::DefaultBranchNotFound { repo, remote, stderr } => {
                append_str(&mut s, "remote `");
                append_str(&mut s, remote.as_str());
                append_str(&mut s, "` in repository `");
                push_path(&mut s, repo);
                append_str(&mut s, "` has no default branch: ");
                append_str(&mut s, stderr.as_str());
            },
            GitWorkspaceError::CommandIo { operation, args, source } => {
                append_str(&mut s, "failed to execute git for ");
                append_str(&mut s, operation.as_str());
                append_str(&mut s, " with arguments ");
                push_list(&mut s, args);
                append_str(&mut s, ": ");
                append_str(&mut s, source.as_str());
            },
            GitWorkspaceError::CommandFailed { operation, args, stderr } => {
                append_str(&mut s, "git failed to ");
                append_str(&mut s, operation.as_str());
                append_str(&mut s, " with arguments ");
                push_list(&mut s, args);
                append_str(&mut s, ": ");
                append_str(&mut s, stderr.as_str());
            },
            GitWorkspaceError::InvalidUtf8 { operation } => {
                append_str(&mut s, "git returned invalid UTF-8 while attempting to ");
                append_str(&mut s, operation.as_str());
            },
            GitWorkspaceError::InvalidBranchRef { full_ref } => {
                append_str(&mut s, "git returned invalid branch ref `");
                append_str(&mut s, full_ref.as_str());
                append_str(&mut s, "`");
            },
            GitWorkspaceError::InvalidRemoteRef { full_ref } => {
                append_str(&mut s, "selected remote ref `");
                append_str(&mut s, full_ref.as_str());
                append_str(&mut s, "` is not a direct ref of a configured remote");
            },
            GitWorkspaceError::BranchNotFound { full_ref } => {
                append_str(&mut s, "branch ref `");
                append_str(&mut s, full_ref.as_str());
                append_str(&mut s, "` does not exist");
            },
            GitWorkspaceError::InvalidBranchName { branch } => {
                append_str(&mut s, "branch name `");
                append_str(&mut s, branch.as_str());
                append_str(&mut s, "` is invalid");
            },
            GitWorkspaceError::BranchAlreadyExists { branch } => {
                append_str(&mut s, "local branch `");
                append_str(&mut s, branch.as_str());
                append_str(&mut s, "` already exists");
            },
            GitWorkspaceError::BranchClaimFailed { branch, expected_oid, claim_error } => {
                append_str(&mut s, "failed to atomically claim local branch `");
                append_str(&mut s, branch.as_str());
                append_str(&mut s, "` at expected OID ");
                append_str(&mut s, expected_oid.as_str());
                append_str(&mut s, ": ");
                let inner = claim_error.message();
                append_str(&mut s, inner.as_str());
            },
            GitWorkspaceError::BranchAlreadyCheckedOut { branch, path } => {
                append_str(&mut s, "local branch `");
                append_str(&mut s, branch.as_str());
                append_str(&mut s, "` is already checked out at `");
                push_path(&mut s, path);
                append_str(&mut s, "`");
            },
            GitWorkspaceError::WorktreeNotFound { path } => {
                append_str(&mut s, "worktree `");
                push_path(&mut s, path);
                append_str(&mut s, "` is not registered in the repository");
            },
            GitWorkspaceError::AmbiguousWorktree { path } => {
                append_str(&mut s, "worktree `");
                push_path(&mut s, path);
                append_str(&mut s, "` appears more than once in the repository");
            },
            GitWorkspaceError::WorktreeHasNoLocalBranch { path } => {
                append_str(&mut s, "worktree `");
                push_path(&mut s, path);
                append_str(&mut s, "` does not check out a local branch");
            },
            GitWorkspaceError::DirtyWorktree { path } => {
                append_str(&mut s, "worktree `");
                push_path(&mut s, path);
                append_str(&mut s, "` contains uncommitted changes");
            },
            GitWorkspaceError::WorktreeBranchMismatch { expected, actual } => {
                append_str(&mut s, "worktree branch mismatch: expected `");
                append_str(&mut s, expected.as_str());
                append_str(&mut s, "`, found `");
                append_str(&mut s, actual.as_str());
                append_str(&mut s, "`");
            },
            GitWorkspaceError::BranchNotMerged { branch, merge_target } => {
                append_str(&mut s, "branch `");
                append_str(&mut s, branch.as_str());
                append_str(&mut s, "` is not merged into `");
                append_str(&mut s, merge_target.as_str());
                append_str(&mut s, "`");
            },
            GitWorkspaceError::BranchChanged { branch, expected_oid, actual_oid, .. } => {
                append_str(&mut s, "branch `");
                append_str(&mut s, branch.as_str());
                append_str(&mut s, "` changed after preflight: expected ");
                append_str(&mut s, expected_oid.as_str());
                append_str(&mut s, ", found ");
                push_option(&mut s, actual_oid);
            },
            GitWorkspaceError::BranchDeleteNotCompleted { full_ref, expected_oid } => {
                append_str(&mut s, "git reported success deleting branch ref `");
                append_str(&mut s, full_ref.as_str());
                append_str(&mut s, "` at expected OID ");
                append_str(&mut s, expected_oid.as_str());
                append_str(&mut s, ", but deletion could not be confirmed");
            },
            GitWorkspaceError::BranchCleanupFailed { full_ref, expected_oid, actual_oid, actual_symbolic_target, delete_error, inspection_error } => {
                append_str(&mut s, "failed to clean up branch ref `");
                append_str(&mut s, full_ref.as_str());
                append_str(&mut s, "` at expected OID ");
                append_str(&mut s, expected_oid.as_str());
                append_str(&mut s, ": ");
                let inner = delete_error.message();
                append_str(&mut s, inner.as_str());
                append_str(&mut s, "; current direct OID ");
                push_option(&mut s, actual_oid);
                append_str(&mut s, ", symbolic target ");
                push_option(&mut s, actual_symbolic_target);
                append_str(&mut s, ", inspection error ");
                push_inspection(&mut s, inspection_error);
            },
            GitWorkspaceError::BranchDeleteFailed { worktree_path, branch, expected_oid, actual_oid, actual_symbolic_target, delete_error, inspection_error, .. } => {
                append_str(&mut s, "worktree `");
                push_path(&mut s, worktree_path);
                append_str(&mut s, "` was removed, but deleting branch `");
                append_str(&mut s, branch.as_str());
                append_str(&mut s, "` at expected OID ");
                append_str(&mut s, expected_oid.as_str());
                append_str(&mut s, " failed: ");
                let inner = delete_error.message();
                append_str(&mut s, inner.as_str());
                append_str(&mut s, "; current direct OID ");
                push_option(&mut s, actual_oid);
                append_str(&mut s, ", symbolic target ");
                push_option(&mut s, actual_symbolic_target);
                append_str(&mut s, ", inspection error ");
                push_inspection(&mut s, inspection_error);
            },
            GitWorkspaceError::InvalidBranchRefRecord { record } => {
                append_str(&mut s, "git returned invalid branch ref record `");
                append_str(&mut s, record.as_str());
                append_str(&mut s, "`");
            },
            GitWorkspaceError::AmbiguousRemoteRef { full_ref, remotes } => {
                append_str(&mut s, "remote ref `");
                append_str(&mut s, full_ref.as_str());
                append_str(&mut s, "` matches multiple remotes: ");
                push_list(&mut s, remotes);
            },
            GitWorkspaceError::InvalidWorktreeRecord { record } => {
                append_str(&mut s, "git returned invalid worktree record: ");
                append_str(&mut s, record.as_str());
            },
            GitWorkspaceError::TargetExists { path } => {
                append_str(&mut s, "target `");
                push_path(&mut s, path);
                append_str(&mut s, "` already exists");
            },
            GitWorkspaceError::TargetInspection { path, source } => {
                append_str(&mut s, "failed to inspect target `");
                push_path(&mut s, path);
                append_str(&mut s, "`: ");
                append_str(&mut s, source.as_str());
            },
            GitWorkspaceError::WorktreeCreationBranchChanged { branch, expected_oid, actual_oid, actual_symbolic_target, create_error } => {
                append_str(&mut s, "worktree creation for branch `");
                append_str(&mut s, branch.as_str());
                append_str(&mut s, "` failed and the branch changed from expected OID ");
                append_str(&mut s, expected_oid.as_str());
                append_str(&mut s, " to direct OID ");
                push_option(&mut s, actual_oid);
                append_str(&mut s, ", symbolic target ");
                push_option(&mut s, actual_symbolic_target);
                append_str(&mut s, ": ");
                let inner = create_error.message();
                append_str(&mut s, inner.as_str());
            },
            GitWorkspaceError::WorktreeCreationCleanupFailed { branch, create_error, cleanup_error } => {
                append_str(&mut s, "worktree creation for branch `");
                append_str(&mut s, branch.as_str());
                append_str(&mut s, "` failed: ");
                let inner = create_error.message();
                append_str(&mut s, inner.as_str());
                append_str(&mut s, "; branch cleanup also failed: ");
                let inner = cleanup_error.message();
                append_str(&mut s, inner.as_str());
            },
            GitWorkspaceError::WorktreeCreationVerificationFailed { worktree_path, branch, expected_oid, verification_error } => {
                append_str(&mut s, "worktree `");
                push_path(&mut s, worktree_path);
                append_str(&mut s, "` for branch `");
                append_str(&mut s, branch.as_str());
                append_str(&mut s, "` was created but could not be verified at expected OID ");
                append_str(&mut s, expected_oid.as_str());
                append_str(&mut s, "; the worktree and branch may remain: ");
                let inner = verification_error.message();
                append_str(&mut s, inner.as_str());
            },
            GitWorkspaceError::InvalidDirectRefRecord { record } => {
                append_str(&mut s, "git returned invalid direct ref record `");
                append_str(&mut s, record.as_str());
                append_str(&mut s, "`");
            },
            GitWorkspaceError::CreateTarget { path, source } => {
                append_str(&mut s, "failed to create clone target `");
                push_path(&mut s, path);
                append_str(&mut s, "`: ");
                append_str(&mut s, source.as_str());
            },
            GitWorkspaceError::CleanupFailed { path, cleanup_source, clone_error } => {
                append_str(&mut s, "clone failed: ");
                let inner = clone_error.message();
                append_str(&mut s, inner.as_str());
                append_str(&mut s, "; target `");
                push_path(&mut s, path);
                append_str(&mut s, "` could not be cleaned up: ");
                append_str(&mut s, cleanup_source.as_str());
            },
            GitWorkspaceError::RepositoryNameMissing { url } => {
                append_str(&mut s, "Git URL `");
                append_str(&mut s, url.as_str());
                append_str(&mut s, "` does not contain a repository name");
            },
            GitWorkspaceError::InvalidCloneDirectoryName { name } => {
                append_str(&mut s, "clone directory name `");
                append_str(&mut s, name.as_str());
                append_str(&mut s, "` must be a single normal path component");
            },
            GitWorkspaceError::BackgroundTaskFailed { operation, message } => {
                append_str(&mut s, "background Git operation `");
                append_str(&mut s, operation.as_str());
                append_str(&mut s, "` failed: ");
                append_str(&mut s, message.as_str());
            },
            GitWorkspaceError::ClaimTarget { path, message } => {
                append_str(&mut s, "failed to claim worktree target `");
                push_path(&mut s, path);
                append_str(&mut s, "`: ");
                append_str(&mut s, message.as_str());
            },
            GitWorkspaceError::RemoveClaimedTarget { path, message } => {
                append_str(&mut s, "failed to remove claimed worktree target `");
                push_path(&mut s, path);
                append_str(&mut s, "`: ");
                append_str(&mut s, message.as_str());
            },
            GitWorkspaceError::UnexpectedUpstream { branch, upstream } => {
                append_str(&mut s, "branch `");
                append_str(&mut s, branch.as_str());
                append_str(&mut s, "` has upstream `");
                append_str(&mut s, upstream.as_str());
                append_str(&mut s, "` configured");
            },
            GitWorkspaceError::WorktreeCreationFailed { worktree_path, branch, create_error, branch_may_remain, worktree_registered, claimed_directory_removed, cleanup_error } => {
                append_str(&mut s, "creating worktree `");
                push_path(&mut s, worktree_path);
                append_str(&mut s, "` for branch `");
                append_str(&mut s, branch.as_str());
                append_str(&mut s, "` failed: ");
                let inner = create_error.message();
                append_str(&mut s, inner.as_str());
                append_str(&mut s, "; branch may remain: ");
                crate::git::debug::push_bool(&mut s, *branch_may_remain);
                append_str(&mut s, ", worktree registered: ");
                crate::git::debug::push_bool(&mut s, *worktree_registered);
                append_str(&mut s, ", claimed directory removed: ");
                crate::git::debug::push_bool(&mut s, *claimed_directory_removed);
                append_str(&mut s, ", cleanup error ");
                push_inspection(&mut s, cleanup_error);
            },
            GitWorkspaceError::ReflogUnavailable { branch, path, message } => {
                append_str(&mut s, "reflog `");
                push_path(&mut s, path);
                append_str(&mut s, "` of branch `");
                append_str(&mut s, branch.as_str());
                append_str(&mut s, "` cannot be read: ");
                append_str(&mut s, message.as_str());
            },
            GitWorkspaceError::BranchGenerationChanged { branch } => {
                append_str(&mut s, "branch `");
                append_str(&mut s, branch.as_str());
                append_str(&mut s, "` changed generation since the preflight");
            },
            GitWorkspaceError::RefTransactionFailed { stage, message } => {
                append_str(&mut s, "ref transaction failed to ");
                append_str(&mut s, stage.as_str());
                append_str(&mut s, ": ");
                append_str(&mut s, message.as_str());
            },
            GitWorkspaceError::TransactionAbortFailed { cause, abort_error } => {
                let inner = cause.message();
                append_str(&mut s, inner.as_str());
                append_str(&mut s, "; the ref transaction could not be aborted: ");
                let inner = abort_error.message();
                append_str(&mut s, inner.as_str());
            },
            GitWorkspaceError::BranchDeleteTransactionFailed { worktree_path, worktree_removed, branch_ref, expected_oid, merge_target, merge_target_oid, actual_oid, actual_symbolic_target, transaction_error, inspection_error } => {
                append_str(&mut s, "worktree `");
                push_path(&mut s, worktree_path);
                append_str(&mut s, "` was removed, but the ref transaction deleting `");
                append_str(&mut s, branch_ref.as_str());
                append_str(&mut s, "` at expected OID ");
                append_str(&mut s, expected_oid.as_str());
                append_str(&mut s, " (merge target `");
                append_str(&mut s, merge_target.as_str());
                append_str(&mut s, "` at ");
                append_str(&mut s, merge_target_oid.as_str());
                append_str(&mut s, ") failed: ");
                let inner = transaction_error.message();
                append_str(&mut s, inner.as_str());
                append_str(&mut s, "; current direct OID ");
                push_option(&mut s, actual_oid);
                append_str(&mut s, ", symbolic target ");
                push_option(&mut s, actual_symbolic_target);
                append_str(&mut s, ", inspection error ");
                push_inspection(&mut s, inspection_error);
            },
            GitWorkspaceError::ClaimedTargetChanged { path } => {
                append_str(&mut s, "claimed worktree target `");
                push_path(&mut s, path);
                append_str(&mut s, "` is no longer a directory");
            },
        }
        s
    }
}

} // verus!
