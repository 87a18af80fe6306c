//! Records that Git operations hand back, and their errors.
use vstd::prelude::*;

verus! {

/// A branch ref, keeping its full refname rather than guessing its kind from a name prefix.
#[derive(Clone, Debug, PartialEq, Eq)]
pub enum BranchRef {
    Local { name: String, full_ref: String },
    Remote { remote: String, name: String, full_ref: String },
}

/// Model of a branch ref.
pub enum BranchRefView {
    Local { name: Seq<char>, full_ref: Seq<char> },
    Remote { remote: Seq<char>, name: Seq<char>, full_ref: Seq<char> },
}

impl View for BranchRef {
    type V = BranchRefView;

    open spec fn view(&self) -> BranchRefView {
        match self {
            BranchRef::Local { name, full_ref } => BranchRefView::Local { name: name@, full_ref: full_ref@ },
            BranchRef::Remote { remote, name, full_ref } => BranchRefView::Remote {
                remote: remote@,
                name: name@,
                full_ref: full_ref@,
            },
        }
    }
}

/// Models of branch refs.
pub open spec fn branch_ref_views(s: Seq<BranchRef>) -> Seq<BranchRefView> {
    s.map_values(|b: BranchRef| b@)
}

/// The texts of a list of strings.
pub open spec fn texts_view(s: Seq<String>) -> Seq<Seq<char>> {
    s.map_values(|t: String| t@)
}

/// The text of an optional string.
pub open spec fn opt_text(s: Option<String>) -> Option<Seq<char>> {
    match s {
        Some(t) => Some(t@),
        None => None,
    }
}

/// A repository checked to be a main working tree with a remote and a remote default branch.
#[derive(Clone, Debug, PartialEq, Eq)]
pub struct ValidatedRepository {
    pub root: Vec<u8>,
    pub remote: String,
    pub remote_url: String,
    pub default_branch: BranchRef,
}

/// A worktree as `git worktree list --porcelain -z` describes it; `path` is canonical.
#[derive(Clone, Debug, PartialEq, Eq)]
pub struct WorktreeInfo {
    pub path: Vec<u8>,
    pub head: Option<String>,
    pub branch: Option<String>,
    pub is_bare: bool,
    pub is_detached: bool,
    pub is_locked: bool,
    pub locked_reason: Option<String>,
    pub is_prunable: bool,
    pub prunable_reason: Option<String>,
}

/// Model of a worktree record.
pub struct WorktreeView {
    pub path: Seq<u8>,
    pub head: Option<Seq<char>>,
    pub branch: Option<Seq<char>>,
    pub is_bare: bool,
    pub is_detached: bool,
    pub is_locked: bool,
    pub locked_reason: Option<Seq<char>>,
    pub is_prunable: bool,
    pub prunable_reason: Option<Seq<char>>,
}

impl View for WorktreeInfo {
    type V = WorktreeView;

    open spec fn view(&self) -> WorktreeView {
        WorktreeView {
            path: self.path@,
            head: opt_text(self.head),
            branch: opt_text(self.branch),
            is_bare: self.is_bare,
            is_detached: self.is_detached,
            is_locked: self.is_locked,
            locked_reason: opt_text(self.locked_reason),
            is_prunable: self.is_prunable,
            prunable_reason: opt_text(self.prunable_reason),
        }
    }
}

/// Models of worktree records.
pub open spec fn worktree_views(s: Seq<WorktreeInfo>) -> Seq<WorktreeView> {
    s.map_values(|w: WorktreeInfo| w@)
}

/// Read-only checks before removing a linked worktree.
#[derive(Clone, Debug, PartialEq, Eq)]
pub struct DeletionPreflight {
    /// The canonical registered path from the worktree list.
    pub worktree_path: Vec<u8>,
    /// Short name of the local branch the worktree checks out.
    pub branch: String,
    /// Commit the branch pointed at during the checks.
    pub branch_oid: String,
    /// Whether the branch is merged into `merge_target`; `true` when branch deletion was not asked for.
    pub is_merged: bool,
    /// Full ref used for the merge check; empty when branch deletion was not asked for.
    pub merge_target: String,
    /// Commit `merge_target` pointed at when the merge was checked; empty
    /// when branch deletion was not asked for.
    pub merge_target_oid: String,
    /// Where the branch's reflog is; empty when branch deletion was not asked for.
    pub reflog_path: Vec<u8>,
    /// The SHA-256 digest of the reflog's bytes during the checks: the
    /// branch's generation, which every update, deletion or re-creation by
    /// Git changes; empty when
    /// branch deletion was not asked for.
    pub generation: Vec<u8>,
}

/// Model of a deletion preflight.
pub struct PreflightView {
    pub worktree_path: Seq<u8>,
    pub branch: Seq<char>,
    pub branch_oid: Seq<char>,
    pub is_merged: bool,
    pub merge_target: Seq<char>,
    pub merge_target_oid: Seq<char>,
    pub reflog_path: Seq<u8>,
    pub generation: Seq<u8>,
}

impl View for DeletionPreflight {
    type V = PreflightView;

    open spec fn view(&self) -> PreflightView {
        PreflightView {
            worktree_path: self.worktree_path@,
            branch: self.branch@,
            branch_oid: self.branch_oid@,
            is_merged: self.is_merged,
            merge_target: self.merge_target@,
            merge_target_oid: self.merge_target_oid@,
            reflog_path: self.reflog_path@,
            generation: self.generation@,
        }
    }
}

/// Errors of repository workspace Git operations.
#[derive(Debug)]
pub enum GitWorkspaceError {
    /// A path could not be canonicalized; `source` is the I/O error's text.
    Canonicalize { path: Vec<u8>, source: String },
    /// The selected path is not the repository's top-level directory.
    NotRepositoryRoot { selected: Vec<u8>, root: Vec<u8> },
    /// A linked worktree cannot be registered as a repository.
    LinkedWorktree { git_dir: Vec<u8>, common_dir: Vec<u8> },
    /// The repository has no configured remote.
    RemoteNotFound { repo: Vec<u8> },
    /// The remote has no usable default branch (`refs/remotes/<remote>/HEAD`).
    DefaultBranchNotFound { repo: Vec<u8>, remote: String, stderr: String },
    /// Git could not be run; `source` is the I/O error's text.
    CommandIo { operation: String, args: Vec<String>, source: String },
    /// Git ran and failed; `stderr` is its trimmed error output.
    CommandFailed { operation: String, args: Vec<String>, stderr: String },
    /// Git's output was not UTF-8.
    InvalidUtf8 { operation: String },
    /// A ref is neither a local branch nor a branch of exactly one remote.
    InvalidBranchRef { full_ref: String },
    /// The selected ref is not a direct ref of a configured remote.
    InvalidRemoteRef { full_ref: String },
    /// The branch ref does not exist.
    BranchNotFound { full_ref: String },
    /// Git rejected the branch name.
    InvalidBranchName { branch: String },
    /// The local branch already exists.
    BranchAlreadyExists { branch: String },
    /// The new branch could not be created atomically at the expected commit.
    BranchClaimFailed { branch: String, expected_oid: String, claim_error: Box<GitWorkspaceError> },
    /// The local branch is checked out in another worktree.
    BranchAlreadyCheckedOut { branch: String, path: Vec<u8> },
    /// The worktree is not registered in the repository.
    WorktreeNotFound { path: Vec<u8> },
    /// The worktree is registered more than once.
    AmbiguousWorktree { path: Vec<u8> },
    /// The worktree does not check out a local branch.
    WorktreeHasNoLocalBranch { path: Vec<u8> },
    /// The worktree has uncommitted changes.
    DirtyWorktree { path: Vec<u8> },
    /// The worktree checks out another branch than expected.
    WorktreeBranchMismatch { expected: String, actual: String },
    /// The branch is not merged into its merge target.
    BranchNotMerged { branch: String, merge_target: String },
    /// The branch moved since it was inspected.
    BranchChanged { branch: String, expected_oid: String, actual_oid: Option<String>, actual_symbolic_target: Option<String> },
    /// Git reported the branch deleted, but it still exists.
    BranchDeleteNotCompleted { full_ref: String, expected_oid: String },
    /// A branch created for a failed worktree could not be removed.
    BranchCleanupFailed { full_ref: String, expected_oid: String, actual_oid: Option<String>, actual_symbolic_target: Option<String>, delete_error: Box<GitWorkspaceError>, inspection_error: Option<Box<GitWorkspaceError>> },
    /// The worktree was removed but its branch could not be deleted.
    BranchDeleteFailed { worktree_path: Vec<u8>, worktree_removed: bool, branch: String, expected_oid: String, actual_oid: Option<String>, actual_symbolic_target: Option<String>, delete_error: Box<GitWorkspaceError>, inspection_error: Option<Box<GitWorkspaceError>> },
    /// A `for-each-ref` record is malformed.
    InvalidBranchRefRecord { record: String },
    /// A remote-tracking ref matches several remotes.
    AmbiguousRemoteRef { full_ref: String, remotes: Vec<String> },
    /// A `worktree list` record is malformed.
    InvalidWorktreeRecord { record: String },
    /// The target path already exists.
    TargetExists { path: Vec<u8> },
    /// The target path could not be inspected; `source` is the I/O error's text.
    TargetInspection { path: Vec<u8>, source: String },
    /// Worktree creation failed and the claimed branch moved meanwhile.
    WorktreeCreationBranchChanged { branch: String, expected_oid: String, actual_oid: Option<String>, actual_symbolic_target: Option<String>, create_error: Box<GitWorkspaceError> },
    /// Worktree creation failed and removing the claimed branch failed too.
    WorktreeCreationCleanupFailed { branch: String, create_error: Box<GitWorkspaceError>, cleanup_error: Box<GitWorkspaceError> },
    /// The worktree was created but could not be verified.
    WorktreeCreationVerificationFailed { worktree_path: Vec<u8>, branch: String, expected_oid: String, verification_error: Box<GitWorkspaceError> },
    /// A direct ref record is malformed.
    InvalidDirectRefRecord { record: String },
    /// The clone target could not be created; `source` is the I/O error's text.
    CreateTarget { path: Vec<u8>, source: String },
    /// A failed clone's target could not be removed.
    CleanupFailed { path: Vec<u8>, cleanup_source: String, clone_error: Box<GitWorkspaceError> },
    /// The URL names no repository.
    RepositoryNameMissing { url: String },
    /// The clone directory name is not a single normal path component.
    InvalidCloneDirectoryName { name: String },
    /// A background Git task did not complete.
    BackgroundTaskFailed { operation: String, message: String },
    /// The worktree path could not be claimed; `message` is the I/O error's text.
    ClaimTarget { path: Vec<u8>, message: String },
    /// The claimed worktree directory could not be removed; `message` is the I/O error's text.
    RemoveClaimedTarget { path: Vec<u8>, message: String },
    /// A new branch has an upstream configured.
    UnexpectedUpstream { branch: String, upstream: String },
    /// Git failed to add the worktree; what may remain of the attempt is reported, and the branch is never deleted.
    WorktreeCreationFailed { worktree_path: Vec<u8>, branch: String, create_error: Box<GitWorkspaceError>, branch_may_remain: bool, worktree_registered: bool, claimed_directory_removed: bool, cleanup_error: Option<Box<GitWorkspaceError>> },
    /// The branch's reflog could not be read as a regular file; `message` is the error's text.
    ReflogUnavailable { branch: String, path: Vec<u8>, message: String },
    /// The branch's reflog changed since the preflight: the branch was updated, or deleted and created again.
    BranchGenerationChanged { branch: String },
    /// A ref transaction failed at a stage; `message` is Git's or the I/O error's text.
    RefTransactionFailed { stage: String, message: String },
    /// A removal stopped before changing anything, and its ref transaction could not be aborted.
    TransactionAbortFailed { cause: Box<GitWorkspaceError>, abort_error: Box<GitWorkspaceError> },
    /// The worktree was removed, but the ref transaction deleting its branch did not commit; the branch's state after the failure is reported.
    BranchDeleteTransactionFailed { worktree_path: Vec<u8>, worktree_removed: bool, branch_ref: String, expected_oid: String, merge_target: String, merge_target_oid: String, actual_oid: Option<String>, actual_symbolic_target: Option<String>, transaction_error: Box<GitWorkspaceError>, inspection_error: Option<Box<GitWorkspaceError>> },
    /// The directory claimed for a new worktree was no longer a directory when Git was to add the worktree there.
    ClaimedTargetChanged { path: Vec<u8> },
}

/// Model of a Git workspace error.
pub enum GitErrorView {
    Canonicalize { path: Seq<u8>, source: Seq<char> },
    NotRepositoryRoot { selected: Seq<u8>, root: Seq<u8> },
    LinkedWorktree { git_dir: Seq<u8>, common_dir: Seq<u8> },
    RemoteNotFound { repo: Seq<u8> },
    DefaultBranchNotFound { repo: Seq<u8>, remote: Seq<char>, stderr: Seq<char> },
    CommandIo { operation: Seq<char>, args: Seq<Seq<char>>, source: Seq<char> },
    CommandFailed { operation: Seq<char>, args: Seq<Seq<char>>, stderr: Seq<char> },
    InvalidUtf8 { operation: Seq<char> },
    InvalidBranchRef { full_ref: Seq<char> },
    InvalidRemoteRef { full_ref: Seq<char> },
    BranchNotFound { full_ref: Seq<char> },
    InvalidBranchName { branch: Seq<char> },
    BranchAlreadyExists { branch: Seq<char> },
    BranchClaimFailed { branch: Seq<char>, expected_oid: Seq<char>, claim_error: Box<GitErrorView> },
    BranchAlreadyCheckedOut { branch: Seq<char>, path: Seq<u8> },
    WorktreeNotFound { path: Seq<u8> },
    AmbiguousWorktree { path: Seq<u8> },
    WorktreeHasNoLocalBranch { path: Seq<u8> },
    DirtyWorktree { path: Seq<u8> },
    WorktreeBranchMismatch { expected: Seq<char>, actual: Seq<char> },
    BranchNotMerged { branch: Seq<char>, merge_target: Seq<char> },
    BranchChanged { branch: Seq<char>, expected_oid: Seq<char>, actual_oid: Option<Seq<char>>, actual_symbolic_target: Option<Seq<char>> },
    BranchDeleteNotCompleted { full_ref: Seq<char>, expected_oid: Seq<char> },
    BranchCleanupFailed { full_ref: Seq<char>, expected_oid: Seq<char>, actual_oid: Option<Seq<char>>, actual_symbolic_target: Option<Seq<char>>, delete_error: Box<GitErrorView>, inspection_error: Option<Box<GitErrorView>> },
    BranchDeleteFailed { worktree_path: Seq<u8>, worktree_removed: bool, branch: Seq<char>, expected_oid: Seq<char>, actual_oid: Option<Seq<char>>, actual_symbolic_target: Option<Seq<char>>, delete_error: Box<GitErrorView>, inspection_error: Option<Box<GitErrorView>> },
    InvalidBranchRefRecord { record: Seq<char> },
    AmbiguousRemoteRef { full_ref: Seq<char>, remotes: Seq<Seq<char>> },
    InvalidWorktreeRecord { record: Seq<char> },
    TargetExists { path: Seq<u8> },
    TargetInspection { path: Seq<u8>, source: Seq<char> },
    WorktreeCreationBranchChanged { branch: Seq<char>, expected_oid: Seq<char>, actual_oid: Option<Seq<char>>, actual_symbolic_target: Option<Seq<char>>, create_error: Box<GitErrorView> },
    WorktreeCreationCleanupFailed { branch: Seq<char>, create_error: Box<GitErrorView>, cleanup_error: Box<GitErrorView> },
    WorktreeCreationVerificationFailed { worktree_path: Seq<u8>, branch: Seq<char>, expected_oid: Seq<char>, verification_error: Box<GitErrorView> },
    InvalidDirectRefRecord { record: Seq<char> },
    CreateTarget { path: Seq<u8>, source: Seq<char> },
    CleanupFailed { path: Seq<u8>, cleanup_source: Seq<char>, clone_error: Box<GitErrorView> },
    RepositoryNameMissing { url: Seq<char> },
    InvalidCloneDirectoryName { name: Seq<char> },
    BackgroundTaskFailed { operation: Seq<char>, message: Seq<char> },
    ClaimTarget { path: Seq<u8>, message: Seq<char> },
    RemoveClaimedTarget { path: Seq<u8>, message: Seq<char> },
    UnexpectedUpstream { branch: Seq<char>, upstream: Seq<char> },
    WorktreeCreationFailed { worktree_path: Seq<u8>, branch: Seq<char>, create_error: Box<GitErrorView>, branch_may_remain: bool, worktree_registered: bool, claimed_directory_removed: bool, cleanup_error: Option<Box<GitErrorView>> },
    ReflogUnavailable { branch: Seq<char>, path: Seq<u8>, message: Seq<char> },
    BranchGenerationChanged { branch: Seq<char> },
    RefTransactionFailed { stage: Seq<char>, message: Seq<char> },
    TransactionAbortFailed { cause: Box<GitErrorView>, abort_error: Box<GitErrorView> },
    BranchDeleteTransactionFailed { worktree_path: Seq<u8>, worktree_removed: bool, branch_ref: Seq<char>, expected_oid: Seq<char>, merge_target: Seq<char>, merge_target_oid: Seq<char>, actual_oid: Option<Seq<char>>, actual_symbolic_target: Option<Seq<char>>, transaction_error: Box<GitErrorView>, inspection_error: Option<Box<GitErrorView>> },
    ClaimedTargetChanged { path: Seq<u8> },
}

/// The model of an error.
pub open spec fn error_view(e: GitWorkspaceError) -> GitErrorView
    decreases e,
{
    match e {
        GitWorkspaceError::Canonicalize { path, source } => GitErrorView::Canonicalize { path: path@, source: source@ },
        GitWorkspaceError::NotRepositoryRoot { selected, root } => GitErrorView::NotRepositoryRoot { selected: selected@, root: root@ },
        GitWorkspaceError::LinkedWorktree { git_dir, common_dir } => GitErrorView::LinkedWorktree { git_dir: git_dir@, common_dir: common_dir@ },
        GitWorkspaceError::RemoteNotFound { repo } => GitErrorView::RemoteNotFound { repo: repo@ },
        GitWorkspaceError::DefaultBranchNotFound { repo, remote, stderr } => GitErrorView::DefaultBranchNotFound { repo: repo@, remote: remote@, stderr: stderr@ },
        GitWorkspaceError::CommandIo { operation, args, source } => GitErrorView::CommandIo { operation: operation@, args: texts_view(args@), source: source@ },
        GitWorkspaceError::CommandFailed { operation, args, stderr } => GitErrorView::CommandFailed { operation: operation@, args: texts_view(args@), stderr: stderr@ },
        GitWorkspaceError::InvalidUtf8 { operation } => GitErrorView::InvalidUtf8 { operation: operation@ },
        GitWorkspaceError::InvalidBranchRef { full_ref } => GitErrorView::InvalidBranchRef { full_ref: full_ref@ },
        GitWorkspaceError::InvalidRemoteRef { full_ref } => GitErrorView::InvalidRemoteRef { full_ref: full_ref@ },
        GitWorkspaceError::BranchNotFound { full_ref } => GitErrorView::BranchNotFound { full_ref: full_ref@ },
        GitWorkspaceError::InvalidBranchName { branch } => GitErrorView::InvalidBranchName { branch: branch@ },
        GitWorkspaceError::BranchAlreadyExists { branch } => GitErrorView::BranchAlreadyExists { branch: branch@ },
        GitWorkspaceError::BranchClaimFailed { branch, expected_oid, claim_error } => GitErrorView::BranchClaimFailed { branch: branch@, expected_oid: expected_oid@, claim_error: Box::new(error_view(*claim_error)) },
        GitWorkspaceError::BranchAlreadyCheckedOut { branch, path } => GitErrorView::BranchAlreadyCheckedOut { branch: branch@, path: path@ },
        GitWorkspaceError::WorktreeNotFound { path } => GitErrorView::WorktreeNotFound { path: path@ },
        GitWorkspaceError::AmbiguousWorktree { path } => GitErrorView::AmbiguousWorktree { path: path@ },
        GitWorkspaceError::WorktreeHasNoLocalBranch { path } => GitErrorView::WorktreeHasNoLocalBranch { path: path@ },
        GitWorkspaceError::DirtyWorktree { path } => GitErrorView::DirtyWorktree { path: path@ },
        GitWorkspaceError::WorktreeBranchMismatch { expected, actual } => GitErrorView::WorktreeBranchMismatch { expected: expected@, actual: actual@ },
        GitWorkspaceError::BranchNotMerged { branch, merge_target } => GitErrorView::BranchNotMerged { branch: branch@, merge_target: merge_target@ },
        GitWorkspaceError::BranchChanged { branch, expected_oid, actual_oid, actual_symbolic_target } => GitErrorView::BranchChanged { branch: branch@, expected_oid: expected_oid@, actual_oid: opt_text(actual_oid), actual_symbolic_target: opt_text(actual_symbolic_target) },
        GitWorkspaceError::BranchDeleteNotCompleted { full_ref, expected_oid } => GitErrorView::BranchDeleteNotCompleted { full_ref: full_ref@, expected_oid: expected_oid@ },
        GitWorkspaceError::BranchCleanupFailed { full_ref, expected_oid, actual_oid, actual_symbolic_target, delete_error, inspection_error } => GitErrorView::BranchCleanupFailed { full_ref: full_ref@, expected_oid: expected_oid@, actual_oid: opt_text(actual_oid), actual_symbolic_target: opt_text(actual_symbolic_target), delete_error: Box::new(error_view(*delete_error)), inspection_error: match inspection_error { Some(e) => Some(Box::new(error_view(*e))), None => None } },
        GitWorkspaceError::BranchDeleteFailed { worktree_path, worktree_removed, branch, expected_oid, actual_oid, actual_symbolic_target, delete_error, inspection_error } => GitErrorView::BranchDeleteFailed { worktree_path: worktree_path@, worktree_removed: worktree_removed, branch: branch@, expected_oid: expected_oid@, actual_oid: opt_text(actual_oid), actual_symbolic_target: opt_text(actual_symbolic_target), delete_error: Box::new(error_view(*delete_error)), inspection_error: match inspection_error { Some(e) => Some(Box::new(error_view(*e))), None => None } },
        GitWorkspaceError::InvalidBranchRefRecord { record } => GitErrorView::InvalidBranchRefRecord { record: record@ },
        GitWorkspaceError::AmbiguousRemoteRef { full_ref, remotes } => GitErrorView::AmbiguousRemoteRef { full_ref: full_ref@, remotes: texts_view(remotes@) },
        GitWorkspaceError::InvalidWorktreeRecord { record } => GitErrorView::InvalidWorktreeRecord { record: record@ },
        GitWorkspaceError::TargetExists { path } => GitErrorView::TargetExists { path: path@ },
        GitWorkspaceError::TargetInspection { path, source } => GitErrorView::TargetInspection { path: path@, source: source@ },
        GitWorkspaceError::WorktreeCreationBranchChanged { branch, expected_oid, actual_oid, actual_symbolic_target, create_error } => GitErrorView::WorktreeCreationBranchChanged { branch: branch@, expected_oid: expected_oid@, actual_oid: opt_text(actual_oid), actual_symbolic_target: opt_text(actual_symbolic_target), create_error: Box::new(error_view(*create_error)) },
        GitWorkspaceError::WorktreeCreationCleanupFailed { branch, create_error, cleanup_error } => GitErrorView::WorktreeCreationCleanupFailed { branch: branch@, create_error: Box::new(error_view(*create_error)), cleanup_error: Box::new(error_view(*cleanup_error)) },
        GitWorkspaceError::WorktreeCreationVerificationFailed { worktree_path, branch, expected_oid, verification_error } => GitErrorView::WorktreeCreationVerificationFailed { worktree_path: worktree_path@, branch: branch@, expected_oid: expected_oid@, verification_error: Box::new(error_view(*verification_error)) },
        GitWorkspaceError::InvalidDirectRefRecord { record } => GitErrorView::InvalidDirectRefRecord { record: record@ },
        GitWorkspaceError::CreateTarget { path, source } => GitErrorView::CreateTarget { path: path@, source: source@ },
        GitWorkspaceError::CleanupFailed { path, cleanup_source, clone_error } => GitErrorView::CleanupFailed { path: path@, cleanup_source: cleanup_source@, clone_error: Box::new(error_view(*clone_error)) },
        GitWorkspaceError::RepositoryNameMissing { url } => GitErrorView::RepositoryNameMissing { url: url@ },
        GitWorkspaceError::InvalidCloneDirectoryName { name } => GitErrorView::InvalidCloneDirectoryName { name: name@ },
        GitWorkspaceError::BackgroundTaskFailed { operation, message } => GitErrorView::BackgroundTaskFailed { operation: operation@, message: message@ },
        GitWorkspaceError::ClaimTarget { path, message } => GitErrorView::ClaimTarget { path: path@, message: message@ },
        GitWorkspaceError::RemoveClaimedTarget { path, message } => GitErrorView::RemoveClaimedTarget { path: path@, message: message@ },
        GitWorkspaceError::UnexpectedUpstream { branch, upstream } => GitErrorView::UnexpectedUpstream { branch: branch@, upstream: upstream@ },
        GitWorkspaceError::WorktreeCreationFailed { worktree_path, branch, create_error, branch_may_remain, worktree_registered, claimed_directory_removed, cleanup_error } => GitErrorView::WorktreeCreationFailed { worktree_path: worktree_path@, branch: branch@, create_error: Box::new(error_view(*create_error)), branch_may_remain: branch_may_remain, worktree_registered: worktree_registered, claimed_directory_removed: claimed_directory_removed, cleanup_error: match cleanup_error { Some(e) => Some(Box::new(error_view(*e))), None => None } },
        GitWorkspaceError::ReflogUnavailable { branch, path, message } => GitErrorView::ReflogUnavailable { branch: branch@, path: path@, message: message@ },
        GitWorkspaceError::BranchGenerationChanged { branch } => GitErrorView::BranchGenerationChanged { branch: branch@ },
        GitWorkspaceError::RefTransactionFailed { stage, message } => GitErrorView::RefTransactionFailed { stage: stage@, message: message@ },
        GitWorkspaceError::TransactionAbortFailed { cause, abort_error } => GitErrorView::TransactionAbortFailed { cause: Box::new(error_view(*cause)), abort_error: Box::new(error_view(*abort_error)) },
        GitWorkspaceError::BranchDeleteTransactionFailed { worktree_path, worktree_removed, branch_ref, expected_oid, merge_target, merge_target_oid, actual_oid, actual_symbolic_target, transaction_error, inspection_error } => GitErrorView::BranchDeleteTransactionFailed { worktree_path: worktree_path@, worktree_removed: worktree_removed, branch_ref: branch_ref@, expected_oid: expected_oid@, merge_target: merge_target@, merge_target_oid: merge_target_oid@, actual_oid: opt_text(actual_oid), actual_symbolic_target: opt_text(actual_symbolic_target), transaction_error: Box::new(error_view(*transaction_error)), inspection_error: match inspection_error { Some(e) => Some(Box::new(error_view(*e))), None => None } },
        GitWorkspaceError::ClaimedTargetChanged { path } => GitErrorView::ClaimedTargetChanged { path: path@ },
    }
}

impl View for GitWorkspaceError {
    type V = GitErrorView;

    open spec fn view(&self) -> GitErrorView {
        error_view(*self)
    }
}

/// The model of a result whose success value has a model.
pub open spec fn result_view<T: View>(r: Result<T, GitWorkspaceError>) -> Result<T::V, GitErrorView> {
    match r {
        Ok(t) => Ok(t@),
        Err(e) => Err(e@),
    }
}

/// The model of a result carrying a text.
pub open spec fn text_result(r: Result<String, GitWorkspaceError>) -> Result<Seq<char>, GitErrorView> {
    match r {
        Ok(t) => Ok(t@),
        Err(e) => Err(e@),
    }
}

/// The model of a result carrying an optional text.
pub open spec fn opt_text_result(r: Result<Option<String>, GitWorkspaceError>) -> Result<Option<Seq<char>>, GitErrorView> {
    match r {
        Ok(t) => Ok(opt_text(t)),
        Err(e) => Err(e@),
    }
}

/// The model of a result carrying a list of texts.
pub open spec fn texts_result(r: Result<Vec<String>, GitWorkspaceError>) -> Result<Seq<Seq<char>>, GitErrorView> {
    match r {
        Ok(t) => Ok(texts_view(t@)),
        Err(e) => Err(e@),
    }
}

/// The model of a result carrying bytes.
pub open spec fn bytes_result(r: Result<Vec<u8>, GitWorkspaceError>) -> Result<Seq<u8>, GitErrorView> {
    match r {
        Ok(t) => Ok(t@),
        Err(e) => Err(e@),
    }
}

impl DeepView for BranchRef {
    type V = BranchRefView;

    open spec fn deep_view(&self) -> BranchRefView {
        self@
    }
}

impl DeepView for WorktreeInfo {
    type V = WorktreeView;

    open spec fn deep_view(&self) -> WorktreeView {
        self@
    }
}

impl DeepView for DeletionPreflight {
    type V = PreflightView;

    open spec fn deep_view(&self) -> PreflightView {
        self@
    }
}

/// Model of a validated repository.
pub struct ValidatedView {
    pub root: Seq<u8>,
    pub remote: Seq<char>,
    pub remote_url: Seq<char>,
    pub default_branch: BranchRefView,
}

impl View for ValidatedRepository {
    type V = ValidatedView;

    open spec fn view(&self) -> ValidatedView {
        ValidatedView {
            root: self.root@,
            remote: self.remote@,
            remote_url: self.remote_url@,
            default_branch: self.default_branch@,
        }
    }
}

impl DeepView for ValidatedRepository {
    type V = ValidatedView;

    open spec fn deep_view(&self) -> ValidatedView {
        self@
    }
}

/// The model of an optional error.
pub open spec fn opt_error(e: Option<GitWorkspaceError>) -> Option<GitErrorView> {
    match e {
        Some(x) => Some(x@),
        None => None,
    }
}

/// A copy of an optional text.
pub fn clone_opt_text(o: &Option<String>) -> (r: Option<String>)
    ensures
        opt_text(r) == opt_text(*o),
{
    match o {
        Some(t) => Some(t.clone()),
        None => None,
    }
}

} // verus!
