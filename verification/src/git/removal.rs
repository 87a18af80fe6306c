//! Removing a linked worktree: the read-only checks that come first (the
//! preflight), then the removal. A branch to delete is deleted by a ref
//! transaction that Git prepares before the worktree is removed and commits
//! after: it holds the branch at the commit the checks saw, and the merge
//! target at its commit, and the branch's reflog must still be as the checks
//! read it, so that a branch deleted and created again is not deleted.
use vstd::prelude::*;

use crate::git::command::{
    command_failed, command_failed_error, command_io, command_io_error, GitOutcome,
    GitOutcomeView, checked_output, checked_stdout, run_request, text, GitReply, GitReplyView, GitRequest,
    GitRequestView, Step, StepView,
};
use crate::git::commands::{
    branch_ref, canonical_of, commit_command, default_branch_command, make_branch_ref, make_commit_command,
    make_default_branch_command, make_merge_command, make_reflog_path_command, make_remotes_command,
    make_remove_command, make_status_command, make_transaction_instructions, make_upstream_command,
    merge_command, reflog_path_command, remotes_command, remove_command, status_command, take_canonical,
    transaction_instructions, upstream_command,
};
use crate::git::decide::{
    answer_yes_or_no, default_branch_of, read_default_branch, read_remotes, read_text_output, read_upstream,
    remotes_of, text_output_of, upstream_of, yes_or_no,
};
use crate::git::generation::{generation_of, reflog_generation};
use crate::git::repository::{path_output_of, read_path_output};
use crate::git::refs::{heads_prefix, primary_remote_of, select_primary_remote};
use crate::git::snapshot::{
    is_snapshot_at, snapshot_at, DirectRefSnapshot, snapshot_begun, snapshot_next, snapshot_request, RefSnapshot, RefSnapshotView, SnapshotView,
};
use crate::git::types::{
    clone_opt_text, opt_error, opt_text, BranchRef, BranchRefView, DeletionPreflight, GitErrorView, GitWorkspaceError, PreflightView,
    WorktreeInfo, WorktreeView,
};
use crate::git::worktrees::{
    find_registered, listing_accepts, listing_begun, listing_next, list_command,
    registered_worktree, WorktreeListing, WorktreeListingView,
};
use crate::text::{slice_string, starts_with, str_chars, strip_prefix};

verus! {

/// The error for a worktree that does not check out a local branch.
pub open spec fn no_local_branch(path: Seq<u8>) -> GitErrorView {
    GitErrorView::WorktreeHasNoLocalBranch { path }
}

/// The local branch a worktree checks out, as its short name and full ref.
pub open spec fn checked_out_branch(w: WorktreeView, path: Seq<u8>) -> Result<(Seq<char>, Seq<char>), GitErrorView> {
    if w.is_bare || w.is_detached {
        Err(no_local_branch(path))
    } else {
        match w.branch {
            None => Err(no_local_branch(path)),
            Some(full_ref) => match strip_prefix(full_ref, heads_prefix()) {
                None => Err(no_local_branch(path)),
                Some(b) => if b.len() == 0 {
                    Err(no_local_branch(path))
                } else {
                    Ok((b, full_ref))
                },
            },
        }
    }
}

/// Reads the local branch a worktree checks out.
fn read_checked_out_branch(w: &WorktreeInfo, path: &Vec<u8>) -> (r: Result<(String, String), GitWorkspaceError>)
    ensures
        match (r, checked_out_branch(w@, path@)) {
            (Ok((b, f)), Ok((vb, vf))) => b@ == vb && f@ == vf,
            (Err(e), Err(v)) => e@ == v,
            _ => false,
        },
{
    if w.is_bare || w.is_detached {
        return Err(GitWorkspaceError::WorktreeHasNoLocalBranch { path: path.clone() });
    }
    let full_ref = match &w.branch {
        None => {
            return Err(GitWorkspaceError::WorktreeHasNoLocalBranch { path: path.clone() });
        },
        Some(f) => f,
    };
    let chars = str_chars(full_ref.as_str());
    let prefix = str_chars("refs/heads/");
    if !starts_with(chars.as_slice(), prefix.as_slice()) {
        return Err(GitWorkspaceError::WorktreeHasNoLocalBranch { path: path.clone() });
    }
    if prefix.len() == chars.len() {
        return Err(GitWorkspaceError::WorktreeHasNoLocalBranch { path: path.clone() });
    }
    let branch = slice_string(chars.as_slice(), prefix.len(), chars.len());
    Ok((branch, full_ref.clone()))
}

/// What the preflight has found of the worktree's branch.
pub struct BranchFacts {
    target: Vec<u8>,
    branch: String,
    full_ref: String,
    oid: String,
}

/// Model of what the preflight has found of the branch.
pub struct BranchFactsView {
    pub target: Seq<u8>,
    pub branch: Seq<char>,
    pub full_ref: Seq<char>,
    pub oid: Seq<char>,
}

impl View for BranchFacts {
    type V = BranchFactsView;

    closed spec fn view(&self) -> BranchFactsView {
        BranchFactsView { target: self.target@, branch: self.branch@, full_ref: self.full_ref@, oid: self.oid@ }
    }
}

/// Where a deletion preflight stands.
pub enum PreflightStage {
    /// Waiting for the worktree path's canonical form.
    Canonicalizing,
    /// Listing the repository's worktrees.
    Listing { target: Vec<u8>, listing: WorktreeListing },
    /// Reading the branch ref.
    Reading { target: Vec<u8>, branch: String, full_ref: String, snapshot: RefSnapshot },
    /// Waiting for the worktree's status.
    Status { facts: BranchFacts },
    /// Waiting for the branch's upstream.
    Upstream { facts: BranchFacts },
    /// Waiting for the configured remotes.
    Remotes { facts: BranchFacts },
    /// Waiting for the remote's default branch.
    DefaultBranch { facts: BranchFacts, remote: String },
    /// Waiting for the merge target's commit.
    MergeTarget { facts: BranchFacts, merge_target: String },
    /// Waiting for the merge check against the merge target's commit.
    Merge { facts: BranchFacts, merge_target: String, merge_target_oid: String },
    /// Waiting for where the branch's reflog is.
    ReflogPath { facts: BranchFacts, merge_target: String, merge_target_oid: String, is_merged: bool },
    /// Waiting for the reflog's bytes.
    Reflog { facts: BranchFacts, merge_target: String, merge_target_oid: String, is_merged: bool, reflog_path: Vec<u8> },
}

/// Model of a preflight's stage.
pub enum PreflightStageView {
    Canonicalizing,
    Listing { target: Seq<u8>, listing: WorktreeListingView },
    Reading { target: Seq<u8>, branch: Seq<char>, full_ref: Seq<char>, snapshot: RefSnapshotView },
    Status { facts: BranchFactsView },
    Upstream { facts: BranchFactsView },
    Remotes { facts: BranchFactsView },
    DefaultBranch { facts: BranchFactsView, remote: Seq<char> },
    MergeTarget { facts: BranchFactsView, merge_target: Seq<char> },
    Merge { facts: BranchFactsView, merge_target: Seq<char>, merge_target_oid: Seq<char> },
    ReflogPath { facts: BranchFactsView, merge_target: Seq<char>, merge_target_oid: Seq<char>, is_merged: bool },
    Reflog {
        facts: BranchFactsView,
        merge_target: Seq<char>,
        merge_target_oid: Seq<char>,
        is_merged: bool,
        reflog_path: Seq<u8>,
    },
}

/// A deletion preflight in progress.
pub struct Preflight {
    repository: Vec<u8>,
    worktree_path: Vec<u8>,
    delete_branch: bool,
    stage: PreflightStage,
}

/// Model of a deletion preflight.
pub struct PreflightMachineView {
    pub repository: Seq<u8>,
    pub worktree_path: Seq<u8>,
    pub delete_branch: bool,
    pub stage: PreflightStageView,
}

impl View for Preflight {
    type V = PreflightMachineView;

    closed spec fn view(&self) -> PreflightMachineView {
        PreflightMachineView {
            repository: self.repository@,
            worktree_path: self.worktree_path@,
            delete_branch: self.delete_branch,
            stage: match self.stage {
                PreflightStage::Canonicalizing => PreflightStageView::Canonicalizing,
                PreflightStage::Listing { target, listing } => PreflightStageView::Listing { target: target@, listing: listing@ },
                PreflightStage::Reading { target, branch, full_ref, snapshot } => PreflightStageView::Reading {
                    target: target@,
                    branch: branch@,
                    full_ref: full_ref@,
                    snapshot: snapshot@,
                },
                PreflightStage::Status { facts } => PreflightStageView::Status { facts: facts@ },
                PreflightStage::Upstream { facts } => PreflightStageView::Upstream { facts: facts@ },
                PreflightStage::Remotes { facts } => PreflightStageView::Remotes { facts: facts@ },
                PreflightStage::DefaultBranch { facts, remote } => PreflightStageView::DefaultBranch { facts: facts@, remote: remote@ },
                PreflightStage::MergeTarget { facts, merge_target } => PreflightStageView::MergeTarget {
                    facts: facts@,
                    merge_target: merge_target@,
                },
                PreflightStage::Merge { facts, merge_target, merge_target_oid } => PreflightStageView::Merge {
                    facts: facts@,
                    merge_target: merge_target@,
                    merge_target_oid: merge_target_oid@,
                },
                PreflightStage::ReflogPath { facts, merge_target, merge_target_oid, is_merged } => PreflightStageView::ReflogPath {
                    facts: facts@,
                    merge_target: merge_target@,
                    merge_target_oid: merge_target_oid@,
                    is_merged: is_merged,
                },
                PreflightStage::Reflog { facts, merge_target, merge_target_oid, is_merged, reflog_path } => PreflightStageView::Reflog {
                    facts: facts@,
                    merge_target: merge_target@,
                    merge_target_oid: merge_target_oid@,
                    is_merged: is_merged,
                    reflog_path: reflog_path@,
                },
            },
        }
    }
}

/// A preflight that has just begun.
pub open spec fn preflight_begun(repository: Seq<u8>, worktree_path: Seq<u8>, delete_branch: bool) -> PreflightMachineView {
    PreflightMachineView { repository, worktree_path, delete_branch, stage: PreflightStageView::Canonicalizing }
}

/// The replies a preflight takes in its stage.
pub open spec fn preflight_accepts(m: PreflightMachineView, reply: GitReplyView) -> bool {
    match m.stage {
        PreflightStageView::Canonicalizing => (reply is Canonical) || (reply is CanonicalizeFailed),
        PreflightStageView::Listing { listing, .. } => listing_accepts(listing, reply),
        PreflightStageView::Reflog { .. } => (reply is FileRead) || (reply is FileFailed),
        _ => reply is Ran,
    }
}

/// The preflight in another stage.
pub open spec fn preflight_at(m: PreflightMachineView, stage: PreflightStageView) -> PreflightMachineView {
    PreflightMachineView { stage, ..m }
}

/// The merge check, from the merge target on: its commit is resolved first.
pub open spec fn preflight_merge(m: PreflightMachineView, facts: BranchFactsView, merge_target: Seq<char>) -> StepView<PreflightMachineView, PreflightView> {
    StepView::Ask(
        preflight_at(m, PreflightStageView::MergeTarget { facts, merge_target }),
        run_request(commit_command(m.repository, merge_target)),
    )
}

/// How a preflight proceeds on a reply. In order: the worktree path is made
/// canonical; it must be registered exactly once and check out a local
/// branch; the branch must be a direct ref; the worktree must be clean.
/// Without branch deletion that is all (merged, no merge target). With it,
/// the merge target is the branch's upstream, else the primary remote's
/// default branch; its commit is fixed, and `merge-base --is-ancestor`
/// against that commit decides whether the branch is merged. Last, the
/// branch's reflog is read: the digest of its bytes is the branch's generation.
pub open spec fn preflight_next(m: PreflightMachineView, reply: GitReplyView) -> StepView<PreflightMachineView, PreflightView> {
    match m.stage {
        PreflightStageView::Canonicalizing => match canonical_of(m.worktree_path, reply) {
            Err(e) => StepView::Done(Err(e)),
            Ok(target) => {
                let listing = listing_begun(m.repository);
                StepView::Ask(
                    preflight_at(m, PreflightStageView::Listing { target, listing }),
                    run_request(list_command(m.repository)),
                )
            },
        },
        PreflightStageView::Listing { target, listing } => match listing_next(listing, reply) {
            StepView::Ask(l, q) => StepView::Ask(preflight_at(m, PreflightStageView::Listing { target, listing: l }), q),
            StepView::Done(Err(e)) => StepView::Done(Err(e)),
            StepView::Done(Ok(ws)) => match registered_worktree(ws, target) {
                Err(e) => StepView::Done(Err(e)),
                Ok(w) => match checked_out_branch(w, target) {
                    Err(e) => StepView::Done(Err(e)),
                    Ok((branch, full_ref)) => {
                        let snapshot = snapshot_begun(m.repository, full_ref);
                        StepView::Ask(
                            preflight_at(m, PreflightStageView::Reading { target, branch, full_ref, snapshot }),
                            snapshot_request(snapshot),
                        )
                    },
                },
            },
        },
        PreflightStageView::Reading { target, branch, full_ref, snapshot } => match snapshot_next(snapshot, reply) {
            StepView::Ask(s, q) => StepView::Ask(
                preflight_at(m, PreflightStageView::Reading { target, branch, full_ref, snapshot: s }),
                q,
            ),
            StepView::Done(Err(e)) => StepView::Done(Err(e)),
            StepView::Done(Ok(snap)) => match snap.direct_oid {
                None => if snap.symbolic_target is Some {
                    StepView::Done(Err(no_local_branch(target)))
                } else {
                    StepView::Done(Err(GitErrorView::BranchNotFound { full_ref }))
                },
                Some(oid) => StepView::Ask(
                    preflight_at(m, PreflightStageView::Status { facts: BranchFactsView { target, branch, full_ref, oid } }),
                    run_request(status_command(target)),
                ),
            },
        },
        PreflightStageView::Status { facts } => match reply {
            GitReplyView::Ran { outcome } => match checked_output(status_command(facts.target), outcome) {
                Err(e) => StepView::Done(Err(e)),
                Ok(stdout) => if stdout.len() > 0 {
                    StepView::Done(Err(GitErrorView::DirtyWorktree { path: facts.target }))
                } else if !m.delete_branch {
                    StepView::Done(Ok(PreflightView {
                        worktree_path: facts.target,
                        branch: facts.branch,
                        branch_oid: facts.oid,
                        is_merged: true,
                        merge_target: Seq::empty(),
                        merge_target_oid: Seq::empty(),
                        reflog_path: Seq::empty(),
                        generation: Seq::empty(),
                    }))
                } else {
                    StepView::Ask(
                        preflight_at(m, PreflightStageView::Upstream { facts }),
                        run_request(upstream_command(m.repository, facts.full_ref)),
                    )
                },
            },
            _ => arbitrary(),
        },
        PreflightStageView::Upstream { facts } => match reply {
            GitReplyView::Ran { outcome } => match upstream_of(upstream_command(m.repository, facts.full_ref), outcome) {
                Err(e) => StepView::Done(Err(e)),
                Ok(Some(u)) => preflight_merge(m, facts, u),
                Ok(None) => StepView::Ask(
                    preflight_at(m, PreflightStageView::Remotes { facts }),
                    run_request(remotes_command(m.repository)),
                ),
            },
            _ => arbitrary(),
        },
        PreflightStageView::Remotes { facts } => match reply {
            GitReplyView::Ran { outcome } => match remotes_of(remotes_command(m.repository), outcome) {
                Err(e) => StepView::Done(Err(e)),
                Ok(remotes) => match primary_remote_of(remotes) {
                    None => StepView::Done(Err(GitErrorView::RemoteNotFound { repo: m.repository })),
                    Some(remote) => StepView::Ask(
                        preflight_at(m, PreflightStageView::DefaultBranch { facts, remote }),
                        run_request(default_branch_command(m.repository, remote)),
                    ),
                },
            },
            _ => arbitrary(),
        },
        PreflightStageView::DefaultBranch { facts, remote } => match reply {
            GitReplyView::Ran { outcome } => match default_branch_of(m.repository, remote, default_branch_command(m.repository, remote), outcome) {
                Err(e) => StepView::Done(Err(e)),
                Ok(BranchRefView::Remote { full_ref, .. }) => preflight_merge(m, facts, full_ref),
                Ok(BranchRefView::Local { full_ref, .. }) => StepView::Done(Err(GitErrorView::InvalidRemoteRef { full_ref })),
            },
            _ => arbitrary(),
        },
        PreflightStageView::MergeTarget { facts, merge_target } => match reply {
            GitReplyView::Ran { outcome } => match text_output_of(commit_command(m.repository, merge_target), outcome) {
                Err(e) => StepView::Done(Err(e)),
                Ok(merge_target_oid) => StepView::Ask(
                    preflight_at(m, PreflightStageView::Merge { facts, merge_target, merge_target_oid }),
                    run_request(merge_command(m.repository, facts.oid, merge_target_oid)),
                ),
            },
            _ => arbitrary(),
        },
        PreflightStageView::Merge { facts, merge_target, merge_target_oid } => match reply {
            GitReplyView::Ran { outcome } => match yes_or_no(merge_command(m.repository, facts.oid, merge_target_oid), outcome) {
                Err(e) => StepView::Done(Err(e)),
                Ok(is_merged) => StepView::Ask(
                    preflight_at(m, PreflightStageView::ReflogPath { facts, merge_target, merge_target_oid, is_merged }),
                    run_request(reflog_path_command(m.repository, facts.full_ref)),
                ),
            },
            _ => arbitrary(),
        },
        PreflightStageView::ReflogPath { facts, merge_target, merge_target_oid, is_merged } => match reply {
            GitReplyView::Ran { outcome } => match path_output_of(reflog_path_command(m.repository, facts.full_ref), outcome) {
                Err(e) => StepView::Done(Err(e)),
                Ok(reflog_path) => StepView::Ask(
                    preflight_at(m, PreflightStageView::Reflog { facts, merge_target, merge_target_oid, is_merged, reflog_path }),
                    GitRequestView::ReadFile { path: reflog_path },
                ),
            },
            _ => arbitrary(),
        },
        PreflightStageView::Reflog { facts, merge_target, merge_target_oid, is_merged, reflog_path } => match reply {
            GitReplyView::FileRead { bytes } => StepView::Done(Ok(PreflightView {
                worktree_path: facts.target,
                branch: facts.branch,
                branch_oid: facts.oid,
                is_merged,
                merge_target,
                merge_target_oid,
                reflog_path,
                generation: generation_of(bytes),
            })),
            GitReplyView::FileFailed { message } => StepView::Done(
                Err(GitErrorView::ReflogUnavailable { branch: facts.branch, path: reflog_path, message }),
            ),
            _ => arbitrary(),
        },
    }
}

impl Preflight {
    /// Begins the checks before removing the worktree at `worktree_path`
    /// from `repository`, and before deleting its branch when `delete_branch`.
    pub fn start(repository: &Vec<u8>, worktree_path: &Vec<u8>, delete_branch: bool) -> (r: (Preflight, GitRequest))
        ensures
            r.0@ == preflight_begun(repository@, worktree_path@, delete_branch),
            r.1@ == (GitRequestView::Canonicalize { path: worktree_path@ }),
    {
        let m = Preflight {
            repository: repository.clone(),
            worktree_path: worktree_path.clone(),
            delete_branch,
            stage: PreflightStage::Canonicalizing,
        };
        (m, GitRequest::Canonicalize { path: worktree_path.clone() })
    }

    fn ask_merge(repository: Vec<u8>, worktree_path: Vec<u8>, delete_branch: bool, facts: BranchFacts, merge_target: String) -> (r: Step<
        Preflight,
        DeletionPreflight,
    >)
        ensures
            r@ == preflight_merge(
                PreflightMachineView { repository: repository@, worktree_path: worktree_path@, delete_branch, stage: PreflightStageView::Canonicalizing },
                facts@,
                merge_target@,
            ),
    {
        let q = GitRequest::Run { command: make_commit_command(&repository, merge_target.as_str()) };
        Step::Ask(Preflight { repository, worktree_path, delete_branch, stage: PreflightStage::MergeTarget { facts, merge_target } }, q)
    }

    fn on_reading(
        repository: Vec<u8>,
        worktree_path: Vec<u8>,
        delete_branch: bool,
        target: Vec<u8>,
        branch: String,
        full_ref: String,
        snapshot: RefSnapshot,
        reply: GitReply,
    ) -> (r: Step<Preflight, DeletionPreflight>)
        requires
            reply@ is Ran,
        ensures
            r@ == preflight_next(
                PreflightMachineView {
                    repository: repository@,
                    worktree_path: worktree_path@,
                    delete_branch,
                    stage: PreflightStageView::Reading { target: target@, branch: branch@, full_ref: full_ref@, snapshot: snapshot@ },
                },
                reply@,
            ),
    {
        match snapshot.step(reply) {
            Step::Ask(s, q) => Step::Ask(
                Preflight { repository, worktree_path, delete_branch, stage: PreflightStage::Reading { target, branch, full_ref, snapshot: s } },
                q,
            ),
            Step::Done(Err(e)) => Step::Done(Err(e)),
            Step::Done(Ok(snap)) => match snap.direct_oid {
                None => if snap.symbolic_target.is_some() {
                    Step::Done(Err(GitWorkspaceError::WorktreeHasNoLocalBranch { path: target }))
                } else {
                    Step::Done(Err(GitWorkspaceError::BranchNotFound { full_ref }))
                },
                Some(oid) => {
                    let q = GitRequest::Run { command: make_status_command(&target) };
                    let facts = BranchFacts { target, branch, full_ref, oid };
                    Step::Ask(Preflight { repository, worktree_path, delete_branch, stage: PreflightStage::Status { facts } }, q)
                },
            },
        }
    }

    fn on_reflog(
        facts: BranchFacts,
        merge_target: String,
        merge_target_oid: String,
        is_merged: bool,
        reflog_path: Vec<u8>,
        reply: GitReply,
        Ghost(m): Ghost<PreflightMachineView>,
    ) -> (r: Step<Preflight, DeletionPreflight>)
        requires
            (reply@ is FileRead) || (reply@ is FileFailed),
            m.stage == (PreflightStageView::Reflog {
                facts: facts@,
                merge_target: merge_target@,
                merge_target_oid: merge_target_oid@,
                is_merged,
                reflog_path: reflog_path@,
            }),
        ensures
            r@ == preflight_next(m, reply@),
    {
        match reply {
            GitReply::FileRead { bytes } => Step::Done(Ok(DeletionPreflight {
                worktree_path: facts.target,
                branch: facts.branch,
                branch_oid: facts.oid,
                is_merged,
                merge_target,
                merge_target_oid,
                reflog_path,
                generation: reflog_generation(bytes.as_slice()),
            })),
            GitReply::FileFailed { message } => Step::Done(
                Err(GitWorkspaceError::ReflogUnavailable { branch: facts.branch, path: reflog_path, message }),
            ),
            _ => vstd::pervasive::unreached(),
        }
    }

    /// Takes the reply to the pending request.
    #[verifier::rlimit(40)]
    pub fn step(self, reply: GitReply) -> (r: Step<Preflight, DeletionPreflight>)
        requires
            preflight_accepts(self@, reply@),
        ensures
            r@ == preflight_next(self@, reply@),
    {
        let ghost whole = self@;
        let Preflight { repository, worktree_path, delete_branch, stage } = self;
        match stage {
            PreflightStage::Canonicalizing => match take_canonical(&worktree_path, reply) {
                Err(e) => Step::Done(Err(e)),
                Ok(target) => {
                    let (listing, q) = WorktreeListing::start(&repository);
                    Step::Ask(Preflight { repository, worktree_path, delete_branch, stage: PreflightStage::Listing { target, listing } }, q)
                },
            },
            PreflightStage::Listing { target, listing } => match listing.step(reply) {
                Step::Ask(l, q) => Step::Ask(
                    Preflight { repository, worktree_path, delete_branch, stage: PreflightStage::Listing { target, listing: l } },
                    q,
                ),
                Step::Done(Err(e)) => Step::Done(Err(e)),
                Step::Done(Ok(ws)) => {
                    proof {
                        assert(ws.deep_view() =~= crate::git::types::worktree_views(ws@));
                    }
                    let index = match find_registered(&ws, &target) {
                        Err(e) => {
                            return Step::Done(Err(e));
                        },
                        Ok(i) => i,
                    };
                    match read_checked_out_branch(&ws[index], &target) {
                        Err(e) => Step::Done(Err(e)),
                        Ok((branch, full_ref)) => {
                            let (snapshot, q) = RefSnapshot::start(&repository, full_ref.as_str());
                            Step::Ask(
                                Preflight {
                                    repository,
                                    worktree_path,
                                    delete_branch,
                                    stage: PreflightStage::Reading { target, branch, full_ref, snapshot },
                                },
                                q,
                            )
                        },
                    }
                },
            },
            PreflightStage::Reading { target, branch, full_ref, snapshot } => Self::on_reading(
                repository,
                worktree_path,
                delete_branch,
                target,
                branch,
                full_ref,
                snapshot,
                reply,
            ),
            PreflightStage::Reflog { facts, merge_target, merge_target_oid, is_merged, reflog_path } => Self::on_reflog(
                facts,
                merge_target,
                merge_target_oid,
                is_merged,
                reflog_path,
                reply,
                Ghost(whole),
            ),
            other => {
                let outcome = match reply {
                    GitReply::Ran { outcome } => outcome,
                    _ => {
                        return vstd::pervasive::unreached();
                    },
                };
                Self::ran(repository, worktree_path, delete_branch, other, outcome)
            },
        }
    }

    /// The stages that wait for a Git command and hold no sub-operation.
    closed spec fn runs_git(stage: PreflightStage) -> bool {
        !(stage is Canonicalizing || stage is Listing || stage is Reading || stage is Reflog)
    }

    #[verifier::rlimit(40)]
    fn ran(repository: Vec<u8>, worktree_path: Vec<u8>, delete_branch: bool, stage: PreflightStage, outcome: GitOutcome) -> (r: Step<
        Preflight,
        DeletionPreflight,
    >)
        requires
            Self::runs_git(stage),
        ensures
            r@ == preflight_next(
                (Preflight { repository, worktree_path, delete_branch, stage })@,
                GitReplyView::Ran { outcome: outcome@ },
            ),
    {
        match stage {
            PreflightStage::Status { facts } => {
                let command = make_status_command(&facts.target);
                match checked_stdout(&command, outcome) {
                    Err(e) => Step::Done(Err(e)),
                    Ok(stdout) => if stdout.len() > 0 {
                        Step::Done(Err(GitWorkspaceError::DirtyWorktree { path: facts.target }))
                    } else if !delete_branch {
                        let result = DeletionPreflight {
                            worktree_path: facts.target,
                            branch: facts.branch,
                            branch_oid: facts.oid,
                            is_merged: true,
                            merge_target: String::new(),
                            merge_target_oid: String::new(),
                            reflog_path: Vec::new(),
                            generation: Vec::new(),
                        };
                        Step::Done(Ok(result))
                    } else {
                        let q = GitRequest::Run { command: make_upstream_command(&repository, facts.full_ref.as_str()) };
                        Step::Ask(Preflight { repository, worktree_path, delete_branch, stage: PreflightStage::Upstream { facts } }, q)
                    },
                }
            },
            PreflightStage::Upstream { facts } => {
                let command = make_upstream_command(&repository, facts.full_ref.as_str());
                match read_upstream(&command, outcome) {
                    Err(e) => Step::Done(Err(e)),
                    Ok(Some(u)) => Self::ask_merge(repository, worktree_path, delete_branch, facts, u),
                    Ok(None) => {
                        let q = GitRequest::Run { command: make_remotes_command(&repository) };
                        Step::Ask(Preflight { repository, worktree_path, delete_branch, stage: PreflightStage::Remotes { facts } }, q)
                    },
                }
            },
            PreflightStage::Remotes { facts } => {
                let command = make_remotes_command(&repository);
                match read_remotes(&command, outcome) {
                    Err(e) => Step::Done(Err(e)),
                    Ok(remotes) => match select_primary_remote(remotes.as_slice()) {
                        None => Step::Done(Err(GitWorkspaceError::RemoteNotFound { repo: repository })),
                        Some(remote) => {
                            let q = GitRequest::Run { command: make_default_branch_command(&repository, remote.as_str()) };
                            Step::Ask(
                                Preflight { repository, worktree_path, delete_branch, stage: PreflightStage::DefaultBranch { facts, remote } },
                                q,
                            )
                        },
                    },
                }
            },
            PreflightStage::DefaultBranch { facts, remote } => {
                let command = make_default_branch_command(&repository, remote.as_str());
                match read_default_branch(&repository, remote.as_str(), &command, outcome) {
                    Err(e) => Step::Done(Err(e)),
                    Ok(BranchRef::Remote { full_ref, .. }) => Self::ask_merge(repository, worktree_path, delete_branch, facts, full_ref),
                    Ok(BranchRef::Local { full_ref, .. }) => Step::Done(Err(GitWorkspaceError::InvalidRemoteRef { full_ref })),
                }
            },
            PreflightStage::MergeTarget { facts, merge_target } => {
                let command = make_commit_command(&repository, merge_target.as_str());
                match read_text_output(&command, outcome) {
                    Err(e) => Step::Done(Err(e)),
                    Ok(merge_target_oid) => {
                        let q = GitRequest::Run { command: make_merge_command(&repository, facts.oid.as_str(), merge_target_oid.as_str()) };
                        Step::Ask(
                            Preflight {
                                repository,
                                worktree_path,
                                delete_branch,
                                stage: PreflightStage::Merge { facts, merge_target, merge_target_oid },
                            },
                            q,
                        )
                    },
                }
            },
            PreflightStage::Merge { facts, merge_target, merge_target_oid } => {
                let command = make_merge_command(&repository, facts.oid.as_str(), merge_target_oid.as_str());
                match answer_yes_or_no(&command, outcome) {
                    Err(e) => Step::Done(Err(e)),
                    Ok(is_merged) => {
                        let q = GitRequest::Run { command: make_reflog_path_command(&repository, facts.full_ref.as_str()) };
                        Step::Ask(
                            Preflight {
                                repository,
                                worktree_path,
                                delete_branch,
                                stage: PreflightStage::ReflogPath { facts, merge_target, merge_target_oid, is_merged },
                            },
                            q,
                        )
                    },
                }
            },
            PreflightStage::ReflogPath { facts, merge_target, merge_target_oid, is_merged } => {
                let command = make_reflog_path_command(&repository, facts.full_ref.as_str());
                match read_path_output(&command, outcome) {
                    Err(e) => Step::Done(Err(e)),
                    Ok(reflog_path) => {
                        let q = GitRequest::ReadFile { path: reflog_path.clone() };
                        Step::Ask(
                            Preflight {
                                repository,
                                worktree_path,
                                delete_branch,
                                stage: PreflightStage::Reflog { facts, merge_target, merge_target_oid, is_merged, reflog_path },
                            },
                            q,
                        )
                    },
                }
            },
            _ => vstd::pervasive::unreached(),
        }
    }
}

/// Boxes an optional error.
pub open spec fn boxed(e: Option<GitErrorView>) -> Option<Box<GitErrorView>> {
    match e {
        Some(x) => Some(Box::new(x)),
        None => None,
    }
}

/// The error for a removed worktree whose branch deletion did not commit:
/// the refs and commits that the transaction held, its failure, and the
/// branch as it was read afterwards (or why it could not be read).
pub open spec fn delete_transaction_failed(
    pf: PreflightView,
    full_ref: Seq<char>,
    actual_oid: Option<Seq<char>>,
    actual_symbolic_target: Option<Seq<char>>,
    transaction_error: GitErrorView,
    inspection_error: Option<GitErrorView>,
) -> GitErrorView {
    GitErrorView::BranchDeleteTransactionFailed {
        worktree_path: pf.worktree_path,
        worktree_removed: true,
        branch_ref: full_ref,
        expected_oid: pf.branch_oid,
        merge_target: pf.merge_target,
        merge_target_oid: pf.merge_target_oid,
        actual_oid,
        actual_symbolic_target,
        transaction_error: Box::new(transaction_error),
        inspection_error: boxed(inspection_error),
    }
}

/// The error that stops a removal before it changed anything, once its ref
/// transaction is aborted: the cause itself, or the cause with the abort's failure.
pub open spec fn aborted_error(cause: GitErrorView, reply: GitReplyView) -> GitErrorView {
    match reply {
        GitReplyView::TransactionFailed { message } => GitErrorView::TransactionAbortFailed {
            cause: Box::new(cause),
            abort_error: Box::new(GitErrorView::RefTransactionFailed { stage: "abort"@, message }),
        },
        _ => cause,
    }
}

/// Where a workspace removal stands.
pub enum RemovalStage {
    /// Running the preflight.
    Checking { preflight: Preflight },
    /// Keeping the branch: reading it before touching anything.
    Guarding { pf: DeletionPreflight, snapshot: RefSnapshot },
    /// Keeping the branch: waiting for `git worktree remove`.
    Removing { pf: DeletionPreflight },
    /// Deleting the branch: waiting for the ref transaction to be prepared.
    Preparing { pf: DeletionPreflight },
    /// Deleting the branch: reading the reflog again under the transaction's locks.
    Regenerating { pf: DeletionPreflight },
    /// Deleting the branch: waiting for `git worktree remove` under the locks.
    Detaching { pf: DeletionPreflight },
    /// Deleting the branch: waiting for the transaction to be aborted.
    Aborting { cause: GitWorkspaceError },
    /// Deleting the branch: waiting for the transaction to commit.
    Committing { pf: DeletionPreflight },
    /// Reading the branch after the transaction failed to commit.
    Inspecting { pf: DeletionPreflight, commit_error: GitWorkspaceError, snapshot: RefSnapshot },
}

/// Model of a removal's stage.
pub enum RemovalStageView {
    Checking { preflight: PreflightMachineView },
    Guarding { pf: PreflightView, snapshot: RefSnapshotView },
    Removing { pf: PreflightView },
    Preparing { pf: PreflightView },
    Regenerating { pf: PreflightView },
    Detaching { pf: PreflightView },
    Aborting { cause: GitErrorView },
    Committing { pf: PreflightView },
    Inspecting { pf: PreflightView, commit_error: GitErrorView, snapshot: RefSnapshotView },
}

/// A workspace removal in progress.
pub struct Removal {
    repository: Vec<u8>,
    branch: String,
    full_ref: String,
    delete_branch: bool,
    force_branch: bool,
    stage: RemovalStage,
}

/// Model of a workspace removal.
pub struct RemovalView {
    pub repository: Seq<u8>,
    pub branch: Seq<char>,
    pub full_ref: Seq<char>,
    pub delete_branch: bool,
    pub force_branch: bool,
    pub stage: RemovalStageView,
}

impl View for Removal {
    type V = RemovalView;

    closed spec fn view(&self) -> RemovalView {
        RemovalView {
            repository: self.repository@,
            branch: self.branch@,
            full_ref: self.full_ref@,
            delete_branch: self.delete_branch,
            force_branch: self.force_branch,
            stage: match self.stage {
                RemovalStage::Checking { preflight } => RemovalStageView::Checking { preflight: preflight@ },
                RemovalStage::Guarding { pf, snapshot } => RemovalStageView::Guarding { pf: pf@, snapshot: snapshot@ },
                RemovalStage::Removing { pf } => RemovalStageView::Removing { pf: pf@ },
                RemovalStage::Preparing { pf } => RemovalStageView::Preparing { pf: pf@ },
                RemovalStage::Regenerating { pf } => RemovalStageView::Regenerating { pf: pf@ },
                RemovalStage::Detaching { pf } => RemovalStageView::Detaching { pf: pf@ },
                RemovalStage::Aborting { cause } => RemovalStageView::Aborting { cause: cause@ },
                RemovalStage::Committing { pf } => RemovalStageView::Committing { pf: pf@ },
                RemovalStage::Inspecting { pf, commit_error, snapshot } => RemovalStageView::Inspecting {
                    pf: pf@,
                    commit_error: commit_error@,
                    snapshot: snapshot@,
                },
            },
        }
    }
}

/// A removal that has just begun.
pub open spec fn removal_begun(
    repository: Seq<u8>,
    worktree_path: Seq<u8>,
    branch: Seq<char>,
    delete_branch: bool,
    force_branch: bool,
) -> RemovalView {
    RemovalView {
        repository,
        branch,
        full_ref: branch_ref(branch),
        delete_branch,
        force_branch,
        stage: RemovalStageView::Checking { preflight: preflight_begun(repository, worktree_path, delete_branch) },
    }
}

/// The replies a removal takes in its stage.
pub open spec fn removal_accepts(m: RemovalView, reply: GitReplyView) -> bool {
    match m.stage {
        RemovalStageView::Checking { preflight } => preflight_accepts(preflight, reply),
        RemovalStageView::Preparing { .. } => (reply is TransactionPrepared) || (reply is TransactionFailed),
        RemovalStageView::Regenerating { .. } => (reply is FileRead) || (reply is FileFailed),
        RemovalStageView::Aborting { .. } | RemovalStageView::Committing { .. } => (reply is TransactionDone) || (reply is TransactionFailed),
        _ => reply is Ran,
    }
}

/// The removal in another stage.
pub open spec fn removal_at(m: RemovalView, stage: RemovalStageView) -> RemovalView {
    RemovalView { stage, ..m }
}

/// The transaction that deletes the branch, from a preflight.
pub open spec fn deletion_transaction(m: RemovalView, pf: PreflightView) -> GitRequestView {
    GitRequestView::PrepareRefTransaction {
        repo: m.repository,
        instructions: transaction_instructions(m.full_ref, pf.branch_oid, pf.merge_target, pf.merge_target_oid, m.force_branch),
    }
}

/// How a removal proceeds on a reply. The preflight runs first; the branch
/// it found must be the one named, and unless forced a branch to delete
/// must be merged.
///
/// Keeping the branch, it must still be a direct ref at the preflight's
/// commit before the worktree is removed.
///
/// Deleting it, a ref transaction is prepared that verifies the branch at
/// the preflight's commit, the merge target at its commit unless forced,
/// and deletes the branch at its commit; Git then holds the locks of these
/// refs. Under them the reflog is read again: unless it is as the preflight
/// read it, the transaction is aborted and nothing changes. Then the
/// worktree is removed; when that fails the transaction is aborted. Last
/// the transaction is committed; when the commit fails, the branch is read
/// and the removed worktree is reported with what was found.
pub open spec fn removal_next(m: RemovalView, reply: GitReplyView) -> StepView<RemovalView, ()> {
    match m.stage {
        RemovalStageView::Checking { preflight } => match preflight_next(preflight, reply) {
            StepView::Ask(p, q) => StepView::Ask(removal_at(m, RemovalStageView::Checking { preflight: p }), q),
            StepView::Done(Err(e)) => StepView::Done(Err(e)),
            StepView::Done(Ok(pf)) => if pf.branch != m.branch {
                StepView::Done(Err(GitErrorView::WorktreeBranchMismatch { expected: m.branch, actual: pf.branch }))
            } else if m.delete_branch && !pf.is_merged && !m.force_branch {
                StepView::Done(Err(GitErrorView::BranchNotMerged { branch: m.branch, merge_target: pf.merge_target }))
            } else if m.delete_branch {
                StepView::Ask(removal_at(m, RemovalStageView::Preparing { pf }), deletion_transaction(m, pf))
            } else {
                let snapshot = snapshot_begun(m.repository, m.full_ref);
                StepView::Ask(removal_at(m, RemovalStageView::Guarding { pf, snapshot }), snapshot_request(snapshot))
            },
        },
        RemovalStageView::Guarding { pf, snapshot } => match snapshot_next(snapshot, reply) {
            StepView::Ask(s, q) => StepView::Ask(removal_at(m, RemovalStageView::Guarding { pf, snapshot: s }), q),
            StepView::Done(Err(e)) => StepView::Done(Err(e)),
            StepView::Done(Ok(snap)) => if !snapshot_at(snap, pf.branch_oid) {
                StepView::Done(Err(GitErrorView::BranchChanged {
                    branch: m.branch,
                    expected_oid: pf.branch_oid,
                    actual_oid: snap.direct_oid,
                    actual_symbolic_target: snap.symbolic_target,
                }))
            } else {
                StepView::Ask(
                    removal_at(m, RemovalStageView::Removing { pf }),
                    run_request(remove_command(m.repository, pf.worktree_path)),
                )
            },
        },
        RemovalStageView::Removing { pf } => match reply {
            GitReplyView::Ran { outcome } => match checked_output(remove_command(m.repository, pf.worktree_path), outcome) {
                Err(e) => StepView::Done(Err(e)),
                Ok(_) => StepView::Done(Ok(())),
            },
            _ => arbitrary(),
        },
        RemovalStageView::Preparing { pf } => match reply {
            GitReplyView::TransactionPrepared => StepView::Ask(
                removal_at(m, RemovalStageView::Regenerating { pf }),
                GitRequestView::ReadFile { path: pf.reflog_path },
            ),
            GitReplyView::TransactionFailed { message } => StepView::Done(
                Err(GitErrorView::RefTransactionFailed { stage: "prepare"@, message }),
            ),
            _ => arbitrary(),
        },
        RemovalStageView::Regenerating { pf } => match reply {
            GitReplyView::FileRead { bytes } => if generation_of(bytes) == pf.generation {
                StepView::Ask(
                    removal_at(m, RemovalStageView::Detaching { pf }),
                    run_request(remove_command(m.repository, pf.worktree_path)),
                )
            } else {
                StepView::Ask(
                    removal_at(m, RemovalStageView::Aborting { cause: GitErrorView::BranchGenerationChanged { branch: m.branch } }),
                    GitRequestView::AbortRefTransaction,
                )
            },
            GitReplyView::FileFailed { message } => StepView::Ask(
                removal_at(
                    m,
                    RemovalStageView::Aborting {
                        cause: GitErrorView::ReflogUnavailable { branch: m.branch, path: pf.reflog_path, message },
                    },
                ),
                GitRequestView::AbortRefTransaction,
            ),
            _ => arbitrary(),
        },
        RemovalStageView::Detaching { pf } => match reply {
            GitReplyView::Ran { outcome } => match checked_output(remove_command(m.repository, pf.worktree_path), outcome) {
                Err(e) => StepView::Ask(removal_at(m, RemovalStageView::Aborting { cause: e }), GitRequestView::AbortRefTransaction),
                Ok(_) => StepView::Ask(removal_at(m, RemovalStageView::Committing { pf }), GitRequestView::CommitRefTransaction),
            },
            _ => arbitrary(),
        },
        RemovalStageView::Aborting { cause } => StepView::Done(Err(aborted_error(cause, reply))),
        RemovalStageView::Committing { pf } => match reply {
            GitReplyView::TransactionDone => StepView::Done(Ok(())),
            GitReplyView::TransactionFailed { message } => {
                let commit_error = GitErrorView::RefTransactionFailed { stage: "commit"@, message };
                let snapshot = snapshot_begun(m.repository, m.full_ref);
                StepView::Ask(removal_at(m, RemovalStageView::Inspecting { pf, commit_error, snapshot }), snapshot_request(snapshot))
            },
            _ => arbitrary(),
        },
        RemovalStageView::Inspecting { pf, commit_error, snapshot } => match snapshot_next(snapshot, reply) {
            StepView::Ask(s, q) => StepView::Ask(removal_at(m, RemovalStageView::Inspecting { pf, commit_error, snapshot: s }), q),
            StepView::Done(Ok(snap)) => StepView::Done(
                Err(delete_transaction_failed(pf, m.full_ref, snap.direct_oid, snap.symbolic_target, commit_error, None)),
            ),
            StepView::Done(Err(ie)) => StepView::Done(
                Err(delete_transaction_failed(pf, m.full_ref, None, None, commit_error, Some(ie))),
            ),
        },
    }
}

pub(crate) fn boxed_error(e: Option<GitWorkspaceError>) -> (r: Option<Box<GitWorkspaceError>>)
    ensures
        match r {
            Some(b) => opt_error(e) == Some((*b)@),
            None => e is None,
        },
{
    match e {
        Some(x) => Some(Box::new(x)),
        None => None,
    }
}

fn transaction_failed_error(
    pf: DeletionPreflight,
    full_ref: &String,
    actual_oid: Option<String>,
    actual_symbolic_target: Option<String>,
    transaction_error: GitWorkspaceError,
    inspection_error: Option<GitWorkspaceError>,
) -> (e: GitWorkspaceError)
    ensures
        e@ == delete_transaction_failed(
            pf@,
            full_ref@,
            opt_text(actual_oid),
            opt_text(actual_symbolic_target),
            transaction_error@,
            opt_error(inspection_error),
        ),
{
    let inspection = boxed_error(inspection_error);
    GitWorkspaceError::BranchDeleteTransactionFailed {
        worktree_path: pf.worktree_path,
        worktree_removed: true,
        branch_ref: full_ref.clone(),
        expected_oid: pf.branch_oid,
        merge_target: pf.merge_target,
        merge_target_oid: pf.merge_target_oid,
        actual_oid,
        actual_symbolic_target,
        transaction_error: Box::new(transaction_error),
        inspection_error: inspection,
    }
}

impl Removal {
    /// Begins removing the worktree at `worktree_path` from `repository`,
    /// which must check out `branch`; the branch is deleted too when
    /// `delete_branch`, even unmerged when `force_branch`.
    pub fn start(
        repository: &Vec<u8>,
        worktree_path: &Vec<u8>,
        branch: &str,
        delete_branch: bool,
        force_branch: bool,
    ) -> (r: (Removal, GitRequest))
        ensures
            r.0@ == removal_begun(repository@, worktree_path@, branch@, delete_branch, force_branch),
            r.1@ == (GitRequestView::Canonicalize { path: worktree_path@ }),
    {
        let (preflight, q) = Preflight::start(repository, worktree_path, delete_branch);
        let m = Removal {
            repository: repository.clone(),
            branch: text(branch),
            full_ref: make_branch_ref(branch),
            delete_branch,
            force_branch,
            stage: RemovalStage::Checking { preflight },
        };
        (m, q)
    }

    fn on_checked(
        repository: Vec<u8>,
        branch: String,
        full_ref: String,
        delete_branch: bool,
        force_branch: bool,
        pf: DeletionPreflight,
        Ghost(m): Ghost<RemovalView>,
    ) -> (r: Step<Removal, ()>)
        requires
            m.repository == repository@,
            m.branch == branch@,
            m.full_ref == full_ref@,
            m.delete_branch == delete_branch,
            m.force_branch == force_branch,
        ensures
            r@ == (if pf@.branch != m.branch {
                StepView::Done(Err(GitErrorView::WorktreeBranchMismatch { expected: m.branch, actual: pf@.branch }))
            } else if m.delete_branch && !pf@.is_merged && !m.force_branch {
                StepView::Done(Err(GitErrorView::BranchNotMerged { branch: m.branch, merge_target: pf@.merge_target }))
            } else if m.delete_branch {
                StepView::Ask(removal_at(m, RemovalStageView::Preparing { pf: pf@ }), deletion_transaction(m, pf@))
            } else {
                let snapshot = snapshot_begun(m.repository, m.full_ref);
                StepView::<RemovalView, ()>::Ask(removal_at(m, RemovalStageView::Guarding { pf: pf@, snapshot }), snapshot_request(snapshot))
            }),
    {
        if !crate::text::text_eq(pf.branch.as_str(), branch.as_str()) {
            return Step::Done(Err(GitWorkspaceError::WorktreeBranchMismatch { expected: branch, actual: pf.branch }));
        }
        if delete_branch && !pf.is_merged && !force_branch {
            return Step::Done(Err(GitWorkspaceError::BranchNotMerged { branch, merge_target: pf.merge_target }));
        }
        if delete_branch {
            let instructions = make_transaction_instructions(
                full_ref.as_str(),
                pf.branch_oid.as_str(),
                pf.merge_target.as_str(),
                pf.merge_target_oid.as_str(),
                force_branch,
            );
            let q = GitRequest::PrepareRefTransaction { repo: repository.clone(), instructions };
            Step::Ask(Removal { repository, branch, full_ref, delete_branch, force_branch, stage: RemovalStage::Preparing { pf } }, q)
        } else {
            let (snapshot, q) = RefSnapshot::start(&repository, full_ref.as_str());
            Step::Ask(Removal { repository, branch, full_ref, delete_branch, force_branch, stage: RemovalStage::Guarding { pf, snapshot } }, q)
        }
    }

    fn on_regenerating(
        repository: Vec<u8>,
        branch: String,
        full_ref: String,
        delete_branch: bool,
        force_branch: bool,
        pf: DeletionPreflight,
        reply: GitReply,
        Ghost(m): Ghost<RemovalView>,
    ) -> (r: Step<Removal, ()>)
        requires
            (reply@ is FileRead) || (reply@ is FileFailed),
            m == (Removal { repository, branch, full_ref, delete_branch, force_branch, stage: RemovalStage::Regenerating { pf } })@,
        ensures
            r@ == removal_next(m, reply@),
    {
        match reply {
            GitReply::FileRead { bytes } => if crate::bytes::bytes_eq(reflog_generation(bytes.as_slice()).as_slice(), pf.generation.as_slice()) {
                let q = GitRequest::Run { command: make_remove_command(&repository, &pf.worktree_path) };
                Step::Ask(Removal { repository, branch, full_ref, delete_branch, force_branch, stage: RemovalStage::Detaching { pf } }, q)
            } else {
                let cause = GitWorkspaceError::BranchGenerationChanged { branch: branch.clone() };
                Step::Ask(
                    Removal { repository, branch, full_ref, delete_branch, force_branch, stage: RemovalStage::Aborting { cause } },
                    GitRequest::AbortRefTransaction,
                )
            },
            GitReply::FileFailed { message } => {
                let cause = GitWorkspaceError::ReflogUnavailable { branch: branch.clone(), path: pf.reflog_path, message };
                Step::Ask(
                    Removal { repository, branch, full_ref, delete_branch, force_branch, stage: RemovalStage::Aborting { cause } },
                    GitRequest::AbortRefTransaction,
                )
            },
            _ => vstd::pervasive::unreached(),
        }
    }

    fn on_aborting(cause: GitWorkspaceError, reply: GitReply, Ghost(m): Ghost<RemovalView>) -> (r: Step<Removal, ()>)
        requires
            m.stage == (RemovalStageView::Aborting { cause: cause@ }),
        ensures
            r@ == removal_next(m, reply@),
    {
        match reply {
            GitReply::TransactionFailed { message } => {
                let abort_error = GitWorkspaceError::RefTransactionFailed { stage: text("abort"), message };
                assert(abort_error@ == (GitErrorView::RefTransactionFailed { stage: "abort"@, message: reply@->TransactionFailed_message }));
                let e = GitWorkspaceError::TransactionAbortFailed { cause: Box::new(cause), abort_error: Box::new(abort_error) };
                assert(e@ == aborted_error(m.stage->Aborting_cause, reply@));
                Step::Done(Err(e))
            },
            _ => {
                assert(cause@ == aborted_error(m.stage->Aborting_cause, reply@));
                Step::Done(Err(cause))
            },
        }
    }

    fn on_committing(
        repository: Vec<u8>,
        branch: String,
        full_ref: String,
        delete_branch: bool,
        force_branch: bool,
        pf: DeletionPreflight,
        reply: GitReply,
        Ghost(m): Ghost<RemovalView>,
    ) -> (r: Step<Removal, ()>)
        requires
            (reply@ is TransactionDone) || (reply@ is TransactionFailed),
            m == (Removal { repository, branch, full_ref, delete_branch, force_branch, stage: RemovalStage::Committing { pf } })@,
        ensures
            r@ == removal_next(m, reply@),
    {
        match reply {
            GitReply::TransactionDone => Step::Done(Ok(())),
            GitReply::TransactionFailed { message } => {
                let commit_error = GitWorkspaceError::RefTransactionFailed { stage: text("commit"), message };
                let (snapshot, q) = RefSnapshot::start(&repository, full_ref.as_str());
                Step::Ask(
                    Removal { repository, branch, full_ref, delete_branch, force_branch, stage: RemovalStage::Inspecting { pf, commit_error, snapshot } },
                    q,
                )
            },
            _ => vstd::pervasive::unreached(),
        }
    }

    /// Takes the reply to the pending request.
    #[verifier::rlimit(60)]
    pub fn step(self, reply: GitReply) -> (r: Step<Removal, ()>)
        requires
            removal_accepts(self@, reply@),
        ensures
            r@ == removal_next(self@, reply@),
    {
        let ghost whole = self@;
        let Removal { repository, branch, full_ref, delete_branch, force_branch, stage } = self;
        match stage {
            RemovalStage::Checking { preflight } => match preflight.step(reply) {
                Step::Ask(p, q) => Step::Ask(
                    Removal { repository, branch, full_ref, delete_branch, force_branch, stage: RemovalStage::Checking { preflight: p } },
                    q,
                ),
                Step::Done(Err(e)) => Step::Done(Err(e)),
                Step::Done(Ok(pf)) => Self::on_checked(repository, branch, full_ref, delete_branch, force_branch, pf, Ghost(whole)),
            },
            RemovalStage::Guarding { pf, snapshot } => {
                match snapshot.step(reply) {
                    Step::Ask(s, q) => Step::Ask(
                        Removal { repository, branch, full_ref, delete_branch, force_branch, stage: RemovalStage::Guarding { pf, snapshot: s } },
                        q,
                    ),
                    Step::Done(Err(e)) => Step::Done(Err(e)),
                    Step::Done(Ok(snap)) => {
                        if !is_snapshot_at(&snap, pf.branch_oid.as_str()) {
                            return Step::Done(Err(GitWorkspaceError::BranchChanged {
                                branch,
                                expected_oid: pf.branch_oid,
                                actual_oid: snap.direct_oid,
                                actual_symbolic_target: snap.symbolic_target,
                            }));
                        }
                        let q = GitRequest::Run { command: make_remove_command(&repository, &pf.worktree_path) };
                        Step::Ask(
                            Removal { repository, branch, full_ref, delete_branch, force_branch, stage: RemovalStage::Removing { pf } },
                            q,
                        )
                    },
                }
            },
            RemovalStage::Removing { pf } => {
                let outcome = match reply {
                    GitReply::Ran { outcome } => outcome,
                    _ => {
                        return vstd::pervasive::unreached();
                    },
                };
                let command = make_remove_command(&repository, &pf.worktree_path);
                match checked_stdout(&command, outcome) {
                    Err(e) => Step::Done(Err(e)),
                    Ok(_) => Step::Done(Ok(())),
                }
            },
            RemovalStage::Preparing { pf } => match reply {
                GitReply::TransactionPrepared => {
                    let q = GitRequest::ReadFile { path: pf.reflog_path.clone() };
                    Step::Ask(Removal { repository, branch, full_ref, delete_branch, force_branch, stage: RemovalStage::Regenerating { pf } }, q)
                },
                GitReply::TransactionFailed { message } => Step::Done(
                    Err(GitWorkspaceError::RefTransactionFailed { stage: text("prepare"), message }),
                ),
                _ => vstd::pervasive::unreached(),
            },
            RemovalStage::Regenerating { pf } => Self::on_regenerating(repository, branch, full_ref, delete_branch, force_branch, pf, reply, Ghost(whole)),
            RemovalStage::Detaching { pf } => {
                let outcome = match reply {
                    GitReply::Ran { outcome } => outcome,
                    _ => {
                        return vstd::pervasive::unreached();
                    },
                };
                let command = make_remove_command(&repository, &pf.worktree_path);
                match checked_stdout(&command, outcome) {
                    Err(cause) => Step::Ask(
                        Removal { repository, branch, full_ref, delete_branch, force_branch, stage: RemovalStage::Aborting { cause } },
                        GitRequest::AbortRefTransaction,
                    ),
                    Ok(_) => Step::Ask(
                        Removal { repository, branch, full_ref, delete_branch, force_branch, stage: RemovalStage::Committing { pf } },
                        GitRequest::CommitRefTransaction,
                    ),
                }
            },
            RemovalStage::Aborting { cause } => Self::on_aborting(cause, reply, Ghost(whole)),
            RemovalStage::Committing { pf } => Self::on_committing(repository, branch, full_ref, delete_branch, force_branch, pf, reply, Ghost(whole)),
            RemovalStage::Inspecting { pf, commit_error, snapshot } => match snapshot.step(reply) {
                Step::Ask(s, q) => Step::Ask(
                    Removal {
                        repository,
                        branch,
                        full_ref,
                        delete_branch,
                        force_branch,
                        stage: RemovalStage::Inspecting { pf, commit_error, snapshot: s },
                    },
                    q,
                ),
                Step::Done(Ok(snap)) => Step::Done(
                    Err(transaction_failed_error(pf, &full_ref, snap.direct_oid, snap.symbolic_target, commit_error, None)),
                ),
                Step::Done(Err(ie)) => Step::Done(Err(transaction_failed_error(pf, &full_ref, None, None, commit_error, Some(ie)))),
            },
        }
    }
}

} // verus!
