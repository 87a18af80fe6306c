//! What the Git operations promise across their steps: what they change
//! only after which checks, and what they never touch.
use vstd::prelude::*;

use crate::git::cloning::{clone_accepts, clone_begun, clone_next, CloneStageView, CloneView};
use crate::git::command::{git_path_of, run_request, GitArgView, GitCommandView, GitReplyView, GitRequestView, StepView};
use crate::git::commands::remove_command;
use crate::git::removal::{removal_accepts, removal_begun, removal_next, RemovalStageView, RemovalView};
use crate::git::commands::transaction_instructions;
use crate::git::generation::generation_of;
use crate::git::snapshot::{snapshot_at, snapshot_next, snapshot_request, RefSnapshotView, SnapshotStageView};
use crate::git::creation::{creation_accepts, creation_next, lists_path, CreationStageView, RemoteCreationView};
use crate::git::command::checked_output;
use crate::git::commands::{new_branch_add_command, show_ref_command, upstream_command};
use crate::git::decide::{default_branch_of, remote_refs_prefix, unexpected_default, upstream_of, yes_or_no};
use crate::git::command::{decoded_text, GitOutcomeView};
use crate::git::types::BranchRefView;
use crate::text::strip_prefix;
use crate::git::types::GitErrorView;
use crate::git::decide::exited_ok;
use crate::git::removal::{preflight_accepts, preflight_next, PreflightMachineView};
use crate::git::worktrees::{field_step, listing_accepts, listing_next, RawWorktreeView, WorktreeListingView};
use crate::git::creation::{local_accepts, local_next, LocalCreationView, LocalStageView};
use crate::git::types::PreflightView;
use crate::git::refs::primary_remote_of;
use crate::git::naming::{is_windows_drive_absolute, repository_name_given, without_git_suffix};
use crate::bytes::ascii_bytes;
use crate::text::{has_prefix, trim, utf8_chars};

verus! {

/// A request that changes the repository or the filesystem.
pub open spec fn mutating(q: GitRequestView) -> bool {
    match q {
        GitRequestView::CreateDirectory { .. } | GitRequestView::RemoveDirectoryTree { .. }
        | GitRequestView::ClaimDirectory { .. } | GitRequestView::RemoveEmptyDirectory { .. } => true,
        GitRequestView::CommitRefTransaction => true,
        GitRequestView::Run { command } => {
            let a = command.args;
            a.len() > 0 && (a[0] == GitArgView::Text("update-ref"@) || a[0] == GitArgView::Text("clone"@) || a[0]
                == GitArgView::Text("fetch"@) || (a[0] == GitArgView::Text("worktree"@) && a.len() > 1 && (a[1]
                == GitArgView::Text("add"@) || a[1] == GitArgView::Text("remove"@))))
        },
        _ => false,
    }
}

/// A step asks for a change.
pub open spec fn asks_to_mutate<M, T>(s: StepView<M, T>) -> bool {
    match s {
        StepView::Ask(_, q) => mutating(q),
        StepView::Done(_) => false,
    }
}

/// A removal past its preflight keeps what the preflight found: the branch
/// it names; a branch-deleting stage only when deletion was asked for, and
/// then merged unless forced; a branch-keeping stage only otherwise.
pub open spec fn removal_consistent(m: RemovalView) -> bool {
    match m.stage {
        RemovalStageView::Checking { .. } | RemovalStageView::Aborting { .. } => true,
        RemovalStageView::Guarding { pf, .. } | RemovalStageView::Removing { pf } => pf.branch == m.branch && !m.delete_branch,
        RemovalStageView::Preparing { pf } | RemovalStageView::Regenerating { pf } | RemovalStageView::Detaching { pf }
        | RemovalStageView::Committing { pf } | RemovalStageView::Inspecting { pf, .. } => m.delete_branch && pf.branch == m.branch
            && (pf.is_merged || m.force_branch),
    }
}

/// Every removal stays consistent: the branch deleted is the one the
/// worktree checks out, only when its deletion was asked for, and only when
/// merged or forced.
pub proof fn law_removal_stays_consistent(m: RemovalView, reply: GitReplyView)
    requires
        removal_consistent(m),
        removal_accepts(m, reply),
    ensures
        removal_consistent(removal_begun(m.repository, Seq::empty(), m.branch, m.delete_branch, m.force_branch)),
        removal_next(m, reply) matches StepView::Ask(next, _) ==> removal_consistent(next),
{
}

/// The worktree is removed only after a last check. Keeping the branch, the
/// branch was just read as a direct ref at the commit the preflight saw.
/// Deleting it, the prepared transaction holds the branch at that commit
/// and the reflog was just read back exactly as the preflight read it. It
/// is the preflight's canonical path that is removed.
pub proof fn law_worktree_removed_only_after_the_last_check(m: RemovalView, reply: GitReplyView)
    requires
        removal_accepts(m, reply),
    ensures
        removal_next(m, reply) matches StepView::Ask(next, q) ==> next.stage is Removing ==> {
            &&& m.stage matches RemovalStageView::Guarding { pf, snapshot }
            &&& snapshot_next(snapshot, reply) matches StepView::Done(Ok(snap))
            &&& snapshot_at(snap, pf.branch_oid)
            &&& q == run_request(remove_command(m.repository, pf.worktree_path))
        },
        removal_next(m, reply) matches StepView::Ask(next, q) ==> next.stage is Detaching ==> {
            &&& m.stage matches RemovalStageView::Regenerating { pf }
            &&& reply matches GitReplyView::FileRead { bytes }
            &&& generation_of(bytes) == pf.generation
            &&& q == run_request(remove_command(m.repository, pf.worktree_path))
        },
{
}

/// A removal changes nothing but the worktree and, through its ref
/// transaction, the branch: its only changing requests are the worktree's
/// removal and the transaction's commit. The transaction verifies the
/// branch at the preflight's commit, and the merge target at the commit
/// the merge was checked against unless forced, and deletes the branch at
/// that commit; it is committed only right after the worktree's removal
/// succeeded under it.
pub proof fn law_branch_deleted_only_by_the_checked_transaction(m: RemovalView, reply: GitReplyView)
    requires
        removal_accepts(m, reply),
    ensures
        removal_next(m, reply) matches StepView::Ask(_, q) ==> mutating(q) ==> (q is CommitRefTransaction || q is Run),
        removal_next(m, reply) matches StepView::Ask(_, GitRequestView::Run { command }) ==> mutating(run_request(command)) ==> (
        m.stage is Guarding || m.stage is Regenerating),
        removal_next(m, reply) matches StepView::Ask(next, q) ==> next.stage is Preparing ==> {
            &&& next.stage matches RemovalStageView::Preparing { pf }
            &&& m.stage is Checking
            &&& m.delete_branch
            &&& (pf.is_merged || m.force_branch)
            &&& q == (GitRequestView::PrepareRefTransaction {
                repo: m.repository,
                instructions: transaction_instructions(m.full_ref, pf.branch_oid, pf.merge_target, pf.merge_target_oid, m.force_branch),
            })
        },
        removal_next(m, reply) matches StepView::Ask(_, q) ==> q is CommitRefTransaction ==> {
            &&& m.stage matches RemovalStageView::Detaching { pf }
            &&& reply matches GitReplyView::Ran { outcome }
            &&& checked_output(remove_command(m.repository, pf.worktree_path), outcome) is Ok
        },
{
    lemma_command_words_differ();
    match m.stage {
        RemovalStageView::Checking { preflight } => {
            law_preflight_changes_nothing(preflight, reply);
        },
        RemovalStageView::Guarding { snapshot, .. } => {
            lemma_snapshot_reads_only(snapshot, reply);
        },
        RemovalStageView::Inspecting { snapshot, .. } => {
            lemma_snapshot_reads_only(snapshot, reply);
        },
        _ => {},
    }
}

/// A branch whose reflog digest changed since the preflight, even back to the
/// same commit after a deletion and re-creation, is refused before anything
/// changes: the transaction is aborted, and the removal ends with the
/// change reported.
pub proof fn law_changed_generation_changes_nothing(m: RemovalView, reply: GitReplyView)
    requires
        removal_accepts(m, reply),
        m.stage is Regenerating,
        !(reply matches GitReplyView::FileRead { bytes } && generation_of(bytes) == m.stage->Regenerating_pf.generation),
    ensures
        removal_next(m, reply) is Ask,
        removal_next(m, reply)->Ask_1 is AbortRefTransaction,
        !mutating(removal_next(m, reply)->Ask_1),
        removal_next(m, reply)->Ask_0.stage is Aborting,
        reply is FileRead ==> removal_next(m, reply)->Ask_0.stage == (RemovalStageView::Aborting {
            cause: GitErrorView::BranchGenerationChanged { branch: m.branch },
        }),
        forall|abort_reply: GitReplyView|
            #![trigger removal_next(removal_next(m, reply)->Ask_0, abort_reply)]
            removal_accepts(removal_next(m, reply)->Ask_0, abort_reply) ==> removal_next(
                removal_next(m, reply)->Ask_0,
                abort_reply,
            ) is Done && removal_next(removal_next(m, reply)->Ask_0, abort_reply)->Done_0 is Err,
{
}

/// A clone's target holds what this clone created: the stages after the
/// directory's creation.
pub open spec fn clone_owns_target(m: CloneView) -> bool {
    (m.stage is Cloning) || (m.stage is Validating) || (m.stage is CleaningUp)
}

/// A clone removes a directory only after creating it: the only directory it
/// removes is its target, from a stage that owns the target; it comes to own
/// the target only when its own creation of it succeeded; and an existing
/// target ends the clone at once.
pub proof fn law_clone_removes_only_what_it_created(m: CloneView, reply: GitReplyView)
    requires
        clone_accepts(m, reply),
    ensures
        !clone_owns_target(clone_begun(m.url, m.target)),
        clone_next(m, reply) matches StepView::Ask(_, GitRequestView::RemoveDirectoryTree { path }) ==> path == m.target
            && clone_owns_target(m),
        clone_next(m, reply) matches StepView::Ask(next, _) ==> clone_owns_target(next) ==> clone_owns_target(m) || (
        m.stage is Creating && reply is DirectoryDone),
        m.stage is Exists && reply == (GitReplyView::Exists { exists: true }) ==> clone_next(m, reply) == StepView::<
            CloneView,
            crate::git::types::ValidatedView,
        >::Done(Err(crate::git::types::GitErrorView::TargetExists { path: m.target })),
{
}

/// A path Git prints is read back exactly: the bytes before the final newline.
pub proof fn law_git_path_read_back(path: Seq<u8>)
    ensures
        git_path_of(path.push(10u8)) == path,
{
    assert(path.push(10u8).drop_last() =~= path);
}

/// The literals that tell mutating commands apart differ from the others.
proof fn lemma_command_words_differ()
    ensures
        "symbolic-ref"@ != "update-ref"@ && "symbolic-ref"@ != "clone"@ && "symbolic-ref"@ != "fetch"@ && "symbolic-ref"@ != "worktree"@,
        "for-each-ref"@ != "update-ref"@ && "for-each-ref"@ != "clone"@ && "for-each-ref"@ != "fetch"@ && "for-each-ref"@ != "worktree"@,
        "status"@ != "update-ref"@ && "status"@ != "clone"@ && "status"@ != "fetch"@ && "status"@ != "worktree"@,
        "remote"@ != "update-ref"@ && "remote"@ != "clone"@ && "remote"@ != "fetch"@ && "remote"@ != "worktree"@,
        "merge-base"@ != "update-ref"@ && "merge-base"@ != "clone"@ && "merge-base"@ != "fetch"@ && "merge-base"@ != "worktree"@,
        "list"@ != "add"@ && "list"@ != "remove"@,
        "worktree"@ != "update-ref"@ && "worktree"@ != "clone"@ && "worktree"@ != "fetch"@,
        "rev-parse"@ != "update-ref"@ && "rev-parse"@ != "clone"@ && "rev-parse"@ != "fetch"@ && "rev-parse"@ != "worktree"@,
        "-c"@ != "update-ref"@ && "-c"@ != "clone"@ && "-c"@ != "fetch"@ && "-c"@ != "worktree"@,
        "show-ref"@ != "update-ref"@ && "show-ref"@ != "clone"@ && "show-ref"@ != "fetch"@ && "show-ref"@ != "worktree"@,
        "check-ref-format"@ != "update-ref"@ && "check-ref-format"@ != "clone"@ && "check-ref-format"@ != "fetch"@
            && "check-ref-format"@ != "worktree"@,
{
    reveal_strlit("symbolic-ref");
    reveal_strlit("update-ref");
    reveal_strlit("clone");
    reveal_strlit("fetch");
    reveal_strlit("worktree");
    reveal_strlit("for-each-ref");
    reveal_strlit("status");
    reveal_strlit("remote");
    reveal_strlit("merge-base");
    reveal_strlit("list");
    reveal_strlit("add");
    reveal_strlit("remove");
    reveal_strlit("rev-parse");
    reveal_strlit("-c");
    reveal_strlit("show-ref");
    reveal_strlit("check-ref-format");
    assert("show-ref"@[0] != "update-ref"@[0]);
    assert("show-ref"@.len() != "clone"@.len());
    assert("show-ref"@.len() != "fetch"@.len());
    assert("show-ref"@[0] != "worktree"@[0]);
    assert("check-ref-format"@.len() != "update-ref"@.len());
    assert("check-ref-format"@.len() != "clone"@.len());
    assert("check-ref-format"@.len() != "fetch"@.len());
    assert("check-ref-format"@.len() != "worktree"@.len());
    assert("symbolic-ref"@[0] != "update-ref"@[0]);
    assert("symbolic-ref"@.len() != "clone"@.len());
    assert("symbolic-ref"@.len() != "fetch"@.len());
    assert("symbolic-ref"@.len() != "worktree"@.len());
    assert("for-each-ref"@[0] != "update-ref"@[0]);
    assert("for-each-ref"@.len() != "clone"@.len());
    assert("for-each-ref"@.len() != "fetch"@.len());
    assert("for-each-ref"@.len() != "worktree"@.len());
    assert("status"@.len() != "update-ref"@.len());
    assert("status"@.len() != "clone"@.len());
    assert("status"@.len() != "fetch"@.len());
    assert("status"@.len() != "worktree"@.len());
    assert("remote"@.len() != "update-ref"@.len());
    assert("remote"@.len() != "clone"@.len());
    assert("remote"@.len() != "fetch"@.len());
    assert("remote"@.len() != "worktree"@.len());
    assert("merge-base"@[0] != "update-ref"@[0]);
    assert("merge-base"@.len() != "clone"@.len());
    assert("merge-base"@.len() != "fetch"@.len());
    assert("merge-base"@.len() != "worktree"@.len());
    assert("list"@.len() != "add"@.len());
    assert("worktree"@[0] != "update-ref"@[0]);
    assert("worktree"@.len() != "clone"@.len());
    assert("worktree"@.len() != "fetch"@.len());
    assert("list"@.len() != "remove"@.len());
    assert("rev-parse"@.len() != "update-ref"@.len());
    assert("rev-parse"@.len() != "clone"@.len());
    assert("rev-parse"@.len() != "fetch"@.len());
    assert("rev-parse"@.len() != "worktree"@.len());
    assert("-c"@.len() != "update-ref"@.len());
    assert("-c"@.len() != "clone"@.len());
    assert("-c"@.len() != "fetch"@.len());
    assert("-c"@.len() != "worktree"@.len());
}

/// A ref read asks only for reads.
proof fn lemma_snapshot_reads_only(s: RefSnapshotView, reply: GitReplyView)
    requires
        reply is Ran,
    ensures
        !mutating(snapshot_request(s)),
        !asks_to_mutate(snapshot_next(s, reply)),
{
    lemma_command_words_differ();
}

/// Every request of a ref read is a read.
proof fn lemma_snapshot_requests_read()
    ensures
        forall|s: RefSnapshotView| !mutating(#[trigger] snapshot_request(s)),
{
    lemma_command_words_differ();
}

/// A worktree listing asks only for reads.
proof fn lemma_listing_reads_only(l: WorktreeListingView, reply: GitReplyView)
    requires
        listing_accepts(l, reply),
    ensures
        !asks_to_mutate(listing_next(l, reply)),
{
}

/// The checks before a removal change nothing: every request they make is a read.
pub proof fn law_preflight_changes_nothing(m: PreflightMachineView, reply: GitReplyView)
    requires
        preflight_accepts(m, reply),
    ensures
        !asks_to_mutate(preflight_next(m, reply)),
{
    lemma_command_words_differ();
    match m.stage {
        crate::git::removal::PreflightStageView::Listing { listing, target } => {
            lemma_preflight_listing_reads_only(m, listing, target, reply);
        },
        crate::git::removal::PreflightStageView::Reading { snapshot, .. } => {
            lemma_snapshot_reads_only(snapshot, reply);
        },
        _ => {},
    }
}

/// The worktree path is claimed, by creating its directory, only after all
/// the checks passed and the new branch was found absent; once the claim
/// succeeded the path is checked again, and the worktree is added only while
/// a directory is still there, on the new branch created at the remote ref
/// by that one command. When the path is no longer a directory, or cannot be
/// inspected, the creation ends with an error and changes nothing more.
pub proof fn law_path_claimed_only_after_checks(m: RemoteCreationView, reply: GitReplyView)
    requires
        creation_accepts(m, reply),
    ensures
        creation_next(m, reply) matches StepView::Ask(next, q) ==> next.stage is Claim ==> {
            &&& m.stage is BranchExists
            &&& reply matches GitReplyView::Ran { outcome }
            &&& yes_or_no(show_ref_command(m.repository, m.full_ref), outcome) == Ok::<bool, GitErrorView>(false)
            &&& q == (GitRequestView::ClaimDirectory { path: m.worktree_path })
        },
        creation_next(m, reply) matches StepView::Ask(next, q) ==> next.stage is Rechecking ==> {
            &&& m.stage is Claim
            &&& reply is DirectoryDone
            &&& q == (GitRequestView::CheckDirectory { path: m.worktree_path })
            &&& !mutating(q)
        },
        creation_next(m, reply) matches StepView::Ask(next, q) ==> next.stage is Adding ==> {
            &&& m.stage is Rechecking
            &&& reply == (GitReplyView::IsDirectory { directory: true })
            &&& q == run_request(new_branch_add_command(m.repository, m.worktree_path, m.new_branch, m.remote_ref))
        },
        m.stage is Rechecking && reply != (GitReplyView::IsDirectory { directory: true }) ==> creation_next(m, reply) matches StepView::Done(
            Err(_),
        ),
{
}

/// The Git error of a failed worktree addition, as the creation keeps it.
pub open spec fn kept_create_error(stage: CreationStageView) -> GitErrorView {
    match stage {
        CreationStageView::FailedPath { create_error } => create_error,
        CreationStageView::FailedListing { create_error, .. } => create_error,
        CreationStageView::FailedRemoving { create_error } => create_error,
        _ => arbitrary(),
    }
}

/// When Git fails to add the worktree, its error is kept and the creation
/// deletes no ref: the only change it may still ask for is removing the
/// claimed directory while it is empty, and only after the listing showed
/// no worktree registered at its canonical path. It ends with Git's error,
/// reporting that the branch may remain.
pub proof fn law_failed_addition_keeps_the_branch(m: RemoteCreationView, reply: GitReplyView)
    requires
        creation_accepts(m, reply),
    ensures
        creation_next(m, reply) matches StepView::Ask(next, q) ==> next.stage is FailedPath ==> {
            &&& m.stage matches CreationStageView::Adding { .. }
            &&& reply matches GitReplyView::Ran { outcome }
            &&& checked_output(new_branch_add_command(m.repository, m.worktree_path, m.new_branch, m.remote_ref), outcome)
                == Err::<Seq<u8>, GitErrorView>(kept_create_error(next.stage))
            &&& !mutating(q)
        },
        ((m.stage is FailedPath) || (m.stage is FailedListing) || (m.stage is FailedRemoving)) ==> {
            &&& creation_next(m, reply) matches StepView::Ask(next, q) ==> {
                &&& kept_create_error(next.stage) == kept_create_error(m.stage)
                &&& mutating(q) ==> q == (GitRequestView::RemoveEmptyDirectory { path: m.worktree_path })
                &&& q is RemoveEmptyDirectory ==> (m.stage matches CreationStageView::FailedListing { registered, listing, .. }
                    && listing_next(listing, reply) matches StepView::Done(Ok(ws)) && !lists_path(ws, registered))
            }
            &&& creation_next(m, reply) matches StepView::Done(r) ==> (r matches Err(
                GitErrorView::WorktreeCreationFailed { create_error, branch_may_remain, .. },
            ) && branch_may_remain && *create_error == kept_create_error(m.stage))
        },
{
    lemma_command_words_differ();
    match m.stage {
        CreationStageView::FailedListing { listing, .. } => {
            lemma_listing_reads_only(listing, reply);
        },
        _ => {},
    }
}

/// A creation succeeds only after the new branch was read back with no
/// upstream, the last of the checks on the added worktree.
pub proof fn law_success_only_without_upstream(m: RemoteCreationView, reply: GitReplyView)
    requires
        creation_accepts(m, reply),
    ensures
        creation_next(m, reply) matches StepView::Done(Ok(_)) ==> {
            &&& m.stage is VerifyUpstream
            &&& reply matches GitReplyView::Ran { outcome }
            &&& upstream_of(upstream_command(m.repository, m.full_ref), outcome) == Ok::<Option<Seq<char>>, GitErrorView>(None)
        },
{
}

/// Verifying a created worktree changes nothing: a worktree that Git added
/// and that fails verification stays, with its branch.
pub proof fn law_verification_changes_nothing(m: RemoteCreationView, reply: GitReplyView)
    requires
        creation_accepts(m, reply),
        (m.stage is VerifyPath) || (m.stage is VerifyListing) || (m.stage is VerifyReading) || (m.stage is VerifyUpstream),
    ensures
        !asks_to_mutate(creation_next(m, reply)),
{
    lemma_command_words_differ();
    match m.stage {
        CreationStageView::VerifyListing { listing, .. } => {
            lemma_listing_reads_only(listing, reply);
            lemma_snapshot_requests_read();
        },
        CreationStageView::VerifyReading { snapshot, .. } => {
            lemma_snapshot_reads_only(snapshot, reply);
        },
        _ => {},
    }
}

proof fn lemma_preflight_listing_reads_only(m: PreflightMachineView, listing: WorktreeListingView, target: Seq<u8>, reply: GitReplyView)
    requires
        m.stage == (crate::git::removal::PreflightStageView::Listing { target, listing }),
        listing_accepts(listing, reply),
    ensures
        !asks_to_mutate(preflight_next(m, reply)),
{
    lemma_listing_reads_only(listing, reply);
    lemma_snapshot_requests_read();
}

/// A remote's default branch is read only from a symbolic
/// `refs/remotes/<remote>/HEAD`: a result names a branch of that remote,
/// other than `HEAD` and not empty, whose full ref is what the symbolic ref
/// points at; a symbolic ref pointing anywhere else, or Git failing to read
/// it, gives `DefaultBranchNotFound` for that repository and remote.
pub proof fn law_default_branch_rule(repo: Seq<u8>, remote: Seq<char>, command: GitCommandView, outcome: GitOutcomeView)
    ensures
        default_branch_of(repo, remote, command, outcome) is Ok ==> {
            &&& default_branch_of(repo, remote, command, outcome)->Ok_0 matches BranchRefView::Remote { remote: r, name, full_ref }
            &&& r == remote
            &&& name.len() > 0
            &&& name != "HEAD"@
            &&& full_ref == remote_refs_prefix(remote) + name
            &&& checked_output(command, outcome) is Ok
            &&& decoded_text(checked_output(command, outcome)->Ok_0, command.operation) == Ok::<Seq<char>, GitErrorView>(full_ref)
        },
        checked_output(command, outcome) is Ok ==> decoded_text(checked_output(command, outcome)->Ok_0, command.operation) is Ok ==> {
            let t = decoded_text(checked_output(command, outcome)->Ok_0, command.operation)->Ok_0;
            let found = strip_prefix(t, remote_refs_prefix(remote));
            (found is Some && found->Some_0.len() > 0 && found->Some_0 != "HEAD"@) || default_branch_of(repo, remote, command, outcome) == Err::<
                BranchRefView,
                GitErrorView,
            >(unexpected_default(repo, remote, t))
        },
        (checked_output(command, outcome) matches Err(GitErrorView::CommandFailed { stderr, .. })) ==> default_branch_of(repo, remote, command, outcome)
            == Err::<BranchRefView, GitErrorView>(GitErrorView::DefaultBranchNotFound { repo, remote, stderr: checked_output(command, outcome)->Err_0->CommandFailed_stderr }),
{
    if let Ok(stdout) = checked_output(command, outcome) {
        if let Ok(t) = decoded_text(stdout, command.operation) {
            let p = remote_refs_prefix(remote);
            if let Some(name) = strip_prefix(t, p) {
                assert(t =~= p + name);
            }
        }
    }
}

/// The checks of a creation from a remote branch change nothing: every
/// request up to the claim of the worktree path is a read, so each of their
/// errors leaves the repository and the filesystem as they were.
pub proof fn law_creation_checks_change_nothing(m: RemoteCreationView, reply: GitReplyView)
    requires
        creation_accepts(m, reply),
        (m.stage is Remotes) || (m.stage is RemoteExists) || (m.stage is RemoteSymbolic) || (m.stage is RemoteCommit)
            || (m.stage is BranchName),
    ensures
        !asks_to_mutate(creation_next(m, reply)),
{
    lemma_command_words_differ();
}

/// A preflight that keeps the branch consults no upstream, remote, merge
/// target or reflog: it never leaves the stages of the worktree and branch
/// checks, and its result is merged, with no merge target and no generation.
pub proof fn law_kept_branch_preflight_stays_local(m: PreflightMachineView, reply: GitReplyView)
    requires
        preflight_accepts(m, reply),
        !m.delete_branch,
        (m.stage is Canonicalizing) || (m.stage is Listing) || (m.stage is Reading) || (m.stage is Status),
    ensures
        preflight_next(m, reply) matches StepView::Ask(next, _) ==> (next.stage is Listing) || (next.stage is Reading) || (next.stage is Status),
        preflight_next(m, reply) matches StepView::Done(Ok(pf)) ==> pf.is_merged && pf.merge_target.len() == 0 && pf.merge_target_oid.len()
            == 0 && pf.generation.len() == 0,
{
}

/// Only the commit of the ref transaction, or the report of its failure,
/// comes after the worktree was removed: those stages are entered only from
/// a successful removal under the prepared transaction (or each other), so
/// an error from any other stage comes before anything changed, the
/// worktree's removal itself failing included.
pub proof fn law_errors_before_any_change(m: RemovalView, reply: GitReplyView)
    requires
        removal_accepts(m, reply),
    ensures
        removal_next(m, reply) matches StepView::Ask(next, _) ==> next.stage is Committing ==> {
            &&& m.stage matches RemovalStageView::Detaching { pf }
            &&& reply matches GitReplyView::Ran { outcome }
            &&& checked_output(remove_command(m.repository, pf.worktree_path), outcome) is Ok
        },
        removal_next(m, reply) matches StepView::Ask(next, _) ==> next.stage is Inspecting ==> (m.stage is Committing)
            || (m.stage is Inspecting),
        removal_next(m, reply) matches StepView::Done(Ok(_)) ==> (m.stage is Committing) || (m.stage is Removing),
{
}

/// With branch deletion, a preflight's result carries what the removal
/// checks again: the merge target with the commit the merge was decided
/// against, and the reflog's path with the digest of the bytes read last.
pub proof fn law_preflight_fixes_what_removal_checks(m: PreflightMachineView, reply: GitReplyView)
    requires
        preflight_accepts(m, reply),
        m.delete_branch,
    ensures
        preflight_next(m, reply) matches StepView::Done(Ok(pf)) ==> {
            &&& m.stage matches crate::git::removal::PreflightStageView::Reflog { facts, merge_target, merge_target_oid, is_merged, reflog_path }
            &&& pf.branch == facts.branch && pf.branch_oid == facts.oid
            &&& pf.merge_target == merge_target && pf.merge_target_oid == merge_target_oid && pf.is_merged == is_merged
            &&& pf.reflog_path == reflog_path
            &&& reply matches GitReplyView::FileRead { bytes }
            &&& pf.generation == generation_of(bytes)
        },
{
}

/// A creation from a local branch asks Git to add the worktree with the
/// branch's name exactly as given, so the new worktree is attached to that
/// branch; never with its full ref, which Git would read as a commit and
/// leave the worktree detached. It succeeds only once that addition exited
/// successfully.
pub proof fn law_local_creation_attaches_the_branch(m: LocalCreationView, reply: GitReplyView)
    requires
        local_accepts(m, reply),
        m.full_ref == "refs/heads/"@ + m.local_branch,
    ensures
        local_next(m, reply) matches StepView::Ask(next, GitRequestView::Run { command }) ==> (command.args.len() > 1
            && command.args[0] == GitArgView::Text("worktree"@) && command.args[1] == GitArgView::Text("add"@)) ==> {
            &&& next.stage is Adding
            &&& command.repo == m.repository
            &&& command.args == seq![
                GitArgView::Text("worktree"@),
                GitArgView::Text("add"@),
                GitArgView::Path(m.worktree_path),
                GitArgView::Text(m.local_branch),
            ]
            &&& command.args.last() != GitArgView::Text(m.full_ref)
        },
        local_next(m, reply) matches StepView::Ask(next, q) ==> next.stage is Adding ==> q is Run,
        local_next(m, reply) matches StepView::Done(Ok(_)) ==> {
            &&& m.stage is Adding
            &&& reply matches GitReplyView::Ran { outcome: GitOutcomeView::Exited { code, .. } }
            &&& code == Some(0i32)
        },
{
    lemma_command_words_differ();
    reveal_strlit("refs/heads/");
    assert(("refs/heads/"@ + m.local_branch).len() != m.local_branch.len());
    match m.stage {
        LocalStageView::Listing { listing } => {
            lemma_listing_reads_only(listing, reply);
        },
        _ => {},
    }
}

/// What a Git run printed, when it exited successfully.
pub open spec fn successful_output(reply: GitReplyView) -> Option<Seq<u8>> {
    match reply {
        GitReplyView::Ran { outcome: GitOutcomeView::Exited { code, stdout, .. } } => if code == Some(0i32) {
            Some(stdout)
        } else {
            None
        },
        _ => None,
    }
}

/// A worktree whose status lists anything, a changed, staged or untracked
/// file, is never reported safe to delete: when `git status` succeeds with
/// any output, the preflight ends with `DirtyWorktree` for the canonical
/// worktree path, whether or not the branch is to be deleted. A preflight
/// that keeps the branch succeeds only on a status with no output, and one
/// that deletes it goes on to the upstream only then.
pub proof fn law_dirty_worktree_is_refused(m: PreflightMachineView, reply: GitReplyView)
    requires
        preflight_accepts(m, reply),
    ensures
        (m.stage is Status && successful_output(reply) is Some && successful_output(reply)->0.len() > 0) ==> preflight_next(m, reply)
            == StepView::<PreflightMachineView, PreflightView>::Done(
            Err(GitErrorView::DirtyWorktree { path: m.stage->Status_facts.target }),
        ),
        (!m.delete_branch && ((m.stage is Canonicalizing) || (m.stage is Listing) || (m.stage is Reading) || (m.stage is Status))
            && preflight_next(m, reply) is Done && preflight_next(m, reply)->Done_0 is Ok) ==> {
            &&& m.stage is Status
            &&& successful_output(reply) == Some(Seq::<u8>::empty())
        },
        preflight_next(m, reply) matches StepView::Ask(next, _) ==> next.stage is Upstream ==> {
            &&& m.stage is Status
            &&& successful_output(reply) == Some(Seq::<u8>::empty())
        },
{
    if let GitReplyView::Ran { outcome: GitOutcomeView::Exited { stdout, .. } } = reply {
        if stdout.len() == 0 {
            assert(stdout =~= Seq::<u8>::empty());
        }
    }
}

proof fn lemma_first_byte_differs(s: Seq<char>, prefix: Seq<char>)
    requires
        s.len() > 0,
        prefix.len() > 0,
        (s[0] as u8) != (prefix[0] as u8),
    ensures
        !has_prefix(ascii_bytes(s), ascii_bytes(prefix)),
{
    if has_prefix(ascii_bytes(s), ascii_bytes(prefix)) {
        assert(ascii_bytes(s).subrange(0, prefix.len() as int)[0] == ascii_bytes(prefix)[0]);
    }
}

/// A `detached` field marks its record detached, and each other flag field
/// (`bare`, `locked`, `prunable`, with or without a reason) sets its own
/// flag. A field never clears a flag set before it, nor changes the path,
/// HEAD or branch read before it unless it is that field.
pub proof fn law_flag_fields_set_their_flags(cur: RawWorktreeView, field: Seq<u8>)
    ensures
        field_step(cur, ascii_bytes("detached"@)) == Ok::<RawWorktreeView, GitErrorView>(
            RawWorktreeView { is_detached: true, ..cur },
        ),
        field_step(cur, ascii_bytes("bare"@)) == Ok::<RawWorktreeView, GitErrorView>(RawWorktreeView { is_bare: true, ..cur }),
        field_step(cur, ascii_bytes("locked"@)) == Ok::<RawWorktreeView, GitErrorView>(
            RawWorktreeView { is_locked: true, ..cur },
        ),
        field_step(cur, ascii_bytes("prunable"@)) == Ok::<RawWorktreeView, GitErrorView>(
            RawWorktreeView { is_prunable: true, ..cur },
        ),
        field_step(cur, field) matches Ok(next) ==> {
            &&& cur.is_bare ==> next.is_bare
            &&& cur.is_detached ==> next.is_detached
            &&& cur.is_locked ==> next.is_locked
            &&& cur.is_prunable ==> next.is_prunable
        },
        field_step(cur, field) matches Ok(next) ==> (next.is_detached != cur.is_detached ==> field == ascii_bytes("detached"@)),
{
    reveal_strlit("detached");
    reveal_strlit("bare");
    reveal_strlit("locked");
    reveal_strlit("prunable");
    reveal_strlit("worktree ");
    reveal_strlit("HEAD ");
    reveal_strlit("branch ");
    reveal_strlit("locked ");
    reveal_strlit("prunable ");
    assert(!has_prefix(ascii_bytes("detached"@), ascii_bytes("worktree "@)));
    lemma_first_byte_differs("detached"@, "HEAD "@);
    lemma_first_byte_differs("detached"@, "branch "@);
    assert(ascii_bytes("detached"@) != ascii_bytes("bare"@));
    assert(!has_prefix(ascii_bytes("bare"@), ascii_bytes("worktree "@)));
    lemma_first_byte_differs("bare"@, "HEAD "@);
    assert(!has_prefix(ascii_bytes("bare"@), ascii_bytes("branch "@)));
    assert(!has_prefix(ascii_bytes("locked"@), ascii_bytes("worktree "@)));
    lemma_first_byte_differs("locked"@, "HEAD "@);
    lemma_first_byte_differs("locked"@, "branch "@);
    assert(ascii_bytes("locked"@) != ascii_bytes("bare"@));
    assert(ascii_bytes("locked"@) != ascii_bytes("detached"@));
    assert(!has_prefix(ascii_bytes("prunable"@), ascii_bytes("worktree "@)));
    lemma_first_byte_differs("prunable"@, "HEAD "@);
    lemma_first_byte_differs("prunable"@, "branch "@);
    assert(ascii_bytes("prunable"@) != ascii_bytes("bare"@));
    assert(ascii_bytes("prunable"@) != ascii_bytes("detached"@));
    assert(ascii_bytes("prunable"@) != ascii_bytes("locked"@));
    assert(!has_prefix(ascii_bytes("prunable"@), ascii_bytes("locked "@)));
}

proof fn lemma_bytes_start_differently(s: Seq<u8>, prefix: Seq<u8>)
    requires
        s.len() > 0,
        prefix.len() > 0,
        s[0] != prefix[0],
    ensures
        !has_prefix(s, prefix),
{
    if has_prefix(s, prefix) {
        assert(s.subrange(0, prefix.len() as int)[0] == prefix[0]);
    }
}

proof fn lemma_strips_its_prefix(prefix: Seq<u8>, value: Seq<u8>)
    ensures
        strip_prefix(prefix + value, prefix) == Some(value),
{
    assert((prefix + value).subrange(0, prefix.len() as int) =~= prefix);
    assert((prefix + value).subrange(prefix.len() as int, (prefix + value).len() as int) =~= value);
}

/// The value fields of a record: `worktree <path>` sets the path to exactly
/// the bytes after the key, and `HEAD <oid>` and `branch <ref>` set HEAD and
/// the branch to their value's text; nothing else in the record changes.
pub proof fn law_value_fields_set_their_values(cur: RawWorktreeView, value: Seq<u8>, t: Seq<char>)
    ensures
        field_step(cur, ascii_bytes("worktree "@) + value) == Ok::<RawWorktreeView, GitErrorView>(
            RawWorktreeView { path: Some(value), ..cur },
        ),
        utf8_chars(value) == Some(t) ==> field_step(cur, ascii_bytes("HEAD "@) + value) == Ok::<RawWorktreeView, GitErrorView>(
            RawWorktreeView { head: Some(t), ..cur },
        ),
        utf8_chars(value) == Some(t) ==> field_step(cur, ascii_bytes("branch "@) + value) == Ok::<RawWorktreeView, GitErrorView>(
            RawWorktreeView { branch: Some(t), ..cur },
        ),
{
    reveal_strlit("worktree ");
    reveal_strlit("HEAD ");
    reveal_strlit("branch ");
    let w = ascii_bytes("worktree "@);
    let h = ascii_bytes("HEAD "@);
    let b = ascii_bytes("branch "@);
    lemma_strips_its_prefix(w, value);
    lemma_strips_its_prefix(h, value);
    lemma_strips_its_prefix(b, value);
    assert((h + value)[0] == h[0]);
    assert((b + value)[0] == b[0]);
    assert(h[0] == ('H' as u8));
    assert(b[0] == ('b' as u8));
    assert(w[0] == ('w' as u8));
    lemma_bytes_start_differently(h + value, w);
    lemma_bytes_start_differently(b + value, w);
    lemma_bytes_start_differently(b + value, h);
}

/// The primary remote is `origin` whenever `origin` is configured, wherever
/// it is listed; only without it is it the first listed remote; without
/// remotes there is none.
pub proof fn law_origin_is_the_primary_remote(remotes: Seq<Seq<char>>)
    ensures
        remotes.contains("origin"@) ==> primary_remote_of(remotes) == Some("origin"@),
        !remotes.contains("origin"@) && remotes.len() > 0 ==> primary_remote_of(remotes) == Some(remotes[0]),
        remotes.len() == 0 ==> primary_remote_of(remotes) is None,
        forall|i: int| 0 <= i < remotes.len() && remotes[i] == "origin"@ ==> primary_remote_of(remotes) == Some(remotes[i]),
{
}

/// Only one `.git` at the end of a name is dropped: a stem followed by
/// `.git` gives the stem, whatever dots it holds, and a name that does not
/// end in `.git` is kept whole.
pub proof fn law_only_a_trailing_git_suffix_is_dropped(stem: Seq<char>, name: Seq<char>)
    ensures
        without_git_suffix(stem + ".git"@) == stem,
        !(name.len() >= 4 && name.subrange(name.len() - 4, name.len() as int) == ".git"@) ==> without_git_suffix(name) == name,
        without_git_suffix(name) == name || without_git_suffix(name) + ".git"@ == name,
{
    reveal_strlit(".git");
    let n = stem + ".git"@;
    assert(n.subrange(n.len() - 4, n.len() as int) =~= ".git"@);
    assert(n.subrange(0, n.len() - 4) =~= stem);
    if name.len() >= 4 && name.subrange(name.len() - 4, name.len() as int) == ".git"@ {
        assert(name.subrange(0, name.len() - 4) + ".git"@ =~= name);
    }
}

/// The repository name of a URL whose last non-empty path segment is a
/// stem followed by `.git` is that stem, dots and all; a last segment that
/// does not end in `.git` is the name as it stands.
pub proof fn law_repository_name_keeps_the_segment(
    url: Seq<char>,
    segments: Seq<Seq<char>>,
    stem: Seq<char>,
)
    requires
        !is_windows_drive_absolute(trim(url)),
        segments.len() > 0,
    ensures
        segments.last() == stem + ".git"@ && stem.len() > 0 ==> repository_name_given(url, Some(Some(segments)))
            == Ok::<Seq<char>, GitErrorView>(stem),
        (segments.last().len() > 0 && !(segments.last().len() >= 4 && segments.last().subrange(
            segments.last().len() - 4,
            segments.last().len() as int,
        ) == ".git"@)) ==> repository_name_given(url, Some(Some(segments))) == Ok::<Seq<char>, GitErrorView>(segments.last()),
{
    law_only_a_trailing_git_suffix_is_dropped(stem, segments.last());
    reveal_strlit(".git");
    assert((stem + ".git"@).len() > 0);
}

} // verus!
