//! The Git commands the operations run, each as a model and a builder.
use vstd::prelude::*;

use crate::git::command::{
    arg_views, command_of, git_command, path_arg, text, text_arg, GitArg, GitArgView, GitCommand,
    GitCommandView, GitReply, GitReplyView,
};
use crate::git::decide::remote_refs_prefix;
use crate::git::types::{GitErrorView, GitWorkspaceError};
use crate::text::{append_str, concat_text};
use vstd::string::StringSliceAdditionalSpecFns;

verus! {

/// The arguments of an all-text command.
pub open spec fn texts(parts: Seq<Seq<char>>) -> Seq<GitArgView> {
    parts.map_values(|p: Seq<char>| GitArgView::Text(p))
}

/// `git remote`.
pub open spec fn remotes_command(repo: Seq<u8>) -> GitCommandView {
    command_of(repo, "list repository remotes"@, seq![GitArgView::Text("remote"@)])
}

/// Builds `git remote`.
pub fn make_remotes_command(repo: &Vec<u8>) -> (c: GitCommand)
    ensures
        c@ == remotes_command(repo@),
{
    let args = vec![text_arg("remote")];
    assert(arg_views(args@) =~= seq![GitArgView::Text("remote"@)]);
    git_command(repo, "list repository remotes", args)
}

/// `refs/remotes/<remote>/HEAD`.
pub open spec fn remote_head(remote: Seq<char>) -> Seq<char> {
    remote_refs_prefix(remote) + "HEAD"@
}

/// `git symbolic-ref refs/remotes/<remote>/HEAD`.
pub open spec fn default_branch_command(repo: Seq<u8>, remote: Seq<char>) -> GitCommandView {
    command_of(
        repo,
        "read remote default branch"@,
        seq![GitArgView::Text("symbolic-ref"@), GitArgView::Text(remote_head(remote))],
    )
}

/// Builds the default-branch read.
pub fn make_default_branch_command(repo: &Vec<u8>, remote: &str) -> (c: GitCommand)
    ensures
        c@ == default_branch_command(repo@, remote@),
{
    let mut head = concat_text("refs/remotes/", remote);
    append_str(&mut head, "/HEAD");
    let args = vec![text_arg("symbolic-ref"), GitArg::Text(head)];
    proof {
        assert(remote_head(remote@) =~= "refs/remotes/"@ + remote@ + "/HEAD"@) by {
            assert("refs/remotes/"@ + remote@ + "/"@ + "HEAD"@ =~= "refs/remotes/"@ + remote@ + "/HEAD"@) by {
                reveal_strlit("/");
                reveal_strlit("HEAD");
                reveal_strlit("/HEAD");
            }
        }
        assert(arg_views(args@) =~= seq![GitArgView::Text("symbolic-ref"@), GitArgView::Text(remote_head(remote@))]);
    }
    git_command(repo, "read remote default branch", args)
}

/// `git status --porcelain --untracked-files=all`, run in the worktree.
pub open spec fn status_command(worktree: Seq<u8>) -> GitCommandView {
    command_of(
        worktree,
        "check worktree status"@,
        seq![
            GitArgView::Text("status"@),
            GitArgView::Text("--porcelain"@),
            GitArgView::Text("--untracked-files=all"@),
        ],
    )
}

/// Builds the status check.
pub fn make_status_command(worktree: &Vec<u8>) -> (c: GitCommand)
    ensures
        c@ == status_command(worktree@),
{
    let args = vec![text_arg("status"), text_arg("--porcelain"), text_arg("--untracked-files=all")];
    assert(arg_views(args@) =~= seq![
        GitArgView::Text("status"@),
        GitArgView::Text("--porcelain"@),
        GitArgView::Text("--untracked-files=all"@),
    ]);
    git_command(worktree, "check worktree status", args)
}

/// `git for-each-ref --format=%(upstream) <ref>`.
pub open spec fn upstream_command(repo: Seq<u8>, full_ref: Seq<char>) -> GitCommandView {
    command_of(
        repo,
        "read branch upstream"@,
        seq![
            GitArgView::Text("for-each-ref"@),
            GitArgView::Text("--format=%(upstream)"@),
            GitArgView::Text(full_ref),
        ],
    )
}

/// Builds the upstream read.
pub fn make_upstream_command(repo: &Vec<u8>, full_ref: &str) -> (c: GitCommand)
    ensures
        c@ == upstream_command(repo@, full_ref@),
{
    let args = vec![text_arg("for-each-ref"), text_arg("--format=%(upstream)"), text_arg(full_ref)];
    assert(arg_views(args@) =~= seq![
        GitArgView::Text("for-each-ref"@),
        GitArgView::Text("--format=%(upstream)"@),
        GitArgView::Text(full_ref@),
    ]);
    git_command(repo, "read branch upstream", args)
}

/// `git merge-base --is-ancestor <oid> <target>`.
pub open spec fn merge_command(repo: Seq<u8>, oid: Seq<char>, target: Seq<char>) -> GitCommandView {
    command_of(
        repo,
        "check branch merge status"@,
        seq![
            GitArgView::Text("merge-base"@),
            GitArgView::Text("--is-ancestor"@),
            GitArgView::Text(oid),
            GitArgView::Text(target),
        ],
    )
}

/// Builds the merge check.
pub fn make_merge_command(repo: &Vec<u8>, oid: &str, target: &str) -> (c: GitCommand)
    ensures
        c@ == merge_command(repo@, oid@, target@),
{
    let args = vec![text_arg("merge-base"), text_arg("--is-ancestor"), text_arg(oid), text_arg(target)];
    assert(arg_views(args@) =~= seq![
        GitArgView::Text("merge-base"@),
        GitArgView::Text("--is-ancestor"@),
        GitArgView::Text(oid@),
        GitArgView::Text(target@),
    ]);
    git_command(repo, "check branch merge status", args)
}

/// `git worktree remove <path>`.
pub open spec fn remove_command(repo: Seq<u8>, worktree: Seq<u8>) -> GitCommandView {
    command_of(
        repo,
        "remove worktree"@,
        seq![GitArgView::Text("worktree"@), GitArgView::Text("remove"@), GitArgView::Path(worktree)],
    )
}

/// Builds the worktree removal.
pub fn make_remove_command(repo: &Vec<u8>, worktree: &Vec<u8>) -> (c: GitCommand)
    ensures
        c@ == remove_command(repo@, worktree@),
{
    let args = vec![text_arg("worktree"), text_arg("remove"), path_arg(worktree)];
    assert(arg_views(args@) =~= seq![GitArgView::Text("worktree"@), GitArgView::Text("remove"@), GitArgView::Path(worktree@)]);
    git_command(repo, "remove worktree", args)
}

/// `refs/heads/<branch>`.
pub open spec fn branch_ref(branch: Seq<char>) -> Seq<char> {
    "refs/heads/"@ + branch
}

/// Builds `refs/heads/<branch>`.
pub fn make_branch_ref(branch: &str) -> (r: String)
    ensures
        r@ == branch_ref(branch@),
{
    concat_text("refs/heads/", branch)
}

/// The canonical path a reply gives for `path`, or the error.
pub open spec fn canonical_of(path: Seq<u8>, reply: GitReplyView) -> Result<Seq<u8>, GitErrorView> {
    match reply {
        GitReplyView::Canonical { path: p } => Ok(p),
        GitReplyView::CanonicalizeFailed { message, .. } => Err(GitErrorView::Canonicalize { path, source: message }),
        _ => arbitrary(),
    }
}

/// Reads the reply to a canonicalization of `path`.
pub fn take_canonical(path: &Vec<u8>, reply: GitReply) -> (r: Result<Vec<u8>, GitWorkspaceError>)
    requires
        (reply@ is Canonical) || (reply@ is CanonicalizeFailed),
    ensures
        crate::git::types::bytes_result(r) == canonical_of(path@, reply@),
{
    match reply {
        GitReply::Canonical { path: p } => Ok(p),
        GitReply::CanonicalizeFailed { message, .. } => Err(GitWorkspaceError::Canonicalize { path: path.clone(), source: message }),
        _ => vstd::pervasive::unreached(),
    }
}

/// `git show-ref --verify --quiet <ref>`.
pub open spec fn show_ref_command(repo: Seq<u8>, full_ref: Seq<char>) -> GitCommandView {
    command_of(
        repo,
        "check branch ref existence"@,
        seq![
            GitArgView::Text("show-ref"@),
            GitArgView::Text("--verify"@),
            GitArgView::Text("--quiet"@),
            GitArgView::Text(full_ref),
        ],
    )
}

/// Builds the ref existence check.
pub fn make_show_ref_command(repo: &Vec<u8>, full_ref: &str) -> (c: GitCommand)
    ensures
        c@ == show_ref_command(repo@, full_ref@),
{
    let args = vec![text_arg("show-ref"), text_arg("--verify"), text_arg("--quiet"), text_arg(full_ref)];
    assert(arg_views(args@) =~= seq![
        GitArgView::Text("show-ref"@),
        GitArgView::Text("--verify"@),
        GitArgView::Text("--quiet"@),
        GitArgView::Text(full_ref@),
    ]);
    git_command(repo, "check branch ref existence", args)
}

/// `git symbolic-ref --quiet <remote ref>`, checking that a remote ref is not symbolic.
pub open spec fn remote_symbolic_command(repo: Seq<u8>, remote_ref: Seq<char>) -> GitCommandView {
    command_of(
        repo,
        "check whether remote ref is symbolic"@,
        seq![GitArgView::Text("symbolic-ref"@), GitArgView::Text("--quiet"@), GitArgView::Text(remote_ref)],
    )
}

/// Builds the remote-ref symbolic check.
pub fn make_remote_symbolic_command(repo: &Vec<u8>, remote_ref: &str) -> (c: GitCommand)
    ensures
        c@ == remote_symbolic_command(repo@, remote_ref@),
{
    let args = vec![text_arg("symbolic-ref"), text_arg("--quiet"), text_arg(remote_ref)];
    assert(arg_views(args@) =~= seq![GitArgView::Text("symbolic-ref"@), GitArgView::Text("--quiet"@), GitArgView::Text(remote_ref@)]);
    git_command(repo, "check whether remote ref is symbolic", args)
}

/// `git rev-parse --verify <ref>^{commit}`.
pub open spec fn commit_command(repo: Seq<u8>, full_ref: Seq<char>) -> GitCommandView {
    command_of(
        repo,
        "resolve branch commit OID"@,
        seq![GitArgView::Text("rev-parse"@), GitArgView::Text("--verify"@), GitArgView::Text(full_ref + "^{commit}"@)],
    )
}

/// Builds the commit resolution.
pub fn make_commit_command(repo: &Vec<u8>, full_ref: &str) -> (c: GitCommand)
    ensures
        c@ == commit_command(repo@, full_ref@),
{
    let target = concat_text(full_ref, "^{commit}");
    let args = vec![text_arg("rev-parse"), text_arg("--verify"), GitArg::Text(target)];
    assert(arg_views(args@) =~= seq![
        GitArgView::Text("rev-parse"@),
        GitArgView::Text("--verify"@),
        GitArgView::Text(full_ref@ + "^{commit}"@),
    ]);
    git_command(repo, "resolve branch commit OID", args)
}

/// `git check-ref-format --branch <name>`.
pub open spec fn branch_name_command(repo: Seq<u8>, branch: Seq<char>) -> GitCommandView {
    command_of(
        repo,
        "validate new branch name"@,
        seq![GitArgView::Text("check-ref-format"@), GitArgView::Text("--branch"@), GitArgView::Text(branch)],
    )
}

/// Builds the branch name check.
pub fn make_branch_name_command(repo: &Vec<u8>, branch: &str) -> (c: GitCommand)
    ensures
        c@ == branch_name_command(repo@, branch@),
{
    let args = vec![text_arg("check-ref-format"), text_arg("--branch"), text_arg(branch)];
    assert(arg_views(args@) =~= seq![GitArgView::Text("check-ref-format"@), GitArgView::Text("--branch"@), GitArgView::Text(branch@)]);
    git_command(repo, "validate new branch name", args)
}

/// `git worktree add <path> <branch>`.
pub open spec fn add_command(repo: Seq<u8>, operation: Seq<char>, path: Seq<u8>, branch: Seq<char>) -> GitCommandView {
    command_of(
        repo,
        operation,
        seq![GitArgView::Text("worktree"@), GitArgView::Text("add"@), GitArgView::Path(path), GitArgView::Text(branch)],
    )
}

/// Builds the worktree creation.
pub fn make_add_command(repo: &Vec<u8>, operation: &str, path: &Vec<u8>, branch: &str) -> (c: GitCommand)
    ensures
        c@ == add_command(repo@, operation@, path@, branch@),
{
    let args = vec![text_arg("worktree"), text_arg("add"), path_arg(path), text_arg(branch)];
    assert(arg_views(args@) =~= seq![GitArgView::Text("worktree"@), GitArgView::Text("add"@), GitArgView::Path(path@), GitArgView::Text(branch@)]);
    git_command(repo, operation, args)
}

/// `git worktree add --no-track -b <branch> <path> <start>`: creates the
/// branch at `start`, tracking nothing, and the worktree on it, in one command.
pub open spec fn new_branch_add_command(repo: Seq<u8>, path: Seq<u8>, branch: Seq<char>, start: Seq<char>) -> GitCommandView {
    command_of(
        repo,
        "create worktree from remote"@,
        seq![
            GitArgView::Text("worktree"@),
            GitArgView::Text("add"@),
            GitArgView::Text("--no-track"@),
            GitArgView::Text("-b"@),
            GitArgView::Text(branch),
            GitArgView::Path(path),
            GitArgView::Text(start),
        ],
    )
}

/// Builds the worktree creation on a new branch.
pub fn make_new_branch_add_command(repo: &Vec<u8>, path: &Vec<u8>, branch: &str, start: &str) -> (c: GitCommand)
    ensures
        c@ == new_branch_add_command(repo@, path@, branch@, start@),
{
    let args = vec![
        text_arg("worktree"),
        text_arg("add"),
        text_arg("--no-track"),
        text_arg("-b"),
        text_arg(branch),
        path_arg(path),
        text_arg(start),
    ];
    assert(arg_views(args@) =~= seq![
        GitArgView::Text("worktree"@),
        GitArgView::Text("add"@),
        GitArgView::Text("--no-track"@),
        GitArgView::Text("-b"@),
        GitArgView::Text(branch@),
        GitArgView::Path(path@),
        GitArgView::Text(start@),
    ]);
    git_command(repo, "create worktree from remote", args)
}

/// `git -c core.quotePath=false rev-parse --path-format=absolute --git-path logs/<ref>`:
/// where the ref's reflog is.
pub open spec fn reflog_path_command(repo: Seq<u8>, full_ref: Seq<char>) -> GitCommandView {
    command_of(
        repo,
        "locate branch reflog"@,
        seq![
            GitArgView::Text("-c"@),
            GitArgView::Text("core.quotePath=false"@),
            GitArgView::Text("rev-parse"@),
            GitArgView::Text("--path-format=absolute"@),
            GitArgView::Text("--git-path"@),
            GitArgView::Text("logs/"@ + full_ref),
        ],
    )
}

/// Builds the reflog location.
pub fn make_reflog_path_command(repo: &Vec<u8>, full_ref: &str) -> (c: GitCommand)
    ensures
        c@ == reflog_path_command(repo@, full_ref@),
{
    let logs = concat_text("logs/", full_ref);
    let args = vec![
        text_arg("-c"),
        text_arg("core.quotePath=false"),
        text_arg("rev-parse"),
        text_arg("--path-format=absolute"),
        text_arg("--git-path"),
        GitArg::Text(logs),
    ];
    assert(arg_views(args@) =~= seq![
        GitArgView::Text("-c"@),
        GitArgView::Text("core.quotePath=false"@),
        GitArgView::Text("rev-parse"@),
        GitArgView::Text("--path-format=absolute"@),
        GitArgView::Text("--git-path"@),
        GitArgView::Text("logs/"@ + full_ref@),
    ]);
    git_command(repo, "locate branch reflog", args)
}

/// The instructions of the branch deletion's ref transaction: verify the
/// branch at its commit, verify the merge target at its commit unless the
/// deletion is forced, and delete the branch at its commit.
pub open spec fn transaction_instructions(
    full_ref: Seq<char>,
    oid: Seq<char>,
    merge_target: Seq<char>,
    merge_target_oid: Seq<char>,
    force: bool,
) -> Seq<Seq<char>> {
    let verify_branch = "verify "@ + full_ref + " "@ + oid;
    let delete = "delete "@ + full_ref + " "@ + oid;
    if force {
        seq![verify_branch, delete]
    } else {
        seq![verify_branch, "verify "@ + merge_target + " "@ + merge_target_oid, delete]
    }
}

fn instruction(word: &str, full_ref: &str, oid: &str) -> (r: String)
    ensures
        r@ == word@ + full_ref@ + " "@ + oid@,
{
    let mut r = String::new();
    append_str(&mut r, word);
    append_str(&mut r, full_ref);
    append_str(&mut r, " ");
    append_str(&mut r, oid);
    r
}

/// Builds the instructions of the branch deletion's ref transaction.
pub fn make_transaction_instructions(
    full_ref: &str,
    oid: &str,
    merge_target: &str,
    merge_target_oid: &str,
    force: bool,
) -> (r: Vec<String>)
    ensures
        crate::git::types::texts_view(r@) == transaction_instructions(full_ref@, oid@, merge_target@, merge_target_oid@, force),
{
    let mut r: Vec<String> = Vec::new();
    r.push(instruction("verify ", full_ref, oid));
    if !force {
        r.push(instruction("verify ", merge_target, merge_target_oid));
    }
    r.push(instruction("delete ", full_ref, oid));
    assert(crate::git::types::texts_view(r@) =~= transaction_instructions(full_ref@, oid@, merge_target@, merge_target_oid@, force));
    r
}

/// What inspecting a target path that must not exist gives.
pub open spec fn target_missing_of(path: Seq<u8>, reply: GitReplyView) -> Result<(), GitErrorView> {
    match reply {
        GitReplyView::TargetMissing => Ok(()),
        GitReplyView::TargetPresent => Err(GitErrorView::TargetExists { path }),
        GitReplyView::TargetInspectionFailed { message } => Err(GitErrorView::TargetInspection { path, source: message }),
        _ => arbitrary(),
    }
}

/// Reads the inspection of a target path that must not exist.
pub fn take_target_missing(path: &Vec<u8>, reply: GitReply) -> (r: Result<(), GitWorkspaceError>)
    requires
        (reply@ is TargetMissing) || (reply@ is TargetPresent) || (reply@ is TargetInspectionFailed),
    ensures
        crate::git::types::result_view(r) == target_missing_of(path@, reply@),
{
    match reply {
        GitReply::TargetMissing => Ok(()),
        GitReply::TargetPresent => Err(GitWorkspaceError::TargetExists { path: path.clone() }),
        GitReply::TargetInspectionFailed { message } => Err(GitWorkspaceError::TargetInspection { path: path.clone(), source: message }),
        _ => vstd::pervasive::unreached(),
    }
}

/// `git -c core.quotePath=false <args>`: a command whose output is a path.
pub open spec fn path_command(repo: Seq<u8>, operation: Seq<char>, args: Seq<Seq<char>>) -> GitCommandView {
    command_of(repo, operation, seq![GitArgView::Text("-c"@), GitArgView::Text("core.quotePath=false"@)] + texts(args))
}

/// Builds a command whose output is a path.
pub fn make_path_command(repo: &Vec<u8>, operation: &str, args: Vec<&str>) -> (c: GitCommand)
    ensures
        c@ == path_command(repo@, operation@, args@.map_values(|a: &str| a@)),
{
    let mut all = vec![text_arg("-c"), text_arg("core.quotePath=false")];
    let ghost head = seq![GitArgView::Text("-c"@), GitArgView::Text("core.quotePath=false"@)];
    let ghost parts = args@.map_values(|a: &str| a@);
    assert(arg_views(all@) =~= head);
    let mut i: usize = 0;
    while i < args.len()
        invariant
            0 <= i <= args@.len(),
            parts == args@.map_values(|a: &str| a@),
            head == seq![GitArgView::Text("-c"@), GitArgView::Text("core.quotePath=false"@)],
            arg_views(all@) == head + texts(parts.take(i as int)),
        decreases args@.len() - i,
    {
        let ghost before = arg_views(all@);
        all.push(text_arg(args[i]));
        i = i + 1;
        proof {
            assert(arg_views(all@) =~= before.push(GitArgView::Text(parts[i - 1])));
            assert(texts(parts.take(i as int)) =~= texts(parts.take(i - 1)).push(GitArgView::Text(parts[i - 1])));
            assert(head + texts(parts.take(i as int)) =~= (head + texts(parts.take(i - 1))).push(GitArgView::Text(parts[i - 1])));
        }
    }
    assert(parts.take(args@.len() as int) =~= parts);
    git_command(repo, operation, all)
}

/// `git <args>`, all text.
pub open spec fn text_command(repo: Seq<u8>, operation: Seq<char>, args: Seq<Seq<char>>) -> GitCommandView {
    command_of(repo, operation, texts(args))
}

/// Builds an all-text command.
pub fn make_text_command(repo: &Vec<u8>, operation: &str, args: Vec<&str>) -> (c: GitCommand)
    ensures
        c@ == text_command(repo@, operation@, args@.map_values(|a: &str| a@)),
{
    let r = crate::git::command::text_args(args);
    assert(arg_views(r@) =~= texts(args@.map_values(|a: &str| a@)));
    git_command(repo, operation, r)
}

} // verus!
