//! Registering a repository: it must be selected at its top-level
//! directory, be a main working tree rather than a linked worktree, and
//! have a remote with a default branch. Also the listing of branch refs,
//! optionally after fetching, and the read of a remote's default branch.
use vstd::prelude::*;

use crate::git::command::{
    checked_output, checked_stdout, decode_git_path_output, decode_raw, git_path_of,
    raw_text, run_request, text, GitCommand, GitCommandView, GitReply, GitReplyView, GitRequest,
    GitRequestView, Step, StepView,
};
use crate::git::commands::{
    canonical_of, default_branch_command, make_default_branch_command, make_path_command,
    make_remotes_command, make_text_command, path_command, remotes_command, take_canonical,
    text_command,
};
use crate::git::decide::{
    default_branch_of, read_default_branch, read_remotes, read_text_output, remotes_of,
    text_output_of,
};
use crate::git::refs::{
    branch_records_of, parse_branch_ref_records, primary_remote_of, select_primary_remote,
};
use crate::git::types::{
    branch_ref_views, texts_view, BranchRef, BranchRefView, GitErrorView, GitWorkspaceError,
    ValidatedRepository, ValidatedView,
};
use crate::text::lines;

verus! {

/// `rev-parse --show-toplevel`, as a path.
pub open spec fn toplevel_command(repo: Seq<u8>) -> GitCommandView {
    path_command(repo, "find repository root"@, seq!["rev-parse"@, "--show-toplevel"@])
}

/// `rev-parse --absolute-git-dir`, as a path.
pub open spec fn git_dir_command(repo: Seq<u8>) -> GitCommandView {
    path_command(repo, "find repository git directory"@, seq!["rev-parse"@, "--absolute-git-dir"@])
}

/// `rev-parse --path-format=absolute --git-common-dir`, as a path.
pub open spec fn common_dir_command(repo: Seq<u8>) -> GitCommandView {
    path_command(repo, "find repository common directory"@, seq!["rev-parse"@, "--path-format=absolute"@, "--git-common-dir"@])
}

/// `git remote get-url <remote>`.
pub open spec fn remote_url_command(repo: Seq<u8>, remote: Seq<char>) -> GitCommandView {
    text_command(repo, "read repository remote URL"@, seq!["remote"@, "get-url"@, remote])
}

fn make_toplevel_command(repo: &Vec<u8>) -> (c: GitCommand)
    ensures
        c@ == toplevel_command(repo@),
{
    let args = vec!["rev-parse", "--show-toplevel"];
    assert(args@.map_values(|a: &str| a@) =~= seq!["rev-parse"@, "--show-toplevel"@]);
    make_path_command(repo, "find repository root", args)
}

fn make_git_dir_command(repo: &Vec<u8>) -> (c: GitCommand)
    ensures
        c@ == git_dir_command(repo@),
{
    let args = vec!["rev-parse", "--absolute-git-dir"];
    assert(args@.map_values(|a: &str| a@) =~= seq!["rev-parse"@, "--absolute-git-dir"@]);
    make_path_command(repo, "find repository git directory", args)
}

fn make_common_dir_command(repo: &Vec<u8>) -> (c: GitCommand)
    ensures
        c@ == common_dir_command(repo@),
{
    let args = vec!["rev-parse", "--path-format=absolute", "--git-common-dir"];
    assert(args@.map_values(|a: &str| a@) =~= seq!["rev-parse"@, "--path-format=absolute"@, "--git-common-dir"@]);
    make_path_command(repo, "find repository common directory", args)
}

fn make_remote_url_command(repo: &Vec<u8>, remote: &str) -> (c: GitCommand)
    ensures
        c@ == remote_url_command(repo@, remote@),
{
    let args = vec!["remote", "get-url", remote];
    assert(args@.map_values(|a: &str| a@) =~= seq!["remote"@, "get-url"@, remote@]);
    make_text_command(repo, "read repository remote URL", args)
}

/// The path a path command printed.
pub open spec fn path_output_of(command: GitCommandView, outcome: crate::git::command::GitOutcomeView) -> Result<Seq<u8>, GitErrorView> {
    match checked_output(command, outcome) {
        Err(e) => Err(e),
        Ok(stdout) => Ok(git_path_of(stdout)),
    }
}

pub(crate) fn read_path_output(command: &GitCommand, outcome: crate::git::command::GitOutcome) -> (r: Result<Vec<u8>, GitWorkspaceError>)
    ensures
        crate::git::types::bytes_result(r) == path_output_of(command@, outcome@),
{
    match checked_stdout(command, outcome) {
        Err(e) => Err(e),
        Ok(stdout) => decode_git_path_output(stdout.as_slice(), command.operation.as_str()),
    }
}

/// Where a repository validation stands.
pub enum ValidationStage {
    Selecting,
    Root { selected: Vec<u8> },
    RootCanonical { selected: Vec<u8>, raw: Vec<u8> },
    GitDir { root: Vec<u8> },
    CommonDir { root: Vec<u8>, git_dir: Vec<u8> },
    GitDirCanonical { root: Vec<u8>, git_dir: Vec<u8>, common_dir: Vec<u8> },
    CommonCanonical { root: Vec<u8>, git_dir: Vec<u8>, common_dir: Vec<u8> },
    Remotes { root: Vec<u8> },
    RemoteUrl { root: Vec<u8>, remote: String },
    DefaultBranch { root: Vec<u8>, remote: String, remote_url: String },
}

/// Model of a validation's stage.
pub enum ValidationStageView {
    Selecting,
    Root { selected: Seq<u8> },
    RootCanonical { selected: Seq<u8>, raw: Seq<u8> },
    GitDir { root: Seq<u8> },
    CommonDir { root: Seq<u8>, git_dir: Seq<u8> },
    GitDirCanonical { root: Seq<u8>, git_dir: Seq<u8>, common_dir: Seq<u8> },
    CommonCanonical { root: Seq<u8>, git_dir: Seq<u8>, common_dir: Seq<u8> },
    Remotes { root: Seq<u8> },
    RemoteUrl { root: Seq<u8>, remote: Seq<char> },
    DefaultBranch { root: Seq<u8>, remote: Seq<char>, remote_url: Seq<char> },
}

/// A repository validation in progress.
pub struct Validation {
    path: Vec<u8>,
    stage: ValidationStage,
}

/// Model of a repository validation.
pub struct ValidationView {
    pub path: Seq<u8>,
    pub stage: ValidationStageView,
}

impl View for Validation {
    type V = ValidationView;

    closed spec fn view(&self) -> ValidationView {
        ValidationView {
            path: self.path@,
            stage: match self.stage {
                ValidationStage::Selecting => ValidationStageView::Selecting,
                ValidationStage::Root { selected } => ValidationStageView::Root { selected: selected@ },
                ValidationStage::RootCanonical { selected, raw } => ValidationStageView::RootCanonical { selected: selected@, raw: raw@ },
                ValidationStage::GitDir { root } => ValidationStageView::GitDir { root: root@ },
                ValidationStage::CommonDir { root, git_dir } => ValidationStageView::CommonDir { root: root@, git_dir: git_dir@ },
                ValidationStage::GitDirCanonical { root, git_dir, common_dir } => ValidationStageView::GitDirCanonical {
                    root: root@,
                    git_dir: git_dir@,
                    common_dir: common_dir@,
                },
                ValidationStage::CommonCanonical { root, git_dir, common_dir } => ValidationStageView::CommonCanonical {
                    root: root@,
                    git_dir: git_dir@,
                    common_dir: common_dir@,
                },
                ValidationStage::Remotes { root } => ValidationStageView::Remotes { root: root@ },
                ValidationStage::RemoteUrl { root, remote } => ValidationStageView::RemoteUrl { root: root@, remote: remote@ },
                ValidationStage::DefaultBranch { root, remote, remote_url } => ValidationStageView::DefaultBranch {
                    root: root@,
                    remote: remote@,
                    remote_url: remote_url@,
                },
            },
        }
    }
}

/// A validation that has just begun.
pub open spec fn validation_begun(path: Seq<u8>) -> ValidationView {
    ValidationView { path, stage: ValidationStageView::Selecting }
}

/// The replies a validation takes in its stage.
pub open spec fn validation_accepts(m: ValidationView, reply: GitReplyView) -> bool {
    match m.stage {
        ValidationStageView::Selecting | ValidationStageView::RootCanonical { .. } | ValidationStageView::GitDirCanonical { .. }
        | ValidationStageView::CommonCanonical { .. } => (reply is Canonical) || (reply is CanonicalizeFailed),
        _ => reply is Ran,
    }
}

/// The validation in another stage, asking for `q`.
pub open spec fn validation_asks(m: ValidationView, stage: ValidationStageView, q: GitRequestView) -> StepView<ValidationView, ValidatedView> {
    StepView::Ask(ValidationView { stage, ..m }, q)
}

/// How a validation proceeds on a reply: the selected path and the
/// top-level directory Git reports must be the same canonical path; the
/// canonical git directory and common directory must be the same (else it
/// is a linked worktree); then the primary remote (`origin`, else the first
/// one), its URL and its default branch are read.
pub open spec fn validation_next(m: ValidationView, reply: GitReplyView) -> StepView<ValidationView, ValidatedView> {
    match m.stage {
        ValidationStageView::Selecting => match canonical_of(m.path, reply) {
            Err(e) => StepView::Done(Err(e)),
            Ok(selected) => validation_asks(m, ValidationStageView::Root { selected }, run_request(toplevel_command(selected))),
        },
        ValidationStageView::Root { selected } => match reply {
            GitReplyView::Ran { outcome } => match path_output_of(toplevel_command(selected), outcome) {
                Err(e) => StepView::Done(Err(e)),
                Ok(raw) => validation_asks(m, ValidationStageView::RootCanonical { selected, raw }, GitRequestView::Canonicalize { path: raw }),
            },
            _ => arbitrary(),
        },
        ValidationStageView::RootCanonical { selected, raw } => match canonical_of(raw, reply) {
            Err(e) => StepView::Done(Err(e)),
            Ok(root) => if selected != root {
                StepView::Done(Err(GitErrorView::NotRepositoryRoot { selected, root }))
            } else {
                validation_asks(m, ValidationStageView::GitDir { root }, run_request(git_dir_command(root)))
            },
        },
        ValidationStageView::GitDir { root } => match reply {
            GitReplyView::Ran { outcome } => match path_output_of(git_dir_command(root), outcome) {
                Err(e) => StepView::Done(Err(e)),
                Ok(git_dir) => validation_asks(m, ValidationStageView::CommonDir { root, git_dir }, run_request(common_dir_command(root))),
            },
            _ => arbitrary(),
        },
        ValidationStageView::CommonDir { root, git_dir } => match reply {
            GitReplyView::Ran { outcome } => match path_output_of(common_dir_command(root), outcome) {
                Err(e) => StepView::Done(Err(e)),
                Ok(common_dir) => validation_asks(
                    m,
                    ValidationStageView::GitDirCanonical { root, git_dir, common_dir },
                    GitRequestView::Canonicalize { path: git_dir },
                ),
            },
            _ => arbitrary(),
        },
        ValidationStageView::GitDirCanonical { root, git_dir, common_dir } => match canonical_of(git_dir, reply) {
            Err(e) => StepView::Done(Err(e)),
            Ok(g) => validation_asks(
                m,
                ValidationStageView::CommonCanonical { root, git_dir: g, common_dir },
                GitRequestView::Canonicalize { path: common_dir },
            ),
        },
        ValidationStageView::CommonCanonical { root, git_dir, common_dir } => match canonical_of(common_dir, reply) {
            Err(e) => StepView::Done(Err(e)),
            Ok(c) => if git_dir != c {
                StepView::Done(Err(GitErrorView::LinkedWorktree { git_dir, common_dir: c }))
            } else {
                validation_asks(m, ValidationStageView::Remotes { root }, run_request(remotes_command(root)))
            },
        },
        ValidationStageView::Remotes { root } => match reply {
            GitReplyView::Ran { outcome } => match remotes_of(remotes_command(root), outcome) {
                Err(e) => StepView::Done(Err(e)),
                Ok(remotes) => match primary_remote_of(remotes) {
                    None => StepView::Done(Err(GitErrorView::RemoteNotFound { repo: root })),
                    Some(remote) => validation_asks(m, ValidationStageView::RemoteUrl { root, remote }, run_request(remote_url_command(root, remote))),
                },
            },
            _ => arbitrary(),
        },
        ValidationStageView::RemoteUrl { root, remote } => match reply {
            GitReplyView::Ran { outcome } => match text_output_of(remote_url_command(root, remote), outcome) {
                Err(e) => StepView::Done(Err(e)),
                Ok(remote_url) => validation_asks(
                    m,
                    ValidationStageView::DefaultBranch { root, remote, remote_url },
                    run_request(default_branch_command(root, remote)),
                ),
            },
            _ => arbitrary(),
        },
        ValidationStageView::DefaultBranch { root, remote, remote_url } => match reply {
            GitReplyView::Ran { outcome } => match default_branch_of(root, remote, default_branch_command(root, remote), outcome) {
                Err(e) => StepView::Done(Err(e)),
                Ok(default_branch) => StepView::Done(Ok(ValidatedView { root, remote, remote_url, default_branch })),
            },
            _ => arbitrary(),
        },
    }
}

impl Validation {
    /// Begins validating the repository selected at `path`.
    pub fn start(path: &Vec<u8>) -> (r: (Validation, GitRequest))
        ensures
            r.0@ == validation_begun(path@),
            r.1@ == (GitRequestView::Canonicalize { path: path@ }),
    {
        (Validation { path: path.clone(), stage: ValidationStage::Selecting }, GitRequest::Canonicalize { path: path.clone() })
    }

    fn on_canonical(path: Vec<u8>, stage: ValidationStage, reply: GitReply) -> (r: Step<Validation, ValidatedRepository>)
        requires
            (reply@ is Canonical) || (reply@ is CanonicalizeFailed),
            stage is Selecting || stage is RootCanonical || stage is GitDirCanonical || stage is CommonCanonical,
        ensures
            r@ == validation_next((Validation { path, stage })@, reply@),
    {
        match stage {
            ValidationStage::Selecting => match take_canonical(&path, reply) {
                Err(e) => Step::Done(Err(e)),
                Ok(selected) => {
                    let q = GitRequest::Run { command: make_toplevel_command(&selected) };
                    Step::Ask(Validation { path, stage: ValidationStage::Root { selected } }, q)
                },
            },
            ValidationStage::RootCanonical { selected, raw } => match take_canonical(&raw, reply) {
                Err(e) => Step::Done(Err(e)),
                Ok(root) => if !crate::bytes::bytes_eq(selected.as_slice(), root.as_slice()) {
                    Step::Done(Err(GitWorkspaceError::NotRepositoryRoot { selected, root }))
                } else {
                    let q = GitRequest::Run { command: make_git_dir_command(&root) };
                    Step::Ask(Validation { path, stage: ValidationStage::GitDir { root } }, q)
                },
            },
            ValidationStage::GitDirCanonical { root, git_dir, common_dir } => match take_canonical(&git_dir, reply) {
                Err(e) => Step::Done(Err(e)),
                Ok(g) => {
                    let q = GitRequest::Canonicalize { path: common_dir.clone() };
                    Step::Ask(Validation { path, stage: ValidationStage::CommonCanonical { root, git_dir: g, common_dir } }, q)
                },
            },
            ValidationStage::CommonCanonical { root, git_dir, common_dir } => match take_canonical(&common_dir, reply) {
                Err(e) => Step::Done(Err(e)),
                Ok(c) => if !crate::bytes::bytes_eq(git_dir.as_slice(), c.as_slice()) {
                    Step::Done(Err(GitWorkspaceError::LinkedWorktree { git_dir, common_dir: c }))
                } else {
                    let q = GitRequest::Run { command: make_remotes_command(&root) };
                    Step::Ask(Validation { path, stage: ValidationStage::Remotes { root } }, q)
                },
            },
            _ => vstd::pervasive::unreached(),
        }
    }

    fn ran(path: Vec<u8>, stage: ValidationStage, outcome: crate::git::command::GitOutcome) -> (r: Step<Validation, ValidatedRepository>)
        requires
            !(stage is Selecting || stage is RootCanonical || stage is GitDirCanonical || stage is CommonCanonical),
        ensures
            r@ == validation_next((Validation { path, stage })@, GitReplyView::Ran { outcome: outcome@ }),
    {
        match stage {
            ValidationStage::Root { selected } => {
                let command = make_toplevel_command(&selected);
                match read_path_output(&command, outcome) {
                    Err(e) => Step::Done(Err(e)),
                    Ok(raw) => {
                        let q = GitRequest::Canonicalize { path: raw.clone() };
                        Step::Ask(Validation { path, stage: ValidationStage::RootCanonical { selected, raw } }, q)
                    },
                }
            },
            ValidationStage::GitDir { root } => {
                let command = make_git_dir_command(&root);
                match read_path_output(&command, outcome) {
                    Err(e) => Step::Done(Err(e)),
                    Ok(git_dir) => {
                        let q = GitRequest::Run { command: make_common_dir_command(&root) };
                        Step::Ask(Validation { path, stage: ValidationStage::CommonDir { root, git_dir } }, q)
                    },
                }
            },
            ValidationStage::CommonDir { root, git_dir } => {
                let command = make_common_dir_command(&root);
                match read_path_output(&command, outcome) {
                    Err(e) => Step::Done(Err(e)),
                    Ok(common_dir) => {
                        let q = GitRequest::Canonicalize { path: git_dir.clone() };
                        Step::Ask(Validation { path, stage: ValidationStage::GitDirCanonical { root, git_dir, common_dir } }, q)
                    },
                }
            },
            ValidationStage::Remotes { root } => {
                let command = make_remotes_command(&root);
                match read_remotes(&command, outcome) {
                    Err(e) => Step::Done(Err(e)),
                    Ok(remotes) => match select_primary_remote(remotes.as_slice()) {
                        None => Step::Done(Err(GitWorkspaceError::RemoteNotFound { repo: root })),
                        Some(remote) => {
                            let q = GitRequest::Run { command: make_remote_url_command(&root, remote.as_str()) };
                            Step::Ask(Validation { path, stage: ValidationStage::RemoteUrl { root, remote } }, q)
                        },
                    },
                }
            },
            ValidationStage::RemoteUrl { root, remote } => {
                let command = make_remote_url_command(&root, remote.as_str());
                match read_text_output(&command, outcome) {
                    Err(e) => Step::Done(Err(e)),
                    Ok(remote_url) => {
                        let q = GitRequest::Run { command: make_default_branch_command(&root, remote.as_str()) };
                        Step::Ask(Validation { path, stage: ValidationStage::DefaultBranch { root, remote, remote_url } }, q)
                    },
                }
            },
            ValidationStage::DefaultBranch { root, remote, remote_url } => {
                let command = make_default_branch_command(&root, remote.as_str());
                match read_default_branch(&root, remote.as_str(), &command, outcome) {
                    Err(e) => Step::Done(Err(e)),
                    Ok(default_branch) => Step::Done(Ok(ValidatedRepository { root, remote, remote_url, default_branch })),
                }
            },
            _ => vstd::pervasive::unreached(),
        }
    }

    /// Takes the reply to the pending request.
    pub fn step(self, reply: GitReply) -> (r: Step<Validation, ValidatedRepository>)
        requires
            validation_accepts(self@, reply@),
        ensures
            r@ == validation_next(self@, reply@),
    {
        let Validation { path, stage } = self;
        let canonicalizing = match &stage {
            ValidationStage::Selecting | ValidationStage::RootCanonical { .. } | ValidationStage::GitDirCanonical { .. }
            | ValidationStage::CommonCanonical { .. } => true,
            _ => false,
        };
        if canonicalizing {
            Self::on_canonical(path, stage, reply)
        } else {
            let outcome = match reply {
                GitReply::Ran { outcome } => outcome,
                _ => {
                    return vstd::pervasive::unreached();
                },
            };
            Self::ran(path, stage, outcome)
        }
    }
}

/// `git fetch --prune --quiet --no-tags <remote>`.
pub open spec fn fetch_command(repo: Seq<u8>, remote: Seq<char>) -> GitCommandView {
    text_command(repo, "fetch repository refs"@, seq!["fetch"@, "--prune"@, "--quiet"@, "--no-tags"@, remote])
}

/// `git for-each-ref --format=%(refname)%09%(symref) refs/heads refs/remotes`.
pub open spec fn refs_command(repo: Seq<u8>) -> GitCommandView {
    text_command(repo, "list repository refs"@, seq!["for-each-ref"@, "--format=%(refname)%09%(symref)"@, "refs/heads"@, "refs/remotes"@])
}

fn make_fetch_command(repo: &Vec<u8>, remote: &str) -> (c: GitCommand)
    ensures
        c@ == fetch_command(repo@, remote@),
{
    let args = vec!["fetch", "--prune", "--quiet", "--no-tags", remote];
    assert(args@.map_values(|a: &str| a@) =~= seq!["fetch"@, "--prune"@, "--quiet"@, "--no-tags"@, remote@]);
    make_text_command(repo, "fetch repository refs", args)
}

fn make_refs_command(repo: &Vec<u8>) -> (c: GitCommand)
    ensures
        c@ == refs_command(repo@),
{
    let args = vec!["for-each-ref", "--format=%(refname)%09%(symref)", "refs/heads", "refs/remotes"];
    assert(args@.map_values(|a: &str| a@) =~= seq!["for-each-ref"@, "--format=%(refname)%09%(symref)"@, "refs/heads"@, "refs/remotes"@]);
    make_text_command(repo, "list repository refs", args)
}

/// Where a listing of branch refs stands.
pub enum RefListingStage {
    /// Reading the remotes to pick the one to fetch.
    PrimaryRemote,
    /// Waiting for the fetch.
    Fetching { remote: String },
    /// Reading the remotes that classify remote-tracking refs.
    Remotes,
    /// Waiting for the refs.
    Listing { remotes: Vec<String> },
}

/// Model of a ref listing's stage.
pub enum RefListingStageView {
    PrimaryRemote,
    Fetching { remote: Seq<char> },
    Remotes,
    Listing { remotes: Seq<Seq<char>> },
}

/// A listing of branch refs in progress.
pub struct RefListing {
    repo: Vec<u8>,
    stage: RefListingStage,
}

/// Model of a ref listing.
pub struct RefListingView {
    pub repo: Seq<u8>,
    pub stage: RefListingStageView,
}

impl View for RefListing {
    type V = RefListingView;

    closed spec fn view(&self) -> RefListingView {
        RefListingView {
            repo: self.repo@,
            stage: match self.stage {
                RefListingStage::PrimaryRemote => RefListingStageView::PrimaryRemote,
                RefListingStage::Fetching { remote } => RefListingStageView::Fetching { remote: remote@ },
                RefListingStage::Remotes => RefListingStageView::Remotes,
                RefListingStage::Listing { remotes } => RefListingStageView::Listing { remotes: texts_view(remotes@) },
            },
        }
    }
}

/// How a ref listing proceeds on the outcome of its command: a fetch of the
/// primary remote comes first when asked for; then every local and
/// remote-tracking branch ref is listed by its full name, symbolic refs left out.
pub open spec fn ref_listing_next(m: RefListingView, reply: GitReplyView) -> StepView<RefListingView, Seq<BranchRefView>> {
    match reply {
        GitReplyView::Ran { outcome } => match m.stage {
            RefListingStageView::PrimaryRemote => match remotes_of(remotes_command(m.repo), outcome) {
                Err(e) => StepView::Done(Err(e)),
                Ok(remotes) => match primary_remote_of(remotes) {
                    None => StepView::Done(Err(GitErrorView::RemoteNotFound { repo: m.repo })),
                    Some(remote) => StepView::Ask(
                        RefListingView { stage: RefListingStageView::Fetching { remote }, ..m },
                        run_request(fetch_command(m.repo, remote)),
                    ),
                },
            },
            RefListingStageView::Fetching { remote } => match checked_output(fetch_command(m.repo, remote), outcome) {
                Err(e) => StepView::Done(Err(e)),
                Ok(_) => StepView::Ask(RefListingView { stage: RefListingStageView::Remotes, ..m }, run_request(remotes_command(m.repo))),
            },
            RefListingStageView::Remotes => match remotes_of(remotes_command(m.repo), outcome) {
                Err(e) => StepView::Done(Err(e)),
                Ok(remotes) => StepView::Ask(
                    RefListingView { stage: RefListingStageView::Listing { remotes }, ..m },
                    run_request(refs_command(m.repo)),
                ),
            },
            RefListingStageView::Listing { remotes } => match checked_output(refs_command(m.repo), outcome) {
                Err(e) => StepView::Done(Err(e)),
                Ok(stdout) => match raw_text(stdout, "list repository refs"@) {
                    Err(e) => StepView::Done(Err(e)),
                    Ok(t) => StepView::Done(branch_records_of(lines(t), remotes)),
                },
            },
        },
        _ => arbitrary(),
    }
}

impl RefListing {
    /// Begins listing the branch refs of `repo`.
    pub fn start_listing(repo: &Vec<u8>) -> (r: (RefListing, GitRequest))
        ensures
            r.0@ == (RefListingView { repo: repo@, stage: RefListingStageView::Remotes }),
            r.1@ == run_request(remotes_command(repo@)),
    {
        (RefListing { repo: repo.clone(), stage: RefListingStage::Remotes }, GitRequest::Run { command: make_remotes_command(repo) })
    }

    /// Begins fetching the primary remote of `repo`, then listing its branch refs.
    pub fn start_fetching(repo: &Vec<u8>) -> (r: (RefListing, GitRequest))
        ensures
            r.0@ == (RefListingView { repo: repo@, stage: RefListingStageView::PrimaryRemote }),
            r.1@ == run_request(remotes_command(repo@)),
    {
        (RefListing { repo: repo.clone(), stage: RefListingStage::PrimaryRemote }, GitRequest::Run { command: make_remotes_command(repo) })
    }

    /// Takes the reply to the pending request.
    pub fn step(self, reply: GitReply) -> (r: Step<RefListing, Vec<BranchRef>>)
        requires
            reply@ is Ran,
        ensures
            r@ == ref_listing_next(self@, reply@),
    {
        let outcome = match reply {
            GitReply::Ran { outcome } => outcome,
            _ => {
                return vstd::pervasive::unreached();
            },
        };
        let RefListing { repo, stage } = self;
        match stage {
            RefListingStage::PrimaryRemote => {
                let command = make_remotes_command(&repo);
                match read_remotes(&command, outcome) {
                    Err(e) => Step::Done(Err(e)),
                    Ok(remotes) => match select_primary_remote(remotes.as_slice()) {
                        None => Step::Done(Err(GitWorkspaceError::RemoteNotFound { repo })),
                        Some(remote) => {
                            let q = GitRequest::Run { command: make_fetch_command(&repo, remote.as_str()) };
                            Step::Ask(RefListing { repo, stage: RefListingStage::Fetching { remote } }, q)
                        },
                    },
                }
            },
            RefListingStage::Fetching { remote } => {
                let command = make_fetch_command(&repo, remote.as_str());
                match checked_stdout(&command, outcome) {
                    Err(e) => Step::Done(Err(e)),
                    Ok(_) => {
                        let q = GitRequest::Run { command: make_remotes_command(&repo) };
                        Step::Ask(RefListing { repo, stage: RefListingStage::Remotes }, q)
                    },
                }
            },
            RefListingStage::Remotes => {
                let command = make_remotes_command(&repo);
                match read_remotes(&command, outcome) {
                    Err(e) => Step::Done(Err(e)),
                    Ok(remotes) => {
                        let q = GitRequest::Run { command: make_refs_command(&repo) };
                        Step::Ask(RefListing { repo, stage: RefListingStage::Listing { remotes } }, q)
                    },
                }
            },
            RefListingStage::Listing { remotes } => {
                let command = make_refs_command(&repo);
                match checked_stdout(&command, outcome) {
                    Err(e) => Step::Done(Err(e)),
                    Ok(stdout) => match decode_raw(stdout.as_slice(), "list repository refs") {
                        Err(e) => Step::Done(Err(e)),
                        Ok(t) => match parse_branch_ref_records(t.as_str(), remotes.as_slice()) {
                            Err(e) => Step::Done(Err(e)),
                            Ok(refs) => {
                                proof {
                                    assert(refs.deep_view() =~= branch_ref_views(refs@));
                                }
                                Step::Done(Ok(refs))
                            },
                        },
                    },
                }
            },
        }
    }
}

/// A read of a remote's default branch in progress.
pub struct DefaultBranchRead {
    repo: Vec<u8>,
    remote: String,
}

/// Model of a default-branch read.
pub struct DefaultBranchReadView {
    pub repo: Seq<u8>,
    pub remote: Seq<char>,
}

impl View for DefaultBranchRead {
    type V = DefaultBranchReadView;

    closed spec fn view(&self) -> DefaultBranchReadView {
        DefaultBranchReadView { repo: self.repo@, remote: self.remote@ }
    }
}

impl DefaultBranchRead {
    /// Begins reading the default branch of `remote` (its `HEAD`) in `repo`.
    pub fn start(repo: &Vec<u8>, remote: &str) -> (r: (DefaultBranchRead, GitRequest))
        ensures
            r.0@ == (DefaultBranchReadView { repo: repo@, remote: remote@ }),
            r.1@ == run_request(default_branch_command(repo@, remote@)),
    {
        (DefaultBranchRead { repo: repo.clone(), remote: text(remote) }, GitRequest::Run { command: make_default_branch_command(repo, remote) })
    }

    /// Takes the outcome of `git symbolic-ref`.
    pub fn step(self, reply: GitReply) -> (r: Step<DefaultBranchRead, BranchRef>)
        requires
            reply@ is Ran,
        ensures
            r@ == StepView::<DefaultBranchReadView, BranchRefView>::Done(
                default_branch_of(self@.repo, self@.remote, default_branch_command(self@.repo, self@.remote), reply@->outcome),
            ),
    {
        let outcome = match reply {
            GitReply::Ran { outcome } => outcome,
            _ => {
                return vstd::pervasive::unreached();
            },
        };
        let command = make_default_branch_command(&self.repo, self.remote.as_str());
        Step::Done(read_default_branch(&self.repo, self.remote.as_str(), &command, outcome))
    }
}

} // verus!
