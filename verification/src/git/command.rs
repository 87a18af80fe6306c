//! The exchange between the Git operations and whoever runs Git and touches
//! the filesystem for them: the requests they make, the replies they take,
//! and how a finished Git command becomes output or an error.
use vstd::prelude::*;

use crate::git::types::{opt_text, texts_view, GitErrorView, GitWorkspaceError};
use crate::text::{
    chars_string, lossy_text, str_chars, trim, trim_chars, utf8_chars, utf8_lossy, utf8_str,
};
use vstd::utf8::{decode_utf8, valid_utf8};

verus! {

/// One argument of a Git command: text, or a path given as its raw bytes.
#[derive(Clone, Debug, PartialEq, Eq)]
pub enum GitArg {
    Text(String),
    Path(Vec<u8>),
}

/// Model of a Git argument.
pub enum GitArgView {
    Text(Seq<char>),
    Path(Seq<u8>),
}

impl View for GitArg {
    type V = GitArgView;

    open spec fn view(&self) -> GitArgView {
        match self {
            GitArg::Text(t) => GitArgView::Text(t@),
            GitArg::Path(p) => GitArgView::Path(p@),
        }
    }
}

/// Models of Git arguments.
pub open spec fn arg_views(s: Seq<GitArg>) -> Seq<GitArgView> {
    s.map_values(|a: GitArg| a@)
}

/// `git -C <repo> <args>`, named by the operation it performs; errors show `display_args`.
#[derive(Clone, Debug, PartialEq, Eq)]
pub struct GitCommand {
    pub repo: Vec<u8>,
    pub operation: String,
    pub args: Vec<GitArg>,
    pub display_args: Vec<String>,
}

/// Model of a Git command.
pub struct GitCommandView {
    pub repo: Seq<u8>,
    pub operation: Seq<char>,
    pub args: Seq<GitArgView>,
    pub display_args: Seq<Seq<char>>,
}

impl View for GitCommand {
    type V = GitCommandView;

    open spec fn view(&self) -> GitCommandView {
        GitCommandView {
            repo: self.repo@,
            operation: self.operation@,
            args: arg_views(self.args@),
            display_args: texts_view(self.display_args@),
        }
    }
}

/// What running a Git command gave.
#[derive(Clone, Debug, PartialEq, Eq)]
pub enum GitOutcome {
    /// Git ran; `code` is its exit code (`None` when a signal ended it).
    Exited { code: Option<i32>, stdout: Vec<u8>, stderr: Vec<u8> },
    /// Git could not be started; `message` is the I/O error's text.
    SpawnFailed { message: String },
}

/// Model of a Git outcome.
pub enum GitOutcomeView {
    Exited { code: Option<i32>, stdout: Seq<u8>, stderr: Seq<u8> },
    SpawnFailed { message: Seq<char> },
}

impl View for GitOutcome {
    type V = GitOutcomeView;

    open spec fn view(&self) -> GitOutcomeView {
        match self {
            GitOutcome::Exited { code, stdout, stderr } => GitOutcomeView::Exited {
                code: *code,
                stdout: stdout@,
                stderr: stderr@,
            },
            GitOutcome::SpawnFailed { message } => GitOutcomeView::SpawnFailed { message: message@ },
        }
    }
}

/// Work that a Git operation needs done outside the library.
#[derive(Clone, Debug, PartialEq, Eq)]
pub enum GitRequest {
    /// Canonicalize a path (`std::fs::canonicalize`).
    Canonicalize { path: Vec<u8> },
    /// Canonicalize a listed worktree's path, telling a path that does not
    /// exist apart from other failures.
    ResolveWorktreePath { path: Vec<u8> },
    /// Run a Git command.
    Run { command: GitCommand },
    /// Inspect a path without following a final symlink (`symlink_metadata`).
    InspectTarget { path: Vec<u8> },
    /// Whether something exists at a path (`Path::exists`).
    CheckExists { path: Vec<u8> },
    /// Whether a directory is at a path, not following a final symlink
    /// (`symlink_metadata`); nothing at the path is no directory.
    CheckDirectory { path: Vec<u8> },
    /// Create one directory (`std::fs::create_dir`).
    CreateDirectory { path: Vec<u8> },
    /// Remove a directory and its contents (`std::fs::remove_dir_all`).
    RemoveDirectoryTree { path: Vec<u8> },
    /// Claim a path by creating one directory there, failing when anything
    /// is already there (`std::fs::create_dir`).
    ClaimDirectory { path: Vec<u8> },
    /// Remove a directory only while it is empty (`std::fs::remove_dir`).
    RemoveEmptyDirectory { path: Vec<u8> },
    /// Read a regular file's bytes; anything else at the path is a failure.
    ReadFile { path: Vec<u8> },
    /// Start `git update-ref --stdin` in `repo`, send `start`, these
    /// instructions and `prepare`, and hold the prepared transaction (and
    /// the ref locks it took) open.
    PrepareRefTransaction { repo: Vec<u8>, instructions: Vec<String> },
    /// Send `commit` to the held transaction and wait for it to end.
    CommitRefTransaction,
    /// Send `abort` to the held transaction and wait for it to end.
    AbortRefTransaction,
}

/// What the outside work gave.
#[derive(Clone, Debug, PartialEq, Eq)]
pub enum GitReply {
    /// The canonical path.
    Canonical { path: Vec<u8> },
    /// Canonicalizing `path` failed with this I/O error text.
    CanonicalizeFailed { path: Vec<u8>, message: String },
    /// The Git command's outcome.
    Ran { outcome: GitOutcome },
    /// Nothing is at the inspected path.
    TargetMissing,
    /// Something is at the inspected path.
    TargetPresent,
    /// Inspecting the path failed with this I/O error text.
    TargetInspectionFailed { message: String },
    /// Whether something exists at the path.
    Exists { exists: bool },
    /// Whether a directory is at the path.
    IsDirectory { directory: bool },
    /// The directory was created or removed.
    DirectoryDone,
    /// Creating or removing the directory failed with this I/O error text.
    DirectoryFailed { message: String },
    /// Something was already at the path to claim.
    DirectoryExists,
    /// Nothing exists at the path to canonicalize; the I/O error's text.
    PathMissing { message: String },
    /// The file's bytes.
    FileRead { bytes: Vec<u8> },
    /// The file could not be read, or is no regular file; the error's text.
    FileFailed { message: String },
    /// Git prepared the transaction.
    TransactionPrepared,
    /// The held transaction was committed or aborted.
    TransactionDone,
    /// The transaction failed; Git's or the I/O error's text.
    TransactionFailed { message: String },
}

/// Model of a request.
pub enum GitRequestView {
    Canonicalize { path: Seq<u8> },
    ResolveWorktreePath { path: Seq<u8> },
    Run { command: GitCommandView },
    InspectTarget { path: Seq<u8> },
    CheckExists { path: Seq<u8> },
    CheckDirectory { path: Seq<u8> },
    CreateDirectory { path: Seq<u8> },
    RemoveDirectoryTree { path: Seq<u8> },
    ClaimDirectory { path: Seq<u8> },
    RemoveEmptyDirectory { path: Seq<u8> },
    ReadFile { path: Seq<u8> },
    PrepareRefTransaction { repo: Seq<u8>, instructions: Seq<Seq<char>> },
    CommitRefTransaction,
    AbortRefTransaction,
}

impl View for GitRequest {
    type V = GitRequestView;

    open spec fn view(&self) -> GitRequestView {
        match self {
            GitRequest::Canonicalize { path } => GitRequestView::Canonicalize { path: path@ },
            GitRequest::ResolveWorktreePath { path } => GitRequestView::ResolveWorktreePath { path: path@ },
            GitRequest::Run { command } => GitRequestView::Run { command: command@ },
            GitRequest::InspectTarget { path } => GitRequestView::InspectTarget { path: path@ },
            GitRequest::CheckExists { path } => GitRequestView::CheckExists { path: path@ },
            GitRequest::CheckDirectory { path } => GitRequestView::CheckDirectory { path: path@ },
            GitRequest::CreateDirectory { path } => GitRequestView::CreateDirectory { path: path@ },
            GitRequest::RemoveDirectoryTree { path } => GitRequestView::RemoveDirectoryTree {
                path: path@,
            },
            GitRequest::ClaimDirectory { path } => GitRequestView::ClaimDirectory { path: path@ },
            GitRequest::RemoveEmptyDirectory { path } => GitRequestView::RemoveEmptyDirectory { path: path@ },
            GitRequest::ReadFile { path } => GitRequestView::ReadFile { path: path@ },
            GitRequest::PrepareRefTransaction { repo, instructions } => GitRequestView::PrepareRefTransaction {
                repo: repo@,
                instructions: crate::git::types::texts_view(instructions@),
            },
            GitRequest::CommitRefTransaction => GitRequestView::CommitRefTransaction,
            GitRequest::AbortRefTransaction => GitRequestView::AbortRefTransaction,
        }
    }
}

/// Model of a reply.
pub enum GitReplyView {
    Canonical { path: Seq<u8> },
    CanonicalizeFailed { path: Seq<u8>, message: Seq<char> },
    Ran { outcome: GitOutcomeView },
    TargetMissing,
    TargetPresent,
    TargetInspectionFailed { message: Seq<char> },
    Exists { exists: bool },
    IsDirectory { directory: bool },
    DirectoryDone,
    DirectoryFailed { message: Seq<char> },
    DirectoryExists,
    PathMissing { message: Seq<char> },
    FileRead { bytes: Seq<u8> },
    FileFailed { message: Seq<char> },
    TransactionPrepared,
    TransactionDone,
    TransactionFailed { message: Seq<char> },
}

impl View for GitReply {
    type V = GitReplyView;

    open spec fn view(&self) -> GitReplyView {
        match self {
            GitReply::Canonical { path } => GitReplyView::Canonical { path: path@ },
            GitReply::CanonicalizeFailed { path, message } => GitReplyView::CanonicalizeFailed {
                path: path@,
                message: message@,
            },
            GitReply::Ran { outcome } => GitReplyView::Ran { outcome: outcome@ },
            GitReply::TargetMissing => GitReplyView::TargetMissing,
            GitReply::TargetPresent => GitReplyView::TargetPresent,
            GitReply::TargetInspectionFailed { message } => GitReplyView::TargetInspectionFailed {
                message: message@,
            },
            GitReply::Exists { exists } => GitReplyView::Exists { exists: *exists },
            GitReply::IsDirectory { directory } => GitReplyView::IsDirectory { directory: *directory },
            GitReply::DirectoryDone => GitReplyView::DirectoryDone,
            GitReply::DirectoryFailed { message } => GitReplyView::DirectoryFailed {
                message: message@,
            },
            GitReply::DirectoryExists => GitReplyView::DirectoryExists,
            GitReply::PathMissing { message } => GitReplyView::PathMissing { message: message@ },
            GitReply::FileRead { bytes } => GitReplyView::FileRead { bytes: bytes@ },
            GitReply::FileFailed { message } => GitReplyView::FileFailed { message: message@ },
            GitReply::TransactionPrepared => GitReplyView::TransactionPrepared,
            GitReply::TransactionDone => GitReplyView::TransactionDone,
            GitReply::TransactionFailed { message } => GitReplyView::TransactionFailed { message: message@ },
        }
    }
}

/// `reply` is of the kind that answers `request`.
pub open spec fn answers(request: GitRequestView, reply: GitReplyView) -> bool {
    match request {
        GitRequestView::Canonicalize { .. } => (reply is Canonical) || (reply is CanonicalizeFailed),
        GitRequestView::ResolveWorktreePath { .. } => (reply is Canonical) || (reply is CanonicalizeFailed) || (reply is PathMissing),
        GitRequestView::Run { .. } => reply is Ran,
        GitRequestView::InspectTarget { .. } => (reply is TargetMissing) || (reply is TargetPresent) || (reply is TargetInspectionFailed),
        GitRequestView::CheckExists { .. } => reply is Exists,
        GitRequestView::CheckDirectory { .. } => (reply is IsDirectory) || (reply is TargetInspectionFailed),
        GitRequestView::CreateDirectory { .. } | GitRequestView::RemoveDirectoryTree { .. }
        | GitRequestView::RemoveEmptyDirectory { .. } => (reply is DirectoryDone) || (reply is DirectoryFailed),
        GitRequestView::ClaimDirectory { .. } => (reply is DirectoryDone) || (reply is DirectoryExists) || (reply is DirectoryFailed),
        GitRequestView::ReadFile { .. } => (reply is FileRead) || (reply is FileFailed),
        GitRequestView::PrepareRefTransaction { .. } => (reply is TransactionPrepared) || (reply is TransactionFailed),
        GitRequestView::CommitRefTransaction | GitRequestView::AbortRefTransaction => (reply is TransactionDone) || (reply is TransactionFailed),
    }
}

/// Name for the text `format!("{:?}", s)` gives for a string.
pub uninterp spec fn debug_text(s: Seq<char>) -> Seq<char>;

/// `format!("{:?}", s)`: the quoted, escaped form of a string, left to the name `debug_text`.
#[verifier::external_body]
pub(crate) fn debug_string(s: &str) -> (r: String)
    ensures
        r@ == debug_text(s@),
{
    format!("{s:?}")
}

/// How an argument shows in an error: the text itself for text-only
/// commands; quoted (paths decoded lossily) when the command takes a path.
pub open spec fn display_arg(arg: GitArgView, quoted: bool) -> Seq<char> {
    match arg {
        GitArgView::Text(t) => if quoted {
            debug_text(t)
        } else {
            t
        },
        GitArgView::Path(p) => debug_text(lossy_text(p)),
    }
}

/// A command takes a path argument.
pub open spec fn has_path_arg(args: Seq<GitArgView>) -> bool {
    exists|i: int| 0 <= i < args.len() && args[i] is Path
}

/// How the arguments show in errors.
pub open spec fn display_args_of(args: Seq<GitArgView>) -> Seq<Seq<char>> {
    args.map_values(|a: GitArgView| display_arg(a, has_path_arg(args)))
}

/// The command `git -C repo args`, performing `operation`.
pub open spec fn command_of(repo: Seq<u8>, operation: Seq<char>, args: Seq<GitArgView>) -> GitCommandView {
    GitCommandView { repo, operation, args, display_args: display_args_of(args) }
}

/// Text of a literal.
pub fn text(s: &str) -> (r: String)
    ensures
        r@ == s@,
{
    let chars = str_chars(s);
    chars_string(chars.as_slice())
}

/// Builds a command and the way its arguments show in errors.
pub fn git_command(repo: &Vec<u8>, operation: &str, args: Vec<GitArg>) -> (c: GitCommand)
    ensures
        c@ == command_of(repo@, operation@, arg_views(args@)),
{
    let ghost views = arg_views(args@);
    let mut quoted = false;
    let mut i: usize = 0;
    while i < args.len()
        invariant
            0 <= i <= args@.len(),
            views == arg_views(args@),
            quoted == exists|j: int| 0 <= j < i && views[j] is Path,
        decreases args@.len() - i,
    {
        match &args[i] {
            GitArg::Path(_) => {
                quoted = true;
            },
            GitArg::Text(_) => {},
        }
        proof {
            if views[i as int] is Path {
                assert(0 <= i < i + 1 && views[i as int] is Path);
            }
        }
        i = i + 1;
    }
    let mut display: Vec<String> = Vec::new();
    let mut k: usize = 0;
    while k < args.len()
        invariant
            0 <= k <= args@.len(),
            views == arg_views(args@),
            quoted == has_path_arg(views),
            texts_view(display@) == views.take(k as int).map_values(|a: GitArgView| display_arg(a, quoted)),
        decreases args@.len() - k,
    {
        let shown = match &args[k] {
            GitArg::Text(t) => if quoted {
                debug_string(t.as_str())
            } else {
                t.clone()
            },
            GitArg::Path(p) => {
                let lossy = utf8_lossy(p.as_slice());
                debug_string(lossy.as_str())
            },
        };
        let ghost before = display@;
        display.push(shown);
        k = k + 1;
        proof {
            assert(texts_view(display@) =~= texts_view(before).push(shown@));
            assert(views.take(k as int) =~= views.take(k - 1).push(views[k - 1]));
        }
    }
    proof {
        assert(views.take(args@.len() as int) =~= views);
    }
    GitCommand { repo: repo.clone(), operation: text(operation), args, display_args: display }
}

/// Text arguments from literals.
pub fn text_args(parts: Vec<&str>) -> (r: Vec<GitArg>)
    ensures
        arg_views(r@) == parts@.map_values(|p: &str| GitArgView::Text(p@)),
{
    let mut r: Vec<GitArg> = Vec::new();
    let mut i: usize = 0;
    while i < parts.len()
        invariant
            0 <= i <= parts@.len(),
            arg_views(r@) == parts@.take(i as int).map_values(|p: &str| GitArgView::Text(p@)),
        decreases parts@.len() - i,
    {
        let ghost before = r@;
        r.push(GitArg::Text(text(parts[i])));
        i = i + 1;
        proof {
            assert(arg_views(r@) =~= arg_views(before).push(GitArgView::Text(parts@[i - 1]@)));
            assert(parts@.take(i as int) =~= parts@.take(i - 1).push(parts@[i - 1]));
        }
    }
    proof {
        assert(parts@.take(parts@.len() as int) =~= parts@);
    }
    r
}

/// The error for a Git command that could not be started.
pub open spec fn command_io_error(command: GitCommandView, message: Seq<char>) -> GitErrorView {
    GitErrorView::CommandIo { operation: command.operation, args: command.display_args, source: message }
}

/// The error for a Git command that exited unsuccessfully.
pub open spec fn command_failed_error(command: GitCommandView, stderr: Seq<u8>) -> GitErrorView {
    GitErrorView::CommandFailed {
        operation: command.operation,
        args: command.display_args,
        stderr: trim(lossy_text(stderr)),
    }
}

/// A command that must succeed: its standard output, or the error.
pub open spec fn checked_output(command: GitCommandView, outcome: GitOutcomeView) -> Result<Seq<u8>, GitErrorView> {
    match outcome {
        GitOutcomeView::SpawnFailed { message } => Err(command_io_error(command, message)),
        GitOutcomeView::Exited { code, stdout, stderr } => if code == Some(0i32) {
            Ok(stdout)
        } else {
            Err(command_failed_error(command, stderr))
        },
    }
}

/// The I/O error of a command that could not be started.
pub fn command_io(command: &GitCommand, message: String) -> (e: GitWorkspaceError)
    ensures
        e@ == command_io_error(command@, message@),
{
    GitWorkspaceError::CommandIo {
        operation: command.operation.clone(),
        args: clone_texts(&command.display_args),
        source: message,
    }
}

/// The failure of a command that exited unsuccessfully.
pub fn command_failed(command: &GitCommand, stderr: &[u8]) -> (e: GitWorkspaceError)
    ensures
        e@ == command_failed_error(command@, stderr@),
{
    let lossy = utf8_lossy(stderr);
    let chars = str_chars(lossy.as_str());
    let trimmed = trim_chars(chars.as_slice());
    GitWorkspaceError::CommandFailed {
        operation: command.operation.clone(),
        args: clone_texts(&command.display_args),
        stderr: chars_string(trimmed.as_slice()),
    }
}

/// A copy of a list of strings.
pub fn clone_texts(s: &Vec<String>) -> (r: Vec<String>)
    ensures
        texts_view(r@) == texts_view(s@),
{
    let mut r: Vec<String> = Vec::new();
    let mut i: usize = 0;
    while i < s.len()
        invariant
            0 <= i <= s@.len(),
            texts_view(r@) == texts_view(s@).take(i as int),
        decreases s@.len() - i,
    {
        let ghost before = r@;
        r.push(s[i].clone());
        i = i + 1;
        proof {
            assert(texts_view(r@) =~= texts_view(before).push(s@[i - 1]@));
            assert(texts_view(s@).take(i as int) =~= texts_view(s@).take(i - 1).push(s@[i - 1]@));
        }
    }
    proof {
        assert(texts_view(s@).take(s@.len() as int) =~= texts_view(s@));
    }
    r
}

/// The standard output of a command that must succeed.
pub fn checked_stdout(command: &GitCommand, outcome: GitOutcome) -> (r: Result<Vec<u8>, GitWorkspaceError>)
    ensures
        match (r, checked_output(command@, outcome@)) {
            (Ok(out), Ok(v)) => out@ == v,
            (Err(e), Err(v)) => e@ == v,
            _ => false,
        },
{
    match outcome {
        GitOutcome::SpawnFailed { message } => Err(command_io(command, message)),
        GitOutcome::Exited { code, stdout, stderr } => {
            match code {
                Some(0i32) => Ok(stdout),
                _ => Err(command_failed(command, stderr.as_slice())),
            }
        },
    }
}

/// Git output decoded as trimmed text, as the operation reads it.
pub open spec fn decoded_text(stdout: Seq<u8>, operation: Seq<char>) -> Result<Seq<char>, GitErrorView> {
    match utf8_chars(stdout) {
        Some(t) => Ok(trim(t)),
        None => Err(GitErrorView::InvalidUtf8 { operation }),
    }
}

/// Decodes Git output as trimmed text.
pub fn decode_stdout(stdout: &[u8], operation: &str) -> (r: Result<String, GitWorkspaceError>)
    ensures
        match (r, decoded_text(stdout@, operation@)) {
            (Ok(t), Ok(v)) => t@ == v,
            (Err(e), Err(v)) => e@ == v,
            _ => false,
        },
{
    match utf8_str(stdout) {
        Some(s) => {
            let chars = str_chars(s);
            let trimmed = trim_chars(chars.as_slice());
            Ok(chars_string(trimmed.as_slice()))
        },
        None => Err(GitWorkspaceError::InvalidUtf8 { operation: text(operation) }),
    }
}

/// Git output decoded as text, untrimmed.
pub open spec fn raw_text(stdout: Seq<u8>, operation: Seq<char>) -> Result<Seq<char>, GitErrorView> {
    match utf8_chars(stdout) {
        Some(t) => Ok(t),
        None => Err(GitErrorView::InvalidUtf8 { operation }),
    }
}

/// Decodes Git output as text without trimming it.
pub fn decode_raw(stdout: &[u8], operation: &str) -> (r: Result<String, GitWorkspaceError>)
    ensures
        match (r, raw_text(stdout@, operation@)) {
            (Ok(t), Ok(v)) => t@ == v,
            (Err(e), Err(v)) => e@ == v,
            _ => false,
        },
{
    match utf8_str(stdout) {
        Some(s) => {
            let chars = str_chars(s);
            Ok(chars_string(chars.as_slice()))
        },
        None => Err(GitWorkspaceError::InvalidUtf8 { operation: text(operation) }),
    }
}

/// A path Git printed: the bytes before one final newline, kept exactly
/// (a trailing carriage return included).
pub open spec fn git_path_of(stdout: Seq<u8>) -> Seq<u8> {
    if stdout.len() > 0 && stdout.last() == 10u8 {
        stdout.drop_last()
    } else {
        stdout
    }
}

/// Reads a path from Git output without decoding it: on Unix any byte
/// sequence is a path, so this never fails there.
pub fn decode_git_path_output(stdout: &[u8], operation: &str) -> (r: Result<Vec<u8>, GitWorkspaceError>)
    ensures
        r matches Ok(p) && p@ == git_path_of(stdout@),
{
    let n = stdout.len();
    let end = if n > 0 && stdout[n - 1] == 10u8 {
        n - 1
    } else {
        n
    };
    let mut path: Vec<u8> = Vec::new();
    let mut i: usize = 0;
    while i < end
        invariant
            0 <= i <= end <= n == stdout@.len(),
            path@ == stdout@.subrange(0, i as int),
        decreases end - i,
    {
        path.push(stdout[i]);
        i = i + 1;
        assert(path@ =~= stdout@.subrange(0, i as int));
    }
    proof {
        if n > 0 && stdout@.last() == 10u8 {
            assert(stdout@.drop_last() =~= path@);
        } else {
            assert(stdout@ =~= path@);
        }
    }
    Ok(path)
}

/// What a Git operation does next: ask for outside work, carrying itself
/// to take the reply, or finish with its result.
pub enum Step<M, T> {
    Ask(M, GitRequest),
    Done(Result<T, GitWorkspaceError>),
}

/// Model of a step.
pub enum StepView<MV, TV> {
    Ask(MV, GitRequestView),
    Done(Result<TV, GitErrorView>),
}

impl<M: View, T: DeepView> View for Step<M, T> {
    type V = StepView<M::V, T::V>;

    open spec fn view(&self) -> StepView<M::V, T::V> {
        match self {
            Step::Ask(m, q) => StepView::Ask(m@, q@),
            Step::Done(Ok(t)) => StepView::Done(Ok(t.deep_view())),
            Step::Done(Err(e)) => StepView::Done(Err(e@)),
        }
    }
}

/// A text argument.
pub fn text_arg(s: &str) -> (a: GitArg)
    ensures
        a@ == GitArgView::Text(s@),
{
    GitArg::Text(text(s))
}

/// A path argument.
pub fn path_arg(p: &Vec<u8>) -> (a: GitArg)
    ensures
        a@ == GitArgView::Path(p@),
{
    GitArg::Path(p.clone())
}

/// The request to run `command`.
pub open spec fn run_request(command: GitCommandView) -> GitRequestView {
    GitRequestView::Run { command }
}

} // verus!
